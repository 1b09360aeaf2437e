//! Hosts-file editing: the marker-delimited block that maps the local
//! subdomains to the loopback address, and the pure transforms that add
//! and remove it.  Reading and writing the file itself is the caller's
//! part; these functions turn old content into new content.

use vstd::prelude::*;
use vstd::string::StrSliceExecFns;
use vstd::string::StringExecFns;
use crate::strings::{spec_find, spec_ends_with, find_sub, contains_sub, str_ends_with,
    lemma_spec_find_in_bounds};

verus! {

/// The whole block: begin marker, one loopback line per subdomain, end
/// marker.
pub open spec fn spec_hosts_block() -> Seq<char> {
    "# BEGIN rai-connect"@ + "\n"@ + "127.0.0.1 osu.localhost"@ + "\n"@ + "127.0.0.1 c.localhost"@
        + "\n"@ + "127.0.0.1 a.localhost"@ + "\n"@ + "127.0.0.1 b.localhost"@ + "\n"@
        + "127.0.0.1 i.localhost"@ + "\n"@ + "# END rai-connect"@
}

/// Builds the hosts-file block for the local subdomains.
pub fn generate_hosts_block() -> (r: String)
    ensures
        r@ == spec_hosts_block(),
{
    let mut block = String::from_str("# BEGIN rai-connect");
    block.append("\n");
    block.append("127.0.0.1 osu.localhost");
    block.append("\n");
    block.append("127.0.0.1 c.localhost");
    block.append("\n");
    block.append("127.0.0.1 a.localhost");
    block.append("\n");
    block.append("127.0.0.1 b.localhost");
    block.append("\n");
    block.append("127.0.0.1 i.localhost");
    block.append("\n");
    block.append("# END rai-connect");
    block
}

/// Whether hosts-file content already holds the block, recognized by its
/// begin marker.
pub fn are_hosts_entries_present(content: &str) -> (r: bool)
    ensures
        r == (spec_find(content@, "# BEGIN rai-connect"@) >= 0),
{
    proof {
        reveal_strlit("# BEGIN rai-connect");
    }
    contains_sub(content, "# BEGIN rai-connect")
}

/// Content with the block appended: unchanged (and `false`) when the
/// marker is already present; otherwise the block and a final newline
/// are appended, after a newline when the content does not end in one.
pub fn add_hosts_entries(content: &str) -> (r: (String, bool))
    ensures
        spec_find(content@, "# BEGIN rai-connect"@) >= 0 ==> (!r.1 && r.0@ == content@),
        spec_find(content@, "# BEGIN rai-connect"@) < 0 ==> (r.1 && r.0@ == content@ + (
        if spec_ends_with(content@, "\n"@) {
            Seq::<char>::empty()
        } else {
            "\n"@
        }) + spec_hosts_block() + "\n"@),
{
    if are_hosts_entries_present(content) {
        return (content.to_owned(), false);
    }

    let mut out = content.to_owned();
    if !str_ends_with(content, "\n") {
        out.append("\n");
    }
    let block = generate_hosts_block();
    out.append(block.as_str());
    out.append("\n");
    proof {
        if spec_ends_with(content@, "\n"@) {
            assert(out@ =~= content@ + Seq::<char>::empty() + spec_hosts_block() + "\n"@);
        } else {
            assert(out@ =~= content@ + "\n"@ + spec_hosts_block() + "\n"@);
        }
    }
    (out, true)
}

/// Start of the line containing position `idx`: one past the last
/// newline before it, or the start of the string.
pub open spec fn spec_line_start(s: Seq<char>, idx: int) -> int
    decreases idx,
{
    if idx <= 0 {
        0
    } else if s[idx - 1] == '\n' {
        idx
    } else {
        spec_line_start(s, idx - 1)
    }
}

/// End of the line containing position `idx`: one past the next newline
/// at or after it, or the end of the string.
pub open spec fn spec_line_end(s: Seq<char>, idx: int) -> int
    decreases s.len() - idx,
{
    if idx >= s.len() {
        s.len() as int
    } else if s[idx] == '\n' {
        idx + 1
    } else {
        spec_line_end(s, idx + 1)
    }
}

/// Start of the line containing position `idx`.
fn line_start_at(s: &str, idx: usize) -> (r: usize)
    requires
        idx <= s@.len(),
    ensures
        r == spec_line_start(s@, idx as int),
        r <= idx,
{
    let mut j = idx;
    while j > 0 && s.get_char(j - 1) != '\n'
        invariant
            j <= idx <= s@.len(),
            spec_line_start(s@, idx as int) == spec_line_start(s@, j as int),
        decreases j,
    {
        j -= 1;
    }
    j
}

/// End of the line containing position `idx`.
fn line_end_at(s: &str, idx: usize, n: usize) -> (r: usize)
    requires
        idx <= n,
        n == s@.len(),
    ensures
        r == spec_line_end(s@, idx as int),
        idx <= r <= n,
{
    let mut j = idx;
    while j < n && s.get_char(j) != '\n'
        invariant
            idx <= j <= n,
            n == s@.len(),
            spec_line_end(s@, idx as int) == spec_line_end(s@, j as int),
        decreases n - j,
    {
        j += 1;
    }
    if j < n {
        j + 1
    } else {
        j
    }
}

/// Number of newline characters at the head of the string.
pub open spec fn spec_leading_newlines(s: Seq<char>) -> nat
    decreases s.len(),
{
    if s.len() == 0 || s[0] != '\n' {
        0
    } else {
        1 + spec_leading_newlines(s.skip(1))
    }
}

/// Three consecutive positions somewhere in the string all hold a
/// newline.
pub open spec fn spec_has_newline_run(s: Seq<char>) -> bool {
    exists|i: int|
        0 <= i && i + 3 <= s.len() && #[trigger] s[i] == '\n' && s[i + 1] == '\n' && s[i + 2]
            == '\n'
}

/// The string with every run of three or more newlines shortened to
/// exactly two: of a longer run only its last two newlines remain.
pub open spec fn spec_collapse_newlines(s: Seq<char>) -> Seq<char>
    decreases s.len(),
{
    if s.len() == 0 {
        s
    } else if s.len() >= 3 && s[0] == '\n' && s[1] == '\n' && s[2] == '\n' {
        spec_collapse_newlines(s.skip(1))
    } else {
        seq![s[0]] + spec_collapse_newlines(s.skip(1))
    }
}

/// Collapsing is complete: the result holds no run of three newlines,
/// and starts with no more newlines than the input did, never more than
/// two.
pub proof fn lemma_collapse_newlines_complete(s: Seq<char>)
    ensures
        !spec_has_newline_run(spec_collapse_newlines(s)),
        spec_leading_newlines(spec_collapse_newlines(s)) <= 2,
        spec_leading_newlines(spec_collapse_newlines(s)) <= spec_leading_newlines(s),
    decreases s.len(),
{
    if s.len() == 0 {
    } else if s.len() >= 3 && s[0] == '\n' && s[1] == '\n' && s[2] == '\n' {
        lemma_collapse_newlines_complete(s.skip(1));
        assert(spec_leading_newlines(s) == 1 + spec_leading_newlines(s.skip(1)));
    } else {
        let t = s.skip(1);
        lemma_collapse_newlines_complete(t);
        let c = spec_collapse_newlines(t);
        let r = seq![s[0]] + c;
        assert(r.skip(1) =~= c);
        if s[0] == '\n' {
            // The head of the tail holds at most one newline, else the
            // input would have had a run at its head.
            if t.len() > 0 && t[0] == '\n' {
                assert(t[0] == s[1]);
                assert(t.skip(1) =~= s.skip(2));
                if s.len() >= 3 {
                    assert(s[2] != '\n');
                    assert(s.skip(2)[0] == s[2]);
                    assert(spec_leading_newlines(t.skip(1)) == 0);
                } else {
                    assert(t.skip(1).len() == 0);
                    assert(spec_leading_newlines(t.skip(1)) == 0);
                }
                assert(spec_leading_newlines(t) == 1 + spec_leading_newlines(t.skip(1)));
                assert(spec_leading_newlines(t) == 1);
            }
            assert(spec_leading_newlines(t) <= 1);
            assert(spec_leading_newlines(r) == 1 + spec_leading_newlines(c));
            assert(spec_leading_newlines(s) == 1 + spec_leading_newlines(t));
        } else {
            assert(spec_leading_newlines(r) == 0);
        }
        if spec_has_newline_run(r) {
            let i = choose|i: int|
                0 <= i && i + 3 <= r.len() && #[trigger] r[i] == '\n' && r[i + 1] == '\n' && r[i
                    + 2] == '\n';
            if i == 0 {
                assert(s[0] == '\n');
                assert(c[0] == '\n' && c[1] == '\n');
                assert(c.skip(1)[0] == c[1]);
                assert(spec_leading_newlines(c) == 1 + spec_leading_newlines(c.skip(1)));
                assert(spec_leading_newlines(c.skip(1)) >= 1);
                assert(false);
            } else {
                assert(c[i - 1] == '\n' && c[i] == '\n' && c[i + 1] == '\n');
                assert(spec_has_newline_run(c));
                assert(false);
            }
        }
    }
}

/// Shortens every run of three or more newlines to exactly two; the
/// result holds no run of three newlines.
pub fn collapse_newline_runs(s: &str) -> (r: String)
    ensures
        r@ == spec_collapse_newlines(s@),
        !spec_has_newline_run(r@),
{
    let n = s.unicode_len();
    let mut out = String::new();
    let mut i: usize = 0;
    proof {
        assert(s@.skip(0) =~= s@);
        assert(Seq::<char>::empty() + spec_collapse_newlines(s@) =~= spec_collapse_newlines(s@));
    }
    while i < n
        invariant
            i <= n,
            n == s@.len(),
            spec_collapse_newlines(s@) == out@ + spec_collapse_newlines(s@.skip(i as int)),
        decreases n - i,
    {
        let ghost pre = s@.skip(i as int);
        proof {
            assert(pre[0] == s@[i as int]);
            assert(pre.skip(1) =~= s@.skip(i as int + 1));
        }
        let c = s.get_char(i);
        if c == '\n' && n - i > 2 && s.get_char(i + 1) == '\n' && s.get_char(i + 2) == '\n' {
            proof {
                assert(pre[1] == s@[i as int + 1]);
                assert(pre[2] == s@[i as int + 2]);
            }
        } else {
            proof {
                if pre.len() >= 3 {
                    assert(pre[1] == s@[i as int + 1]);
                    assert(pre[2] == s@[i as int + 2]);
                }
                assert(spec_collapse_newlines(pre) == seq![s@[i as int]]
                    + spec_collapse_newlines(pre.skip(1)));
            }
            out.append(s.substring_char(i, i + 1));
            proof {
                assert(s@.subrange(i as int, i as int + 1) =~= seq![s@[i as int]]);
            }
        }
        i += 1;
    }
    proof {
        assert(s@.skip(n as int) =~= Seq::<char>::empty());
        assert(out@ + Seq::<char>::empty() =~= out@);
        lemma_collapse_newlines_complete(s@);
    }
    out
}

/// Content with the block removed: unchanged (and `false`) when no begin
/// marker is present; with both markers present, the lines from the one
/// holding the begin marker through the one holding the end marker are
/// cut out and every run of three or more newlines collapses to two; a
/// begin marker without an end marker is an error.
pub fn remove_hosts_entries(content: &str) -> (r: Result<(String, bool), String>)
    ensures
        spec_find(content@, "# BEGIN rai-connect"@) < 0 ==> (r matches Ok(p) && !p.1 && p.0@
            == content@),
        (spec_find(content@, "# BEGIN rai-connect"@) >= 0 && spec_find(
            content@,
            "# END rai-connect"@,
        ) < 0) ==> (r matches Err(e) && e@ == "Failed to find hosts block boundaries"@),
        (spec_find(content@, "# BEGIN rai-connect"@) >= 0 && spec_find(
            content@,
            "# END rai-connect"@,
        ) >= 0) ==> (r matches Ok(p) && p.1 && p.0@ == spec_collapse_newlines(
            content@.take(spec_line_start(content@, spec_find(content@, "# BEGIN rai-connect"@)))
                + content@.skip(
                spec_line_end(content@, spec_find(content@, "# END rai-connect"@)),
            ),
        ) && !spec_has_newline_run(p.0@)),
{
    let n = content.unicode_len();
    proof {
        reveal_strlit("# BEGIN rai-connect");
        reveal_strlit("# END rai-connect");
        lemma_spec_find_in_bounds(content@, "# BEGIN rai-connect"@);
        lemma_spec_find_in_bounds(content@, "# END rai-connect"@);
    }
    match find_sub(content, "# BEGIN rai-connect") {
        None => Ok((content.to_owned(), false)),
        Some(begin_idx) => match find_sub(content, "# END rai-connect") {
            None => Err(String::from_str("Failed to find hosts block boundaries")),
            Some(end_idx) => {
                let cut_from = line_start_at(content, begin_idx);
                let cut_to = line_end_at(content, end_idx, n);
                let mut kept = content.substring_char(0, cut_from).to_owned();
                kept.append(content.substring_char(cut_to, n));
                proof {
                    assert(content@.subrange(0, cut_from as int) =~= content@.take(
                        cut_from as int,
                    ));
                    assert(content@.subrange(cut_to as int, n as int) =~= content@.skip(
                        cut_to as int,
                    ));
                }
                let collapsed = collapse_newline_runs(kept.as_str());
                Ok((collapsed, true))
            },
        },
    }
}

} // verus!
