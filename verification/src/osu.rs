//! Locating the game installation and reading process state, as pure
//! decisions: expansion of the environment templates, the first valid
//! candidate, and the configured-path override.  Probing the file
//! system and running the process tool are the caller's part.

use vstd::prelude::*;
use vstd::string::StringExecFns;
use crate::config::AppConfig;
use crate::strings::{spec_replace, spec_find, replace_sub, contains_sub};

verus! {

/// The view of an optional string.
pub open spec fn spec_opt_view(o: Option<String>) -> Option<Seq<char>> {
    match o {
        Some(s) => Some(s@),
        None => None,
    }
}

/// One environment variable expanded: every occurrence of `var` is
/// replaced when the variable has a value.
pub open spec fn spec_expand_one(s: Seq<char>, var: Seq<char>, value: Option<Seq<char>>) -> Seq<
    char,
> {
    match value {
        Some(v) => spec_replace(s, var, v),
        None => s,
    }
}

/// The path template with `%LOCALAPPDATA%`, `%APPDATA%` and
/// `%USERPROFILE%` expanded, in that order.
pub open spec fn spec_expand_env_vars(
    path: Seq<char>,
    local_app_data: Option<Seq<char>>,
    app_data: Option<Seq<char>>,
    user_profile: Option<Seq<char>>,
) -> Seq<char> {
    spec_expand_one(
        spec_expand_one(
            spec_expand_one(path, "%LOCALAPPDATA%"@, local_app_data),
            "%APPDATA%"@,
            app_data,
        ),
        "%USERPROFILE%"@,
        user_profile,
    )
}

/// Expands the three environment placeholders in a path template.
pub fn expand_env_vars(
    path: &str,
    local_app_data: &Option<String>,
    app_data: &Option<String>,
    user_profile: &Option<String>,
) -> (r: String)
    ensures
        r@ == spec_expand_env_vars(
            path@,
            spec_opt_view(*local_app_data),
            spec_opt_view(*app_data),
            spec_opt_view(*user_profile),
        ),
{
    proof {
        reveal_strlit("%LOCALAPPDATA%");
        reveal_strlit("%APPDATA%");
        reveal_strlit("%USERPROFILE%");
    }
    let mut result = path.to_owned();
    match local_app_data {
        Some(v) => {
            result = replace_sub(result.as_str(), "%LOCALAPPDATA%", v.as_str());
        },
        None => {},
    }
    match app_data {
        Some(v) => {
            result = replace_sub(result.as_str(), "%APPDATA%", v.as_str());
        },
        None => {},
    }
    match user_profile {
        Some(v) => {
            result = replace_sub(result.as_str(), "%USERPROFILE%", v.as_str());
        },
        None => {},
    }
    result
}

/// The places the game is commonly installed, with the environment
/// placeholders expanded.
pub fn osu_common_paths(
    local_app_data: &Option<String>,
    app_data: &Option<String>,
    user_profile: &Option<String>,
) -> (r: Vec<String>)
    ensures
        r@.len() == 7,
        forall|i: int|
            0 <= i < 7 ==> (#[trigger] r@[i])@ == spec_expand_env_vars(
                spec_osu_path_template(i),
                spec_opt_view(*local_app_data),
                spec_opt_view(*app_data),
                spec_opt_view(*user_profile),
            ),
{
    let mut r: Vec<String> = Vec::new();
    r.push(expand_env_vars("%LOCALAPPDATA%\\osu!", local_app_data, app_data, user_profile));
    r.push(expand_env_vars("%APPDATA%\\osu!", local_app_data, app_data, user_profile));
    r.push(
        expand_env_vars(
            "%USERPROFILE%\\AppData\\Local\\osu!",
            local_app_data,
            app_data,
            user_profile,
        ),
    );
    r.push(expand_env_vars("C:\\osu!", local_app_data, app_data, user_profile));
    r.push(expand_env_vars("C:\\Games\\osu!", local_app_data, app_data, user_profile));
    r.push(expand_env_vars("D:\\osu!", local_app_data, app_data, user_profile));
    r.push(expand_env_vars("D:\\Games\\osu!", local_app_data, app_data, user_profile));
    r
}

/// The path template at each position of the candidate list.
pub open spec fn spec_osu_path_template(i: int) -> Seq<char> {
    if i == 0 {
        "%LOCALAPPDATA%\\osu!"@
    } else if i == 1 {
        "%APPDATA%\\osu!"@
    } else if i == 2 {
        "%USERPROFILE%\\AppData\\Local\\osu!"@
    } else if i == 3 {
        "C:\\osu!"@
    } else if i == 4 {
        "C:\\Games\\osu!"@
    } else if i == 5 {
        "D:\\osu!"@
    } else {
        "D:\\Games\\osu!"@
    }
}

/// Whether a directory holds a valid game installation: its game
/// executable exists there and is a regular file.  The two file-system
/// probes are the caller's part.
pub fn is_valid_osu_installation(exe_exists: bool, exe_is_file: bool) -> (r: bool)
    ensures
        r == (exe_exists && exe_is_file),
{
    exe_exists && exe_is_file
}

/// Index of the first valid candidate, or `-1` when none is.
pub open spec fn spec_first_valid(valid: Seq<bool>) -> int
    decreases valid.len(),
{
    if valid.len() == 0 {
        -1
    } else if valid[0] {
        0
    } else {
        let r = spec_first_valid(valid.skip(1));
        if r < 0 {
            -1
        } else {
            r + 1
        }
    }
}

/// The first candidate path whose installation check passed, in the
/// given order, or `None` when none did.
pub fn detect_osu_path(candidates: &Vec<String>, installation_valid: &Vec<bool>) -> (r: Option<
    String,
>)
    requires
        candidates@.len() == installation_valid@.len(),
    ensures
        ({
            let i = spec_first_valid(installation_valid@);
            if i < 0 {
                r is None
            } else {
                r matches Some(p) && p@ == candidates@[i]@
            }
        }),
{
    let n = candidates.len();
    let mut i: usize = 0;
    proof {
        assert(installation_valid@.skip(0) =~= installation_valid@);
    }
    while i < n
        invariant
            i <= n,
            n == candidates@.len(),
            n == installation_valid@.len(),
            spec_first_valid(installation_valid@) == ({
                let r = spec_first_valid(installation_valid@.skip(i as int));
                if r < 0 {
                    -1int
                } else {
                    r + i
                }
            }),
        decreases n - i,
    {
        let ghost pre = installation_valid@.skip(i as int);
        if installation_valid[i] {
            proof {
                assert(pre[0] == installation_valid@[i as int]);
            }
            return Some(candidates[i].clone());
        }
        proof {
            assert(pre[0] == installation_valid@[i as int]);
            assert(pre.skip(1) =~= installation_valid@.skip(i as int + 1));
        }
        i += 1;
    }
    proof {
        assert(installation_valid@.skip(n as int) =~= Seq::<bool>::empty());
    }
    None
}

/// The installation to use: the configured path when it points at a
/// valid installation, else whatever detection found.
pub fn get_osu_path(config: &AppConfig, configured_valid: bool, detected: Option<String>) -> (r:
    Option<String>)
    ensures
        configured_valid ==> (config.osu_path matches Some(p) ==> (r matches Some(q) && q@
            == p@)),
        (config.osu_path is None || !configured_valid) ==> r == detected,
{
    if configured_valid {
        match &config.osu_path {
            Some(p) => {
                return Some(p.clone());
            },
            None => {},
        }
    }
    detected
}

/// The single command-line token that points the game at a development
/// server; the game parses this one-argument form itself.
pub fn devserver_argument(host: &str) -> (r: String)
    ensures
        r@ == "-devserver "@ + host@,
{
    let mut r = String::from_str("-devserver ");
    r.append(host);
    r
}

/// Whether the game process shows up in the process listing: `None`
/// stands for a platform without the tool (or a failed run) and counts
/// as not running.
pub fn is_osu_running(tasklist_stdout: &Option<String>) -> (r: bool)
    ensures
        tasklist_stdout matches Some(out) ==> r == (spec_find(out@, "osu!.exe"@) >= 0),
        tasklist_stdout is None ==> !r,
{
    proof {
        reveal_strlit("osu!.exe");
    }
    match tasklist_stdout {
        Some(out) => contains_sub(out.as_str(), "osu!.exe"),
        None => false,
    }
}

} // verus!
