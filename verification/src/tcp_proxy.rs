//! The TCP relay's server-to-client step: reassemble the packet stream
//! across fragmented reads, rewrite `UserPrivileges` frames, and bound
//! the residual buffer.
//!
//! The relay itself moves bytes between two sockets; each chunk read
//! from the server side is handed to [`relay_server_chunk`], which
//! decides what to write to the client and carries the residual of the
//! unfinished trailing frame from one read to the next.

use vstd::prelude::*;
use vstd::slice::slice_to_vec;
use crate::packet::{Packet, Frame, ServerPacketId, spec_parse_stream, spec_inject,
    spec_concat_frames, views_of, inject_supporter_privileges, lemma_concat_frames_push,
    lemma_parse_stream_residual_le};

verus! {

/// Upper bound on the residual plus one chunk: 1 MiB.  The cap bounds
/// memory growth against adversarial fragmentation.
pub const MAX_BUFFER_SIZE: usize = 1048576;

/// Every frame of the sequence after supporter injection.
pub open spec fn spec_injected_frames(fs: Seq<Frame>) -> Seq<Frame> {
    fs.map_values(|f: Frame| spec_inject(f))
}

/// What the relay does with one chunk read from the server.
pub enum RelayAction {
    /// Write these bytes to the client.
    Forward(Vec<u8>),
    /// Write nothing yet; more bytes are needed to finish a frame.
    Wait,
    /// The buffer cap was hit: close the connection, write nothing.
    CloseOverflow,
}

/// Handles one server-side chunk.  Without injection the chunk passes
/// through untouched.  With injection the chunk joins the residual; all
/// complete frames are rewritten (`UserPrivileges` frames get the
/// supporter bit) and serialized in order, and the unfinished tail
/// becomes the new residual.  A chunk that would push the buffer past
/// [`MAX_BUFFER_SIZE`] closes the connection instead.
pub fn relay_server_chunk(residual: &mut Vec<u8>, chunk: &[u8], inject_supporter: bool) -> (r:
    RelayAction)
    requires
        old(residual)@.len() <= MAX_BUFFER_SIZE as int,
    ensures
        final(residual)@.len() <= MAX_BUFFER_SIZE as int,
        !inject_supporter ==> (*final(residual) == *old(residual) && (r matches
        RelayAction::Forward(out) && out@ == chunk@)),
        (inject_supporter && old(residual)@.len() + chunk@.len() > MAX_BUFFER_SIZE as int) ==> (r
            is CloseOverflow && *final(residual) == *old(residual)),
        (inject_supporter && old(residual)@.len() + chunk@.len() <= MAX_BUFFER_SIZE as int) ==> ({
            let parsed = spec_parse_stream(old(residual)@ + chunk@);
            &&& final(residual)@ == parsed.1
            &&& ((parsed.0.len() == 0 && parsed.1.len() > 0) ==> r is Wait)
            &&& (!(parsed.0.len() == 0 && parsed.1.len() > 0) ==> (r matches RelayAction::Forward(
                out,
            ) && out@ == spec_concat_frames(spec_injected_frames(parsed.0))))
        }),
{
    if !inject_supporter {
        return RelayAction::Forward(slice_to_vec(chunk));
    }

    if chunk.len() > MAX_BUFFER_SIZE - residual.len() {
        return RelayAction::CloseOverflow;
    }

    residual.extend_from_slice(chunk);
    proof {
        assert(residual@ =~= old(residual)@ + chunk@);
    }
    let (mut packets, remaining) = Packet::parse_stream(residual.as_slice());
    let ghost parsed = spec_parse_stream(old(residual)@ + chunk@);
    let ghost orig = views_of(packets@);
    *residual = remaining;
    proof {
        lemma_parse_stream_residual_le(old(residual)@ + chunk@);
    }

    let mut output: Vec<u8> = Vec::new();
    let mut idx: usize = 0;
    proof {
        assert(orig.take(0) =~= Seq::<Frame>::empty());
        assert(spec_injected_frames(orig.take(0)) =~= Seq::<Frame>::empty());
    }
    while idx < packets.len()
        invariant
            idx <= packets@.len(),
            packets@.len() == orig.len(),
            forall|j: int| idx <= j < orig.len() ==> (#[trigger] packets@[j])@ == orig[j],
            output@ == spec_concat_frames(spec_injected_frames(orig.take(idx as int))),
        decreases packets@.len() - idx,
    {
        let ghost f = orig[idx as int];
        if packets[idx].packet_type() == ServerPacketId::UserPrivileges {
            inject_supporter_privileges(&mut packets[idx]);
        }
        proof {
            assert(packets@[idx as int]@ == spec_inject(f));
        }
        let mut frame_bytes = packets[idx].to_bytes();
        output.append(&mut frame_bytes);
        proof {
            lemma_concat_frames_push(spec_injected_frames(orig.take(idx as int)), spec_inject(f));
            assert(spec_injected_frames(orig.take(idx as int + 1)) =~= spec_injected_frames(
                orig.take(idx as int),
            ).push(spec_inject(f)));
        }
        idx += 1;
    }
    proof {
        assert(orig.take(packets@.len() as int) =~= orig);
    }

    if output.len() == 0 && residual.len() > 0 {
        return RelayAction::Wait;
    }
    RelayAction::Forward(output)
}

} // verus!
