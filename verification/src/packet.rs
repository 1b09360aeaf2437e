//! Bancho packet codec: framing, stream reassembly and the supporter flag.
//!
//! A packet on the wire is a 7-byte header followed by `length` payload
//! bytes.  The header holds `packet_id` (u16, little-endian), one opaque
//! compression byte, and `length` (u32, little-endian).

use vstd::prelude::*;
use vstd::bytes::{spec_u16_to_le_bytes, spec_u16_from_le_bytes, spec_u32_to_le_bytes,
    spec_u32_from_le_bytes, u16_from_le_bytes, u32_from_le_bytes, u16_to_le_bytes,
    u32_to_le_bytes, lemma_auto_spec_u16_to_from_le_bytes, lemma_auto_spec_u32_to_from_le_bytes};
use vstd::slice::{slice_subrange, slice_to_vec, slice_index_get};

verus! {

/// Known server packet ids of the Bancho protocol.  Every other id is
/// framed and forwarded unchanged, under `Unknown`.
#[derive(Debug, Clone, Copy, PartialEq, Eq, Structural)]
pub enum ServerPacketId {
    LoginReply,
    ProtocolVersion,
    UserPrivileges,
    UserPresence,
    UserStats,
    ChannelInfo,
    Notification,
    Unknown,
}

/// The packet id each wire value stands for.
pub open spec fn spec_server_packet_id(value: u16) -> ServerPacketId {
    if value == 5 {
        ServerPacketId::LoginReply
    } else if value == 75 {
        ServerPacketId::ProtocolVersion
    } else if value == 71 {
        ServerPacketId::UserPrivileges
    } else if value == 83 {
        ServerPacketId::UserPresence
    } else if value == 11 {
        ServerPacketId::UserStats
    } else if value == 64 {
        ServerPacketId::ChannelInfo
    } else if value == 24 {
        ServerPacketId::Notification
    } else {
        ServerPacketId::Unknown
    }
}

impl From<u16> for ServerPacketId {
    fn from(value: u16) -> Self {
        if value == 5 {
            ServerPacketId::LoginReply
        } else if value == 75 {
            ServerPacketId::ProtocolVersion
        } else if value == 71 {
            ServerPacketId::UserPrivileges
        } else if value == 83 {
            ServerPacketId::UserPresence
        } else if value == 11 {
            ServerPacketId::UserStats
        } else if value == 64 {
            ServerPacketId::ChannelInfo
        } else if value == 24 {
            ServerPacketId::Notification
        } else {
            ServerPacketId::Unknown
        }
    }
}

impl vstd::std_specs::convert::FromSpecImpl<u16> for ServerPacketId {
    open spec fn obeys_from_spec() -> bool {
        true
    }

    open spec fn from_spec(value: u16) -> Self {
        spec_server_packet_id(value)
    }
}

/// User privilege bitfield.  Bit 2 (value 4) is the supporter flag.
#[derive(Debug, Clone, Copy)]
pub struct Privileges(pub u32);

impl Privileges {
    /// Normal user privileges.
    pub const NORMAL: u32 = 1;

    /// Supporter status; unlocks the in-client beatmap search.
    pub const SUPPORTER: u32 = 4;

    /// Beatmap Appreciation Team member.
    pub const BAT: u32 = 2;

    /// Tournament staff permissions.
    pub const TOURNAMENT: u32 = 32;

    /// Returns a copy with the supporter flag set.
    pub fn with_supporter(self) -> (r: Self)
        ensures
            r.0 == self.0 | 4u32,
    {
        Privileges(self.0 | Privileges::SUPPORTER)
    }

    /// Whether the supporter flag is set.
    pub fn has_supporter(&self) -> (r: bool)
        ensures
            r == ((self.0 & 4u32) != 0),
    {
        self.0 & Privileges::SUPPORTER != 0
    }

    /// The raw privilege value.
    pub fn value(&self) -> (r: u32)
        ensures
            r == self.0,
    {
        self.0
    }
}

impl Default for Privileges {
    fn default() -> (r: Self)
        ensures
            r.0 == 1u32,
    {
        Privileges(Privileges::NORMAL)
    }
}

/// Header of a Bancho packet: 7 bytes on the wire.
#[derive(Debug, Clone)]
pub struct PacketHeader {
    /// The packet type identifier.
    pub packet_id: u16,
    /// Compression flag; never interpreted, always copied through.
    pub compression: u8,
    /// Length of the payload in bytes.
    pub length: u32,
}

/// The 7 header bytes of a header value.
pub open spec fn spec_header_bytes(h: PacketHeader) -> Seq<u8> {
    spec_u16_to_le_bytes(h.packet_id) + seq![h.compression] + spec_u32_to_le_bytes(h.length)
}

/// The header read from the first 7 bytes of `data`.
pub open spec fn spec_parse_header(data: Seq<u8>) -> PacketHeader
    recommends
        data.len() >= 7,
{
    PacketHeader {
        packet_id: spec_u16_from_le_bytes(data.subrange(0, 2)),
        compression: data[2],
        length: spec_u32_from_le_bytes(data.subrange(3, 7)),
    }
}

/// Parsing the 7 bytes a header writes gives the header back, and the
/// bytes of any parsed header are the bytes parsed.
pub proof fn lemma_header_bytes_round_trip(h: PacketHeader)
    ensures
        spec_header_bytes(h).len() == 7,
        spec_parse_header(spec_header_bytes(h)) == h,
{
    lemma_auto_spec_u16_to_from_le_bytes();
    lemma_auto_spec_u32_to_from_le_bytes();
    let b = spec_header_bytes(h);
    assert(b.subrange(0, 2) =~= spec_u16_to_le_bytes(h.packet_id));
    assert(b.subrange(3, 7) =~= spec_u32_to_le_bytes(h.length));
}

impl PacketHeader {
    /// Size of the packet header in bytes.
    pub const SIZE: usize = 7;

    /// Parses a packet header from the first 7 bytes of `data`; `None`
    /// if fewer than 7 bytes are given.
    pub fn parse(data: &[u8]) -> (r: Option<Self>)
        ensures
            r == if data@.len() >= 7 {
                Some(spec_parse_header(data@))
            } else {
                None::<PacketHeader>
            },
    {
        if data.len() < 7 {
            return None;
        }

        let packet_id = u16_from_le_bytes(slice_subrange(data, 0, 2));
        let compression = *slice_index_get(data, 2);
        let length = u32_from_le_bytes(slice_subrange(data, 3, 7));

        Some(PacketHeader { packet_id, compression, length })
    }

    /// Serializes the header to its 7 wire bytes.
    pub fn to_bytes(&self) -> (r: Vec<u8>)
        ensures
            r@ == spec_header_bytes(*self),
    {
        let mut r = u16_to_le_bytes(self.packet_id);
        r.push(self.compression);
        let mut len_bytes = u32_to_le_bytes(self.length);
        r.append(&mut len_bytes);
        proof {
            assert(r@ =~= spec_header_bytes(*self));
        }
        r
    }
}

/// Mathematical model of one frame: the header fields and the payload bytes.
#[verifier::ext_equal]
pub ghost struct Frame {
    pub packet_id: u16,
    pub compression: u8,
    pub length: u32,
    pub payload: Seq<u8>,
}

impl Frame {
    /// A frame is well formed when its declared length is its payload length.
    pub open spec fn wf(self) -> bool {
        self.length as int == self.payload.len()
    }

    /// The header part of the frame.
    pub open spec fn header(self) -> PacketHeader {
        PacketHeader { packet_id: self.packet_id, compression: self.compression, length: self.length }
    }
}

/// The wire bytes of a frame: 7 header bytes followed by the payload.
pub open spec fn spec_frame_bytes(f: Frame) -> Seq<u8> {
    spec_header_bytes(f.header()) + f.payload
}

/// Parses `data` as zero or more complete frames followed by a residual.
/// Walks from the start; stops at the first incomplete header or payload
/// and returns the untouched tail as the residual.
pub open spec fn spec_parse_stream(data: Seq<u8>) -> (Seq<Frame>, Seq<u8>)
    decreases data.len(),
{
    if data.len() < 7 {
        (Seq::<Frame>::empty(), data)
    } else {
        let h = spec_parse_header(data);
        if data.len() < 7 + h.length as int {
            (Seq::<Frame>::empty(), data)
        } else {
            let f = Frame {
                packet_id: h.packet_id,
                compression: h.compression,
                length: h.length,
                payload: data.subrange(7, 7 + h.length as int),
            };
            let rest = spec_parse_stream(data.skip(7 + h.length as int));
            (seq![f] + rest.0, rest.1)
        }
    }
}

/// A complete Bancho packet: header plus owned payload.
#[derive(Debug, Clone)]
pub struct Packet {
    /// The packet header.
    pub header: PacketHeader,
    /// The payload bytes.
    pub payload: Vec<u8>,
}

impl View for Packet {
    type V = Frame;

    open spec fn view(&self) -> Frame {
        Frame {
            packet_id: self.header.packet_id,
            compression: self.header.compression,
            length: self.header.length,
            payload: self.payload@,
        }
    }
}

/// The frames a sequence of packets stands for.
pub open spec fn views_of(ps: Seq<Packet>) -> Seq<Frame> {
    ps.map_values(|p: Packet| p@)
}

impl Packet {
    /// Serializes the packet: header bytes followed by the payload.
    pub fn to_bytes(&self) -> (r: Vec<u8>)
        ensures
            r@ == spec_frame_bytes(self@),
    {
        let mut bytes = self.header.to_bytes();
        bytes.extend_from_slice(self.payload.as_slice());
        proof {
            assert(bytes@ =~= spec_frame_bytes(self@));
        }
        bytes
    }

    /// Parses all complete packets from a byte stream and returns them in
    /// order, together with the remaining bytes of the trailing incomplete
    /// packet, if any.  The declared `length` of each frame is trusted as
    /// given; callers that feed a growing buffer must cap its size.
    pub fn parse_stream(data: &[u8]) -> (r: (Vec<Packet>, Vec<u8>))
        ensures
            views_of(r.0@) == spec_parse_stream(data@).0,
            r.1@ == spec_parse_stream(data@).1,
            forall|i: int| 0 <= i < r.0@.len() ==> (#[trigger] r.0@[i])@.wf(),
    {
        let mut packets: Vec<Packet> = Vec::new();
        let mut offset: usize = 0;
        proof {
            assert(data@.skip(0) =~= data@);
            assert(views_of(packets@) =~= Seq::<Frame>::empty());
        }

        while data.len() - offset >= 7
            invariant_except_break
                offset <= data@.len(),
                spec_parse_stream(data@).0 == views_of(packets@) + spec_parse_stream(
                    data@.skip(offset as int),
                ).0,
                spec_parse_stream(data@).1 == spec_parse_stream(data@.skip(offset as int)).1,
                forall|i: int| 0 <= i < packets@.len() ==> (#[trigger] packets@[i])@.wf(),
            ensures
                offset <= data@.len(),
                spec_parse_stream(data@).0 == views_of(packets@),
                spec_parse_stream(data@).1 == data@.skip(offset as int),
                forall|i: int| 0 <= i < packets@.len() ==> (#[trigger] packets@[i])@.wf(),
            decreases data@.len() - offset,
        {
            let ghost pre = data@.skip(offset as int);
            let header = match PacketHeader::parse(slice_subrange(data, offset, data.len())) {
                Some(h) => h,
                None => {
                    break ;
                },
            };
            proof {
                assert(data@.subrange(offset as int, data@.len() as int) =~= pre);
            }

            let remaining = data.len() - offset;
            let payload_len = header.length as usize;
            if payload_len > remaining - 7 {
                proof {
                    assert(spec_parse_stream(pre) == (Seq::<Frame>::empty(), pre));
                }
                break ;
            }

            let payload_start = offset + 7;
            let payload_end = payload_start + payload_len;
            let payload = slice_to_vec(slice_subrange(data, payload_start, payload_end));
            let p = Packet { header, payload };
            proof {
                let h = spec_parse_header(pre);
                let f = Frame {
                    packet_id: h.packet_id,
                    compression: h.compression,
                    length: h.length,
                    payload: pre.subrange(7, 7 + h.length as int),
                };
                assert(p@.payload =~= f.payload);
                assert(p@ =~= f);
                assert(pre.skip(7 + h.length as int) =~= data@.skip(payload_end as int));
                assert(spec_parse_stream(pre).0 == seq![f] + spec_parse_stream(
                    data@.skip(payload_end as int),
                ).0);
                assert(views_of(packets@.push(p)) =~= views_of(packets@) + seq![f]);
                assert(views_of(packets@) + (seq![f] + spec_parse_stream(
                    data@.skip(payload_end as int),
                ).0) =~= views_of(packets@.push(p)) + spec_parse_stream(
                    data@.skip(payload_end as int),
                ).0);
            }
            packets.push(p);
            offset = payload_end;
        }

        let remaining = slice_to_vec(slice_subrange(data, offset, data.len()));
        proof {
            assert(remaining@ =~= data@.skip(offset as int));
        }
        (packets, remaining)
    }

    /// The packet type this packet's id stands for.
    pub fn packet_type(&self) -> (r: ServerPacketId)
        ensures
            r == spec_server_packet_id(self.header.packet_id),
    {
        ServerPacketId::from(self.header.packet_id)
    }
}

/// The frame after supporter injection: for a `UserPrivileges` frame
/// (id 71) with at least 4 payload bytes, the first four payload bytes,
/// read as a little-endian u32, get bit 2 set; any other frame is
/// unchanged.
pub open spec fn spec_inject(f: Frame) -> Frame {
    if f.packet_id == 71 && f.payload.len() >= 4 {
        Frame {
            packet_id: f.packet_id,
            compression: f.compression,
            length: f.length,
            payload: spec_u32_to_le_bytes(spec_u32_from_le_bytes(f.payload.take(4)) | 4u32)
                + f.payload.skip(4),
        }
    } else {
        f
    }
}

/// Injects supporter privileges into a `UserPrivileges` packet, in place.
/// No-op unless the packet id is 71 and the payload holds at least 4 bytes.
pub fn inject_supporter_privileges(packet: &mut Packet)
    ensures
        final(packet)@ == spec_inject(old(packet)@),
        final(packet)@.wf() == old(packet)@.wf(),
{
    if packet.packet_type() != ServerPacketId::UserPrivileges {
        return ;
    }

    if packet.payload.len() >= 4 {
        let current = u32_from_le_bytes(slice_subrange(packet.payload.as_slice(), 0, 4));
        proof {
            assert(packet.payload@.subrange(0, 4) =~= packet.payload@.take(4));
        }
        let privileges = Privileges(current).with_supporter();
        let new_bytes = u32_to_le_bytes(privileges.value());
        packet.payload.set(0, new_bytes[0]);
        packet.payload.set(1, new_bytes[1]);
        packet.payload.set(2, new_bytes[2]);
        packet.payload.set(3, new_bytes[3]);
        proof {
            lemma_auto_spec_u32_to_from_le_bytes();
            assert(packet.payload@ =~= spec_inject(old(packet)@).payload);
            assert(packet@ =~= spec_inject(old(packet)@));
        }
    }
}

/// The concatenation of the wire bytes of a sequence of frames.
pub open spec fn spec_concat_frames(fs: Seq<Frame>) -> Seq<u8>
    decreases fs.len(),
{
    if fs.len() == 0 {
        Seq::<u8>::empty()
    } else {
        spec_frame_bytes(fs[0]) + spec_concat_frames(fs.skip(1))
    }
}

/// Concatenation of frames distributes over `push`.
pub proof fn lemma_concat_frames_push(fs: Seq<Frame>, f: Frame)
    ensures
        spec_concat_frames(fs.push(f)) == spec_concat_frames(fs) + spec_frame_bytes(f),
    decreases fs.len(),
{
    if fs.len() == 0 {
        assert(fs.push(f).skip(1) =~= Seq::<Frame>::empty());
        assert(spec_concat_frames(fs.push(f)) == spec_frame_bytes(fs.push(f)[0])
            + spec_concat_frames(fs.push(f).skip(1)));
        assert(fs.push(f)[0] == f);
        assert(spec_concat_frames(fs.push(f)) =~= Seq::<u8>::empty() + spec_frame_bytes(f));
        assert(spec_concat_frames(fs) + spec_frame_bytes(f) =~= Seq::<u8>::empty()
            + spec_frame_bytes(f));
    } else {
        assert(fs.push(f).skip(1) =~= fs.skip(1).push(f));
        lemma_concat_frames_push(fs.skip(1), f);
        assert(fs.push(f)[0] == fs[0]);
        assert(spec_concat_frames(fs.push(f)) == spec_frame_bytes(fs[0]) + (spec_concat_frames(
            fs.skip(1),
        ) + spec_frame_bytes(f)));
        assert(spec_frame_bytes(fs[0]) + (spec_concat_frames(fs.skip(1)) + spec_frame_bytes(f))
            =~= (spec_frame_bytes(fs[0]) + spec_concat_frames(fs.skip(1))) + spec_frame_bytes(f));
    }
}

/// A byte string is an incomplete frame: it is a strict prefix of what
/// some single frame would occupy, so parsing it yields no frame.
pub open spec fn spec_incomplete_frame(r: Seq<u8>) -> bool {
    r.len() < 7 || r.len() < 7 + spec_parse_header(r).length as int
}

/// Supporter injection is idempotent, and leaves every frame that is not
/// a `UserPrivileges` frame untouched.
pub proof fn lemma_inject_supporter_idempotent(f: Frame)
    ensures
        spec_inject(spec_inject(f)) == spec_inject(f),
        f.packet_id != 71 ==> spec_inject(f) == f,
{
    if f.packet_id == 71 && f.payload.len() >= 4 {
        lemma_auto_spec_u32_to_from_le_bytes();
        let v = spec_u32_from_le_bytes(f.payload.take(4));
        let g = spec_inject(f);
        assert(g.payload.take(4) =~= spec_u32_to_le_bytes(v | 4u32));
        assert(g.payload.skip(4) =~= f.payload.skip(4));
        assert((v | 4u32) | 4u32 == v | 4u32) by (bit_vector);
        assert(spec_inject(g) =~= g);
    }
}

/// Parsing a stream always leaves an incomplete residual: either fewer
/// than 7 bytes, or a header whose declared payload has not fully
/// arrived.  In particular the residual is shorter than `7 + 2^32` bytes.
pub proof fn lemma_parse_stream_residual(data: Seq<u8>)
    ensures
        spec_incomplete_frame(spec_parse_stream(data).1),
        spec_parse_stream(data).1.len() < 7 + 0x1_0000_0000,
    decreases data.len(),
{
    if data.len() < 7 {
    } else {
        let h = spec_parse_header(data);
        if data.len() < 7 + h.length as int {
        } else {
            lemma_parse_stream_residual(data.skip(7 + h.length as int));
        }
    }
}

/// The residual of a parse is never longer than the input.
pub proof fn lemma_parse_stream_residual_le(data: Seq<u8>)
    ensures
        spec_parse_stream(data).1.len() <= data.len(),
    decreases data.len(),
{
    if data.len() >= 7 {
        let h = spec_parse_header(data);
        if data.len() >= 7 + h.length as int {
            lemma_parse_stream_residual_le(data.skip(7 + h.length as int));
        }
    }
}

/// Every frame a parse yields is well formed, with its payload taken
/// verbatim from the input.
pub proof fn lemma_parse_stream_frames_wf(data: Seq<u8>)
    ensures
        forall|i: int|
            0 <= i < spec_parse_stream(data).0.len() ==> (#[trigger] spec_parse_stream(
                data,
            ).0[i]).wf(),
    decreases data.len(),
{
    if data.len() < 7 {
    } else {
        let h = spec_parse_header(data);
        if data.len() < 7 + h.length as int {
        } else {
            lemma_parse_stream_frames_wf(data.skip(7 + h.length as int));
            let rest = spec_parse_stream(data.skip(7 + h.length as int));
            assert forall|i: int| 0 <= i < spec_parse_stream(data).0.len() implies (
            #[trigger] spec_parse_stream(data).0[i]).wf() by {
                if i > 0 {
                    assert(spec_parse_stream(data).0[i] == rest.0[i - 1]);
                }
            }
        }
    }
}

/// Serializing well-formed frames and appending an incomplete tail, then
/// parsing, gives exactly those frames back with exactly that tail as the
/// residual.
pub proof fn lemma_parse_concat_frames(fs: Seq<Frame>, tail: Seq<u8>)
    requires
        forall|i: int| 0 <= i < fs.len() ==> (#[trigger] fs[i]).wf(),
        spec_incomplete_frame(tail),
    ensures
        spec_parse_stream(spec_concat_frames(fs) + tail) == (fs, tail),
    decreases fs.len(),
{
    if fs.len() == 0 {
        assert(spec_concat_frames(fs) + tail =~= tail);
        if tail.len() >= 7 {
            assert(spec_parse_stream(tail) == (Seq::<Frame>::empty(), tail));
        }
        assert(spec_parse_stream(spec_concat_frames(fs) + tail) == (fs, tail)) by {
            assert(spec_parse_stream(tail).0 =~= fs);
        }
    } else {
        let f = fs[0];
        let data = spec_concat_frames(fs) + tail;
        lemma_header_bytes_round_trip(f.header());
        let fb = spec_frame_bytes(f);
        assert(fb.len() == 7 + f.payload.len());
        assert(data =~= fb + (spec_concat_frames(fs.skip(1)) + tail));
        assert(data.subrange(0, 7) =~= spec_header_bytes(f.header()));
        let h = spec_parse_header(data);
        assert(h == f.header()) by {
            assert(data.subrange(0, 2) =~= spec_header_bytes(f.header()).subrange(0, 2));
            assert(data.subrange(3, 7) =~= spec_header_bytes(f.header()).subrange(3, 7));
            lemma_auto_spec_u16_to_from_le_bytes();
            lemma_auto_spec_u32_to_from_le_bytes();
            assert(spec_header_bytes(f.header()).subrange(0, 2) =~= spec_u16_to_le_bytes(
                f.packet_id,
            ));
            assert(spec_header_bytes(f.header()).subrange(3, 7) =~= spec_u32_to_le_bytes(
                f.length,
            ));
        }
        assert(data.len() >= 7 + h.length as int);
        assert(data.subrange(7, 7 + h.length as int) =~= f.payload);
        assert(data.skip(7 + h.length as int) =~= spec_concat_frames(fs.skip(1)) + tail);
        lemma_parse_concat_frames(fs.skip(1), tail);
        assert(seq![f] + fs.skip(1) =~= fs);
        assert(spec_parse_stream(data).0 =~= fs);
        assert(spec_parse_stream(data) == (fs, tail));
    }
}

/// Codec round trip: serializing any list of well-formed frames and
/// parsing the concatenation gives the same frames back and an empty
/// residual.
pub proof fn lemma_codec_round_trip(fs: Seq<Frame>)
    requires
        forall|i: int| 0 <= i < fs.len() ==> (#[trigger] fs[i]).wf(),
    ensures
        spec_parse_stream(spec_concat_frames(fs)) == (fs, Seq::<u8>::empty()),
{
    lemma_parse_concat_frames(fs, Seq::<u8>::empty());
    assert(spec_concat_frames(fs) + Seq::<u8>::empty() =~= spec_concat_frames(fs));
}

/// Residual closure: for any byte string, the residual of a parse is a
/// strict prefix of an unfinished frame, and re-parsing the serialized
/// frames followed by that residual reproduces both exactly.
pub proof fn lemma_parse_stream_closure(data: Seq<u8>)
    ensures
        spec_incomplete_frame(spec_parse_stream(data).1),
        spec_parse_stream(data).1.len() < 7 + 0x1_0000_0000,
        spec_parse_stream(
            spec_concat_frames(spec_parse_stream(data).0) + spec_parse_stream(data).1,
        ) == spec_parse_stream(data),
{
    lemma_parse_stream_residual(data);
    lemma_parse_stream_frames_wf(data);
    lemma_parse_concat_frames(spec_parse_stream(data).0, spec_parse_stream(data).1);
}

} // verus!
