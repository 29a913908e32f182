//! Encoder output: the raw tagged packets the engine emits and the closed
//! set of packet variants they are classified into.

use vstd::prelude::*;

use crate::error::AomError;

verus! {

/// Kind tag of a compressed frame.
pub const AOM_CODEC_CX_FRAME_PKT: u32 = 0;

/// Kind tag of a two-pass statistics buffer.
pub const AOM_CODEC_STATS_PKT: u32 = 1;

/// Kind tag of a first-pass macroblock statistics buffer.
pub const AOM_CODEC_FPMB_STATS_PKT: u32 = 2;

/// Kind tag of PSNR metrics.
pub const AOM_CODEC_PSNR_PKT: u32 = 3;

/// Kind tag of an opaque, algorithm-specific payload.
pub const AOM_CODEC_CUSTOM_PKT: u32 = 256;

/// Flag bit of a compressed frame that can be decoded on its own.
pub const AOM_FRAME_IS_KEY: u32 = 0x1;

/// PSNR metrics of one frame, per plane and overall.
///
/// The PSNR values are kept as the bit patterns of IEEE-754 doubles.
#[derive(Clone, Copy, Debug)]
pub struct PSNR {
    pub samples: [u32; 4],
    pub sse: [u64; 4],
    pub psnr: [u64; 4],
}

/// One compressed frame, with its own copy of the payload.
#[derive(Clone, Debug)]
pub struct Packet {
    pub data: Vec<u8>,
    pub pts: Option<i64>,
    pub is_key: bool,
}

/// A packet as the encoder hands it out: its kind tag and the fields of each
/// kind. `buf` is borrowed from the engine and is only valid until the next
/// engine call; it is the payload of a compressed frame, the statistics
/// buffer, or the custom data, depending on the kind.
pub struct RawPacket<'a> {
    pub kind: u32,
    pub buf: &'a [u8],
    pub pts: i64,
    pub flags: u32,
    pub psnr: PSNR,
}

/// One packet of encoder output, decoded once at the boundary.
#[derive(Clone, Debug)]
pub enum AOMPacket {
    Packet(Packet),
    Stats(Vec<u8>),
    MBStats(Vec<u8>),
    PSNR(PSNR),
    Custom(Vec<u8>),
}

/// The kind tag belongs to the closed set this library knows.
pub open spec fn known_kind(kind: u32) -> bool {
    kind == AOM_CODEC_CX_FRAME_PKT || kind == AOM_CODEC_STATS_PKT || kind
        == AOM_CODEC_FPMB_STATS_PKT || kind == AOM_CODEC_PSNR_PKT || kind == AOM_CODEC_CUSTOM_PKT
}

/// The key-frame bit of a compressed frame's flags is set.
pub open spec fn key_flag(flags: u32) -> bool {
    flags & AOM_FRAME_IS_KEY != 0
}

impl AOMPacket {
    /// This packet is the classification of `raw`: the variant its kind tag
    /// names, holding a copy of the bytes and values of that kind.
    pub open spec fn classifies(&self, raw: &RawPacket) -> bool {
        match *self {
            AOMPacket::Packet(p) => raw.kind == AOM_CODEC_CX_FRAME_PKT && p.data@ == raw.buf@
                && p.pts == Some(raw.pts) && p.is_key == key_flag(raw.flags),
            AOMPacket::Stats(b) => raw.kind == AOM_CODEC_STATS_PKT && b@ == raw.buf@,
            AOMPacket::MBStats(b) => raw.kind == AOM_CODEC_FPMB_STATS_PKT && b@ == raw.buf@,
            AOMPacket::PSNR(m) => raw.kind == AOM_CODEC_PSNR_PKT && m == raw.psnr,
            AOMPacket::Custom(b) => raw.kind == AOM_CODEC_CUSTOM_PKT && b@ == raw.buf@,
        }
    }

    /// Classifies a raw packet by its kind tag, copying every byte it needs
    /// out of the engine's buffer.
    ///
    /// A kind tag outside the known set is reported as
    /// `UnknownPacketKind` rather than dropped.
    pub fn new(raw: &RawPacket) -> (r: Result<AOMPacket, AomError>)
        ensures
            r is Ok <==> known_kind(raw.kind),
            r is Ok ==> r->Ok_0.classifies(raw),
            r is Err ==> r == Err::<AOMPacket, AomError>(AomError::UnknownPacketKind(raw.kind)),
    {
        if raw.kind == AOM_CODEC_CX_FRAME_PKT {
            let data = to_buffer(raw.buf);
            Ok(
                AOMPacket::Packet(
                    Packet {
                        data,
                        pts: Some(raw.pts),
                        is_key: (raw.flags & AOM_FRAME_IS_KEY) != 0,
                    },
                ),
            )
        } else if raw.kind == AOM_CODEC_STATS_PKT {
            Ok(AOMPacket::Stats(to_buffer(raw.buf)))
        } else if raw.kind == AOM_CODEC_FPMB_STATS_PKT {
            Ok(AOMPacket::MBStats(to_buffer(raw.buf)))
        } else if raw.kind == AOM_CODEC_PSNR_PKT {
            Ok(AOMPacket::PSNR(raw.psnr))
        } else if raw.kind == AOM_CODEC_CUSTOM_PKT {
            Ok(AOMPacket::Custom(to_buffer(raw.buf)))
        } else {
            Err(AomError::UnknownPacketKind(raw.kind))
        }
    }

    /// Whether this is a compressed frame that can be decoded on its own.
    pub fn is_keyframe(&self) -> (r: bool)
        ensures
            r == match *self {
                AOMPacket::Packet(p) => p.is_key,
                _ => false,
            },
    {
        match self {
            AOMPacket::Packet(p) => p.is_key,
            _ => false,
        }
    }
}

/// An owned copy of a borrowed buffer.
fn to_buffer(buf: &[u8]) -> (r: Vec<u8>)
    ensures
        r@ == buf@,
{
    let mut v: Vec<u8> = Vec::with_capacity(buf.len());
    let mut i: usize = 0;
    while i < buf.len()
        invariant
            i <= buf@.len(),
            v@ == buf@.subrange(0, i as int),
        decreases buf@.len() - i,
    {
        v.push(buf[i]);
        proof {
            assert(buf@.subrange(0, i + 1) =~= buf@.subrange(0, i as int).push(buf@[i as int]));
        }
        i = i + 1;
    }
    proof {
        assert(buf@.subrange(0, buf@.len() as int) =~= buf@);
    }
    v
}

/// A compressed frame is marked as a key frame exactly when the engine set
/// the key-frame bit in its flags.
pub proof fn lemma_keyframe_flag_kept(raw: &RawPacket, pkt: AOMPacket)
    requires
        raw.kind == AOM_CODEC_CX_FRAME_PKT,
        pkt.classifies(raw),
    ensures
        pkt is Packet,
        pkt->Packet_0.is_key <==> raw.flags & AOM_FRAME_IS_KEY != 0,
        pkt->Packet_0.pts == Some(raw.pts),
{
}

} // verus!
