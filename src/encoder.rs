//! Encoder session: the call-ordering rules around one encoder context.
//!
//! The caller owns the engine context and its iterator cursor. The session
//! says what to submit for each frame and for the end of the stream, turns
//! every status into a typed result, and drives the drain of output packets:
//! the cursor is reset by every submission, and once a drain has come up
//! empty, further drains stay empty until the next submission.

use vstd::prelude::*;

use crate::error::{check_status, status_result, AomError, Operation, AOM_CODEC_OK};
use crate::image::{img_from_frame, Frame, ImageDescriptor};
use crate::packet::{known_kind, AOMPacket, RawPacket};

verus! {

/// Encode flag that forces the submitted frame to be coded as a key frame.
pub const AOM_EFLAG_FORCE_KF: u32 = 0x1;

/// Where the drain of the current submission stands.
#[derive(Clone, Copy, Debug, PartialEq, Eq, Structural)]
pub enum Cursor {
    /// Reset by the last submission; no packet drained yet.
    Start,
    /// At least one packet drained, more may follow.
    Advanced,
    /// The engine reported no further output for this submission.
    Exhausted,
}

/// The cursor after a drain call that did (`got`) or did not receive an item.
pub open spec fn after_drain(c: Cursor, got: bool) -> Cursor {
    if c == Cursor::Exhausted || !got {
        Cursor::Exhausted
    } else {
        Cursor::Advanced
    }
}

/// Whether a drain call at cursor `c` hands out the item it received.
pub open spec fn yields(c: Cursor, got: bool) -> bool {
    c != Cursor::Exhausted && got
}

/// The cursor after a run of drain calls with the given outcomes.
pub open spec fn after_drains(c: Cursor, outcomes: Seq<bool>) -> Cursor
    decreases outcomes.len(),
{
    if outcomes.len() == 0 {
        c
    } else {
        after_drains(after_drain(c, outcomes[0]), outcomes.drop_first())
    }
}

/// One submission to the encoder: a frame's descriptor, or `None` for the
/// end of the stream, with its timestamp, duration and flags.
pub struct EncodeCall<'a> {
    pub image: Option<ImageDescriptor<'a>>,
    pub pts: i64,
    pub duration: u64,
    pub flags: u32,
}

/// A post-creation control value for the encoder.
#[derive(Clone, Copy, Debug, PartialEq, Eq, Structural)]
pub struct ControlCall {
    pub id: u32,
    pub value: i32,
}

/// An encoder session over one live engine context.
pub struct AV1Encoder {
    cursor: Cursor,
}

impl AV1Encoder {
    /// Where the drain of the current submission stands.
    pub closed spec fn state(&self) -> Cursor {
        self.cursor
    }

    /// The session for a context whose creation returned `status`.
    ///
    /// Fails with `InitError` carrying the status when it is not the
    /// success status.
    pub fn new(status: u32) -> (r: Result<AV1Encoder, AomError>)
        ensures
            status == AOM_CODEC_OK ==> r is Ok && r->Ok_0.state() == Cursor::Start,
            status != AOM_CODEC_OK ==> r == Err::<AV1Encoder, AomError>(
                AomError::InitError(status),
            ),
    {
        match check_status(Operation::Init, status) {
            Ok(()) => Ok(AV1Encoder { cursor: Cursor::Start }),
            Err(e) => Err(e),
        }
    }

    /// The submission of `frame`: its descriptor, its timestamp, a duration
    /// of one tick and no flags. The drain cursor is reset.
    pub fn encode<'a>(&mut self, frame: &'a Frame) -> (call: EncodeCall<'a>)
        requires
            frame.wf(),
            frame.pts is Some,
        ensures
            final(self).state() == Cursor::Start,
            call.image is Some,
            call.image->Some_0.describes(frame),
            call.pts == frame.pts->Some_0,
            call.duration == 1,
            call.flags == 0,
    {
        self.encode_with_flags(frame, 0)
    }

    /// The submission of `frame` with the given encode flags (such as
    /// [`AOM_EFLAG_FORCE_KF`]). The drain cursor is reset.
    pub fn encode_with_flags<'a>(&mut self, frame: &'a Frame, flags: u32) -> (call: EncodeCall<'a>)
        requires
            frame.wf(),
            frame.pts is Some,
        ensures
            final(self).state() == Cursor::Start,
            call.image is Some,
            call.image->Some_0.describes(frame),
            call.pts == frame.pts->Some_0,
            call.duration == 1,
            call.flags == flags,
    {
        let image = img_from_frame(frame);
        let pts = match frame.pts {
            Some(t) => t,
            None => 0,
        };
        self.cursor = Cursor::Start;
        EncodeCall { image: Some(image), pts, duration: 1, flags }
    }

    /// The submission that marks the end of the stream: no image, so the
    /// engine emits whatever it still holds. The drain cursor is reset.
    pub fn flush(&mut self) -> (call: EncodeCall<'static>)
        ensures
            final(self).state() == Cursor::Start,
            call.image is None,
            call.pts == 0,
            call.duration == 1,
            call.flags == 0,
    {
        self.cursor = Cursor::Start;
        EncodeCall { image: None, pts: 0, duration: 1, flags: 0 }
    }

    /// What a submission that returned `status` amounts to: `EncodeError`
    /// carrying any status but success.
    pub fn encode_status(&self, status: u32) -> (r: Result<(), AomError>)
        ensures
            r == status_result(Operation::Encode, status),
    {
        check_status(Operation::Encode, status)
    }

    /// The control call that sets `id` to `value` on the live context.
    pub fn control(&self, id: u32, value: i32) -> (call: ControlCall)
        ensures
            call == (ControlCall { id, value }),
    {
        ControlCall { id, value }
    }

    /// What a control call that returned `status` amounts to: `ControlError`
    /// carrying any status but success. The session stays usable either way.
    pub fn control_status(&self, status: u32) -> (r: Result<(), AomError>)
        ensures
            r == status_result(Operation::Control, status),
    {
        check_status(Operation::Control, status)
    }

    /// Whether the engine should be asked for the next packet: false once
    /// the drain of the current submission came up empty.
    pub fn needs_packet(&self) -> (r: bool)
        ensures
            r == (self.state() != Cursor::Exhausted),
    {
        self.cursor != Cursor::Exhausted
    }

    /// One drain step, given what the engine's packet iterator returned.
    ///
    /// Returns the classified packet, or `None` once nothing is pending; an
    /// empty drain is never an error, and after it every drain returns
    /// `None` until the next submission, whatever the engine hands back.
    pub fn get_packet(&mut self, raw: Option<&RawPacket>) -> (r: Result<Option<AOMPacket>, AomError>)
        ensures
            final(self).state() == after_drain(old(self).state(), raw is Some),
            !yields(old(self).state(), raw is Some) ==> r == Ok::<Option<AOMPacket>, AomError>(
                None,
            ),
            yields(old(self).state(), raw is Some) ==> {
                let p = raw->Some_0;
                &&& r is Ok <==> known_kind(p.kind)
                &&& r is Ok ==> r->Ok_0 is Some && r->Ok_0->Some_0.classifies(p)
                &&& r is Err ==> r == Err::<Option<AOMPacket>, AomError>(
                    AomError::UnknownPacketKind(p.kind),
                )
            },
    {
        if self.cursor == Cursor::Exhausted {
            return Ok(None);
        }
        match raw {
            None => {
                self.cursor = Cursor::Exhausted;
                Ok(None)
            },
            Some(p) => {
                self.cursor = Cursor::Advanced;
                match AOMPacket::new(p) {
                    Ok(pkt) => Ok(Some(pkt)),
                    Err(e) => Err(e),
                }
            },
        }
    }
}

/// Draining is idempotent once exhausted: after a drain call that received
/// nothing, no further drain call yields an item until the next submission,
/// whatever the engine returns, and the cursor stays exhausted.
pub proof fn lemma_drain_idempotent(c: Cursor, later: Seq<bool>)
    ensures
        after_drains(after_drain(c, false), later) == Cursor::Exhausted,
        forall|i: int|
            0 <= i < later.len() ==> !yields(
                after_drains(after_drain(c, false), later.take(i)),
                #[trigger] later[i],
            ),
{
    lemma_exhausted_stays(later);
}

/// From an exhausted cursor, every run of drain calls stays exhausted.
proof fn lemma_exhausted_stays(later: Seq<bool>)
    ensures
        after_drains(Cursor::Exhausted, later) == Cursor::Exhausted,
        forall|i: int|
            0 <= i < later.len() ==> #[trigger] after_drains(Cursor::Exhausted, later.take(i))
                == Cursor::Exhausted,
    decreases later.len(),
{
    if later.len() > 0 {
        lemma_exhausted_stays(later.drop_first());
        assert forall|i: int| 0 <= i < later.len() implies #[trigger] after_drains(
            Cursor::Exhausted,
            later.take(i),
        ) == Cursor::Exhausted by {
            if i > 0 {
                assert(later.take(i).drop_first() =~= later.drop_first().take(i - 1));
                assert(after_drains(Cursor::Exhausted, later.drop_first().take(i - 1))
                    == Cursor::Exhausted);
            } else {
                assert(later.take(i).len() == 0);
            }
        }
    }
}

/// A drain call when nothing is pending returns empty: whatever the cursor,
/// a call that receives nothing yields nothing and leaves the drain exhausted.
pub proof fn lemma_empty_drain(c: Cursor)
    ensures
        !yields(c, false),
        after_drain(c, false) == Cursor::Exhausted,
{
}

} // verus!
