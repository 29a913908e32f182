//! Decoder session: the call-ordering rules around one decoder context and
//! the ownership of user data attached to compressed units.
//!
//! User data handed to [`AV1Decoder::decode`] is kept by the session under a
//! non-zero handle; the handle is what crosses the engine boundary. The data
//! comes back exactly once, with the frame whose image carries that handle,
//! and is dropped by the session if the engine rejects the unit it came with.

use vstd::hash_map::HashMapWithView;
use vstd::prelude::*;

use crate::encoder::{after_drain, yields, Cursor};
use crate::error::{
    check_status, status_result, AomError, Operation, AOM_CODEC_MEM_ERROR, AOM_CODEC_OK,
};
use crate::image::{frame_from_img, Frame, NativeImage, AOM_IMG_FMT_I42016};

verus! {

broadcast use vstd::std_specs::hash::group_hash_axioms;

/// One submission to the decoder: compressed bytes (empty for the end of the
/// stream) and the handle of the attached user data (0 for none).
pub struct DecodeCall<'a> {
    pub data: &'a [u8],
    pub user_priv: u64,
}

/// What retrieving the user data under handle `h` from `m` gives.
pub open spec fn taken<T>(m: Map<u64, T>, h: u64) -> Option<T> {
    if m.contains_key(h) {
        Some(m[h])
    } else {
        None
    }
}

/// The attached user data after a submission under handle `h` returned
/// `status`: kept if the engine accepted the unit, dropped otherwise.
pub open spec fn after_status<T>(m: Map<u64, T>, h: u64, status: u32) -> Map<u64, T> {
    if status == AOM_CODEC_OK {
        m
    } else {
        m.remove(h)
    }
}

/// A decoder session over one live engine context, holding the user data of
/// the units submitted and not yet retrieved.
#[verifier::reject_recursive_types(T)]
pub struct AV1Decoder<T> {
    cursor: Cursor,
    next_handle: u64,
    attached: HashMapWithView<u64, T>,
}

impl<T> AV1Decoder<T> {
    /// Where the drain of the current submission stands.
    pub closed spec fn state(&self) -> Cursor {
        self.cursor
    }

    /// The user data held, by handle.
    pub closed spec fn pending(&self) -> Map<u64, T> {
        self.attached@
    }

    /// The handle the next attached user data will get.
    pub closed spec fn next_handle(&self) -> u64 {
        self.next_handle
    }

    /// Every held handle is non-zero and below the next handle.
    pub closed spec fn wf(&self) -> bool {
        &&& self.next_handle >= 1
        &&& forall|h: u64| #[trigger] self.attached@.contains_key(h) ==> 0 < h < self.next_handle
    }

    /// The session for a context whose creation returned `status`.
    ///
    /// Fails with `InitError` carrying the status when it is not the
    /// success status.
    pub fn new(status: u32) -> (r: Result<AV1Decoder<T>, AomError>)
        ensures
            status == AOM_CODEC_OK ==> {
                &&& r is Ok
                &&& r->Ok_0.wf()
                &&& r->Ok_0.state() == Cursor::Start
                &&& r->Ok_0.pending() == Map::<u64, T>::empty()
                &&& r->Ok_0.next_handle() == 1
            },
            status != AOM_CODEC_OK ==> r is Err && r->Err_0 == AomError::InitError(status),
    {
        match check_status(Operation::Init, status) {
            Ok(()) => Ok(
                AV1Decoder { cursor: Cursor::Start, next_handle: 1, attached: HashMapWithView::new() },
            ),
            Err(e) => Err(e),
        }
    }

    /// The submission of compressed `data`, with optional user data to get
    /// back with the frame it decodes to. The drain cursor is reset.
    ///
    /// The user data is kept under a fresh non-zero handle, which the
    /// submission carries. Only when no handle is left does this fail, with
    /// `DecodeError`, dropping the user data.
    pub fn decode<'a>(&mut self, data: &'a [u8], private: Option<T>) -> (r: Result<
        DecodeCall<'a>,
        AomError,
    >)
        requires
            old(self).wf(),
        ensures
            final(self).wf(),
            final(self).state() == Cursor::Start,
            private is None ==> {
                &&& r is Ok
                &&& r->Ok_0.data@ == data@
                &&& r->Ok_0.user_priv == 0
                &&& final(self).pending() == old(self).pending()
                &&& final(self).next_handle() == old(self).next_handle()
            },
            private is Some && old(self).next_handle() < u64::MAX ==> {
                &&& r is Ok
                &&& r->Ok_0.data@ == data@
                &&& r->Ok_0.user_priv == old(self).next_handle()
                &&& !old(self).pending().contains_key(old(self).next_handle())
                &&& final(self).next_handle() == old(self).next_handle() + 1
                &&& final(self).pending() == old(self).pending().insert(
                    old(self).next_handle(),
                    private->Some_0,
                )
            },
            private is Some && old(self).next_handle() == u64::MAX ==> {
                &&& r is Err
                &&& r->Err_0 == AomError::DecodeError(AOM_CODEC_MEM_ERROR)
                &&& final(self).pending() == old(self).pending()
                &&& final(self).next_handle() == old(self).next_handle()
            },
    {
        self.cursor = Cursor::Start;
        match private {
            None => Ok(DecodeCall { data, user_priv: 0 }),
            Some(v) => {
                if self.next_handle == u64::MAX {
                    return Err(AomError::DecodeError(AOM_CODEC_MEM_ERROR));
                }
                let h = self.next_handle;
                self.attached.insert(h, v);
                self.next_handle = h + 1;
                Ok(DecodeCall { data, user_priv: h })
            },
        }
    }

    /// The submission that asks the engine for any frames it still holds.
    /// The drain cursor is reset.
    pub fn flush(&mut self) -> (call: DecodeCall<'static>)
        requires
            old(self).wf(),
        ensures
            final(self).wf(),
            final(self).state() == Cursor::Start,
            final(self).pending() == old(self).pending(),
            final(self).next_handle() == old(self).next_handle(),
            call.data@.len() == 0,
            call.user_priv == 0,
    {
        self.cursor = Cursor::Start;
        DecodeCall { data: &[], user_priv: 0 }
    }

    /// What a submission that returned `status` amounts to: `DecodeError`
    /// carrying any status but success. When the engine rejected the unit,
    /// its user data is reclaimed and dropped here, since the engine will
    /// never hand its handle back.
    pub fn decode_status(&mut self, call: &DecodeCall, status: u32) -> (r: Result<(), AomError>)
        requires
            old(self).wf(),
        ensures
            final(self).wf(),
            final(self).state() == old(self).state(),
            final(self).next_handle() == old(self).next_handle(),
            r == status_result(Operation::Decode, status),
            final(self).pending() == after_status(old(self).pending(), call.user_priv, status),
            call.user_priv == 0 ==> final(self).pending() == old(self).pending(),
    {
        let r = check_status(Operation::Decode, status);
        if status != AOM_CODEC_OK && call.user_priv != 0 {
            let _ = self.attached.remove(&call.user_priv);
        }
        r
    }

    /// Whether the engine should be asked for the next frame: false once
    /// the drain of the current submission came up empty.
    pub fn needs_frame(&self) -> (r: bool)
        ensures
            r == (self.state() != Cursor::Exhausted),
    {
        self.cursor != Cursor::Exhausted
    }

    /// One drain step, given what the engine's frame iterator returned.
    ///
    /// An image is copied into a fresh frame and paired with the user data
    /// its handle names, which leaves the session for good. Returns `None`
    /// once nothing is pending; an empty drain is never an error, and after
    /// it every drain returns `None` until the next submission. An image that
    /// cannot be copied is an error; its user data is dropped all the same.
    pub fn get_frame(&mut self, img: Option<&NativeImage>) -> (r: Result<
        Option<(Frame, Option<T>)>,
        AomError,
    >)
        requires
            old(self).wf(),
        ensures
            final(self).wf(),
            final(self).next_handle() == old(self).next_handle(),
            final(self).state() == after_drain(old(self).state(), img is Some),
            !yields(old(self).state(), img is Some) ==> {
                &&& r is Ok
                &&& r->Ok_0 is None
                &&& final(self).pending() == old(self).pending()
            },
            yields(old(self).state(), img is Some) ==> {
                let im = img->Some_0;
                &&& final(self).pending() == old(self).pending().remove(im.user_priv)
                &&& im.user_priv == 0 ==> final(self).pending() == old(self).pending()
                &&& r is Ok <==> im.holds_frame()
                &&& r is Ok ==> {
                    &&& r->Ok_0 is Some
                    &&& r->Ok_0->Some_0.0.decoded_from(im)
                    &&& r->Ok_0->Some_0.1 == taken(old(self).pending(), im.user_priv)
                    &&& im.user_priv == 0 ==> r->Ok_0->Some_0.1 is None
                }
                &&& !im.known_format() ==> r is Err && r->Err_0 == AomError::UnsupportedFormat(
                    im.fmt,
                )
                &&& im.known_format() && r is Err ==> r->Err_0 == AomError::InvalidImage
            },
    {
        if self.cursor == Cursor::Exhausted {
            return Ok(None);
        }
        match img {
            None => {
                self.cursor = Cursor::Exhausted;
                Ok(None)
            },
            Some(im) => {
                self.cursor = Cursor::Advanced;
                let data = self.attached.remove(&im.user_priv);
                if im.fmt != AOM_IMG_FMT_I42016 {
                    return Err(AomError::UnsupportedFormat(im.fmt));
                }
                match frame_from_img(im) {
                    Ok(frame) => Ok(Some((frame, data))),
                    Err(e) => Err(e),
                }
            },
        }
    }
}

/// User data attached to a decode call comes back exactly once: when the
/// engine accepts the unit, the first retrieval under its handle returns the
/// data and any later one returns none; when the engine rejects it, no
/// retrieval ever returns it.
pub proof fn lemma_user_data_once<T>(before: Map<u64, T>, h: u64, v: T, status: u32)
    requires
        !before.contains_key(h),
    ensures
        status == AOM_CODEC_OK ==> taken(after_status(before.insert(h, v), h, status), h) == Some(
            v,
        ),
        status == AOM_CODEC_OK ==> taken(
            after_status(before.insert(h, v), h, status).remove(h),
            h,
        ) is None,
        status != AOM_CODEC_OK ==> taken(after_status(before.insert(h, v), h, status), h) is None,
        after_status(before.insert(h, v), h, status).remove(h) =~= before,
{
}

} // verus!
