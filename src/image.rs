//! Frames and the engine's image descriptors, and the conversion both ways.
//!
//! A [`Frame`] owns its pixel storage: one byte buffer per plane, each with
//! its stride. An [`ImageDescriptor`] is the engine-facing view of a frame that
//! is about to be encoded: it borrows the planes and never outlives the frame.
//! A [`NativeImage`] is what the decoder hands out: borrowed plane rows that
//! are copied into a fresh [`Frame`] before the next engine call.

use vstd::arithmetic::mul::lemma_mul_inequality;
use vstd::prelude::*;

use crate::error::AomError;

verus! {

/// Number of planes of every supported format.
pub const PLANES: usize = 3;

/// Largest width or height the engine accepts.
pub const MAX_DIMENSION: usize = 65536;

/// Native format flag: the samples lie in separate planes.
pub const AOM_IMG_FMT_PLANAR: u32 = 0x100;

/// Native format flag: each sample takes two bytes.
pub const AOM_IMG_FMT_HIGHBITDEPTH: u32 = 0x800;

/// Native planar 4:2:0 format with one byte per sample.
pub const AOM_IMG_FMT_I420: u32 = 0x102;

/// Native planar 4:2:0 format with two bytes per sample.
pub const AOM_IMG_FMT_I42016: u32 = 0x902;

/// Pixel formats a frame can have. Each one has a native counterpart.
#[derive(Clone, Copy, Debug, PartialEq, Eq, Structural)]
pub enum PixelFormat {
    /// Planar YUV, chroma halved in both directions, one byte per sample.
    Yuv420,
    /// Planar YUV, chroma halved in both directions, two bytes per sample.
    Yuv420P16,
}

/// The three color-metadata values carried with a picture.
#[derive(Clone, Copy, Debug, PartialEq, Eq, Structural)]
pub struct ColorInfo {
    pub primaries: u32,
    pub transfer: u32,
    pub matrix: u32,
}

/// The native format value of a pixel format.
pub open spec fn native_format(f: PixelFormat) -> u32 {
    match f {
        PixelFormat::Yuv420 => AOM_IMG_FMT_I420,
        PixelFormat::Yuv420P16 => AOM_IMG_FMT_I42016,
    }
}

/// Bytes per sample.
pub open spec fn sample_bytes(f: PixelFormat) -> int {
    match f {
        PixelFormat::Yuv420 => 1,
        PixelFormat::Yuv420P16 => 2,
    }
}

/// Samples along one side of plane `p`, for a picture `n` samples long on that side.
pub open spec fn plane_dim(n: int, p: int) -> int {
    if p == 0 {
        n
    } else {
        (n + 1) / 2
    }
}

/// Bytes in one row of plane `p` of a picture `w` samples wide.
pub open spec fn row_bytes(f: PixelFormat, w: int, p: int) -> int {
    plane_dim(w, p) * sample_bytes(f)
}

/// Whether a picture of format `f` and size `w` by `h` is within the engine's
/// limits and its tightly packed planes can be held in memory.
pub open spec fn layout_fits(f: PixelFormat, w: int, h: int) -> bool {
    &&& 0 < w <= MAX_DIMENSION
    &&& 0 < h <= MAX_DIMENSION
    &&& row_bytes(f, w, 0) * h <= usize::MAX
}

/// Whether a buffer of `len` bytes with the given stride holds every row of
/// plane `p` of a picture of format `f` and size `w` by `h`.
pub open spec fn plane_fits(f: PixelFormat, w: int, h: int, p: int, stride: int, len: int) -> bool {
    &&& row_bytes(f, w, p) <= stride <= i32::MAX
    &&& (plane_dim(h, p) - 1) * stride + row_bytes(f, w, p) <= len
}

/// The first `rows` rows of `row_bytes` bytes each, read from `src` at the
/// given stride and laid end to end.
pub open spec fn packed_rows(src: Seq<u8>, stride: int, row_bytes: int, rows: nat) -> Seq<u8>
    decreases rows,
{
    if rows == 0 {
        Seq::empty()
    } else {
        let y = rows - 1;
        packed_rows(src, stride, row_bytes, (rows - 1) as nat) + src.subrange(
            y * stride,
            y * stride + row_bytes,
        )
    }
}

/// One uncompressed picture with its own pixel storage.
pub struct Frame {
    pub format: PixelFormat,
    pub width: usize,
    pub height: usize,
    pub color: ColorInfo,
    /// One buffer per plane: luma, then the two chroma planes.
    pub planes: Vec<Vec<u8>>,
    /// Bytes from the start of one row to the start of the next, per plane.
    pub strides: Vec<usize>,
    /// Presentation timestamp, in the stream's timebase.
    pub pts: Option<i64>,
}

impl Frame {
    /// A frame whose planes hold all of its rows at their strides.
    pub open spec fn wf(&self) -> bool {
        &&& layout_fits(self.format, self.width as int, self.height as int)
        &&& self.planes@.len() == PLANES
        &&& self.strides@.len() == PLANES
        &&& forall|p: int|
            0 <= p < PLANES ==> plane_fits(
                self.format,
                self.width as int,
                self.height as int,
                p,
                self.strides@[p] as int,
                #[trigger] self.planes@[p]@.len() as int,
            )
    }

    /// A frame of the given format and size, every sample zero, rows packed
    /// without padding, default color metadata.
    pub fn new(format: PixelFormat, width: usize, height: usize, pts: Option<i64>) -> (r: Frame)
        requires
            layout_fits(format, width as int, height as int),
        ensures
            r.wf(),
            r.format == format,
            r.width == width,
            r.height == height,
            r.pts == pts,
            r.color == (ColorInfo { primaries: 0, transfer: 0, matrix: 0 }),
            forall|p: int|
                #![trigger r.planes@[p]]
                0 <= p < PLANES ==> r.strides@[p] as int == row_bytes(format, width as int, p)
                    && forall|i: int|
                    0 <= i < r.planes@[p]@.len() ==> r.planes@[p]@[i] == 0u8,
    {
        let mut planes: Vec<Vec<u8>> = Vec::new();
        let mut strides: Vec<usize> = Vec::new();
        let mut p: usize = 0;
        while p < PLANES
            invariant
                p <= PLANES,
                layout_fits(format, width as int, height as int),
                planes@.len() == p,
                strides@.len() == p,
                forall|q: int|
                    0 <= q < p ==> #[trigger] strides@[q] as int == row_bytes(format, width as int, q),
                forall|q: int|
                    #![trigger planes@[q]]
                    0 <= q < p ==> plane_fits(
                        format,
                        width as int,
                        height as int,
                        q,
                        strides@[q] as int,
                        planes@[q]@.len() as int,
                    ) && forall|i: int| 0 <= i < planes@[q]@.len() ==> planes@[q]@[i] == 0u8,
            decreases PLANES - p,
        {
            let rb = plane_row_bytes(format, width, p);
            let rows = plane_rows(height, p);
            proof {
                lemma_plane_size_bounded(format, width as int, height as int, p as int);
            }
            let len = rb * rows;
            let buf = zeroed(len);
            proof {
                assert((rows - 1) * rb + rb == rb * rows) by (nonlinear_arith);
            }
            let ghost old_planes = planes@;
            let ghost old_strides = strides@;
            planes.push(buf);
            strides.push(rb);
            proof {
                assert forall|q: int| #![trigger planes@[q]] 0 <= q < p + 1 implies (plane_fits(
                    format,
                    width as int,
                    height as int,
                    q,
                    strides@[q] as int,
                    planes@[q]@.len() as int,
                ) && forall|i: int| 0 <= i < planes@[q]@.len() ==> planes@[q]@[i] == 0u8) by {
                    if q < p {
                        assert(planes@[q] == old_planes[q]);
                        assert(strides@[q] == old_strides[q]);
                    } else {
                        assert(planes@[q] == buf);
                        assert(strides@[q] == rb);
                        assert(q == p);
                        assert(plane_fits(format, width as int, height as int, q, rb as int, len as int));
                    }
                }
            }
            p = p + 1;
        }
        Frame {
            format,
            width,
            height,
            color: ColorInfo { primaries: 0, transfer: 0, matrix: 0 },
            planes,
            strides,
            pts,
        }
    }
}

/// The engine-facing description of a frame about to be encoded.
///
/// It borrows the frame's planes, so it cannot outlive the frame, and is
/// built afresh for every call.
pub struct ImageDescriptor<'a> {
    pub fmt: u32,
    pub w: u32,
    pub h: u32,
    pub d_w: u32,
    pub d_h: u32,
    pub bit_depth: u32,
    pub bps: u32,
    pub x_chroma_shift: u32,
    pub y_chroma_shift: u32,
    pub cp: u32,
    pub tc: u32,
    pub mc: u32,
    pub planes: Vec<&'a [u8]>,
    pub stride: Vec<i32>,
}

impl<'a> ImageDescriptor<'a> {
    /// This descriptor describes `f`: its format, size and color metadata,
    /// and each of its planes with that plane's stride.
    pub open spec fn describes(&self, f: &Frame) -> bool {
        &&& self.fmt == native_format(f.format)
        &&& self.w as int == f.width as int && self.d_w as int == f.width as int
        &&& self.h as int == f.height as int && self.d_h as int == f.height as int
        &&& self.bit_depth == 8 * sample_bytes(f.format)
        &&& self.bps == 12 * sample_bytes(f.format)
        &&& self.x_chroma_shift == 1 && self.y_chroma_shift == 1
        &&& self.cp == f.color.primaries && self.tc == f.color.transfer
            && self.mc == f.color.matrix
        &&& self.planes@.len() == PLANES && self.stride@.len() == PLANES
        &&& forall|p: int|
            #![trigger self.planes@[p]]
            0 <= p < PLANES ==> self.planes@[p]@ == f.planes@[p]@ && self.stride@[p] as int
                == f.strides@[p] as int
    }
}

/// The native format value of `f`.
pub fn native_format_of(f: PixelFormat) -> (r: u32)
    ensures
        r == native_format(f),
{
    match f {
        PixelFormat::Yuv420 => AOM_IMG_FMT_I420,
        PixelFormat::Yuv420P16 => AOM_IMG_FMT_I42016,
    }
}

/// Builds the descriptor of a frame: its native format, size, sample depth,
/// chroma subsampling and color metadata, and a borrowed view of each plane
/// with its stride.
pub fn img_from_frame<'a>(frame: &'a Frame) -> (r: ImageDescriptor<'a>)
    requires
        frame.wf(),
    ensures
        r.describes(frame),
{
    let (bit_depth, bps): (u32, u32) = match frame.format {
        PixelFormat::Yuv420 => (8, 12),
        PixelFormat::Yuv420P16 => (16, 24),
    };
    let mut planes: Vec<&'a [u8]> = Vec::new();
    let mut stride: Vec<i32> = Vec::new();
    let mut p: usize = 0;
    while p < PLANES
        invariant
            frame.wf(),
            p <= PLANES,
            planes@.len() == p,
            stride@.len() == p,
            forall|q: int|
                #![trigger planes@[q]]
                0 <= q < p ==> planes@[q]@ == frame.planes@[q]@,
            forall|q: int| 0 <= q < p ==> #[trigger] stride@[q] as int == frame.strides@[q] as int,
        decreases PLANES - p,
    {
        assert(plane_fits(
            frame.format,
            frame.width as int,
            frame.height as int,
            p as int,
            frame.strides@[p as int] as int,
            frame.planes@[p as int]@.len() as int,
        ));
        planes.push(frame.planes[p].as_slice());
        stride.push(frame.strides[p] as i32);
        p = p + 1;
    }
    ImageDescriptor {
        fmt: native_format_of(frame.format),
        w: frame.width as u32,
        h: frame.height as u32,
        d_w: frame.width as u32,
        d_h: frame.height as u32,
        bit_depth,
        bps,
        x_chroma_shift: 1,
        y_chroma_shift: 1,
        cp: frame.color.primaries,
        tc: frame.color.transfer,
        mc: frame.color.matrix,
        planes,
        stride,
    }
}

/// A picture as the decoder hands it out: native format and bit depth,
/// displayed size, color metadata, borrowed plane rows with their strides,
/// and the handle of the user data attached to the compressed unit it came
/// from (0 for none).
///
/// The decoder hands out two-byte samples (`AOM_IMG_FMT_I42016`), in
/// little-endian byte order, whatever the stream's bit depth; for an 8-bit
/// stream the first byte of each sample holds its value.
pub struct NativeImage<'a> {
    pub fmt: u32,
    pub bit_depth: u32,
    pub d_w: u32,
    pub d_h: u32,
    pub cp: u32,
    pub tc: u32,
    pub mc: u32,
    pub planes: Vec<&'a [u8]>,
    pub stride: Vec<i32>,
    pub user_priv: u64,
}

/// The pixel format a decoded image of native format `fmt` and bit depth
/// `bit_depth` becomes: two-byte 4:2:0 images are 8-bit frames when their
/// bit depth is 8 and two-byte frames otherwise; other formats have none.
pub open spec fn decoded_format(fmt: u32, bit_depth: u32) -> Option<PixelFormat> {
    if fmt == AOM_IMG_FMT_I42016 {
        if bit_depth == 8 {
            Some(PixelFormat::Yuv420)
        } else {
            Some(PixelFormat::Yuv420P16)
        }
    } else {
        None
    }
}

/// The first `rows` rows of `samples` two-byte samples each, read from `src`
/// at the given stride, each sample narrowed to its first (low) byte, laid
/// end to end.
pub open spec fn narrowed_rows(src: Seq<u8>, stride: int, samples: int, rows: nat) -> Seq<u8>
    decreases rows,
{
    if rows == 0 {
        Seq::empty()
    } else {
        let y = rows - 1;
        narrowed_rows(src, stride, samples, (rows - 1) as nat) + Seq::new(
            samples as nat,
            |x: int| src[y * stride + 2 * x],
        )
    }
}

impl<'a> NativeImage<'a> {
    /// The image's format is the one the decoder hands out.
    pub open spec fn known_format(&self) -> bool {
        self.fmt == AOM_IMG_FMT_I42016
    }

    /// The pixel format of the frame this image becomes.
    pub open spec fn frame_format(&self) -> PixelFormat {
        decoded_format(self.fmt, self.bit_depth)->0
    }

    /// The image has the decoder's format, a size within the engine's
    /// limits, and planes that hold every row of two-byte samples of that
    /// size at their strides.
    pub open spec fn holds_frame(&self) -> bool {
        &&& self.known_format()
        &&& layout_fits(self.frame_format(), self.d_w as int, self.d_h as int)
        &&& self.planes@.len() >= PLANES
        &&& self.stride@.len() >= PLANES
        &&& forall|p: int|
            0 <= p < PLANES ==> plane_fits(
                PixelFormat::Yuv420P16,
                self.d_w as int,
                self.d_h as int,
                p,
                self.stride@[p] as int,
                #[trigger] self.planes@[p]@.len() as int,
            )
    }
}

/// The bytes plane `p` of a frame of format `f` and size `w` by `h` decoded
/// from `img` holds: the image's rows packed without padding, each sample
/// narrowed to one byte for an 8-bit frame and kept whole otherwise.
pub open spec fn decoded_plane(img: &NativeImage, f: PixelFormat, w: int, h: int, p: int) -> Seq<
    u8,
> {
    if f == PixelFormat::Yuv420 {
        narrowed_rows(img.planes@[p]@, img.stride@[p] as int, plane_dim(w, p), plane_dim(h, p) as nat)
    } else {
        packed_rows(img.planes@[p]@, img.stride@[p] as int, row_bytes(f, w, p), plane_dim(h, p) as nat)
    }
}

impl Frame {

    /// This frame is the copy of `img`: the format its bit depth gives, same
    /// size and color metadata, no timestamp, and each plane holds the
    /// image's rows packed without padding.
    pub open spec fn decoded_from(&self, img: &NativeImage) -> bool {
        &&& self.wf()
        &&& decoded_format(img.fmt, img.bit_depth) == Some(self.format)
        &&& self.width as int == img.d_w as int && self.height as int == img.d_h as int
        &&& self.color == (ColorInfo { primaries: img.cp, transfer: img.tc, matrix: img.mc })
        &&& self.pts is None
        &&& forall|p: int|
            0 <= p < PLANES ==> #[trigger] self.strides@[p] as int == row_bytes(
                self.format,
                self.width as int,
                p,
            ) && self.planes@[p]@ == decoded_plane(
                img,
                self.format,
                self.width as int,
                self.height as int,
                p,
            )
    }
}

/// Decides whether plane `p` of an image with the given stride and buffer
/// length holds all of its rows.
fn plane_holds(
    f: PixelFormat,
    width: usize,
    height: usize,
    p: usize,
    stride: i32,
    len: usize,
) -> (r: bool)
    requires
        0 < width <= MAX_DIMENSION,
        0 < height <= MAX_DIMENSION,
        p < PLANES,
    ensures
        r == plane_fits(f, width as int, height as int, p as int, stride as int, len as int),
{
    let rb = plane_row_bytes(f, width, p);
    let rows = plane_rows(height, p);
    proof {
        lemma_plane_size_bounded(f, width as int, height as int, p as int);
    }
    if (stride as i64) < (rb as i64) {
        return false;
    }
    proof {
        assert((rows - 1) * stride <= MAX_DIMENSION * i32::MAX) by (nonlinear_arith)
            requires
                0 <= rows - 1 < MAX_DIMENSION,
                0 <= stride <= i32::MAX,
        ;
    }
    let need: u64 = ((rows - 1) as u64) * (stride as u64) + (rb as u64);
    need <= len as u64
}

/// The rows of one plane, read at `stride` and packed without padding.
fn copy_plane(src: &[u8], stride: usize, rb: usize, rows: usize) -> (r: Vec<u8>)
    requires
        0 < rb <= stride,
        0 < rows,
        (rows - 1) * stride + rb <= src@.len(),
    ensures
        r@ == packed_rows(src@, stride as int, rb as int, rows as nat),
{
    let n = src.len();
    let mut out: Vec<u8> = Vec::new();
    let mut y: usize = 0;
    while y < rows
        invariant
            n == src@.len(),
            0 < rb <= stride,
            y <= rows,
            (rows - 1) * stride + rb <= src@.len(),
            out@ == packed_rows(src@, stride as int, rb as int, y as nat),
        decreases rows - y,
    {
        proof {
            lemma_mul_inequality(y as int, rows - 1, stride as int);
        }
        let start = y * stride;
        let mut x: usize = 0;
        while x < rb
            invariant
                n == src@.len(),
                x <= rb,
                start + rb <= src@.len(),
                out@ == packed_rows(src@, stride as int, rb as int, y as nat) + src@.subrange(
                    start as int,
                    start + x,
                ),
            decreases rb - x,
        {
            out.push(src[start + x]);
            proof {
                assert(src@.subrange(start as int, start + x + 1) =~= src@.subrange(
                    start as int,
                    start + x,
                ).push(src@[start + x]));
            }
            x = x + 1;
        }
        y = y + 1;
    }
    out
}

/// The rows of one plane of two-byte samples, read at `stride`, each sample
/// narrowed to its first byte, packed without padding.
fn narrow_plane(src: &[u8], stride: usize, samples: usize, rows: usize) -> (r: Vec<u8>)
    requires
        0 < samples,
        2 * samples <= stride,
        0 < rows,
        (rows - 1) * stride + 2 * samples <= src@.len(),
    ensures
        r@ == narrowed_rows(src@, stride as int, samples as int, rows as nat),
{
    let n = src.len();
    let mut out: Vec<u8> = Vec::new();
    let mut y: usize = 0;
    while y < rows
        invariant
            n == src@.len(),
            0 < samples,
            2 * samples <= stride,
            y <= rows,
            (rows - 1) * stride + 2 * samples <= src@.len(),
            out@ == narrowed_rows(src@, stride as int, samples as int, y as nat),
        decreases rows - y,
    {
        proof {
            lemma_mul_inequality(y as int, rows - 1, stride as int);
        }
        let start = y * stride;
        let ghost row = Seq::new(samples as nat, |x: int| src@[y * stride + 2 * x]);
        let mut x: usize = 0;
        while x < samples
            invariant
                n == src@.len(),
                x <= samples,
                start == y * stride,
                start + 2 * samples <= src@.len(),
                row == Seq::new(samples as nat, |i: int| src@[y * stride + 2 * i]),
                out@ == narrowed_rows(src@, stride as int, samples as int, y as nat)
                    + row.subrange(0, x as int),
            decreases samples - x,
        {
            out.push(src[start + 2 * x]);
            proof {
                assert(row.subrange(0, x + 1) =~= row.subrange(0, x as int).push(row[x as int]));
            }
            x = x + 1;
        }
        proof {
            assert(row.subrange(0, samples as int) =~= row);
        }
        y = y + 1;
    }
    out
}

/// Copies a decoded image into a fresh frame.
///
/// The image must have the decoder's two-byte format; any other format is a
/// caller's error, ruled out here. The copy fails with `InvalidImage` unless
/// the size is within the engine's limits and the planes hold all of their
/// rows at their strides.
/// An image of bit depth 8 becomes an 8-bit frame, each sample narrowed to
/// its value's byte; any other becomes a two-byte frame. Each row is copied,
/// so the frame never aliases the image.
pub fn frame_from_img(img: &NativeImage) -> (r: Result<Frame, AomError>)
    requires
        img.known_format(),
    ensures
        r is Ok <==> img.holds_frame(),
        r is Err ==> r == Err::<Frame, AomError>(AomError::InvalidImage),
        r is Ok ==> r->Ok_0.decoded_from(img),
{
    let format = if img.bit_depth == 8 {
        PixelFormat::Yuv420
    } else {
        PixelFormat::Yuv420P16
    };
    let width = img.d_w as usize;
    let height = img.d_h as usize;
    if !frame_layout_fits(format, width, height) {
        return Err(AomError::InvalidImage);
    }
    if img.planes.len() < PLANES || img.stride.len() < PLANES {
        return Err(AomError::InvalidImage);
    }
    let mut planes: Vec<Vec<u8>> = Vec::new();
    let mut strides: Vec<usize> = Vec::new();
    let mut p: usize = 0;
    while p < PLANES
        invariant
            p <= PLANES,
            img.known_format(),
            decoded_format(img.fmt, img.bit_depth) == Some(format),
            width as int == img.d_w as int && height as int == img.d_h as int,
            layout_fits(format, width as int, height as int),
            img.planes@.len() >= PLANES && img.stride@.len() >= PLANES,
            forall|q: int|
                #![trigger img.planes@[q]]
                0 <= q < p ==> plane_fits(
                    PixelFormat::Yuv420P16,
                    width as int,
                    height as int,
                    q,
                    img.stride@[q] as int,
                    img.planes@[q]@.len() as int,
                ),
            planes@.len() == p,
            strides@.len() == p,
            forall|q: int|
                0 <= q < p ==> #[trigger] strides@[q] as int == row_bytes(format, width as int, q),
            forall|q: int|
                0 <= q < p ==> #[trigger] planes@[q]@ == decoded_plane(
                    img,
                    format,
                    width as int,
                    height as int,
                    q,
                ),
            forall|q: int|
                0 <= q < p ==> (#[trigger] planes@[q]@).len() == row_bytes(
                    format,
                    width as int,
                    q,
                ) * plane_dim(height as int, q),
        decreases PLANES - p,
    {
        let src = img.planes[p];
        let s = img.stride[p];
        if !plane_holds(PixelFormat::Yuv420P16, width, height, p, s, src.len()) {
            return Err(AomError::InvalidImage);
        }
        let rb = plane_row_bytes(format, width, p);
        let rows = plane_rows(height, p);
        let samples = plane_row_bytes(PixelFormat::Yuv420, width, p);
        proof {
            lemma_plane_size_bounded(format, width as int, height as int, p as int);
            lemma_plane_size_bounded(PixelFormat::Yuv420P16, width as int, height as int, p as int);
        }
        let plane = if img.bit_depth == 8 {
            let v = narrow_plane(src, s as usize, samples, rows);
            proof {
                lemma_narrowed_rows_len(src@, s as int, samples as int, rows as nat);
                assert(rows * samples == rb * rows) by (nonlinear_arith)
                    requires
                        samples == rb,
                ;
                assert(v@ == decoded_plane(img, format, width as int, height as int, p as int));
            }
            v
        } else {
            let v = copy_plane(src, s as usize, rb, rows);
            proof {
                lemma_packed_rows_len(src@, s as int, rb as int, rows as nat);
                assert(rows * rb == rb * rows) by (nonlinear_arith);
                assert(v@ == decoded_plane(img, format, width as int, height as int, p as int));
            }
            v
        };
        planes.push(plane);
        strides.push(rb);
        p = p + 1;
    }
    let frame = Frame {
        format,
        width,
        height,
        color: ColorInfo { primaries: img.cp, transfer: img.tc, matrix: img.mc },
        planes,
        strides,
        pts: None,
    };
    proof {
        assert forall|q: int| 0 <= q < PLANES implies #[trigger] plane_fits(
            format,
            width as int,
            height as int,
            q,
            frame.strides@[q] as int,
            frame.planes@[q]@.len() as int,
        ) by {
            lemma_plane_size_bounded(format, width as int, height as int, q);
            let rb = row_bytes(format, width as int, q);
            let rows = plane_dim(height as int, q);
            assert(rb * rows == (rows - 1) * rb + rb) by (nonlinear_arith);
        }
        assert(img.holds_frame());
        assert(frame.decoded_from(img));
    }
    Ok(frame)
}

/// Packed rows take `rows` times `row_bytes` bytes.
proof fn lemma_packed_rows_len(src: Seq<u8>, stride: int, row_bytes: int, rows: nat)
    requires
        0 <= row_bytes <= stride,
        rows > 0 ==> (rows - 1) * stride + row_bytes <= src.len(),
    ensures
        packed_rows(src, stride, row_bytes, rows).len() == rows * row_bytes,
    decreases rows,
{
    if rows > 0 {
        let y = rows - 1;
        if y > 0 {
            lemma_mul_inequality(y - 1, y, stride);
            assert((y - 1) * stride + row_bytes <= y * stride + row_bytes);
        }
        lemma_packed_rows_len(src, stride, row_bytes, (rows - 1) as nat);
        assert(0 <= y * stride) by (nonlinear_arith)
            requires
                y >= 0,
                stride >= 0,
        ;
        assert(rows * row_bytes == y * row_bytes + row_bytes) by (nonlinear_arith)
            requires
                y == rows - 1,
        ;
    }
}

/// Narrowed rows take `rows` times `samples` bytes.
proof fn lemma_narrowed_rows_len(src: Seq<u8>, stride: int, samples: int, rows: nat)
    requires
        0 <= samples,
    ensures
        narrowed_rows(src, stride, samples, rows).len() == rows * samples,
    decreases rows,
{
    if rows > 0 {
        let y = rows - 1;
        lemma_narrowed_rows_len(src, stride, samples, (rows - 1) as nat);
        let row = Seq::new(samples as nat, |x: int| src[y * stride + 2 * x]);
        assert(narrowed_rows(src, stride, samples, rows) == narrowed_rows(
            src,
            stride,
            samples,
            (rows - 1) as nat,
        ) + row);
        assert(row.len() == samples);
        assert(rows * samples == (rows - 1) * samples + samples) by (nonlinear_arith);
    } else {
        assert(rows * samples == 0) by (nonlinear_arith)
            requires
                rows == 0,
        ;
    }
}

/// Encoding a frame and decoding what comes back keeps its shape.
///
/// The decoder hands out two-byte images; when it reports the displayed size
/// the frame's descriptor gave, and a bit depth of 8 exactly when the frame
/// had one-byte samples (the stream's depth follows its source), the decoded
/// frame has the original format, width and height.
pub proof fn lemma_round_trip_shape(
    original: &Frame,
    sent: &ImageDescriptor,
    received: &NativeImage,
    decoded: &Frame,
)
    requires
        original.wf(),
        sent.describes(original),
        received.fmt == AOM_IMG_FMT_I42016,
        received.bit_depth == 8 <==> original.format == PixelFormat::Yuv420,
        received.d_w == sent.d_w,
        received.d_h == sent.d_h,
        decoded.decoded_from(received),
    ensures
        decoded.format == original.format,
        decoded.width == original.width,
        decoded.height == original.height,
{
}

/// A buffer of `len` zero bytes.
fn zeroed(len: usize) -> (r: Vec<u8>)
    ensures
        r@.len() == len,
        forall|j: int| 0 <= j < len ==> r@[j] == 0u8,
{
    let mut buf: Vec<u8> = Vec::new();
    let mut i: usize = 0;
    while i < len
        invariant
            i <= len,
            buf@.len() == i,
            forall|j: int| 0 <= j < i ==> buf@[j] == 0u8,
        decreases len - i,
    {
        buf.push(0u8);
        i = i + 1;
    }
    buf
}

/// Every plane of a picture within the engine's limits is no larger than
/// its luma plane, and fits in memory when the whole layout does.
proof fn lemma_plane_size_bounded(f: PixelFormat, w: int, h: int, p: int)
    requires
        0 < w <= MAX_DIMENSION,
        0 < h <= MAX_DIMENSION,
        0 <= p < PLANES,
    ensures
        0 < row_bytes(f, w, p) <= row_bytes(f, w, 0) <= 2 * MAX_DIMENSION,
        row_bytes(PixelFormat::Yuv420P16, w, p) == 2 * row_bytes(PixelFormat::Yuv420, w, p),
        0 < plane_dim(h, p) <= h,
        layout_fits(f, w, h) ==> row_bytes(f, w, p) * plane_dim(h, p) <= usize::MAX,
{
    let rb = row_bytes(f, w, p);
    let rows = plane_dim(h, p);
    let sb = sample_bytes(f);
    assert(row_bytes(PixelFormat::Yuv420P16, w, p) == plane_dim(w, p) * 2);
    assert(row_bytes(PixelFormat::Yuv420, w, p) == plane_dim(w, p) * 1);
    assert(plane_dim(w, p) <= w);
    assert(0 < plane_dim(w, p));
    assert(0 < plane_dim(w, p) * sb) by (nonlinear_arith)
        requires
            0 < plane_dim(w, p),
            0 < sb,
    ;
    assert(w * sb <= 2 * MAX_DIMENSION) by (nonlinear_arith)
        requires
            0 < w <= MAX_DIMENSION,
            0 < sb <= 2,
    ;
    lemma_mul_inequality(plane_dim(w, p), w, sample_bytes(f));
    lemma_mul_inequality(rows, h, rb);
    lemma_mul_inequality(rb, row_bytes(f, w, 0), h);
    assert(rb * rows == rows * rb) by (nonlinear_arith);
}

/// Bytes in one row of plane `p`.
pub fn plane_row_bytes(format: PixelFormat, width: usize, p: usize) -> (r: usize)
    requires
        0 < width <= MAX_DIMENSION,
    ensures
        r == row_bytes(format, width as int, p as int),
{
    let samples = if p == 0 {
        width
    } else {
        (width + 1) / 2
    };
    match format {
        PixelFormat::Yuv420 => samples,
        PixelFormat::Yuv420P16 => samples * 2,
    }
}

/// Number of rows of plane `p`.
pub fn plane_rows(height: usize, p: usize) -> (r: usize)
    requires
        0 < height <= MAX_DIMENSION,
    ensures
        r == plane_dim(height as int, p as int),
{
    if p == 0 {
        height
    } else {
        (height + 1) / 2
    }
}

/// Decides whether a picture of the given format and size is within the
/// engine's limits and fits in memory.
pub fn frame_layout_fits(format: PixelFormat, width: usize, height: usize) -> (r: bool)
    ensures
        r == layout_fits(format, width as int, height as int),
{
    if width == 0 || width > MAX_DIMENSION || height == 0 || height > MAX_DIMENSION {
        return false;
    }
    let rb = plane_row_bytes(format, width, 0);
    rb.checked_mul(height).is_some()
}

} // verus!
