use libaom::error::AomError;
use libaom::image::{
    frame_from_img, frame_layout_fits, img_from_frame, plane_row_bytes, plane_rows, ColorInfo,
    Frame, NativeImage, PixelFormat, AOM_IMG_FMT_I420, AOM_IMG_FMT_I42016, MAX_DIMENSION,
};

#[test]
fn plane_sizes() {
    assert_eq!(plane_row_bytes(PixelFormat::Yuv420, 200, 0), 200);
    assert_eq!(plane_row_bytes(PixelFormat::Yuv420, 201, 1), 101);
    assert_eq!(plane_row_bytes(PixelFormat::Yuv420P16, 201, 2), 202);
    assert_eq!(plane_rows(201, 0), 201);
    assert_eq!(plane_rows(201, 1), 101);
}

#[test]
fn layout_limits() {
    assert!(frame_layout_fits(PixelFormat::Yuv420, 1, 1));
    assert!(frame_layout_fits(PixelFormat::Yuv420, MAX_DIMENSION, 2));
    assert!(!frame_layout_fits(PixelFormat::Yuv420, 0, 2));
    assert!(!frame_layout_fits(PixelFormat::Yuv420, 2, 0));
    assert!(!frame_layout_fits(PixelFormat::Yuv420, MAX_DIMENSION + 1, 2));
    assert!(!frame_layout_fits(PixelFormat::Yuv420P16, 2, MAX_DIMENSION + 1));
}

#[test]
fn new_frame_is_zeroed_and_packed() {
    let f = Frame::new(PixelFormat::Yuv420, 5, 3, Some(7));
    assert_eq!(f.strides, vec![5, 3, 3]);
    assert_eq!(f.planes[0].len(), 15);
    assert_eq!(f.planes[1].len(), 6);
    assert_eq!(f.planes[2].len(), 6);
    assert!(f.planes.iter().all(|p| p.iter().all(|b| *b == 0)));
    assert_eq!(f.pts, Some(7));
}

#[test]
fn descriptor_of_frame() {
    let mut f = Frame::new(PixelFormat::Yuv420, 4, 2, Some(0));
    f.color = ColorInfo { primaries: 1, transfer: 13, matrix: 6 };
    f.planes[0][5] = 9;
    let d = img_from_frame(&f);
    assert_eq!(d.fmt, AOM_IMG_FMT_I420);
    assert_eq!((d.w, d.h, d.d_w, d.d_h), (4, 2, 4, 2));
    assert_eq!((d.bit_depth, d.bps), (8, 12));
    assert_eq!((d.x_chroma_shift, d.y_chroma_shift), (1, 1));
    assert_eq!((d.cp, d.tc, d.mc), (1, 13, 6));
    assert_eq!(d.stride, vec![4, 2, 2]);
    assert_eq!(d.planes[0][5], 9);
    assert_eq!(d.planes[1].len(), 2);
}

#[test]
fn descriptor_of_high_bitdepth_frame() {
    let f = Frame::new(PixelFormat::Yuv420P16, 4, 2, Some(0));
    let d = img_from_frame(&f);
    assert_eq!(d.fmt, AOM_IMG_FMT_I42016);
    assert_eq!((d.bit_depth, d.bps), (16, 24));
    assert_eq!(d.stride, vec![8, 4, 4]);
}

/// Two-byte little-endian samples holding the given one-byte values.
fn widen(bytes: &[u8]) -> Vec<u8> {
    bytes.iter().flat_map(|b| [*b, 0]).collect()
}

#[test]
fn decoded_8bit_image_rows_are_narrowed_without_padding() {
    // 3x3 picture of two-byte samples, luma stride 8 (two padding bytes per
    // row), chroma 2x2 with stride 5
    let luma: Vec<u8> =
        vec![1, 0, 2, 0, 3, 0, 99, 99, 4, 0, 5, 0, 6, 0, 99, 99, 7, 0, 8, 0, 9, 0];
    let u: Vec<u8> = vec![10, 0, 11, 0, 99, 12, 0, 13, 0];
    let v: Vec<u8> = vec![20, 0, 21, 0, 99, 22, 0, 23, 0];
    let img = NativeImage {
        fmt: AOM_IMG_FMT_I42016,
        bit_depth: 8,
        d_w: 3,
        d_h: 3,
        cp: 2,
        tc: 2,
        mc: 2,
        planes: vec![&luma[..], &u[..], &v[..]],
        stride: vec![8, 5, 5],
        user_priv: 0,
    };
    let f = frame_from_img(&img).unwrap();
    assert_eq!(f.format, PixelFormat::Yuv420);
    assert_eq!((f.width, f.height), (3, 3));
    assert_eq!(f.color, ColorInfo { primaries: 2, transfer: 2, matrix: 2 });
    assert_eq!(f.planes[0], vec![1, 2, 3, 4, 5, 6, 7, 8, 9]);
    assert_eq!(f.planes[1], vec![10, 11, 12, 13]);
    assert_eq!(f.planes[2], vec![20, 21, 22, 23]);
    assert_eq!(f.strides, vec![3, 2, 2]);
    assert_eq!(f.pts, None);
}

#[test]
fn decoded_10bit_image_keeps_two_byte_samples() {
    let luma: Vec<u8> = vec![1, 2, 3, 4, 5, 6, 7, 8];
    let c: Vec<u8> = vec![9, 1, 77];
    let img = NativeImage {
        fmt: AOM_IMG_FMT_I42016,
        bit_depth: 10,
        d_w: 2,
        d_h: 2,
        cp: 0,
        tc: 0,
        mc: 0,
        planes: vec![&luma[..], &c[..], &c[..]],
        stride: vec![4, 3, 3],
        user_priv: 0,
    };
    let f = frame_from_img(&img).unwrap();
    assert_eq!(f.format, PixelFormat::Yuv420P16);
    assert_eq!(f.planes[0], vec![1, 2, 3, 4, 5, 6, 7, 8]);
    assert_eq!(f.planes[1], vec![9, 1]);
    assert_eq!(f.strides, vec![4, 2, 2]);
}

#[test]
fn decoded_image_too_short() {
    let luma: Vec<u8> = vec![0; 7];
    let c: Vec<u8> = vec![0; 2];
    let img = NativeImage {
        fmt: AOM_IMG_FMT_I42016,
        bit_depth: 8,
        d_w: 2,
        d_h: 2,
        cp: 0,
        tc: 0,
        mc: 0,
        planes: vec![&luma[..], &c[..], &c[..]],
        stride: vec![4, 2, 2],
        user_priv: 0,
    };
    assert_eq!(frame_from_img(&img).err(), Some(AomError::InvalidImage));
}

#[test]
fn decoded_image_stride_below_row() {
    let p: Vec<u8> = vec![0; 16];
    let img = NativeImage {
        fmt: AOM_IMG_FMT_I42016,
        bit_depth: 8,
        d_w: 2,
        d_h: 2,
        cp: 0,
        tc: 0,
        mc: 0,
        planes: vec![&p[..], &p[..], &p[..]],
        stride: vec![3, 2, 2],
        user_priv: 0,
    };
    assert_eq!(frame_from_img(&img).err(), Some(AomError::InvalidImage));
}

#[test]
fn decoded_image_zero_size() {
    let p: Vec<u8> = vec![0; 16];
    let img = NativeImage {
        fmt: AOM_IMG_FMT_I42016,
        bit_depth: 8,
        d_w: 0,
        d_h: 2,
        cp: 0,
        tc: 0,
        mc: 0,
        planes: vec![&p[..], &p[..], &p[..]],
        stride: vec![4, 2, 2],
        user_priv: 0,
    };
    assert_eq!(frame_from_img(&img).err(), Some(AomError::InvalidImage));
}

#[test]
fn frame_round_trip_keeps_shape() {
    let mut f = Frame::new(PixelFormat::Yuv420, 6, 4, Some(3));
    for (i, b) in f.planes[0].iter_mut().enumerate() {
        *b = i as u8;
    }
    let d = img_from_frame(&f);
    // the decoder hands the 8-bit picture back in two-byte samples
    let wide: Vec<Vec<u8>> = d.planes.iter().map(|p| widen(p)).collect();
    let img = NativeImage {
        fmt: AOM_IMG_FMT_I42016,
        bit_depth: 8,
        d_w: d.d_w,
        d_h: d.d_h,
        cp: d.cp,
        tc: d.tc,
        mc: d.mc,
        planes: wide.iter().map(|p| &p[..]).collect(),
        stride: d.stride.iter().map(|s| s * 2).collect(),
        user_priv: 0,
    };
    let back = frame_from_img(&img).unwrap();
    assert_eq!(back.format, f.format);
    assert_eq!((back.width, back.height), (f.width, f.height));
    assert_eq!(back.planes, f.planes);
}
