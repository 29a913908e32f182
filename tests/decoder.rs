use libaom::decoder::{AV1Decoder, DecodeCall};
use libaom::error::{AomError, AOM_CODEC_CORRUPT_FRAME, AOM_CODEC_ERROR, AOM_CODEC_OK};
use libaom::image::{
    img_from_frame, Frame, NativeImage, PixelFormat, AOM_IMG_FMT_I420, AOM_IMG_FMT_I42016,
};

/// A stand-in for the engine: it "decodes" a unit of one byte `b` into a
/// 4x2 8-bit picture whose samples all equal `b`, handed out in two-byte
/// samples as libaom does, and rejects units of more than one byte.
struct Engine {
    luma: Vec<u8>,
    chroma: Vec<u8>,
    handle: u64,
    ready: bool,
}

impl Engine {
    fn new() -> Engine {
        Engine { luma: Vec::new(), chroma: Vec::new(), handle: 0, ready: false }
    }

    fn submit(&mut self, call: &DecodeCall) -> u32 {
        self.ready = false;
        if call.data.is_empty() {
            return AOM_CODEC_OK;
        }
        if call.data.len() != 1 {
            return AOM_CODEC_CORRUPT_FRAME;
        }
        self.luma = [call.data[0], 0].repeat(8);
        self.chroma = [call.data[0], 0].repeat(2);
        self.handle = call.user_priv;
        self.ready = true;
        AOM_CODEC_OK
    }

    fn next_image(&mut self) -> Option<NativeImage<'_>> {
        if !self.ready {
            return None;
        }
        self.ready = false;
        Some(NativeImage {
            fmt: AOM_IMG_FMT_I42016,
            bit_depth: 8,
            d_w: 4,
            d_h: 2,
            cp: 1,
            tc: 1,
            mc: 1,
            planes: vec![&self.luma[..], &self.chroma[..], &self.chroma[..]],
            stride: vec![8, 4, 4],
            user_priv: self.handle,
        })
    }
}

fn next_frame<T>(d: &mut AV1Decoder<T>, engine: &mut Engine) -> Option<(Frame, Option<T>)> {
    if !d.needs_frame() {
        return None;
    }
    let img = engine.next_image();
    d.get_frame(img.as_ref()).unwrap()
}

#[test]
fn decoder_init() {
    let d = AV1Decoder::<()>::new(AOM_CODEC_OK);
    assert!(d.is_ok());
    let e = AV1Decoder::<()>::new(AOM_CODEC_ERROR);
    assert_eq!(e.err(), Some(AomError::InitError(AOM_CODEC_ERROR)));
}

#[test]
fn decode() {
    let mut d = AV1Decoder::<()>::new(AOM_CODEC_OK).unwrap();
    let mut engine = Engine::new();
    let mut out = 0;
    for i in 0..100u8 {
        let unit = vec![i];
        let call = d.decode(&unit, None).unwrap();
        assert_eq!(call.user_priv, 0);
        let status = engine.submit(&call);
        d.decode_status(&call, status).unwrap();
        if let Some((f, data)) = next_frame(&mut d, &mut engine) {
            assert!(data.is_none());
            assert_eq!(f.planes[0], vec![i; 8]);
            out += 1;
        }
    }
    if out == 0 {
        panic!("No frame decoded");
    }
    assert_eq!(out, 100);
}

#[test]
fn user_data_comes_back_once() {
    let mut d = AV1Decoder::<String>::new(AOM_CODEC_OK).unwrap();
    let mut engine = Engine::new();
    let unit = vec![3u8];
    let call = d.decode(&unit, Some("t=3".to_string())).unwrap();
    assert_ne!(call.user_priv, 0);
    let status = engine.submit(&call);
    d.decode_status(&call, status).unwrap();
    let (f, data) = next_frame(&mut d, &mut engine).unwrap();
    assert_eq!(data, Some("t=3".to_string()));
    assert_eq!(f.planes[0], vec![3; 8]);
    // the same handle handed back again carries nothing
    let luma = vec![0u8; 16];
    let chroma = vec![0u8; 4];
    let again = NativeImage {
        fmt: AOM_IMG_FMT_I42016,
        bit_depth: 8,
        d_w: 4,
        d_h: 2,
        cp: 0,
        tc: 0,
        mc: 0,
        planes: vec![&luma[..], &chroma[..], &chroma[..]],
        stride: vec![8, 4, 4],
        user_priv: call.user_priv,
    };
    let (_, data) = d.get_frame(Some(&again)).unwrap().unwrap();
    assert!(data.is_none());
}

#[test]
fn rejected_unit_drops_user_data() {
    let mut d = AV1Decoder::<u32>::new(AOM_CODEC_OK).unwrap();
    let mut engine = Engine::new();
    let bad = vec![1u8, 2, 3];
    let call = d.decode(&bad, Some(77)).unwrap();
    let handle = call.user_priv;
    let status = engine.submit(&call);
    assert_eq!(d.decode_status(&call, status), Err(AomError::DecodeError(AOM_CODEC_CORRUPT_FRAME)));
    assert!(next_frame(&mut d, &mut engine).is_none());
    // even if the handle turned up later, its data is gone
    let _ = d.flush();
    let luma = vec![0u8; 16];
    let chroma = vec![0u8; 4];
    let img = NativeImage {
        fmt: AOM_IMG_FMT_I42016,
        bit_depth: 8,
        d_w: 4,
        d_h: 2,
        cp: 0,
        tc: 0,
        mc: 0,
        planes: vec![&luma[..], &chroma[..], &chroma[..]],
        stride: vec![8, 4, 4],
        user_priv: handle,
    };
    let (_, data) = d.get_frame(Some(&img)).unwrap().unwrap();
    assert!(data.is_none());
}

#[test]
fn empty_frame_drain_returns_none() {
    let mut d = AV1Decoder::<()>::new(AOM_CODEC_OK).unwrap();
    assert!(d.needs_frame());
    assert!(d.get_frame(None).unwrap().is_none());
    assert!(!d.needs_frame());
    assert!(d.get_frame(None).unwrap().is_none());
}

#[test]
fn flush_then_drain_is_idempotent() {
    let mut d = AV1Decoder::<()>::new(AOM_CODEC_OK).unwrap();
    let mut engine = Engine::new();
    let call = d.flush();
    assert!(call.data.is_empty());
    assert_eq!(call.user_priv, 0);
    d.decode_status(&call, engine.submit(&call)).unwrap();
    assert!(next_frame(&mut d, &mut engine).is_none());
    assert!(next_frame(&mut d, &mut engine).is_none());
    assert!(!d.needs_frame());
}

#[test]
fn undecodable_image_is_an_error() {
    let mut d = AV1Decoder::<u8>::new(AOM_CODEC_OK).unwrap();
    let unit = vec![5u8];
    let call = d.decode(&unit, Some(1)).unwrap();
    d.decode_status(&call, AOM_CODEC_OK).unwrap();
    let p = vec![0u8; 8];
    let img = NativeImage {
        fmt: 0x105,
        bit_depth: 8,
        d_w: 2,
        d_h: 2,
        cp: 0,
        tc: 0,
        mc: 0,
        planes: vec![&p[..], &p[..], &p[..]],
        stride: vec![2, 1, 1],
        user_priv: call.user_priv,
    };
    assert_eq!(d.get_frame(Some(&img)).err(), Some(AomError::UnsupportedFormat(0x105)));
}

#[test]
fn encode_decode_round_trip_shape() {
    let mut f = Frame::new(PixelFormat::Yuv420, 10, 6, Some(0));
    f.planes[1][2] = 200;
    let desc = img_from_frame(&f);
    let mut d = AV1Decoder::<()>::new(AOM_CODEC_OK).unwrap();
    let unit = vec![0u8];
    let call = d.decode(&unit, None).unwrap();
    d.decode_status(&call, AOM_CODEC_OK).unwrap();
    // what libaom hands back for an 8-bit stream: the same picture in
    // two-byte samples
    let wide: Vec<Vec<u8>> =
        desc.planes.iter().map(|p| p.iter().flat_map(|b| [*b, 0]).collect()).collect();
    let img = NativeImage {
        fmt: AOM_IMG_FMT_I42016,
        bit_depth: 8,
        d_w: desc.d_w,
        d_h: desc.d_h,
        cp: desc.cp,
        tc: desc.tc,
        mc: desc.mc,
        planes: wide.iter().map(|p| &p[..]).collect(),
        stride: desc.stride.iter().map(|s| s * 2).collect(),
        user_priv: 0,
    };
    let (back, _) = d.get_frame(Some(&img)).unwrap().unwrap();
    assert_eq!(back.format, PixelFormat::Yuv420);
    assert_eq!(back.format, f.format);
    assert_eq!((back.width, back.height), (f.width, f.height));
    assert_eq!(back.planes[1][2], 200);
    assert_eq!(back.planes, f.planes);
}

#[test]
fn decoded_image_unknown_format() {
    let p: Vec<u8> = vec![0; 16];
    for fmt in [0x106, AOM_IMG_FMT_I420] {
        let mut d = AV1Decoder::<u8>::new(AOM_CODEC_OK).unwrap();
        let unit = vec![5u8];
        let call = d.decode(&unit, Some(9)).unwrap();
        d.decode_status(&call, AOM_CODEC_OK).unwrap();
        let img = NativeImage {
            fmt,
            bit_depth: 8,
            d_w: 2,
            d_h: 2,
            cp: 0,
            tc: 0,
            mc: 0,
            planes: vec![&p[..], &p[..], &p[..]],
            stride: vec![4, 2, 2],
            user_priv: call.user_priv,
        };
        assert_eq!(d.get_frame(Some(&img)).err(), Some(AomError::UnsupportedFormat(fmt)));
    }
}
