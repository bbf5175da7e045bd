use sdl3_render::pixels::PIXEL_FORMAT_IYUV;
use sdl3_render::pixels::PIXEL_FORMAT_YV12;
use sdl3_render::BlendMode;
use sdl3_render::InvalidTextureAccess;
use sdl3_render::PixelFormat;
use sdl3_render::Rect;
use sdl3_render::ScaleMode;
use sdl3_render::Texture;
use sdl3_render::TextureAccess;
use sdl3_render::TextureCreator;
use sdl3_render::TextureQuery;
use sdl3_render::TextureValueError;
use sdl3_render::UpdateTextureError;
use sdl3_render::UpdateTextureYUVError;

fn rgba() -> PixelFormat {
    // SDL_PIXELFORMAT_RGBA8888
    PixelFormat { raw: 0x1646_2004 }
}

fn yv12() -> PixelFormat {
    PixelFormat { raw: PIXEL_FORMAT_YV12 }
}

fn creator() -> TextureCreator {
    TextureCreator {
        context_id: 1,
        default_pixel_format: rgba(),
    }
}

#[test]
fn texture_access_round_trip() {
    let all = [
        TextureAccess::Static,
        TextureAccess::Streaming,
        TextureAccess::Target,
    ];
    for a in all {
        assert_eq!(TextureAccess::try_from(a.to_ll() as u32), Ok(a));
        assert_eq!(TextureAccess::from_code(a.to_ll() as i64), a);
    }
}

#[test]
fn blend_mode_round_trip() {
    let all = [
        BlendMode::NoBlend,
        BlendMode::Blend,
        BlendMode::Add,
        BlendMode::Mod,
        BlendMode::Mul,
        BlendMode::Invalid,
    ];
    for m in all {
        assert_eq!(BlendMode::try_from(m.to_ll()), Ok(m));
    }
    assert_eq!(BlendMode::NoBlend.to_ll(), 0);
    assert_eq!(BlendMode::Mul.to_ll(), 8);
    assert_eq!(BlendMode::Invalid.to_ll(), 0x7FFF_FFFF);
}

#[test]
fn scale_mode_round_trip() {
    for m in [ScaleMode::Nearest, ScaleMode::Linear] {
        assert_eq!(ScaleMode::try_from(m.to_ll()), Ok(m));
    }
}

#[test]
fn unknown_codes_are_rejected() {
    assert_eq!(TextureAccess::try_from(3), Err(InvalidTextureAccess(3)));
    assert_eq!(BlendMode::try_from(3), Err(()));
    assert_eq!(BlendMode::try_from(16), Err(()));
    assert_eq!(ScaleMode::try_from(2), Err(()));
    assert_eq!(ScaleMode::try_from(-1), Err(()));
}

#[test]
fn create_static_64x64_succeeds() {
    let t = creator().create_texture_static(None, 64, 64).unwrap();
    assert_eq!(
        t.query(),
        TextureQuery {
            format: rgba(),
            access: TextureAccess::Static,
            width: 64,
            height: 64,
        }
    );
    assert_eq!(t.format(), rgba());
    assert_eq!(t.access(), TextureAccess::Static);
    assert_eq!(t.width(), 64);
    assert_eq!(t.height(), 64);
}

#[test]
fn create_63x64_yv12_fails_width_parity() {
    let r = creator().create_texture_static(Some(yv12()), 63, 64);
    assert!(matches!(
        r,
        Err(TextureValueError::WidthMustBeMultipleOfTwoForFormat(63, _))
    ));
}

#[test]
fn create_yuv_succeeds_iff_even() {
    for raw in [PIXEL_FORMAT_YV12, PIXEL_FORMAT_IYUV] {
        let f = Some(PixelFormat { raw });
        assert!(creator().create_texture(f, TextureAccess::Streaming, 64, 64).is_ok());
        assert!(creator().create_texture(f, TextureAccess::Streaming, 63, 64).is_err());
        assert!(creator().create_texture(f, TextureAccess::Streaming, 64, 63).is_err());
        assert!(creator().create_texture(f, TextureAccess::Streaming, 63, 63).is_err());
    }
}

#[test]
fn create_uses_default_format_when_none_given() {
    let c = TextureCreator {
        context_id: 1,
        default_pixel_format: yv12(),
    };
    // the default (planar) format triggers the parity validation
    let r = c.create_texture(None, TextureAccess::Static, 63, 64);
    assert!(matches!(
        r,
        Err(TextureValueError::WidthMustBeMultipleOfTwoForFormat(63, _))
    ));
}

#[test]
fn create_width_overflow() {
    let r = creator().create_texture(None, TextureAccess::Static, 0x8000_0000, 4);
    assert!(matches!(r, Err(TextureValueError::WidthOverflows(0x8000_0000))));
}

#[test]
fn create_height_overflow() {
    let r = creator().create_texture(None, TextureAccess::Static, 4, 0xFFFF_FFFF);
    assert!(matches!(r, Err(TextureValueError::HeightOverflows(0xFFFF_FFFF))));
}

fn yuv_texture() -> Texture {
    creator()
        .create_texture(Some(yv12()), TextureAccess::Streaming, 64, 64)
        .unwrap()
}

#[test]
fn update_yuv_format_needs_even_rect_and_pitch() {
    let t = yuv_texture();
    assert!(t.update(Some(Rect::new(2, 2, 4, 4)), &[], 4).is_ok());
    assert!(t.update(None, &[], 64).is_ok());
    assert!(matches!(
        t.update(Some(Rect::new(1, 2, 4, 4)), &[], 4),
        Err(UpdateTextureError::XMustBeMultipleOfTwoForFormat(1, _))
    ));
    assert!(matches!(
        t.update(Some(Rect::new(2, 3, 4, 4)), &[], 4),
        Err(UpdateTextureError::YMustBeMultipleOfTwoForFormat(3, _))
    ));
    assert!(matches!(
        t.update(Some(Rect::new(2, 2, 5, 4)), &[], 4),
        Err(UpdateTextureError::WidthMustBeMultipleOfTwoForFormat(5, _))
    ));
    assert!(matches!(
        t.update(Some(Rect::new(2, 2, 4, 7)), &[], 4),
        Err(UpdateTextureError::HeightMustBeMultipleOfTwoForFormat(7, _))
    ));
    assert!(matches!(
        t.update(Some(Rect::new(2, 2, 4, 4)), &[], 5),
        Err(UpdateTextureError::PitchMustBeMultipleOfTwoForFormat(5, _))
    ));
}

#[test]
fn update_non_yuv_ignores_parity() {
    let t = creator()
        .create_texture(None, TextureAccess::Streaming, 64, 64)
        .unwrap();
    assert!(t.update(Some(Rect::new(1, 3, 5, 7)), &[], 5).is_ok());
}

#[test]
fn update_pitch_overflow() {
    let t = creator()
        .create_texture(None, TextureAccess::Streaming, 64, 64)
        .unwrap();
    let pitch = (i32::MAX as usize) + 1;
    assert!(matches!(
        t.update(None, &[], pitch),
        Err(UpdateTextureError::PitchOverflows(p)) if p == pitch
    ));
}

#[test]
fn update_yuv_full_texture() {
    let t = yuv_texture();
    let y = vec![0u8; 64 * 64];
    let u = vec![0u8; 32 * 32];
    let v = vec![0u8; 32 * 32];
    assert!(t.update_yuv(None, &y, 64, &u, 32, &v, 32).is_ok());
}

#[test]
fn update_yuv_sub_rect() {
    let t = yuv_texture();
    let y = vec![0u8; 4 * 4];
    let u = vec![0u8; 2 * 2];
    let v = vec![0u8; 2 * 2];
    assert!(t.update_yuv(Some(Rect::new(2, 2, 4, 4)), &y, 4, &u, 2, &v, 2).is_ok());
}

#[test]
fn update_yuv_rect_parity_errors() {
    let t = yuv_texture();
    assert!(matches!(
        t.update_yuv(Some(Rect::new(1, 2, 4, 4)), &[], 0, &[], 0, &[], 0),
        Err(UpdateTextureYUVError::XMustBeMultipleOfTwoForFormat(1))
    ));
    assert!(matches!(
        t.update_yuv(Some(Rect::new(2, 5, 4, 4)), &[], 0, &[], 0, &[], 0),
        Err(UpdateTextureYUVError::YMustBeMultipleOfTwoForFormat(5))
    ));
    assert!(matches!(
        t.update_yuv(Some(Rect::new(2, 2, 3, 4)), &[], 0, &[], 0, &[], 0),
        Err(UpdateTextureYUVError::WidthMustBeMultipleOfTwoForFormat(3))
    ));
    assert!(matches!(
        t.update_yuv(Some(Rect::new(2, 2, 4, 9)), &[], 0, &[], 0, &[], 0),
        Err(UpdateTextureYUVError::HeightMustBeMultipleOfTwoForFormat(9))
    ));
}

#[test]
fn update_yuv_rect_outside_texture() {
    let t = yuv_texture();
    let r = Rect::new(62, 62, 4, 4);
    let res = t.update_yuv(Some(r), &[], 0, &[], 0, &[], 0);
    assert!(matches!(
        res,
        Err(UpdateTextureYUVError::RectNotInsideTexture(rr)) if rr == r
    ));
    let below = Rect::new(-2, 0, 4, 4);
    assert!(matches!(
        t.update_yuv(Some(below), &[], 0, &[], 0, &[], 0),
        Err(UpdateTextureYUVError::RectNotInsideTexture(_))
    ));
}

#[test]
fn update_yuv_plane_length_errors() {
    let t = yuv_texture();
    let good_y = vec![0u8; 64 * 64];
    let good_u = vec![0u8; 32 * 32];
    let res = t.update_yuv(None, &good_y, 64, &good_u, 32, &[], 32);
    assert!(matches!(
        res,
        Err(UpdateTextureYUVError::InvalidPlaneLength {
            plane: "v",
            length: 0,
            pitch: 32,
            height: 32,
        })
    ));
    assert!(matches!(
        t.update_yuv(None, &good_y, 63, &good_u, 32, &good_u, 32),
        Err(UpdateTextureYUVError::InvalidPlaneLength { plane: "y", .. })
    ));
    assert!(matches!(
        t.update_yuv(None, &good_y, 64, &good_u, 31, &good_u, 32),
        Err(UpdateTextureYUVError::InvalidPlaneLength { plane: "u", .. })
    ));
}

#[test]
fn update_yuv_pitch_overflow() {
    // a zero-height texture needs zero-length planes whatever the pitch,
    // so the pitch bound is the only remaining check
    let t = Texture {
        context_id: 1,
        format: yv12(),
        access: TextureAccess::Streaming,
        width: 0,
        height: 0,
    };
    let big = (i32::MAX as usize) + 1;
    assert!(matches!(
        t.update_yuv(None, &[], big, &[], 0, &[], 0),
        Err(UpdateTextureYUVError::PitchOverflows { plane: "y", value: v }) if v == big
    ));
    assert!(matches!(
        t.update_yuv(None, &[], 0, &[], big, &[], 0),
        Err(UpdateTextureYUVError::PitchOverflows { plane: "u", .. })
    ));
    assert!(matches!(
        t.update_yuv(None, &[], 0, &[], 0, &[], big),
        Err(UpdateTextureYUVError::PitchOverflows { plane: "v", .. })
    ));
    assert!(t.update_yuv(None, &[], 0, &[], 0, &[], 0).is_ok());
}

#[test]
fn byte_size_rule() {
    assert_eq!(yv12().byte_size_from_pitch_and_height(4, 4), 24);
    assert_eq!(
        PixelFormat { raw: PIXEL_FORMAT_IYUV }.byte_size_from_pitch_and_height(5, 3),
        19
    );
    assert_eq!(rgba().byte_size_from_pitch_and_height(4, 4), 16);
    assert!(yv12().planar_yuv());
    assert!(!rgba().planar_yuv());
}
