//! The texture model and its validated construction and upload surface:
//! width/height bounds, planar-YUV parity rules, bounds checks computed by
//! rectangle intersection, and plane-length checks for chroma-subsampled
//! uploads.

use vstd::prelude::*;

use crate::errors::TextureValueError;
use crate::errors::UpdateTextureError;
use crate::errors::UpdateTextureYUVError;
use crate::modes::TextureAccess;
use crate::pixels::PixelFormat;
use crate::rect::Rect;

verus! {

/// A read-only snapshot of a texture's format, access and dimensions.
#[derive(Copy, Clone, Eq, PartialEq, Hash, Debug, Structural)]
pub struct TextureQuery {
    pub format: PixelFormat,
    pub access: TextureAccess,
    pub width: u32,
    pub height: u32,
}

/// What the engine knows of one texture resource: the renderer context it
/// was created against, and its creation-time format, access and size.
#[derive(Copy, Clone, Eq, PartialEq, Hash, Debug, Structural)]
pub struct Texture {
    pub context_id: u64,
    pub format: PixelFormat,
    pub access: TextureAccess,
    pub width: u32,
    pub height: u32,
}

/// Creates textures bound to one renderer context; textures it produces
/// carry its context and may only be used with the canvas of that context.
#[derive(Copy, Clone, Eq, PartialEq, Hash, Debug, Structural)]
pub struct TextureCreator {
    pub context_id: u64,
    pub default_pixel_format: PixelFormat,
}

/// The format a texture is created with: the requested one, or the parent
/// target's format when none is requested.
pub open spec fn resolve_format(format: Option<PixelFormat>, default: PixelFormat) -> PixelFormat {
    match format {
        Option::Some(f) => f,
        Option::None => default,
    }
}

/// The supplied region and pitch satisfy the planar-YUV parity rule: when
/// a region is given, its position and extent are even in both dimensions.
pub open spec fn yuv_rect_even(rect: Option<Rect>) -> bool {
    match rect {
        Option::Some(r) => r.x % 2 == 0 && r.y % 2 == 0 && r.w % 2 == 0 && r.h % 2 == 0,
        Option::None => true,
    }
}

impl TextureCreator {
    /// What creating a texture of the given format, access and size
    /// returns: the first failed validation, or the created texture.
    pub open spec fn spec_create_texture(
        self,
        format: Option<PixelFormat>,
        access: TextureAccess,
        width: u32,
        height: u32,
    ) -> Result<Texture, TextureValueError> {
        let fmt = resolve_format(format, self.default_pixel_format);
        if width > i32::MAX {
            Result::Err(TextureValueError::WidthOverflows(width))
        } else if height > i32::MAX {
            Result::Err(TextureValueError::HeightOverflows(height))
        } else if fmt.is_planar_yuv() && (width % 2 != 0 || height % 2 != 0) {
            Result::Err(TextureValueError::WidthMustBeMultipleOfTwoForFormat(width, fmt))
        } else {
            Result::Ok(
                Texture { context_id: self.context_id, format: fmt, access, width, height },
            )
        }
    }

    pub fn default_pixel_format(&self) -> (r: PixelFormat)
        ensures
            r == self.default_pixel_format,
    {
        self.default_pixel_format
    }

    /// Creates a texture for this creator's rendering context.
    ///
    /// If `format` is `None`, the format will be the one the parent target
    /// uses. The width and height must fit the native engine's signed
    /// 32-bit integers, and for the planar 4:2:0 YUV formats both must be
    /// even, since odd dimensions would let chroma-plane addressing read
    /// out of bounds in the engine.
    pub fn create_texture(
        &self,
        format: Option<PixelFormat>,
        access: TextureAccess,
        width: u32,
        height: u32,
    ) -> (r: Result<Texture, TextureValueError>)
        ensures
            r == self.spec_create_texture(format, access, width, height),
    {
        let fmt = match format {
            Some(f) => f,
            None => self.default_pixel_format,
        };
        if width > i32::MAX as u32 {
            return Err(TextureValueError::WidthOverflows(width));
        }
        if height > i32::MAX as u32 {
            return Err(TextureValueError::HeightOverflows(height));
        }
        if fmt.planar_yuv() && (width % 2 != 0 || height % 2 != 0) {
            return Err(TextureValueError::WidthMustBeMultipleOfTwoForFormat(width, fmt));
        }
        Ok(Texture { context_id: self.context_id, format: fmt, access, width, height })
    }

    /// Shorthand for `create_texture(format, TextureAccess::Static, width, height)`
    pub fn create_texture_static(&self, format: Option<PixelFormat>, width: u32, height: u32) -> (r:
        Result<Texture, TextureValueError>)
        ensures
            r == self.spec_create_texture(format, TextureAccess::Static, width, height),
    {
        self.create_texture(format, TextureAccess::Static, width, height)
    }

    /// Shorthand for `create_texture(format, TextureAccess::Streaming, width, height)`
    pub fn create_texture_streaming(
        &self,
        format: Option<PixelFormat>,
        width: u32,
        height: u32,
    ) -> (r: Result<Texture, TextureValueError>)
        ensures
            r == self.spec_create_texture(format, TextureAccess::Streaming, width, height),
    {
        self.create_texture(format, TextureAccess::Streaming, width, height)
    }

    /// Shorthand for `create_texture(format, TextureAccess::Target, width, height)`
    pub fn create_texture_target(&self, format: Option<PixelFormat>, width: u32, height: u32) -> (r:
        Result<Texture, TextureValueError>)
        ensures
            r == self.spec_create_texture(format, TextureAccess::Target, width, height),
    {
        self.create_texture(format, TextureAccess::Target, width, height)
    }
}

/// For a planar-YUV format with in-range dimensions, texture creation
/// succeeds exactly when width and height are both even.
pub proof fn lemma_create_texture_yuv_parity(
    creator: TextureCreator,
    format: Option<PixelFormat>,
    access: TextureAccess,
    width: u32,
    height: u32,
)
    requires
        resolve_format(format, creator.default_pixel_format).is_planar_yuv(),
        width <= i32::MAX,
        height <= i32::MAX,
    ensures
        creator.spec_create_texture(format, access, width, height) is Ok <==> (width % 2 == 0
            && height % 2 == 0),
{
}

impl Texture {
    /// The supplied region lies fully inside this texture's bounds and is
    /// non-empty; an upload outside the bounds would write outside the
    /// engine's allocated texture memory.
    pub open spec fn rect_inside(self, rect: Option<Rect>) -> bool {
        match rect {
            Option::Some(r) => 1 <= r.w && 1 <= r.h && 0 <= r.left() && 0 <= r.top() && r.right()
                <= self.width && r.bottom() <= self.height,
            Option::None => true,
        }
    }

    /// The row count that upload plane lengths are checked against: the
    /// region's height, or the whole texture's.
    pub open spec fn upload_height(self, rect: Option<Rect>) -> int {
        match rect {
            Option::Some(r) => r.h as int,
            Option::None => self.height as int,
        }
    }

    pub fn query(&self) -> (r: TextureQuery)
        ensures
            r == (TextureQuery {
                format: self.format,
                access: self.access,
                width: self.width,
                height: self.height,
            }),
    {
        TextureQuery {
            format: self.format,
            access: self.access,
            width: self.width,
            height: self.height,
        }
    }

    pub fn format(&self) -> (r: PixelFormat)
        ensures
            r == self.format,
    {
        self.format
    }

    pub fn access(&self) -> (r: TextureAccess)
        ensures
            r == self.access,
    {
        self.access
    }

    pub fn width(&self) -> (r: u32)
        ensures
            r == self.width,
    {
        self.width
    }

    pub fn height(&self) -> (r: u32)
        ensures
            r == self.height,
    {
        self.height
    }

    /// Validates an upload of packed pixel data into a (sub)region: for
    /// the planar YUV formats the region's position, extent and the pitch
    /// must all be even, and the pitch must fit the native engine's signed
    /// 32-bit integers.
    ///
    /// The pixel data itself is handed to the engine unchecked, as the
    /// engine derives the accessed byte count from the region and pitch.
    pub fn update(&self, rect: Option<Rect>, _pixel_data: &[u8], pitch: usize) -> (r: Result<
        (),
        UpdateTextureError,
    >)
        ensures
            match r {
                Result::Ok(_) => (self.format.is_planar_yuv() ==> (yuv_rect_even(rect) && pitch % 2
                    == 0)) && pitch <= i32::MAX,
                Result::Err(UpdateTextureError::XMustBeMultipleOfTwoForFormat(v, f)) => f
                    == self.format && self.format.is_planar_yuv() && (rect matches Option::Some(rr)
                    && v == rr.x && rr.x % 2 != 0),
                Result::Err(UpdateTextureError::YMustBeMultipleOfTwoForFormat(v, f)) => f
                    == self.format && self.format.is_planar_yuv() && (rect matches Option::Some(rr)
                    && rr.x % 2 == 0 && v == rr.y && rr.y % 2 != 0),
                Result::Err(UpdateTextureError::WidthMustBeMultipleOfTwoForFormat(v, f)) => f
                    == self.format && self.format.is_planar_yuv() && (rect matches Option::Some(rr)
                    && rr.x % 2 == 0 && rr.y % 2 == 0 && v == rr.w && rr.w % 2 != 0),
                Result::Err(UpdateTextureError::HeightMustBeMultipleOfTwoForFormat(v, f)) => f
                    == self.format && self.format.is_planar_yuv() && (rect matches Option::Some(rr)
                    && rr.x % 2 == 0 && rr.y % 2 == 0 && rr.w % 2 == 0 && v == rr.h && rr.h % 2
                    != 0),
                Result::Err(UpdateTextureError::PitchMustBeMultipleOfTwoForFormat(v, f)) => f
                    == self.format && self.format.is_planar_yuv() && yuv_rect_even(rect) && v
                    == pitch && pitch % 2 != 0,
                Result::Err(UpdateTextureError::PitchOverflows(v)) => v == pitch && pitch
                    > i32::MAX && (self.format.is_planar_yuv() ==> (yuv_rect_even(rect) && pitch % 2
                    == 0)),
                Result::Err(_) => false,
            },
    {
        if self.format.planar_yuv() {
            if let Some(ref r) = rect {
                if r.x % 2 != 0 {
                    return Err(UpdateTextureError::XMustBeMultipleOfTwoForFormat(r.x, self.format));
                } else if r.y % 2 != 0 {
                    return Err(UpdateTextureError::YMustBeMultipleOfTwoForFormat(r.y, self.format));
                } else if r.w % 2 != 0 {
                    return Err(
                        UpdateTextureError::WidthMustBeMultipleOfTwoForFormat(r.w, self.format),
                    );
                } else if r.h % 2 != 0 {
                    return Err(
                        UpdateTextureError::HeightMustBeMultipleOfTwoForFormat(r.h, self.format),
                    );
                }
            }
            if pitch % 2 != 0 {
                return Err(UpdateTextureError::PitchMustBeMultipleOfTwoForFormat(
                    pitch,
                    self.format,
                ));
            }
        }
        if pitch > i32::MAX as usize {
            return Err(UpdateTextureError::PitchOverflows(pitch));
        }
        Ok(())
    }

    /// Validates an upload of three separately-pitched planes into a
    /// planar YUV texture: the region's position and extent must be even,
    /// the region must lie fully inside the texture's bounds (an upload
    /// outside them would write outside allocated texture memory), each
    /// plane's byte length must equal `pitch * rows` for the luma plane
    /// and `pitch * rows / 2` for each chroma plane, and each pitch must
    /// fit the native engine's signed 32-bit integers.
    pub fn update_yuv(
        &self,
        rect: Option<Rect>,
        y_plane: &[u8],
        y_pitch: usize,
        u_plane: &[u8],
        u_pitch: usize,
        v_plane: &[u8],
        v_pitch: usize,
    ) -> (r: Result<(), UpdateTextureYUVError>)
        ensures
            ({
                let he = self.upload_height(rect);
                match r {
                    Result::Ok(_) => yuv_rect_even(rect) && self.rect_inside(rect) && y_plane@.len()
                        == y_pitch * he && u_plane@.len() == u_pitch * he / 2 && v_plane@.len()
                        == v_pitch * he / 2 && y_pitch <= i32::MAX && u_pitch <= i32::MAX && v_pitch
                        <= i32::MAX,
                    Result::Err(UpdateTextureYUVError::XMustBeMultipleOfTwoForFormat(vv)) => rect
                        matches Option::Some(rr) && vv == rr.x && rr.x % 2 != 0,
                    Result::Err(UpdateTextureYUVError::YMustBeMultipleOfTwoForFormat(vv)) => rect
                        matches Option::Some(rr) && rr.x % 2 == 0 && vv == rr.y && rr.y % 2 != 0,
                    Result::Err(UpdateTextureYUVError::WidthMustBeMultipleOfTwoForFormat(vv)) => rect
                        matches Option::Some(rr) && rr.x % 2 == 0 && rr.y % 2 == 0 && vv == rr.w
                        && rr.w % 2 != 0,
                    Result::Err(UpdateTextureYUVError::HeightMustBeMultipleOfTwoForFormat(vv)) => rect
                        matches Option::Some(rr) && rr.x % 2 == 0 && rr.y % 2 == 0 && rr.w % 2 == 0
                        && vv == rr.h && rr.h % 2 != 0,
                    Result::Err(UpdateTextureYUVError::RectNotInsideTexture(rr)) => rect
                        == Option::Some(rr) && yuv_rect_even(rect) && !self.rect_inside(rect),
                    Result::Err(
                        UpdateTextureYUVError::InvalidPlaneLength { plane, length, pitch, height },
                    ) => yuv_rect_even(rect) && self.rect_inside(rect) && ((plane@ == "y"@ && length
                        == y_plane@.len() && pitch == y_pitch && height == he && y_plane@.len()
                        != y_pitch * he) || (plane@ == "u"@ && length == u_plane@.len() && pitch
                        == u_pitch && height == he / 2 && y_plane@.len() == y_pitch * he
                        && u_plane@.len() != u_pitch * he / 2) || (plane@ == "v"@ && length
                        == v_plane@.len() && pitch == v_pitch && height == he / 2 && y_plane@.len()
                        == y_pitch * he && u_plane@.len() == u_pitch * he / 2 && v_plane@.len()
                        != v_pitch * he / 2)),
                    Result::Err(UpdateTextureYUVError::PitchOverflows { plane, value }) => yuv_rect_even(
                        rect,
                    ) && self.rect_inside(rect) && y_plane@.len() == y_pitch * he && u_plane@.len()
                        == u_pitch * he / 2 && v_plane@.len() == v_pitch * he / 2 && ((plane@
                        == "y"@ && value == y_pitch && y_pitch > i32::MAX) || (plane@ == "u"@
                        && value == u_pitch && y_pitch <= i32::MAX && u_pitch > i32::MAX) || (plane@
                        == "v"@ && value == v_pitch && y_pitch <= i32::MAX && u_pitch <= i32::MAX
                        && v_pitch > i32::MAX)),
                    Result::Err(UpdateTextureYUVError::SdlError(_)) => false,
                }
            }),
    {
        if let Some(ref rr) = rect {
            if rr.x % 2 != 0 {
                return Err(UpdateTextureYUVError::XMustBeMultipleOfTwoForFormat(rr.x));
            } else if rr.y % 2 != 0 {
                return Err(UpdateTextureYUVError::YMustBeMultipleOfTwoForFormat(rr.y));
            } else if rr.w % 2 != 0 {
                return Err(UpdateTextureYUVError::WidthMustBeMultipleOfTwoForFormat(rr.w));
            } else if rr.h % 2 != 0 {
                return Err(UpdateTextureYUVError::HeightMustBeMultipleOfTwoForFormat(rr.h));
            }
        }
        // A region outside the texture boundaries would make the engine
        // write outside allocated texture memory.
        if let Some(ref rr) = rect {
            let tex_rect = Rect { x: 0, y: 0, w: self.width, h: self.height };
            let inside = match rr.intersection(tex_rect) {
                Some(intersection) => intersection == *rr,
                None => false,
            };
            if !inside {
                return Err(UpdateTextureYUVError::RectNotInsideTexture(*rr));
            }
        }
        // The row count determines the expected plane lengths; checking
        // them prevents buffer overruns in the engine's upload.
        let height_count: usize = match rect {
            Some(rr) => rr.h as usize,
            None => self.height as usize,
        };
        proof {
            assert((y_pitch as int) * (height_count as int) <= u128::MAX && (u_pitch as int) * (
            height_count as int) <= u128::MAX && (v_pitch as int) * (height_count as int)
                <= u128::MAX) by (nonlinear_arith)
                requires
                    y_pitch <= u64::MAX,
                    u_pitch <= u64::MAX,
                    v_pitch <= u64::MAX,
                    height_count <= u64::MAX,
            ;
        }
        if y_plane.len() as u128 != y_pitch as u128 * height_count as u128 {
            return Err(UpdateTextureYUVError::InvalidPlaneLength {
                plane: "y",
                length: y_plane.len(),
                pitch: y_pitch,
                height: height_count,
            });
        }
        if u_plane.len() as u128 != u_pitch as u128 * height_count as u128 / 2 {
            return Err(UpdateTextureYUVError::InvalidPlaneLength {
                plane: "u",
                length: u_plane.len(),
                pitch: u_pitch,
                height: height_count / 2,
            });
        }
        if v_plane.len() as u128 != v_pitch as u128 * height_count as u128 / 2 {
            return Err(UpdateTextureYUVError::InvalidPlaneLength {
                plane: "v",
                length: v_plane.len(),
                pitch: v_pitch,
                height: height_count / 2,
            });
        }
        if y_pitch > i32::MAX as usize {
            return Err(UpdateTextureYUVError::PitchOverflows { plane: "y", value: y_pitch });
        }
        if u_pitch > i32::MAX as usize {
            return Err(UpdateTextureYUVError::PitchOverflows { plane: "u", value: u_pitch });
        }
        if v_pitch > i32::MAX as usize {
            return Err(UpdateTextureYUVError::PitchOverflows { plane: "v", value: v_pitch });
        }
        Ok(())
    }
}

} // verus!
