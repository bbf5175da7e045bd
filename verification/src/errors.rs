//! The two-tier error taxonomy: a driver-level error message, and the
//! dedicated validation errors raised before a native call is attempted.

use vstd::prelude::*;

use crate::pixels::PixelFormat;
use crate::rect::Rect;

verus! {

/// An error message reported by the rendering engine's error channel.
#[derive(Debug, Clone)]
pub struct Error(pub String);

impl Error {
    pub fn new(msg: &str) -> (r: Error)
        ensures
            r.0@ == msg@,
    {
        Error(msg.to_owned())
    }

    pub fn message(&self) -> (r: &str)
        ensures
            r@ == self.0@,
    {
        self.0.as_str()
    }
}

/// Failure of a call that validates an integer argument before the
/// engine sees it: the named argument does not fit the engine's signed
/// 32-bit integers, or the engine itself rejected the call.
#[derive(Debug, Clone)]
pub enum IntegerOrSdlError {
    IntegerOverflows(&'static str, u32),
    SdlError(Error),
}

/// Failure of redirecting a canvas's render target to a texture.
#[derive(Debug, Clone)]
pub enum TargetRenderError {
    SdlError(Error),
}

impl TargetRenderError {
    pub fn description(&self) -> (r: &str)
        ensures
            match self {
                TargetRenderError::SdlError(e) => r@ == e.0@,
            },
    {
        match self {
            TargetRenderError::SdlError(e) => e.0.as_str(),
        }
    }
}

/// Failure of creating a texture.
#[derive(Debug, Clone)]
pub enum TextureValueError {
    WidthOverflows(u32),
    HeightOverflows(u32),
    WidthMustBeMultipleOfTwoForFormat(u32, PixelFormat),
    SdlError(Error),
}

impl TextureValueError {
    pub fn description(&self) -> (r: &str)
        ensures
            match self {
                TextureValueError::WidthOverflows(_) => r@ == "texture width overflow"@,
                TextureValueError::HeightOverflows(_) => r@ == "texture height overflow"@,
                TextureValueError::WidthMustBeMultipleOfTwoForFormat(_, _) => r@
                    == "texture width must be multiple of two"@,
                TextureValueError::SdlError(e) => r@ == e.0@,
            },
    {
        match self {
            TextureValueError::WidthOverflows(_) => "texture width overflow",
            TextureValueError::HeightOverflows(_) => "texture height overflow",
            TextureValueError::WidthMustBeMultipleOfTwoForFormat(_, _) => {
                "texture width must be multiple of two"
            },
            TextureValueError::SdlError(e) => e.0.as_str(),
        }
    }
}

/// Failure of uploading pixel data into a texture.
#[derive(Debug, Clone)]
pub enum UpdateTextureError {
    PitchOverflows(usize),
    PitchMustBeMultipleOfTwoForFormat(usize, PixelFormat),
    XMustBeMultipleOfTwoForFormat(i32, PixelFormat),
    YMustBeMultipleOfTwoForFormat(i32, PixelFormat),
    WidthMustBeMultipleOfTwoForFormat(u32, PixelFormat),
    HeightMustBeMultipleOfTwoForFormat(u32, PixelFormat),
    SdlError(Error),
}

impl UpdateTextureError {
    pub fn description(&self) -> (r: &str)
        ensures
            match self {
                UpdateTextureError::PitchOverflows(_) => r@ == "pitch overflow"@,
                UpdateTextureError::PitchMustBeMultipleOfTwoForFormat(_, _) => r@
                    == "pitch must be multiple of two"@,
                UpdateTextureError::XMustBeMultipleOfTwoForFormat(_, _) => r@
                    == "x must be multiple of two"@,
                UpdateTextureError::YMustBeMultipleOfTwoForFormat(_, _) => r@
                    == "y must be multiple of two"@,
                UpdateTextureError::WidthMustBeMultipleOfTwoForFormat(_, _) => r@
                    == "width must be multiple of two"@,
                UpdateTextureError::HeightMustBeMultipleOfTwoForFormat(_, _) => r@
                    == "height must be multiple of two"@,
                UpdateTextureError::SdlError(e) => r@ == e.0@,
            },
    {
        match self {
            UpdateTextureError::PitchOverflows(_) => "pitch overflow",
            UpdateTextureError::PitchMustBeMultipleOfTwoForFormat(_, _) => {
                "pitch must be multiple of two"
            },
            UpdateTextureError::XMustBeMultipleOfTwoForFormat(_, _) => "x must be multiple of two",
            UpdateTextureError::YMustBeMultipleOfTwoForFormat(_, _) => "y must be multiple of two",
            UpdateTextureError::WidthMustBeMultipleOfTwoForFormat(_, _) => {
                "width must be multiple of two"
            },
            UpdateTextureError::HeightMustBeMultipleOfTwoForFormat(_, _) => {
                "height must be multiple of two"
            },
            UpdateTextureError::SdlError(e) => e.0.as_str(),
        }
    }
}

/// Failure of uploading three separately-pitched planes into a planar
/// YUV texture.
#[derive(Debug, Clone)]
pub enum UpdateTextureYUVError {
    PitchOverflows { plane: &'static str, value: usize },
    InvalidPlaneLength { plane: &'static str, length: usize, pitch: usize, height: usize },
    XMustBeMultipleOfTwoForFormat(i32),
    YMustBeMultipleOfTwoForFormat(i32),
    WidthMustBeMultipleOfTwoForFormat(u32),
    HeightMustBeMultipleOfTwoForFormat(u32),
    RectNotInsideTexture(Rect),
    SdlError(Error),
}

impl UpdateTextureYUVError {
    pub fn description(&self) -> (r: &str)
        ensures
            match self {
                UpdateTextureYUVError::PitchOverflows { .. } => r@ == "pitch overflow"@,
                UpdateTextureYUVError::InvalidPlaneLength { .. } => r@ == "invalid plane length"@,
                UpdateTextureYUVError::XMustBeMultipleOfTwoForFormat(_) => r@
                    == "x must be multiple of two"@,
                UpdateTextureYUVError::YMustBeMultipleOfTwoForFormat(_) => r@
                    == "y must be multiple of two"@,
                UpdateTextureYUVError::WidthMustBeMultipleOfTwoForFormat(_) => r@
                    == "width must be multiple of two"@,
                UpdateTextureYUVError::HeightMustBeMultipleOfTwoForFormat(_) => r@
                    == "height must be multiple of two"@,
                UpdateTextureYUVError::RectNotInsideTexture(_) => r@
                    == "rect must be inside texture"@,
                UpdateTextureYUVError::SdlError(e) => r@ == e.0@,
            },
    {
        match self {
            UpdateTextureYUVError::PitchOverflows { .. } => "pitch overflow",
            UpdateTextureYUVError::InvalidPlaneLength { .. } => "invalid plane length",
            UpdateTextureYUVError::XMustBeMultipleOfTwoForFormat(_) => "x must be multiple of two",
            UpdateTextureYUVError::YMustBeMultipleOfTwoForFormat(_) => "y must be multiple of two",
            UpdateTextureYUVError::WidthMustBeMultipleOfTwoForFormat(_) => {
                "width must be multiple of two"
            },
            UpdateTextureYUVError::HeightMustBeMultipleOfTwoForFormat(_) => {
                "height must be multiple of two"
            },
            UpdateTextureYUVError::RectNotInsideTexture(_) => "rect must be inside texture",
            UpdateTextureYUVError::SdlError(e) => e.0.as_str(),
        }
    }
}

} // verus!
