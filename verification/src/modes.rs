//! Closed enumerations mirroring the native engine's numeric constants:
//! texture access, blend mode and scale mode, with fallible conversion
//! from raw codes and proved round-trip laws.

use vstd::prelude::*;

verus! {

/// How a texture may be used: uploaded once, streamed, or rendered into.
#[derive(Copy, Clone, Eq, PartialEq, Hash, Debug, Structural)]
pub enum TextureAccess {
    Static,
    Streaming,
    Target,
}

/// The raw code `n` names no texture access mode.
#[derive(Debug, Clone, Copy, PartialEq, Eq, Structural)]
pub struct InvalidTextureAccess(pub u32);

/// The texture access mode a raw code names, if any.
pub open spec fn access_from_code(n: int) -> Option<TextureAccess> {
    if n == 0 {
        Option::Some(TextureAccess::Static)
    } else if n == 1 {
        Option::Some(TextureAccess::Streaming)
    } else if n == 2 {
        Option::Some(TextureAccess::Target)
    } else {
        Option::None
    }
}

impl TextureAccess {
    /// The native engine's numeric code for this access mode.
    pub open spec fn code(self) -> int {
        match self {
            TextureAccess::Static => 0,
            TextureAccess::Streaming => 1,
            TextureAccess::Target => 2,
        }
    }

    pub fn to_ll(self) -> (r: i32)
        ensures
            r == self.code(),
    {
        match self {
            TextureAccess::Static => 0,
            TextureAccess::Streaming => 1,
            TextureAccess::Target => 2,
        }
    }

    pub fn try_from(n: u32) -> (r: Result<TextureAccess, InvalidTextureAccess>)
        ensures
            match access_from_code(n as int) {
                Option::Some(a) => r == Ok::<TextureAccess, InvalidTextureAccess>(a),
                Option::None => r == Err::<TextureAccess, InvalidTextureAccess>(
                    InvalidTextureAccess(n),
                ),
            },
    {
        if n == 0 {
            Ok(TextureAccess::Static)
        } else if n == 1 {
            Ok(TextureAccess::Streaming)
        } else if n == 2 {
            Ok(TextureAccess::Target)
        } else {
            Err(InvalidTextureAccess(n))
        }
    }

    /// Conversion from a code the engine itself reported, trusted to be in
    /// range; out-of-range codes are ruled out by the caller.
    pub fn from_code(n: i64) -> (r: TextureAccess)
        requires
            access_from_code(n as int) is Some,
        ensures
            access_from_code(n as int) == Option::Some(r),
    {
        if n == 0 {
            TextureAccess::Static
        } else if n == 1 {
            TextureAccess::Streaming
        } else {
            TextureAccess::Target
        }
    }
}

/// Converting a texture access mode to its raw code and back yields the
/// original mode.
pub proof fn lemma_texture_access_round_trip(a: TextureAccess)
    ensures
        access_from_code(a.code()) == Option::Some(a),
{
}

/// The per-pixel compositing formula applied when drawing.
#[derive(Copy, Clone, Eq, PartialEq, Hash, Debug, Structural)]
pub enum BlendMode {
    /// no blending (replace destination with source).
    NoBlend,
    /// alpha blending
    Blend,
    /// additive blending
    Add,
    /// color modulate
    Mod,
    /// color multiply
    Mul,
    /// invalid blending mode (indicates error)
    Invalid,
}

/// The blend mode a raw code names, if any.
pub open spec fn blend_mode_from_code(n: int) -> Option<BlendMode> {
    if n == 0 {
        Option::Some(BlendMode::NoBlend)
    } else if n == 1 {
        Option::Some(BlendMode::Blend)
    } else if n == 2 {
        Option::Some(BlendMode::Add)
    } else if n == 4 {
        Option::Some(BlendMode::Mod)
    } else if n == 8 {
        Option::Some(BlendMode::Mul)
    } else if n == 0x7FFFFFFF {
        Option::Some(BlendMode::Invalid)
    } else {
        Option::None
    }
}

impl BlendMode {
    /// The native engine's numeric code for this blend mode.
    pub open spec fn code(self) -> int {
        match self {
            BlendMode::NoBlend => 0,
            BlendMode::Blend => 1,
            BlendMode::Add => 2,
            BlendMode::Mod => 4,
            BlendMode::Mul => 8,
            BlendMode::Invalid => 0x7FFFFFFF,
        }
    }

    pub fn to_ll(self) -> (r: u32)
        ensures
            r == self.code(),
    {
        match self {
            BlendMode::NoBlend => 0,
            BlendMode::Blend => 1,
            BlendMode::Add => 2,
            BlendMode::Mod => 4,
            BlendMode::Mul => 8,
            BlendMode::Invalid => 0x7FFFFFFF,
        }
    }

    pub fn try_from(n: u32) -> (r: Result<BlendMode, ()>)
        ensures
            match blend_mode_from_code(n as int) {
                Option::Some(m) => r == Ok::<BlendMode, ()>(m),
                Option::None => r == Err::<BlendMode, ()>(()),
            },
    {
        if n == 0 {
            Ok(BlendMode::NoBlend)
        } else if n == 1 {
            Ok(BlendMode::Blend)
        } else if n == 2 {
            Ok(BlendMode::Add)
        } else if n == 4 {
            Ok(BlendMode::Mod)
        } else if n == 8 {
            Ok(BlendMode::Mul)
        } else if n == 0x7FFFFFFF {
            Ok(BlendMode::Invalid)
        } else {
            Err(())
        }
    }
}

/// Converting a blend mode to its raw code and back yields the original
/// mode.
pub proof fn lemma_blend_mode_round_trip(m: BlendMode)
    ensures
        blend_mode_from_code(m.code()) == Option::Some(m),
{
}

/// The resampling filter used when a texture is drawn at non-1:1 scale.
#[derive(Copy, Clone, Eq, PartialEq, Hash, Debug, Structural)]
pub enum ScaleMode {
    /// nearest pixel sampling.
    Nearest,
    /// linear filtering. this is the default
    Linear,
}

/// The scale mode a raw code names, if any.
pub open spec fn scale_mode_from_code(n: int) -> Option<ScaleMode> {
    if n == 0 {
        Option::Some(ScaleMode::Nearest)
    } else if n == 1 {
        Option::Some(ScaleMode::Linear)
    } else {
        Option::None
    }
}

impl ScaleMode {
    /// The native engine's numeric code for this scale mode.
    pub open spec fn code(self) -> int {
        match self {
            ScaleMode::Nearest => 0,
            ScaleMode::Linear => 1,
        }
    }

    pub fn to_ll(self) -> (r: i32)
        ensures
            r == self.code(),
    {
        match self {
            ScaleMode::Nearest => 0,
            ScaleMode::Linear => 1,
        }
    }

    pub fn try_from(n: i32) -> (r: Result<ScaleMode, ()>)
        ensures
            match scale_mode_from_code(n as int) {
                Option::Some(m) => r == Ok::<ScaleMode, ()>(m),
                Option::None => r == Err::<ScaleMode, ()>(()),
            },
    {
        if n == 0 {
            Ok(ScaleMode::Nearest)
        } else if n == 1 {
            Ok(ScaleMode::Linear)
        } else {
            Err(())
        }
    }
}

/// Converting a scale mode to its raw code and back yields the original
/// mode.
pub proof fn lemma_scale_mode_round_trip(m: ScaleMode)
    ensures
        scale_mode_from_code(m.code()) == Option::Some(m),
{
}

} // verus!
