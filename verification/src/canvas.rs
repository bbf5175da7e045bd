//! The drawing-surface model: the renderer-side state a canvas mediates
//! (its context, default pixel format, render-target capability and the
//! currently bound render target), target redirection, and the computed
//! parts of the drawing calls.

use vstd::prelude::*;

use crate::errors::Error;
use crate::errors::TargetRenderError;
use crate::modes::TextureAccess;
use crate::pixels::PixelFormat;
use crate::texture::Texture;
use crate::texture::TextureCreator;

verus! {

/// The canvas model: one renderer context bound to one original target,
/// with drawing optionally redirected to a target-capable texture.
/// `target` of `None` means drawing goes to the original target.
#[derive(Copy, Clone, Debug)]
pub struct Canvas {
    pub context_id: u64,
    pub default_pixel_format: PixelFormat,
    pub supports_render_target: bool,
    pub target: Option<Texture>,
}

impl Canvas {
    /// A canvas freshly attached to its original target: nothing is
    /// redirected yet.
    pub fn new(context_id: u64, default_pixel_format: PixelFormat, supports_render_target: bool) -> (r:
        Canvas)
        ensures
            r == (Canvas {
                context_id,
                default_pixel_format,
                supports_render_target,
                target: Option::None,
            }),
    {
        Canvas { context_id, default_pixel_format, supports_render_target, target: None }
    }

    pub fn default_pixel_format(&self) -> (r: PixelFormat)
        ensures
            r == self.default_pixel_format,
    {
        self.default_pixel_format
    }

    /// A texture factory sharing this canvas's renderer context; textures
    /// it creates belong to this canvas.
    pub fn texture_creator(&self) -> (r: TextureCreator)
        ensures
            r == (TextureCreator {
                context_id: self.context_id,
                default_pixel_format: self.default_pixel_format,
            }),
    {
        TextureCreator {
            context_id: self.context_id,
            default_pixel_format: self.default_pixel_format,
        }
    }

    /// Creates a texture for this canvas's rendering context, under the
    /// same validation as the texture factory's `create_texture`.
    pub fn create_texture(
        &self,
        format: Option<PixelFormat>,
        access: TextureAccess,
        width: u32,
        height: u32,
    ) -> (r: Result<Texture, crate::errors::TextureValueError>)
        ensures
            r == (TextureCreator {
                context_id: self.context_id,
                default_pixel_format: self.default_pixel_format,
            }).spec_create_texture(format, access, width, height),
    {
        self.texture_creator().create_texture(format, access, width, height)
    }

    /// The currently bound render target; `None` means the original one.
    pub fn get_target(&self) -> (r: Option<Texture>)
        ensures
            r == self.target,
    {
        self.target
    }

    /// Redirects subsequent drawing to the given texture, or back to the
    /// original target for `None`. Fails exactly when a texture target is
    /// requested but the renderer does not support render-to-texture.
    pub fn set_target(&mut self, target: Option<Texture>) -> (r: Result<(), Error>)
        requires
            target matches Option::Some(t) ==> t.access == TextureAccess::Target && t.context_id
                == old(self).context_id,
        ensures
            r is Ok <==> (target is Some ==> old(self).supports_render_target),
            r is Ok ==> *final(self) == (Canvas { target, ..*old(self) }),
            r is Err ==> *final(self) == *old(self),
    {
        if target.is_some() && !self.supports_render_target {
            return Err(Error::new("render targets are not supported on this renderer"));
        }
        self.target = target;
        Ok(())
    }

    /// The validated part of setting a device-independent logical
    /// resolution: both extents must fit the native engine's signed
    /// 32-bit integers. The presentation mode and the stored size are
    /// renderer-side state, fetched and set through the engine rather
    /// than cached, so the model itself does not change.
    pub fn set_logical_size(&mut self, width: u32, height: u32) -> (r: Result<
        (),
        crate::errors::IntegerOrSdlError,
    >)
        ensures
            *final(self) == *old(self),
            match r {
                Result::Ok(_) => width <= i32::MAX && height <= i32::MAX,
                Result::Err(crate::errors::IntegerOrSdlError::IntegerOverflows(name, v)) => (name@
                    == "width"@ && v == width && width > i32::MAX) || (name@ == "height"@ && v
                    == height && width <= i32::MAX && height > i32::MAX),
                Result::Err(crate::errors::IntegerOrSdlError::SdlError(_)) => false,
            },
    {
        if width > i32::MAX as u32 {
            return Err(crate::errors::IntegerOrSdlError::IntegerOverflows("width", width));
        }
        if height > i32::MAX as u32 {
            return Err(crate::errors::IntegerOrSdlError::IntegerOverflows("height", height));
        }
        Ok(())
    }

    /// Blits a (sub)region of a texture to the current target; absent
    /// regions mean the whole texture, stretched to fill the target. The
    /// engine does the geometric work; what the model decides is
    /// ownership: a texture belonging to another renderer context is
    /// rejected, one of this canvas's own creator is drawn without error.
    pub fn copy(&self, texture: &Texture) -> (r: Result<(), Error>)
        ensures
            r is Ok <==> texture.context_id == self.context_id,
    {
        if texture.context_id != self.context_id {
            return Err(Error::new("texture does not belong to this canvas's renderer"));
        }
        Ok(())
    }

    /// Temporarily redirects the render target to `texture`, runs `f` on
    /// the redirected canvas, then restores the prior target even though
    /// `f` may have redirected further in the meantime.
    ///
    /// The texture must be target-capable and belong to this canvas's own
    /// creator. Fails exactly when the renderer does not support
    /// render-to-texture, in which case the canvas is untouched.
    pub fn with_texture_canvas<F: FnOnce(Canvas) -> Canvas>(&mut self, texture: &Texture, f: F) -> (r:
        Result<(), TargetRenderError>)
        requires
            texture.access == TextureAccess::Target,
            texture.context_id == old(self).context_id,
            call_requires(f, ((Canvas { target: Option::Some(*texture), ..*old(self) }),)),
        ensures
            final(self).target == old(self).target,
            r is Ok <==> old(self).supports_render_target,
            !old(self).supports_render_target ==> *final(self) == *old(self),
            old(self).supports_render_target ==> exists|c2: Canvas|
                call_ensures(f, ((Canvas { target: Option::Some(*texture), ..*old(self) }),), c2)
                    && *final(self) == (Canvas { target: old(self).target, ..c2 }),
    {
        if !self.supports_render_target {
            return Err(
                TargetRenderError::SdlError(
                    Error::new("render targets are not supported on this renderer"),
                ),
            );
        }
        let saved = self.target;
        let redirected = Canvas { target: Some(*texture), ..*self };
        let after = f(redirected);
        *self = Canvas { target: saved, ..after };
        Ok(())
    }

    /// As `with_texture_canvas`, but redirects to each texture of the list
    /// in turn, running `f` with the caller's tag for it, and restores the
    /// original target only once, after the whole iteration.
    ///
    /// On success the final state comes from running `f` once per entry,
    /// in list order, each call on the previous call's canvas redirected
    /// to that entry's texture and given that entry's own tag: the
    /// `redirect_chain` of the ensures pins exactly that sequence of
    /// calls.
    pub fn with_multiple_texture_canvas<U, F: Fn(Canvas, &U) -> Canvas>(
        &mut self,
        textures: &Vec<(Texture, U)>,
        f: F,
    ) -> (r: Result<(), TargetRenderError>)
        requires
            forall|i: int|
                0 <= i < textures@.len() ==> ((#[trigger] textures@[i].0).access
                    == TextureAccess::Target && textures@[i].0.context_id == old(
                    self,
                ).context_id),
            forall|c: Canvas, u: &U| call_requires(f, (c, u)),
        ensures
            final(self).target == old(self).target,
            r is Ok <==> (textures@.len() > 0 ==> old(self).supports_render_target),
            r is Err ==> *final(self) == *old(self),
            textures@.len() == 0 ==> *final(self) == *old(self),
            r is Ok ==> exists|cs: Seq<Canvas>|
                #[trigger] redirect_chain(f, textures@, cs) && cs[0] == *old(self) && *final(self)
                    == (Canvas { target: old(self).target, ..cs.last() }),
    {
        if textures.len() > 0 && !self.supports_render_target {
            return Err(
                TargetRenderError::SdlError(
                    Error::new("render targets are not supported on this renderer"),
                ),
            );
        }
        let saved = self.target;
        let mut current = *self;
        let ghost mut chain: Seq<Canvas> = seq![*self];
        let mut i: usize = 0;
        while i < textures.len()
            invariant
                0 <= i <= textures@.len(),
                forall|c: Canvas, u: &U| call_requires(f, (c, u)),
                chain.len() == i + 1,
                chain[0] == *old(self),
                current == chain.last(),
                forall|j: int|
                    0 <= j < i ==> redirect_step(f, #[trigger] textures@[j], chain[j], chain[j + 1]),
            decreases textures@.len() - i,
        {
            let pair = &textures[i];
            let redirected = Canvas { target: Some(pair.0), ..current };
            let next = f(redirected, &pair.1);
            proof {
                assert(redirect_step(f, textures@[i as int], chain[i as int], next));
                chain = chain.push(next);
            }
            current = next;
            i = i + 1;
        }
        *self = Canvas { target: saved, ..current };
        proof {
            assert(redirect_chain(f, textures@, chain));
        }
        Ok(())
    }
}

/// One step of a multi-texture redirection: `after` is what `f` returned
/// for `before` redirected to the entry's texture, called with the
/// entry's own tag.
pub open spec fn redirect_step<U, F: Fn(Canvas, &U) -> Canvas>(
    f: F,
    entry: (Texture, U),
    before: Canvas,
    after: Canvas,
) -> bool {
    call_ensures(f, ((Canvas { target: Option::Some(entry.0), ..before }), &entry.1), after)
}

/// A run of multi-texture redirection: `cs` records the canvas before any
/// call and after each, and every entry of `textures` got exactly one
/// call of `f`, in list order, on the previous entry's result.
pub open spec fn redirect_chain<U, F: Fn(Canvas, &U) -> Canvas>(
    f: F,
    textures: Seq<(Texture, U)>,
    cs: Seq<Canvas>,
) -> bool {
    cs.len() == textures.len() + 1 && forall|i: int|
        0 <= i < textures.len() ==> redirect_step(f, #[trigger] textures[i], cs[i], cs[i + 1])
}

/// The raw flip-mode code handed to the engine by `copy_ex`: horizontal
/// and vertical mirroring composed by bitwise union.
pub fn flip_flags(flip_horizontal: bool, flip_vertical: bool) -> (r: u32)
    ensures
        flip_horizontal == false && flip_vertical == false ==> r == 0,
        flip_horizontal == true && flip_vertical == false ==> r == 1,
        flip_horizontal == false && flip_vertical == true ==> r == 2,
        flip_horizontal == true && flip_vertical == true ==> r == 3,
{
    match (flip_horizontal, flip_vertical) {
        (false, false) => 0,
        (true, false) => 1,
        (false, true) => 2,
        (true, true) => 3,
    }
}

} // verus!
