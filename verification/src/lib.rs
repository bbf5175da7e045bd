//! A verified model of a 2D accelerated rendering binding: rectangle and
//! clipping algebra, blend/scale/access mode code mappings, and the
//! validation rules that guard texture creation and pixel uploads.

pub mod canvas;
pub mod clip;
pub mod driver;
pub mod errors;
pub mod modes;
pub mod pixels;
pub mod rect;
pub mod texture;

pub use canvas::Canvas;
pub use canvas::flip_flags;
pub use clip::ClippingRect;
pub use driver::DriverIterator;
pub use errors::Error;
pub use errors::IntegerOrSdlError;
pub use errors::TargetRenderError;
pub use errors::TextureValueError;
pub use errors::UpdateTextureError;
pub use errors::UpdateTextureYUVError;
pub use modes::BlendMode;
pub use modes::InvalidTextureAccess;
pub use modes::ScaleMode;
pub use modes::TextureAccess;
pub use pixels::PixelFormat;
pub use rect::Rect;
pub use texture::Texture;
pub use texture::TextureCreator;
pub use texture::TextureQuery;
