//! Backend-agnostic rendering core of a 2D vector-graphics canvas.
//!
//! The canvas layer turns tessellated path geometry into an ordered list of
//! [`Command`] values that reference a shared vertex buffer by index range,
//! then hands the frame's commands, vertices and the [`ImageStore`] to one
//! call on the active [`Renderer`]. Backends are polymorphic over that single
//! trait; [`Void`] is the headless backend that records what a live backend
//! would do.

pub mod color;
pub mod composite;
pub mod error;
pub mod image;
pub mod paint;
pub mod params;
pub mod renderer;
pub mod void;

pub use color::Color;
pub use composite::{BlendFactor, CompositeOperationState};
pub use error::ErrorKind;
pub use image::{ImageFilter, ImageId, ImageInfo, ImageSource, ImageStore, PixelFormat};
pub use paint::GlyphTexture;
pub use params::{Params, ShaderType};
pub use renderer::{Command, CommandType, Drawable, FillRule, RenderTarget, Renderer, Vertex};
pub use void::{RenderEvent, Void, VoidImage};
