//! GPU resource and render-target management over a recorded device command stream.
pub mod buffer;
pub mod consts;
pub mod error;
pub mod frame_input;
pub mod gl;
pub mod rendertarget;
pub mod texture;

pub use crate::buffer::{ElementBuffer, PixelPackBuffer, UniformBuffer, VertexBuffer};
pub use crate::error::Error;
pub use crate::frame_input::{MouseButton, State};
pub use crate::gl::{
    BufferId, Command, CommandModel, ElementKind, FramebufferId, Gl, GlCommand, GlModel, Object,
    SyncId, TextureId, Vec4,
};
pub use crate::rendertarget::{flip_rows, AsyncSaveScreen, Readback, RenderTarget, Screen};
pub use crate::texture::{
    calculate_number_of_mip_maps, Format, Image, Interpolation, Texture, Texture2D, Texture2DArray,
    TextureCubeMap, Wrapping,
};
