//! Enumerant values of the graphics API that the device commands carry.
use vstd::prelude::*;

verus! {

pub const NEAREST: u32 = 0x2600;
pub const LINEAR: u32 = 0x2601;
pub const NEAREST_MIPMAP_NEAREST: u32 = 0x2700;
pub const LINEAR_MIPMAP_NEAREST: u32 = 0x2701;
pub const NEAREST_MIPMAP_LINEAR: u32 = 0x2702;
pub const LINEAR_MIPMAP_LINEAR: u32 = 0x2703;

pub const REPEAT: u32 = 0x2901;
pub const MIRRORED_REPEAT: u32 = 0x8370;
pub const CLAMP_TO_EDGE: u32 = 0x812F;

pub const R8: u32 = 0x8229;
pub const R32F: u32 = 0x822E;
pub const RGB8: u32 = 0x8051;
pub const RGB32F: u32 = 0x8815;
pub const RGBA4: u32 = 0x8056;
pub const RGBA8: u32 = 0x8058;
pub const RGBA32F: u32 = 0x8814;
pub const DEPTH_COMPONENT16: u32 = 0x81A5;
pub const DEPTH_COMPONENT24: u32 = 0x81A6;
pub const DEPTH_COMPONENT32F: u32 = 0x8CAC;

pub const TEXTURE_2D: u32 = 0x0DE1;
pub const TEXTURE_CUBE_MAP: u32 = 0x8513;
pub const TEXTURE_CUBE_MAP_POSITIVE_X: u32 = 0x8515;
pub const TEXTURE_2D_ARRAY: u32 = 0x8C1A;
pub const TEXTURE0: u32 = 0x84C0;

pub const TEXTURE_MAG_FILTER: u32 = 0x2800;
pub const TEXTURE_MIN_FILTER: u32 = 0x2801;
pub const TEXTURE_WRAP_S: u32 = 0x2802;
pub const TEXTURE_WRAP_T: u32 = 0x2803;
pub const TEXTURE_WRAP_R: u32 = 0x8072;

pub const DEPTH_COMPONENT: u32 = 0x1902;
pub const RED: u32 = 0x1903;
pub const RGB: u32 = 0x1907;
pub const RGBA: u32 = 0x1908;
pub const UNSIGNED_BYTE: u32 = 0x1401;
pub const FLOAT: u32 = 0x1406;

pub const FRAMEBUFFER: u32 = 0x8D40;
pub const READ_FRAMEBUFFER: u32 = 0x8CA8;
pub const DRAW_FRAMEBUFFER: u32 = 0x8CA9;
pub const COLOR_ATTACHMENT0: u32 = 0x8CE0;
pub const DEPTH_ATTACHMENT: u32 = 0x8D00;

pub const DEPTH_BUFFER_BIT: u32 = 0x0100;
pub const COLOR_BUFFER_BIT: u32 = 0x4000;

pub const ARRAY_BUFFER: u32 = 0x8892;
pub const ELEMENT_ARRAY_BUFFER: u32 = 0x8893;
pub const PIXEL_PACK_BUFFER: u32 = 0x88EB;
pub const UNIFORM_BUFFER: u32 = 0x8A11;

pub const TRIANGLES: u32 = 0x0004;

pub const STREAM_READ: u32 = 0x88E1;
pub const STATIC_DRAW: u32 = 0x88E4;
pub const DYNAMIC_DRAW: u32 = 0x88E8;

/// Number of texture sampler units.
pub const MAX_TEXTURE_UNITS: u32 = 32;

/// Highest number of color attachment points a framebuffer offers.
pub const MAX_COLOR_ATTACHMENTS: usize = 32;

} // verus!
