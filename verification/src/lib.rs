//! Typed descriptions of GPU pipeline layouts, lowered to the flat tables that
//! a Vulkan device consumes.

pub mod buffer;
pub mod function;
pub mod image;
pub mod math;
pub mod pass;
pub mod raw;
pub mod render;
pub mod target;
pub mod window;
