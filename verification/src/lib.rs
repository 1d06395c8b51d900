//! Verified core of an imgui + Vulkan rendering stack.

pub mod commands;
pub mod compiler;
pub mod descriptors;
pub mod error;
pub mod flags;
pub mod fonts;
pub mod geometry;
pub mod logger;
pub mod selection;
pub mod shader_tool;
pub mod shaders;
pub mod text;
pub mod vertex;
