//! A software OpenGL renderer core and the TLS policy of a headless browser.

pub mod gl_types;
pub mod gl_internal;
pub mod math;
pub mod pgl_ext;
pub mod gl_impl;
pub mod gl_context;
pub mod gl_glsl;
pub mod net;
pub mod glsl;
