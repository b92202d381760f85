//! Scaffold for small rendering applications: a validated, defaulted window
//! configuration, the setup statement sequence generated from it, and the
//! lifecycle rules of shaders and programs compiled against a shared graphics
//! context.

pub mod bootstrap;
pub mod from_resource;
pub mod context;
pub mod native;
pub mod options;
pub mod pattern;
pub mod program;
pub mod resources;
pub mod shader;
pub mod text;
pub mod util;
