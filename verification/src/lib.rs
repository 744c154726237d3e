//! Typed, ownership-safe handles for OpenGL shader and program objects.
//!
//! A shader handle owns one compiled shader object and a [`Program`] one
//! linked program object. Compiling, linking and setting a uniform are
//! protocols with the graphics driver: this crate decides every request and
//! what each reply means, and leaves it to the owner of the graphics context
//! to perform the requests.

pub mod driver;
mod private;
pub mod program;
pub mod registry;
pub mod shader;
pub mod text;
pub mod uniform;

pub use crate::driver::{Call, Progress, Protocol, Reply};
pub use crate::program::{Link, Program};
pub use crate::shader::{
    Compile, FragmentShader, GeometryShader, Shader, ShaderType, TessControlShader,
    TessEvaluationShader, VertexShader,
};
pub use crate::uniform::{Uniform, UniformShape};
