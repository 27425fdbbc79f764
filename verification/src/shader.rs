//! Compiled shaders as they are embedded in the program.

use vstd::prelude::*;

verus! {

/// The pipeline stage a shader entry point runs in.
#[derive(Debug, Clone, Copy, PartialEq, Eq)]
pub enum ShaderStage {
    Vertex,
    Fragment,
    Compute,
}

/// A named entry point of a shader and its stage.
pub struct EntryPoint {
    pub name: &'static str,
    pub stage: ShaderStage,
}

/// A compiled shader: its name, its SPIR-V code and its entry points.
pub struct Shader {
    pub name: &'static str,
    pub code: &'static [u8],
    pub entry_points: &'static [EntryPoint],
}

} // verus!
