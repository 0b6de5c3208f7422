//! Shader source text and the two fixed paths it is loaded from.
//!
//! Reading the files is the caller's business; a shader here is the text
//! itself. An unreadable file is fatal to the process, so no fallback source
//! exists in this library.

use vstd::prelude::*;

verus! {

/// The path of the vertex shader, fixed for the whole program.
pub open spec fn vertex_path_spec() -> Seq<char> {
    "glsl/vertex.glsl"@
}

/// The path of the fragment shader, fixed for the whole program.
pub open spec fn fragment_path_spec() -> Seq<char> {
    "glsl/fragment.glsl"@
}

/// Where the vertex shader source is read from.
pub fn vertex_shader_path() -> (p: String)
    ensures
        p@ == vertex_path_spec(),
{
    String::from_str("glsl/vertex.glsl")
}

/// Where the fragment shader source is read from.
pub fn fragment_shader_path() -> (p: String)
    ensures
        p@ == fragment_path_spec(),
{
    String::from_str("glsl/fragment.glsl")
}

/// Shader source text, held as it was read.
pub struct Shader {
    /// The source, byte for byte as the file held it.
    pub src: String,
}

impl Shader {
    /// Wraps source text as a shader, keeping it unchanged.
    pub fn from(src: String) -> (s: Shader)
        ensures
            s.src@ == src@,
    {
        Shader { src }
    }
}

} // verus!
