//! The types that every diagram renderer shares: what kind of diagram is asked
//! for, what can go wrong, and what a render reports besides the SVG.
use vstd::prelude::*;

verus! {

/// The diagram languages that the backend renders.
#[derive(Debug, Clone, Copy, PartialEq, Eq, Structural)]
pub enum DiagramKind {
    Mermaid,
    DrawIo,
    Zenuml,
}

/// Why a render did not produce an SVG.
#[derive(Debug, Clone, PartialEq, Eq)]
pub enum RenderError {
    /// The request cannot be served by this renderer.
    InvalidInput(String),
    /// The runtime (Node.js, the render script, the file system) failed.
    Runtime(String),
}

/// Messages collected while turning the runtime's output into a result.
#[derive(Debug, Clone, PartialEq, Eq)]
pub struct RenderDiagnostics {
    pub warnings: Vec<String>,
    pub errors: Vec<String>,
}

/// The diagram runtime that produced an output.
#[derive(Debug, Clone, PartialEq, Eq)]
pub struct RuntimeVersion {
    pub name: String,
    pub version: String,
    /// The checksum of the runtime bundle, when it could be read.
    pub checksum: Option<String>,
}

/// The renderer configuration that produced an output.
#[derive(Debug, Clone, PartialEq, Eq)]
pub struct RendererProfile {
    pub id: String,
    pub description: Option<String>,
}

/// The views of a list of strings.
pub open spec fn string_views(v: Seq<String>) -> Seq<Seq<char>> {
    v.map_values(|s: String| s@)
}

/// `e` is a runtime error whose message is `msg`.
pub open spec fn is_runtime_error(e: RenderError, msg: Seq<char>) -> bool {
    e matches RenderError::Runtime(m) && m@ == msg
}

/// `e` is an invalid-input error whose message is `msg`.
pub open spec fn is_invalid_input(e: RenderError, msg: Seq<char>) -> bool {
    e matches RenderError::InvalidInput(m) && m@ == msg
}

} // verus!
