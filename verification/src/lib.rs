//! Diagram rendering and export backend: the decisions of the Mermaid and
//! ZenUML renderers and of the HTML exporter, with their contracts.
pub mod text;
pub mod trusted;
pub mod json;
pub mod render;
pub mod mermaid;
pub mod exporter;
pub mod zenuml;

pub use render::{DiagramKind, RenderDiagnostics, RenderError, RendererProfile, RuntimeVersion};
pub use mermaid::MermaidRenderer;
pub use exporter::{ExportError, ExportFormat, ExportInput, ExportOutput, Exporter, HtmlExporter};
