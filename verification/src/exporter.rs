//! Exporting a rendered diagram. The exporter decides what is written and
//! what the export answers; the caller writes the file in between.
use vstd::prelude::*;
use vstd::string::StringExecFns;
use std::path::PathBuf;
use crate::text::{concat_str, contains_seq, occurs_at};

verus! {

/// The formats a diagram can be exported to.
#[derive(Debug, Clone, Copy, PartialEq, Eq, Structural)]
pub enum ExportFormat {
    Html,
    /// Planned for future release.
    Pdf,
    /// Planned for future release.
    Png,
    /// Planned for future release.
    Jpeg,
}

/// A request to export an SVG diagram to a file.
#[derive(Debug, Clone)]
pub struct ExportInput {
    pub format: ExportFormat,
    pub svg: String,
    pub output_path: PathBuf,
}

/// The result of a successful export: where the file was written.
#[derive(Debug, Clone)]
pub struct ExportOutput {
    pub path: PathBuf,
}

/// Why an export failed.
#[derive(Debug, Clone, PartialEq, Eq)]
pub enum ExportError {
    /// The exporter does not produce this format.
    UnsupportedFormat,
    /// Writing the file failed, with the reason.
    Io(String),
    /// The rendering runtime failed, with the reason.
    Runtime(String),
}

/// The text of an export error, as it is displayed.
pub open spec fn export_error_text(e: ExportError) -> Seq<char> {
    match e {
        ExportError::UnsupportedFormat => "unsupported format"@,
        ExportError::Io(m) => "io error: "@ + m@,
        ExportError::Runtime(m) => "runtime error: "@ + m@,
    }
}

impl ExportError {
    /// The error's message.
    pub fn to_string(&self) -> (s: String)
        ensures
            s@ == export_error_text(*self),
    {
        match self {
            ExportError::UnsupportedFormat => String::from_str("unsupported format"),
            ExportError::Io(m) => concat_str("io error: ", m.as_str()),
            ExportError::Runtime(m) => concat_str("runtime error: ", m.as_str()),
        }
    }
}

/// An exporter. Exporting `input` is: `document(input)` gives the file's text
/// (or the error that ends the export), the caller writes it to
/// `input.output_path`, and `complete(input, written)` gives the export's
/// answer from the outcome of that write.
pub trait Exporter {
    /// The text to write to `input.output_path`, or why nothing is written.
    fn document(&self, input: &ExportInput) -> Result<String, ExportError>;

    /// The export's answer once the write was attempted (`Err` holds the
    /// write's error message).
    fn complete(&self, input: &ExportInput, written: Result<(), String>) -> Result<ExportOutput, ExportError>;
}

/// Exports SVG diagrams as standalone HTML pages.
pub struct HtmlExporter;

/// The part of the HTML page before the SVG.
pub open spec fn html_head() -> Seq<char> {
    "<!DOCTYPE html>\n<html>\n<head>\n    <meta charset=\"UTF-8\">\n    <title>Exported Diagram</title>\n    <style>\n        body { display: flex; justify-content: center; align-items: center; height: 100vh; margin: 0; background: #f5f5f5; }\n        .container { background: white; padding: 20px; border-radius: 8px; box-shadow: 0 2px 10px rgba(0,0,0,0.1); }\n    </style>\n</head>\n<body>\n    <div class=\"container\">\n        "@
}

/// The part of the HTML page after the SVG.
pub open spec fn html_tail() -> Seq<char> {
    "\n    </div>\n</body>\n</html>"@
}

/// The standalone HTML page that shows `svg` centred in a card.
pub open spec fn html_page(svg: Seq<char>) -> Seq<char> {
    html_head() + svg + html_tail()
}

impl Exporter for HtmlExporter {
    fn document(&self, input: &ExportInput) -> (r: Result<String, ExportError>)
        ensures
            input.format == ExportFormat::Html ==> (r matches Ok(page) && page@ == html_page(input.svg@)),
            input.format != ExportFormat::Html ==> r == Err::<String, ExportError>(ExportError::UnsupportedFormat),
    {
        match input.format {
            ExportFormat::Html => {
                let mut page = String::from_str("<!DOCTYPE html>\n<html>\n<head>\n    <meta charset=\"UTF-8\">\n    <title>Exported Diagram</title>\n    <style>\n        body { display: flex; justify-content: center; align-items: center; height: 100vh; margin: 0; background: #f5f5f5; }\n        .container { background: white; padding: 20px; border-radius: 8px; box-shadow: 0 2px 10px rgba(0,0,0,0.1); }\n    </style>\n</head>\n<body>\n    <div class=\"container\">\n        ");
                page.append(input.svg.as_str());
                page.append("\n    </div>\n</body>\n</html>");
                Ok(page)
            },
            _ => Err(ExportError::UnsupportedFormat),
        }
    }

    fn complete(&self, input: &ExportInput, written: Result<(), String>) -> (r: Result<ExportOutput, ExportError>)
        ensures
            written is Ok ==> (r matches Ok(out) && out.path == input.output_path),
            written matches Err(m) ==> (r matches Err(ExportError::Io(e)) && e@ == m@),
    {
        match written {
            Ok(()) => Ok(ExportOutput { path: input.output_path.clone() }),
            Err(m) => Err(ExportError::Io(m)),
        }
    }
}

/// Every HTML export holds the exported SVG verbatim: the page contains `svg`
/// as a contiguous run of chars.
pub proof fn lemma_html_page_contains_svg(svg: Seq<char>)
    ensures
        contains_seq(html_page(svg), svg),
{
    let at = html_head().len() as int;
    assert(html_page(svg).subrange(at, at + svg.len()) =~= svg);
    assert(occurs_at(html_page(svg), svg, at));
}

} // verus!
