use katana_canvas_forge::{ExportError, ExportFormat, ExportInput, Exporter, HtmlExporter};
use std::path::PathBuf;
use tempfile::tempdir;

#[test]
fn html_export_of_a_test_svg() {
    let exporter = HtmlExporter;
    let dir = tempdir().unwrap();
    let output_path = dir.path().join("test.html");

    let input = ExportInput {
        format: ExportFormat::Html,
        svg: "<svg>test</svg>".to_string(),
        output_path: output_path.clone(),
    };
    let content = exporter.document(&input).unwrap();
    assert!(content.contains("<svg>test</svg>"));
    let output = exporter.complete(&input, Ok(())).unwrap();
    assert_eq!(output.path, output_path);
}

#[test]
fn test_unsupported_format() {
    let exporter = HtmlExporter;
    let input = ExportInput {
        format: ExportFormat::Pdf,
        svg: "<svg></svg>".to_string(),
        output_path: PathBuf::from("test.pdf"),
    };
    let result = exporter.document(&input);
    assert!(matches!(result, Err(ExportError::UnsupportedFormat)));
}

#[test]
fn html_page_wraps_svg_in_template() {
    let exporter = HtmlExporter;
    let input = ExportInput {
        format: ExportFormat::Html,
        svg: "<svg/>".to_string(),
        output_path: PathBuf::from("out.html"),
    };
    let page = exporter.document(&input).unwrap();
    let expected = r#"<!DOCTYPE html>
<html>
<head>
    <meta charset="UTF-8">
    <title>Exported Diagram</title>
    <style>
        body { display: flex; justify-content: center; align-items: center; height: 100vh; margin: 0; background: #f5f5f5; }
        .container { background: white; padding: 20px; border-radius: 8px; box-shadow: 0 2px 10px rgba(0,0,0,0.1); }
    </style>
</head>
<body>
    <div class="container">
        <svg/>
    </div>
</body>
</html>"#;
    assert_eq!(page, expected);
}

#[test]
fn html_page_keeps_any_svg_text_verbatim() {
    let exporter = HtmlExporter;
    let svg = "<svg width=\"10\">\n  <text>{braces} & ünïcode</text>\n</svg>";
    let input = ExportInput {
        format: ExportFormat::Html,
        svg: svg.to_string(),
        output_path: PathBuf::from("x.html"),
    };
    let page = exporter.document(&input).unwrap();
    assert!(page.contains(svg));
}

#[test]
fn every_planned_format_is_refused() {
    let exporter = HtmlExporter;
    for format in [ExportFormat::Pdf, ExportFormat::Png, ExportFormat::Jpeg] {
        let input = ExportInput {
            format,
            svg: "<svg></svg>".to_string(),
            output_path: PathBuf::from("x"),
        };
        assert_eq!(exporter.document(&input), Err(ExportError::UnsupportedFormat));
    }
}

#[test]
fn completed_export_reports_input_path() {
    let exporter = HtmlExporter;
    let input = ExportInput {
        format: ExportFormat::Html,
        svg: "<svg></svg>".to_string(),
        output_path: PathBuf::from("/some/where/diagram.html"),
    };
    let output = exporter.complete(&input, Ok(())).unwrap();
    assert_eq!(output.path, PathBuf::from("/some/where/diagram.html"));
}

#[test]
fn failed_write_is_an_io_error() {
    let exporter = HtmlExporter;
    let input = ExportInput {
        format: ExportFormat::Html,
        svg: "<svg></svg>".to_string(),
        output_path: PathBuf::from("/nope/diagram.html"),
    };
    let result = exporter.complete(&input, Err("permission denied".to_string()));
    assert_eq!(result.unwrap_err(), ExportError::Io("permission denied".to_string()));
}

#[test]
fn export_error_messages() {
    assert_eq!(ExportError::UnsupportedFormat.to_string(), "unsupported format");
    assert_eq!(ExportError::Io("disk full".to_string()).to_string(), "io error: disk full");
    assert_eq!(ExportError::Runtime("boom".to_string()).to_string(), "runtime error: boom");
}
