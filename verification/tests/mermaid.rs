use katana_canvas_forge::mermaid::{
    advance, cache_fingerprint, extract_attr_str, first_word_of, node_version_warning,
    pick_vendor_dir, render_command, trim_white_space, vendor_search_candidates,
    version_probe_command, ChecksumSource,
    NodeArg, ProcessOutcome, RenderEvent, RenderStep, VendorCandidate,
};
use katana_canvas_forge::{DiagramKind, MermaidRenderer, RenderError};
use std::path::PathBuf;

fn renderer() -> MermaidRenderer {
    MermaidRenderer::new("11.4.0", PathBuf::from("vendor"))
}

fn runtime_error(step: RenderStep) -> String {
    match step {
        RenderStep::Failed(RenderError::Runtime(m)) => m,
        _ => panic!("expected a runtime failure"),
    }
}

fn ok_process(stdout: &str) -> ProcessOutcome {
    ProcessOutcome { success: true, stdout: stdout.to_string(), stderr: String::new() }
}

#[test]
fn new_keeps_version_and_vendor_dir() {
    let r = renderer();
    assert_eq!(r.version, "11.4.0");
    assert_eq!(r.vendor_dir, PathBuf::from("vendor"));
}

#[test]
fn extract_attr_str_reads_first_value() {
    let svg = r#"<svg id="m" width="120.5" height="80" viewBox="0 0 120 80"><g width="9"/></svg>"#;
    assert_eq!(extract_attr_str(svg, "width").as_deref(), Some("120.5"));
    assert_eq!(extract_attr_str(svg, "height").as_deref(), Some("80"));
    assert_eq!(extract_attr_str(svg, "viewBox").as_deref(), Some("0 0 120 80"));
}

#[test]
fn extract_attr_str_missing_or_unterminated() {
    assert_eq!(extract_attr_str("<svg></svg>", "width"), None);
    assert_eq!(extract_attr_str("<svg width=\"12", "width"), None);
    assert_eq!(extract_attr_str("<svg width='12'>", "width"), None);
}

#[test]
fn extract_attr_str_matches_by_text_not_by_name() {
    // `stroke-width="` also contains `width="`: the first occurrence wins.
    let svg = r#"<svg stroke-width="2" width="100">"#;
    assert_eq!(extract_attr_str(svg, "width").as_deref(), Some("2"));
    assert_eq!(extract_attr_str(r#"<svg width="">"#, "width").as_deref(), Some(""));
    assert_eq!(extract_attr_str(r#"<svg title="ünï" width="1">"#, "title").as_deref(), Some("ünï"));
}

#[test]
fn first_word_of_sidecar_text() {
    assert_eq!(first_word_of("abc123  mermaid.min.js\n"), "abc123");
    assert_eq!(first_word_of("\n\t  deadbeef\n"), "deadbeef");
    assert_eq!(first_word_of("   \n"), "");
    assert_eq!(first_word_of(""), "");
}

#[test]
fn checksum_from_sidecar_and_bundle() {
    assert_eq!(
        MermaidRenderer::checksum_from(ChecksumSource::Sidecar(Some("cafe  mermaid.min.js\n".to_string()))),
        Some("cafe".to_string())
    );
    assert_eq!(MermaidRenderer::checksum_from(ChecksumSource::Sidecar(None)), None);
    assert_eq!(
        MermaidRenderer::checksum_from(ChecksumSource::Bundle(Some(b"abc".to_vec()))),
        Some("ba7816bf8f01cfea414140de5dae2223b00361a396177a9cb410ff61f20015ad".to_string())
    );
    assert_eq!(
        MermaidRenderer::checksum_from(ChecksumSource::Bundle(Some(Vec::new()))),
        Some("e3b0c44298fc1c149afbf4c8996fb92427ae41e4649b934ca495991b7852b855".to_string())
    );
    assert_eq!(MermaidRenderer::checksum_from(ChecksumSource::Bundle(None)), None);
}

#[test]
fn cache_fingerprint_hashes_version_source_and_config() {
    let f = cache_fingerprint("11.4.0", "graph TD; A-->B", "{}");
    assert_eq!(f, "031383d14274e8690424a44d5d103fdc328710cdd1206fde07a2e9596bce7f6d");
    assert_eq!(f.len(), 64);
    assert_ne!(f, cache_fingerprint("11.4.0", "graph TD; A-->B", "null"));
    assert_eq!(
        cache_fingerprint("11.4.0", "graph TD; A-->B", "null"),
        "1d12a1e5dea0dbfee0704ce25e132fe09c46e81b79e0edcc1ec7c1c94a03766f"
    );
}

#[test]
fn begin_rejects_other_diagram_kinds() {
    let r = renderer();
    assert!(matches!(r.begin(DiagramKind::Mermaid), RenderStep::ProbeNode));
    for kind in [DiagramKind::DrawIo, DiagramKind::Zenuml] {
        match r.begin(kind) {
            RenderStep::Failed(RenderError::InvalidInput(m)) => assert_eq!(m, "Expected Mermaid diagram"),
            _ => panic!("expected invalid input"),
        }
    }
}

#[test]
fn node_probe_outcomes() {
    assert!(matches!(
        advance(RenderStep::ProbeNode, RenderEvent::NodeProbed(Ok(ok_process("v24.1.0\n")))),
        RenderStep::LocateScript { warning: None }
    ));
    match advance(RenderStep::ProbeNode, RenderEvent::NodeProbed(Ok(ok_process("v22.11.0\n")))) {
        RenderStep::LocateScript { warning: Some(w) } => {
            assert_eq!(w, "Node.js version v22.11.0 detected. v24 is recommended.")
        }
        _ => panic!("expected a warning"),
    }
    let failed = ProcessOutcome { success: false, stdout: String::new(), stderr: String::new() };
    assert_eq!(
        runtime_error(advance(RenderStep::ProbeNode, RenderEvent::NodeProbed(Ok(failed)))),
        "Node.js is not installed"
    );
    assert_eq!(
        runtime_error(advance(RenderStep::ProbeNode, RenderEvent::NodeProbed(Err("not found".to_string())))),
        "Failed to execute node --version: not found"
    );
}

#[test]
fn node_version_warnings() {
    assert_eq!(node_version_warning("v24.3.0\n"), None);
    assert_eq!(
        node_version_warning("  v20.1.0 \n"),
        Some("Node.js version v20.1.0 detected. v24 is recommended.".to_string())
    );
    assert_eq!(
        node_version_warning(""),
        Some("Node.js version  detected. v24 is recommended.".to_string())
    );
}

#[test]
fn trim_white_space_strips_both_ends() {
    assert_eq!(trim_white_space("\t a b \n"), "a b");
    assert_eq!(trim_white_space(" \n "), "");
    assert_eq!(trim_white_space("x"), "x");
}

#[test]
fn vendor_dir_choice() {
    let candidates = vec![
        VendorCandidate { dir: PathBuf::from("/a/vendor"), is_dir: false },
        VendorCandidate { dir: PathBuf::from("/vendor"), is_dir: true },
        VendorCandidate { dir: PathBuf::from("/w/vendor"), is_dir: true },
    ];
    assert_eq!(pick_vendor_dir(Some(PathBuf::from("/env")), &candidates), PathBuf::from("/env"));
    assert_eq!(pick_vendor_dir(None, &candidates), PathBuf::from("/vendor"));
    let none_is_dir = vec![VendorCandidate { dir: PathBuf::from("/a/vendor"), is_dir: false }];
    assert_eq!(pick_vendor_dir(None, &none_is_dir), PathBuf::from("vendor"));
    assert_eq!(pick_vendor_dir(None, &Vec::new()), PathBuf::from("vendor"));
}

#[test]
fn runtime_paths() {
    let r = renderer();
    assert_eq!(r.render_script_path(), vec!["mermaid", "11.4.0", "render.mjs"]);
    assert_eq!(r.checksum_sidecar_path(), vec!["mermaid", "11.4.0", "mermaid.min.js.sha256"]);
    assert_eq!(r.bundle_path(), vec!["mermaid", "11.4.0", "mermaid.min.js"]);
}

#[test]
fn node_commands() {
    let probe = version_probe_command();
    assert_eq!(probe.program, "node");
    assert!(matches!(probe.args.as_slice(), [NodeArg::Text(t)] if t == "--version"));
    let run = render_command("graph TD; A-->B");
    assert_eq!(run.program, "node");
    assert!(matches!(
        run.args.as_slice(),
        [NodeArg::RenderScript, NodeArg::Text(t), NodeArg::OutputFile] if t == "graph TD; A-->B"
    ));
}

#[test]
fn script_and_output_file_outcomes() {
    assert!(matches!(
        advance(
            RenderStep::LocateScript { warning: None },
            RenderEvent::ScriptLocated { found: true, shown_path: "\"x\"".to_string() }
        ),
        RenderStep::CreateOutputFile
    ));
    assert_eq!(
        runtime_error(advance(
            RenderStep::LocateScript { warning: None },
            RenderEvent::ScriptLocated { found: false, shown_path: "\"vendor/mermaid/11.4.0/render.mjs\"".to_string() }
        )),
        "render.mjs not found at \"vendor/mermaid/11.4.0/render.mjs\""
    );
    assert!(matches!(
        advance(RenderStep::CreateOutputFile, RenderEvent::OutputFileCreated(Ok(()))),
        RenderStep::RunScript
    ));
    assert_eq!(
        runtime_error(advance(RenderStep::CreateOutputFile, RenderEvent::OutputFileCreated(Err("no space".to_string())))),
        "Failed to create temp file: no space"
    );
}

#[test]
fn script_run_and_read_outcomes() {
    assert!(matches!(
        advance(RenderStep::RunScript, RenderEvent::ScriptRan(Ok(ok_process("")))),
        RenderStep::ReadSvg
    ));
    let failed = ProcessOutcome { success: false, stdout: "out".to_string(), stderr: "err".to_string() };
    assert_eq!(
        runtime_error(advance(RenderStep::RunScript, RenderEvent::ScriptRan(Ok(failed)))),
        "Node.js render failed.\nstdout: out\nstderr: err"
    );
    assert_eq!(
        runtime_error(advance(RenderStep::RunScript, RenderEvent::ScriptRan(Err("spawn".to_string())))),
        "Failed to execute node: spawn"
    );
    assert_eq!(
        runtime_error(advance(RenderStep::ReadSvg, RenderEvent::SvgRead(Err("gone".to_string())))),
        "Failed to read output SVG: gone"
    );
    match advance(RenderStep::ReadSvg, RenderEvent::SvgRead(Ok("<svg/>".to_string()))) {
        RenderStep::Rendered(svg) => assert_eq!(svg, "<svg/>"),
        _ => panic!("expected the svg"),
    }
}

#[test]
fn a_successful_run_takes_five_reports() {
    let r = renderer();
    let mut step = r.begin(DiagramKind::Mermaid);
    let events = vec![
        RenderEvent::NodeProbed(Ok(ok_process("v24.0.0"))),
        RenderEvent::ScriptLocated { found: true, shown_path: String::new() },
        RenderEvent::OutputFileCreated(Ok(())),
        RenderEvent::ScriptRan(Ok(ok_process(""))),
        RenderEvent::SvgRead(Ok("<svg>ok</svg>".to_string())),
    ];
    for event in events {
        step = advance(step, event);
    }
    assert!(matches!(step, RenderStep::Rendered(ref s) if s == "<svg>ok</svg>"));
}

#[test]
fn report_with_all_attributes() {
    let r = renderer();
    let svg = r#"<svg width="100" height="50" viewBox="0 0 100 50"></svg>"#.to_string();
    let report = r.report(svg.clone(), true, true, "graph TD; A-->B", "{}", Some("abc".to_string()));
    assert_eq!(report.svg, svg);
    assert_eq!(report.view_box, "0 0 100 50");
    assert!(report.diagnostics.warnings.is_empty());
    assert!(report.diagnostics.errors.is_empty());
    assert_eq!(report.runtime.name, "mermaid-js");
    assert_eq!(report.runtime.version, "11.4.0");
    assert_eq!(report.runtime.checksum, Some("abc".to_string()));
    assert_eq!(report.profile.id, "mermaid-default");
    assert_eq!(report.profile.description.as_deref(), Some("Default Mermaid.js renderer"));
    assert_eq!(report.cache_fingerprint, "031383d14274e8690424a44d5d103fdc328710cdd1206fde07a2e9596bce7f6d");
}

#[test]
fn report_warns_about_missing_attributes_in_order() {
    let r = renderer();
    let report = r.report("<svg></svg>".to_string(), false, false, "s", "{}", None);
    assert_eq!(report.view_box, "0 0 800 600");
    assert_eq!(
        report.diagnostics.warnings,
        vec![
            "Width missing from SVG".to_string(),
            "Height missing from SVG".to_string(),
            "viewBox missing from SVG".to_string(),
        ]
    );
    assert_eq!(report.runtime.checksum, None);
    let report = r.report("<svg viewBox=\"1 2 3 4\"></svg>".to_string(), true, false, "s", "{}", None);
    assert_eq!(report.view_box, "1 2 3 4");
    assert_eq!(report.diagnostics.warnings, vec!["Height missing from SVG".to_string()]);
}

#[test]
fn test_mermaid_renderer() {
    // The render of `graph TD; A-->B` with Mermaid.js 11.4.0, with the Node.js
    // run simulated: every step is answered as a working installation would.
    let renderer = MermaidRenderer::new("11.4.0", PathBuf::from("vendor"));
    let source = "graph TD; A-->B";
    let mut step = renderer.begin(DiagramKind::Mermaid);
    let events = vec![
        RenderEvent::NodeProbed(Ok(ok_process("v24.1.0\n"))),
        RenderEvent::ScriptLocated { found: true, shown_path: "\"vendor/mermaid/11.4.0/render.mjs\"".to_string() },
        RenderEvent::OutputFileCreated(Ok(())),
        RenderEvent::ScriptRan(Ok(ok_process(""))),
        RenderEvent::SvgRead(Ok(r#"<svg width="100" height="50" viewBox="0 0 100 50"><g/></svg>"#.to_string())),
    ];
    for event in events {
        step = advance(step, event);
    }
    let svg = match step {
        RenderStep::Rendered(svg) => svg,
        _ => panic!("the simulated run renders"),
    };
    let checksum = MermaidRenderer::checksum_from(ChecksumSource::Bundle(Some(b"mermaid bundle".to_vec())));
    let output = renderer.report(svg, true, true, source, "{}", checksum);
    assert!(output.svg.contains("svg"));
    assert!(!output.cache_fingerprint.is_empty());
    assert!(output.runtime.checksum.is_some());
}

#[test]
fn vendor_search_order_manifest_then_cwd() {
    let c = vendor_search_candidates(Some(PathBuf::from("/m/crate")), Some(PathBuf::from("/w")));
    assert_eq!(
        c,
        vec![
            PathBuf::from("/m/crate/vendor"),
            PathBuf::from("/m/vendor"),
            PathBuf::from("/vendor"),
            PathBuf::from("/w/vendor"),
            PathBuf::from("/vendor"),
        ]
    );
    assert_eq!(vendor_search_candidates(None, Some(PathBuf::from("/w"))), vec![PathBuf::from("/w/vendor"), PathBuf::from("/vendor")]);
    assert!(vendor_search_candidates(None, None).is_empty());
}

#[test]
fn sidecar_words_split_on_unicode_white_space() {
    assert_eq!(first_word_of("\u{3000}\u{a0}abc\u{2009}def"), "abc");
    assert_eq!(trim_white_space("\u{85} v20 \u{2028}"), "v20");
}
