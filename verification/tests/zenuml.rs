use katana_canvas_forge::zenuml::{
    build_preamble, BundleLoadError, BundledScript, DiagramRuntimeScript, ScriptBody, ZenumlV8RenderOps,
};

fn names(scripts: &[DiagramRuntimeScript]) -> Vec<&str> {
    scripts.iter().map(|s| s.name.as_str()).collect()
}

#[test]
fn render_assembles_scripts_in_order() {
    let scripts = ZenumlV8RenderOps::render("A->B: hi", Ok("zenuml bundle".to_string())).unwrap();
    assert_eq!(
        names(&scripts),
        vec!["browser-globals.js", "zenuml-preamble.js", "zenuml.js", "render-zenuml-v8.js"]
    );
    assert_eq!(scripts[0].body, ScriptBody::Bundled(BundledScript::BrowserGlobals));
    assert_eq!(
        scripts[1].body,
        ScriptBody::Inline("var __zenuml_source__ = \"A->B: hi\";".to_string())
    );
    assert_eq!(scripts[2].body, ScriptBody::Inline("zenuml bundle".to_string()));
    assert_eq!(scripts[3].body, ScriptBody::Bundled(BundledScript::ZenumlBridge));
}

#[test]
fn preamble_escapes_the_source_as_json() {
    let scripts = ZenumlV8RenderOps::render("say \"hi\"\n\\", Ok(String::new())).unwrap();
    assert_eq!(
        scripts[1].body,
        ScriptBody::Inline("var __zenuml_source__ = \"say \\\"hi\\\"\\n\\\\\";".to_string())
    );
}

#[test]
fn bundle_errors_end_the_render() {
    assert_eq!(
        ZenumlV8RenderOps::render("A->B", Err(BundleLoadError::Materialize("no asset".to_string()))),
        Err("no asset".to_string())
    );
    assert_eq!(
        ZenumlV8RenderOps::render("A->B", Err(BundleLoadError::Read("denied".to_string()))),
        Err("Failed to read zenuml.js: denied".to_string())
    );
}

#[test]
fn preamble_escapes_control_chars() {
    let scripts = ZenumlV8RenderOps::render("a\u{1}\tb\r\u{8}\u{c}/é", Ok(String::new())).unwrap();
    assert_eq!(
        scripts[1].body,
        ScriptBody::Inline("var __zenuml_source__ = \"a\\u0001\\tb\\r\\b\\f/é\";".to_string())
    );
}

#[test]
fn build_preamble_wraps_a_json_literal() {
    let p = build_preamble("A \"quoted\" line\n").unwrap();
    assert_eq!(p, "var __zenuml_source__ = \"A \\\"quoted\\\" line\\n\";");
    assert!(p.starts_with("var __zenuml_source__ = "));
    assert!(p.ends_with(';'));
    let literal = &p[24..p.len() - 1];
    assert_eq!(serde_json::from_str::<String>(literal).unwrap(), "A \"quoted\" line\n");
}
