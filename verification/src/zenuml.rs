//! ZenUML rendering in the embedded V8 runtime: the library assembles the
//! scripts the runtime evaluates, in order; the runtime itself is the caller's.
use vstd::prelude::*;
use vstd::string::StringExecFns;
use crate::text::concat_str;
use crate::json::{json_escape, json_string_literal, json_unescape, lemma_json_escape_reads_back};
use crate::trusted::json_string;

verus! {

/// The scripts that ship with the runtime itself.
#[derive(Debug, Clone, Copy, PartialEq, Eq, Structural)]
pub enum BundledScript {
    /// The browser globals that the diagram bundles expect.
    BrowserGlobals,
    /// The bridge that renders the ZenUML source into an SVG.
    ZenumlBridge,
}

/// The code of a runtime script.
#[derive(Debug, Clone, PartialEq, Eq)]
pub enum ScriptBody {
    /// One of the runtime's own scripts.
    Bundled(BundledScript),
    /// Code produced for this render.
    Inline(String),
}

/// A script for the diagram runtime, with the name it is evaluated under.
#[derive(Debug, Clone, PartialEq, Eq)]
pub struct DiagramRuntimeScript {
    pub name: String,
    pub body: ScriptBody,
}

/// Why the ZenUML bundle could not be had.
#[derive(Debug, Clone, PartialEq, Eq)]
pub enum BundleLoadError {
    /// Writing the bundle out of the asset store failed, with the reason.
    Materialize(String),
    /// Reading the written bundle failed, with the reason.
    Read(String),
}

/// Renders ZenUML sequence diagrams.
pub struct ZenumlV8RenderOps;

/// The preamble script: it hands the diagram source to the bridge as a JSON
/// string literal.
pub open spec fn preamble_text(source: Seq<char>) -> Seq<char> {
    "var __zenuml_source__ = "@ + json_string_literal(source) + ";"@
}

/// The preamble hands the bridge exactly the source: it is
/// `var __zenuml_source__ = "` then an escaped body then `";`, and that body
/// reads back as the source under the JSON string grammar, so no quote or
/// newline in the source can end the literal early.
pub proof fn lemma_preamble_reads_back(source: Seq<char>)
    ensures
        preamble_text(source) == "var __zenuml_source__ = "@ + seq!['"'] + json_escape(source) + seq!['"'] + ";"@,
        json_unescape(json_escape(source)) == Some(source),
{
    lemma_json_escape_reads_back(source);
    assert(preamble_text(source) =~= "var __zenuml_source__ = "@ + seq!['"'] + json_escape(source) + seq!['"'] + ";"@);
}

/// The ZenUML bundle is evaluated whole and unchanged: a render's scripts hold
/// exactly one script named `zenuml.js`, its code is the loaded bundle text,
/// and it runs after the preamble and before the bridge.
pub proof fn lemma_zenuml_bundle_evaluated_unchanged(
    scripts: Seq<DiagramRuntimeScript>,
    source: Seq<char>,
    bundle: Seq<char>,
)
    requires
        zenuml_scripts(scripts, source, bundle),
    ensures
        scripts.len() == 4,
        scripts[0].body == ScriptBody::Bundled(BundledScript::BrowserGlobals),
        scripts[1].body matches ScriptBody::Inline(code) && {
            &&& code@.len() >= 27
            &&& code@.subrange(0, 24) == "var __zenuml_source__ = "@
            &&& code@[24] == '"' && code@[code@.len() - 2] == '"' && code@[code@.len() - 1] == ';'
            &&& json_unescape(code@.subrange(25, code@.len() - 2)) == Some(source)
        },
        forall|i: int| 0 <= i < scripts.len() && #[trigger] scripts[i].name@ == "zenuml.js"@ ==> i == 2,
        scripts[2].name@ == "zenuml.js"@,
        scripts[2].body matches ScriptBody::Inline(code) && code@ == bundle,
        scripts[3].body == ScriptBody::Bundled(BundledScript::ZenumlBridge),
{
    reveal_strlit("var __zenuml_source__ = ");
    reveal_strlit(";");
    lemma_preamble_reads_back(source);
    let prefix = "var __zenuml_source__ = "@;
    let body = json_escape(source);
    let whole = prefix + seq!['"'] + body + seq!['"'] + ";"@;
    assert(whole.subrange(0, 24) =~= prefix);
    assert(whole.subrange(25, whole.len() - 2) =~= body);
    reveal_strlit("zenuml.js");
    reveal_strlit("browser-globals.js");
    reveal_strlit("zenuml-preamble.js");
    reveal_strlit("render-zenuml-v8.js");
    assert forall|i: int| 0 <= i < scripts.len() && #[trigger] scripts[i].name@ == "zenuml.js"@ implies i == 2 by {
        if i == 0 {
            assert(scripts[0].name@[0] != "zenuml.js"@[0]);
        } else if i == 1 {
            assert(scripts[1].name@.len() != "zenuml.js"@.len());
        } else if i == 3 {
            assert(scripts[3].name@.len() != "zenuml.js"@.len());
        }
    }
}

/// `script` is named `name` and is the bundled script `which`.
pub open spec fn is_bundled(script: DiagramRuntimeScript, name: Seq<char>, which: BundledScript) -> bool {
    script.name@ == name && script.body == ScriptBody::Bundled(which)
}

/// `script` is named `name` and has the inline code `code`.
pub open spec fn is_inline(script: DiagramRuntimeScript, name: Seq<char>, code: Seq<char>) -> bool {
    &&& script.name@ == name
    &&& script.body matches ScriptBody::Inline(c) && c@ == code
}

/// The scripts of a ZenUML render, in evaluation order: the browser globals,
/// the preamble with the source, the ZenUML bundle, and the bridge.
pub open spec fn zenuml_scripts(scripts: Seq<DiagramRuntimeScript>, source: Seq<char>, bundle: Seq<char>) -> bool {
    &&& scripts.len() == 4
    &&& is_bundled(scripts[0], "browser-globals.js"@, BundledScript::BrowserGlobals)
    &&& is_inline(scripts[1], "zenuml-preamble.js"@, preamble_text(source))
    &&& is_inline(scripts[2], "zenuml.js"@, bundle)
    &&& is_bundled(scripts[3], "render-zenuml-v8.js"@, BundledScript::ZenumlBridge)
}

/// The ZenUML bundle's text, or the message that ends the render.
fn materialize_and_read(load: Result<String, BundleLoadError>) -> (r: Result<String, String>)
    ensures
        match load {
            Ok(text) => r matches Ok(t) && t@ == text@,
            Err(BundleLoadError::Materialize(e)) => r matches Err(m) && m@ == e@,
            Err(BundleLoadError::Read(e)) => r matches Err(m) && m@ == "Failed to read zenuml.js: "@ + e@,
        },
{
    match load {
        Ok(text) => Ok(text),
        Err(BundleLoadError::Materialize(e)) => Err(e),
        Err(BundleLoadError::Read(e)) => Err(concat_str("Failed to read zenuml.js: ", e.as_str())),
    }
}

/// The preamble script for `source`: `var __zenuml_source__ = ` (24 chars),
/// then the JSON string literal of the source, then `;`. The literal's body
/// reads back as the source, so nothing in the source can end it early.
pub fn build_preamble(source: &str) -> (r: Result<String, String>)
    ensures
        r matches Ok(p) && p@ == preamble_text(source@),
        r matches Ok(p) && {
            &&& p@.len() >= 27
            &&& p@.subrange(0, 24) == "var __zenuml_source__ = "@
            &&& p@[24] == '"'
            &&& p@[p@.len() - 2] == '"'
            &&& p@[p@.len() - 1] == ';'
            &&& json_unescape(p@.subrange(25, p@.len() - 2)) == Some(source@)
        },
{
    proof {
        reveal_strlit("var __zenuml_source__ = ");
        reveal_strlit(";");
        lemma_preamble_reads_back(source@);
        let prefix = "var __zenuml_source__ = "@;
        let body = json_escape(source@);
        let whole = prefix + seq!['"'] + body + seq!['"'] + ";"@;
        assert(whole.subrange(0, 24) =~= prefix);
        assert(whole.subrange(25, whole.len() - 2) =~= body);
    }
    match json_string(source) {
        Ok(literal) => {
            let mut preamble = String::from_str("var __zenuml_source__ = ");
            preamble.append(literal.as_str());
            preamble.append(";");
            Ok(preamble)
        },
        Err(e) => Err(concat_str("Failed to serialize zenuml source: ", e.as_str())),
    }
}

impl ZenumlV8RenderOps {
    /// The scripts that render the ZenUML `source` once the runtime evaluates
    /// them in order, given the outcome of loading the ZenUML bundle; or the
    /// message that ends the render.
    pub fn render(source: &str, zenuml_bundle: Result<String, BundleLoadError>) -> (r: Result<Vec<DiagramRuntimeScript>, String>)
        ensures
            match zenuml_bundle {
                Ok(bundle) => r matches Ok(scripts) && zenuml_scripts(scripts@, source@, bundle@)
                    && (scripts@[2].body matches ScriptBody::Inline(code) && code@ == bundle@),
                Err(BundleLoadError::Materialize(e)) => r matches Err(m) && m@ == e@,
                Err(BundleLoadError::Read(e)) => r matches Err(m) && m@ == "Failed to read zenuml.js: "@ + e@,
            },
    {
        let bundle = match materialize_and_read(zenuml_bundle) {
            Ok(b) => b,
            Err(e) => return Err(e),
        };
        let preamble = match build_preamble(source) {
            Ok(p) => p,
            Err(e) => return Err(e),
        };
        let mut scripts: Vec<DiagramRuntimeScript> = Vec::new();
        scripts.push(DiagramRuntimeScript {
            name: String::from_str("browser-globals.js"),
            body: ScriptBody::Bundled(BundledScript::BrowserGlobals),
        });
        scripts.push(DiagramRuntimeScript {
            name: String::from_str("zenuml-preamble.js"),
            body: ScriptBody::Inline(preamble),
        });
        scripts.push(DiagramRuntimeScript {
            name: String::from_str("zenuml.js"),
            body: ScriptBody::Inline(bundle),
        });
        scripts.push(DiagramRuntimeScript {
            name: String::from_str("render-zenuml-v8.js"),
            body: ScriptBody::Bundled(BundledScript::ZenumlBridge),
        });
        Ok(scripts)
    }
}

} // verus!
