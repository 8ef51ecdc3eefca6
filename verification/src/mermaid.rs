//! The Mermaid renderer: it runs a vendored Mermaid.js render script under
//! Node.js. The library holds every decision of a render; the process and file
//! work is done by the caller, step by step, as `RenderStep` asks for it.
use vstd::prelude::*;
use vstd::string::StringExecFns;
use vstd::string::StrSliceExecFns;
use vstd::utf8::{encode_utf8, encode_utf8_decode_utf8};
use std::path::PathBuf;
use crate::render::{
    is_invalid_input, is_runtime_error, string_views, DiagramKind, RenderDiagnostics,
    RenderError, RendererProfile, RuntimeVersion,
};
use crate::text::{
    append_bytes, chars_of, concat_str, contains_seq, find_chars, find_from, lemma_find_from,
    lemma_find_from_is, occurs_at,
    str_contains,
};
use crate::trusted::{
    hex_encode, hex_lower, is_lower_hex_digit, is_whitespace, lemma_hex_lower_shape, lemma_hex_lower_injective, path_from_str,
    path_named, ancestors_of, path_ancestors, path_join, joined_path, sha256, sha256_digest, unicode_white_space,
};

verus! {

/// A Mermaid renderer bound to one vendored Mermaid.js version.
pub struct MermaidRenderer {
    /// The directory that holds `mermaid/<version>/`.
    pub vendor_dir: PathBuf,
    /// The Mermaid.js version, as named by its vendor directory.
    pub version: String,
}

// ---------------------------------------------------------------------------
// Where the runtime lives and how Node.js is run
// ---------------------------------------------------------------------------

/// A directory that may hold the vendored runtimes, as looked up on disk.
pub struct VendorCandidate {
    /// The `vendor` directory next to one of the searched directories.
    pub dir: PathBuf,
    /// It exists and is a directory.
    pub is_dir: bool,
}

/// The `vendor` entries of `start` and of each of its ancestors, nearest first.
pub open spec fn vendor_dirs_above(start: PathBuf) -> Seq<PathBuf> {
    path_ancestors(start).map_values(|a: PathBuf| joined_path(a, "vendor"@))
}

/// The order in which vendor directories are searched: the `vendor` entries
/// above the crate's manifest directory (when known), then those above the
/// working directory (when known), each from the directory itself up to the
/// root.
pub open spec fn vendor_search_order(manifest_dir: Option<PathBuf>, cwd: Option<PathBuf>) -> Seq<PathBuf> {
    (match manifest_dir {
        Some(d) => vendor_dirs_above(d),
        None => Seq::empty(),
    }) + (match cwd {
        Some(d) => vendor_dirs_above(d),
        None => Seq::empty(),
    })
}

/// Appends the `vendor` entries above `start` to `out`.
fn push_vendor_dirs_above(out: &mut Vec<PathBuf>, start: &PathBuf)
    ensures
        final(out)@ == old(out)@ + vendor_dirs_above(*start),
        vendor_dirs_above(*start).len() >= 1,
        vendor_dirs_above(*start)[0] == joined_path(*start, "vendor"@),
{
    let ancestors = ancestors_of(start);
    let ghost before = out@;
    let mut i: usize = 0;
    while i < ancestors.len()
        invariant
            i <= ancestors@.len(),
            ancestors@ == path_ancestors(*start),
            out@ == before + ancestors@.subrange(0, i as int).map_values(
                |a: PathBuf| joined_path(a, "vendor"@),
            ),
        decreases ancestors@.len() - i,
    {
        out.push(path_join(&ancestors[i], "vendor"));
        i += 1;
        assert(ancestors@.subrange(0, i as int).map_values(|a: PathBuf| joined_path(a, "vendor"@))
            =~= ancestors@.subrange(0, i - 1).map_values(|a: PathBuf| joined_path(a, "vendor"@)).push(
            joined_path(ancestors@[i - 1], "vendor"@),
        ));
    }
    assert(ancestors@.subrange(0, ancestors@.len() as int) =~= ancestors@);
}

/// The candidate vendor directories, in search order. `manifest_dir` is the
/// crate's manifest directory and `cwd` the working directory, when known.
pub fn vendor_search_candidates(manifest_dir: Option<PathBuf>, cwd: Option<PathBuf>) -> (c: Vec<PathBuf>)
    ensures
        c@ == vendor_search_order(manifest_dir, cwd),
        manifest_dir matches Some(d) ==> c@.len() >= 1 && c@[0] == joined_path(d, "vendor"@),
        manifest_dir is None ==> (cwd matches Some(d) ==> c@.len() >= 1 && c@[0] == joined_path(d, "vendor"@)),
{
    let mut out: Vec<PathBuf> = Vec::new();
    if let Some(d) = &manifest_dir {
        push_vendor_dirs_above(&mut out, d);
    }
    if let Some(d) = &cwd {
        push_vendor_dirs_above(&mut out, d);
    }
    assert(out@ =~= vendor_search_order(manifest_dir, cwd));
    out
}

/// The index of the first candidate at or after `i` that is a directory.
pub open spec fn first_vendor_dir(c: Seq<VendorCandidate>, i: int) -> Option<int>
    decreases c.len() - i,
{
    if i < 0 || i >= c.len() {
        None
    } else if c[i].is_dir {
        Some(i)
    } else {
        first_vendor_dir(c, i + 1)
    }
}

/// The vendor directory: the one named by the environment when it is set,
/// else the first candidate that is a directory, else `vendor`.
pub open spec fn chosen_vendor_dir(env_dir: Option<PathBuf>, candidates: Seq<VendorCandidate>) -> PathBuf {
    match env_dir {
        Some(d) => d,
        None => match first_vendor_dir(candidates, 0) {
            Some(i) => candidates[i].dir,
            None => path_named("vendor"@),
        },
    }
}

/// Picks the vendor directory. `env_dir` is the `KCF_VENDOR_DIR` setting;
/// `candidates` are the `vendor` entries next to the crate's manifest
/// directory and its ancestors, then next to the working directory and its
/// ancestors, nearest first.
pub fn pick_vendor_dir(env_dir: Option<PathBuf>, candidates: &Vec<VendorCandidate>) -> (d: PathBuf)
    ensures
        d == chosen_vendor_dir(env_dir, candidates@),
{
    match env_dir {
        Some(d) => d,
        None => {
            let mut i: usize = 0;
            while i < candidates.len()
                invariant
                    env_dir is None,
                    i <= candidates@.len(),
                    first_vendor_dir(candidates@, 0) == first_vendor_dir(candidates@, i as int),
                decreases candidates@.len() - i,
            {
                if candidates[i].is_dir {
                    return candidates[i].dir.clone();
                }
                i += 1;
            }
            assert(first_vendor_dir(candidates@, i as int) is None);
            path_from_str("vendor")
        },
    }
}

/// The path of runtime file `file`, as the names to join onto the vendor
/// directory: `mermaid/<version>/<file>`.
pub open spec fn runtime_file_path(version: Seq<char>, file: Seq<char>) -> Seq<Seq<char>> {
    seq!["mermaid"@, version, file]
}

/// One argument of a Node.js command.
pub enum NodeArg {
    /// This text.
    Text(String),
    /// The render script's path.
    RenderScript,
    /// The path of the file the SVG is written to.
    OutputFile,
}

/// A Node.js command: the program and its arguments.
pub struct NodeCommand {
    pub program: String,
    pub args: Vec<NodeArg>,
}

/// `arg` is the text argument `text`.
pub open spec fn is_text_arg(arg: NodeArg, text: Seq<char>) -> bool {
    arg matches NodeArg::Text(t) && t@ == text
}

/// The command that asks Node.js for its version: `node --version`.
pub fn version_probe_command() -> (c: NodeCommand)
    ensures
        c.program@ == "node"@,
        c.args@.len() == 1,
        is_text_arg(c.args@[0], "--version"@),
{
    let mut args: Vec<NodeArg> = Vec::new();
    args.push(NodeArg::Text(String::from_str("--version")));
    NodeCommand { program: String::from_str("node"), args }
}

/// The command that renders `source`: `node <render script> <source> <output file>`.
pub fn render_command(source: &str) -> (c: NodeCommand)
    ensures
        c.program@ == "node"@,
        c.args@.len() == 3,
        c.args@[0] is RenderScript,
        is_text_arg(c.args@[1], source@),
        c.args@[2] is OutputFile,
{
    let mut args: Vec<NodeArg> = Vec::new();
    args.push(NodeArg::RenderScript);
    args.push(NodeArg::Text(String::from_str(source)));
    args.push(NodeArg::OutputFile);
    NodeCommand { program: String::from_str("node"), args }
}

// ---------------------------------------------------------------------------
// Reading attributes of the produced SVG
// ---------------------------------------------------------------------------

/// The value of the first `attr="..."` attribute in `svg`: the chars after the
/// first occurrence of `attr="` up to the next `"`.
pub open spec fn attr_value(svg: Seq<char>, attr: Seq<char>) -> Option<Seq<char>> {
    let pattern = attr + seq!['=', '"'];
    match find_from(svg, pattern, 0) {
        None => None,
        Some(p) => {
            let start = p + pattern.len();
            match find_from(svg, seq!['"'], start) {
                None => None,
                Some(end) => Some(svg.subrange(start, end)),
            }
        },
    }
}

proof fn lemma_pattern_found_after_prefix(prefix: Seq<char>, pat: Seq<char>, tail: Seq<char>)
    requires
        forall|i: int| 0 <= i < prefix.len() ==> !occurs_at(prefix + pat, pat, i),
    ensures
        find_from(prefix + pat + tail, pat, 0) == Some(prefix.len() as int),
{
    let head = prefix + pat;
    let svg = head + tail;
    assert forall|j: int| 0 <= j < prefix.len() implies !occurs_at(svg, pat, j) by {
        if occurs_at(svg, pat, j) {
            assert(svg.subrange(j, j + pat.len()) =~= head.subrange(j, j + pat.len()));
            assert(occurs_at(head, pat, j));
        }
    }
    assert(svg.subrange(prefix.len() as int, (prefix.len() + pat.len()) as int) =~= pat);
    lemma_find_from_is(svg, pat, 0, prefix.len() as int);
}

proof fn lemma_quote_found_after_value(head: Seq<char>, value: Seq<char>, rest: Seq<char>)
    requires
        !value.contains('"'),
    ensures
        find_from(head + value + seq!['"'] + rest, seq!['"'], head.len() as int)
            == Some((head.len() + value.len()) as int),
{
    let svg = head + value + seq!['"'] + rest;
    let quote = seq!['"'];
    let start = head.len() as int;
    let end = start + value.len();
    assert forall|j: int| start <= j < end implies !occurs_at(svg, quote, j) by {
        if occurs_at(svg, quote, j) {
            assert(svg.subrange(j, j + 1)[0] == svg[j]);
            assert(svg[j] == value[j - start]);
            assert(value.contains('"'));
        }
    }
    assert(svg.subrange(end, end + 1) =~= quote);
    lemma_find_from_is(svg, quote, start, end);
}

/// What is written as the first `attr="value"` of an SVG is read back: when
/// `attr="` does not occur before the attribute and `value` holds no `"`,
/// `attr_value` gives `value`.
pub proof fn lemma_attr_value_reads_back(
    prefix: Seq<char>,
    attr: Seq<char>,
    value: Seq<char>,
    rest: Seq<char>,
)
    requires
        forall|i: int|
            0 <= i < prefix.len() ==> !occurs_at(prefix + attr + seq!['=', '"'], attr + seq!['=', '"'], i),
        !value.contains('"'),
    ensures
        attr_value(prefix + attr + seq!['=', '"'] + value + seq!['"'] + rest, attr) == Some(value),
{
    let pat = attr + seq!['=', '"'];
    let head = prefix + pat;
    let tail = value + seq!['"'] + rest;
    let svg = prefix + attr + seq!['=', '"'] + value + seq!['"'] + rest;
    assert(prefix + attr + seq!['=', '"'] =~= head);
    assert(find_from(svg, pat, 0) == Some(prefix.len() as int)) by {
        assert(svg =~= prefix + pat + tail);
        lemma_pattern_found_after_prefix(prefix, pat, tail);
    }
    assert(find_from(svg, seq!['"'], head.len() as int) == Some((head.len() + value.len()) as int)) by {
        assert(svg =~= head + value + seq!['"'] + rest);
        lemma_quote_found_after_value(head, value, rest);
    }
    assert(svg.subrange(head.len() as int, (head.len() + value.len()) as int) =~= value);
}

/// Reads the raw text of attribute `attr` from an SVG document.
pub fn extract_attr_str(svg: &str, attr: &str) -> (r: Option<String>)
    ensures
        match r {
            Some(v) => attr_value(svg@, attr@) == Some(v@),
            None => attr_value(svg@, attr@) is None,
        },
{
    let hay = chars_of(svg);
    let mut pattern = chars_of(attr);
    pattern.push('=');
    pattern.push('"');
    assert(pattern@ =~= attr@ + seq!['=', '"']);
    let p = match find_chars(&hay, &pattern, 0) {
        Some(p) => p,
        None => return None,
    };
    proof {
        lemma_find_from(hay@, pattern@, 0);
    }
    let start = p + pattern.len();
    let quote = vec!['"'];
    assert(quote@ =~= seq!['"']);
    let end = match find_chars(&hay, &quote, start) {
        Some(e) => e,
        None => return None,
    };
    proof {
        lemma_find_from(hay@, quote@, start as int);
    }
    let value = svg.substring_char(start, end);
    Some(value.to_owned())
}

// ---------------------------------------------------------------------------
// Runtime checksum
// ---------------------------------------------------------------------------

/// The index of the first char at or after `i` that is not whitespace (or the end).
pub open spec fn skip_white_space(s: Seq<char>, i: int) -> int
    decreases s.len() - i,
{
    if 0 <= i < s.len() && unicode_white_space(s[i]) {
        skip_white_space(s, i + 1)
    } else {
        i
    }
}

/// The index of the first whitespace char at or after `i` (or the end).
pub open spec fn word_end(s: Seq<char>, i: int) -> int
    decreases s.len() - i,
{
    if 0 <= i < s.len() && !unicode_white_space(s[i]) {
        word_end(s, i + 1)
    } else {
        i
    }
}

/// The first whitespace-separated word of `s`, or nothing when `s` has none.
pub open spec fn first_word(s: Seq<char>) -> Seq<char> {
    let a = skip_white_space(s, 0);
    s.subrange(a, word_end(s, a))
}

proof fn lemma_skip_white_space(s: Seq<char>, i: int)
    requires
        0 <= i <= s.len(),
    ensures
        i <= skip_white_space(s, i) <= s.len(),
        forall|j: int| i <= j < skip_white_space(s, i) ==> unicode_white_space(#[trigger] s[j]),
        skip_white_space(s, i) < s.len() ==> !unicode_white_space(s[skip_white_space(s, i)]),
    decreases s.len() - i,
{
    if i < s.len() && unicode_white_space(s[i]) {
        lemma_skip_white_space(s, i + 1);
    }
}

proof fn lemma_word_end(s: Seq<char>, i: int)
    requires
        0 <= i <= s.len(),
    ensures
        i <= word_end(s, i) <= s.len(),
        forall|j: int| i <= j < word_end(s, i) ==> !unicode_white_space(#[trigger] s[j]),
        word_end(s, i) < s.len() ==> unicode_white_space(s[word_end(s, i)]),
    decreases s.len() - i,
{
    if i < s.len() && !unicode_white_space(s[i]) {
        lemma_word_end(s, i + 1);
    }
}

/// A readable sidecar file's checksum is its first whitespace-separated word,
/// as `split_whitespace` gives it: only whitespace comes before it, it holds
/// no whitespace, whitespace or the end of the text comes right after it, and
/// it is empty only when the text is all whitespace.
pub proof fn lemma_sidecar_checksum_is_first_word(found: ChecksumSource)
    requires
        found matches ChecksumSource::Sidecar(Some(_)),
    ensures
        match found {
            ChecksumSource::Sidecar(Some(text)) => {
                let t = text@;
                let w = checksum_spec(found)->0;
                &&& checksum_spec(found) is Some
                &&& forall|i: int| 0 <= i < w.len() ==> !unicode_white_space(#[trigger] w[i])
                &&& exists|a: int| {
                    &&& 0 <= a && a + w.len() <= t.len()
                    &&& (forall|j: int| 0 <= j < a ==> unicode_white_space(#[trigger] t[j]))
                    &&& #[trigger] t.subrange(a, a + w.len()) == w
                    &&& (a + w.len() == t.len() || unicode_white_space(t[a + w.len()]))
                }
                &&& w.len() == 0 ==> forall|j: int| 0 <= j < t.len() ==> unicode_white_space(#[trigger] t[j])
            },
            _ => true,
        },
{
    match found {
        ChecksumSource::Sidecar(Some(text)) => {
            let t = text@;
            let a = skip_white_space(t, 0);
            lemma_skip_white_space(t, 0);
            lemma_word_end(t, a);
            let b = word_end(t, a);
            let w = checksum_spec(found)->0;
            assert(w == t.subrange(a, b));
            assert forall|i: int| 0 <= i < w.len() implies !unicode_white_space(#[trigger] w[i]) by {
                assert(w[i] == t[a + i]);
            }
            assert(t.subrange(a, a + w.len()) == w);
        },
        _ => {},
    }
}

/// The first whitespace-separated word of `text` (empty when there is none).
pub fn first_word_of(text: &str) -> (w: String)
    ensures
        w@ == first_word(text@),
{
    let cs = chars_of(text);
    let mut a: usize = 0;
    loop
        invariant
            cs@ == text@,
            0 <= a <= cs@.len(),
            skip_white_space(text@, 0) == skip_white_space(text@, a as int),
        ensures
            cs@ == text@,
            0 <= a <= cs@.len(),
            skip_white_space(text@, 0) == a,
        decreases cs@.len() - a,
    {
        if a == cs.len() || !is_whitespace(cs[a]) {
            break;
        }
        a += 1;
    }
    let mut b: usize = a;
    loop
        invariant
            cs@ == text@,
            a <= b <= cs@.len(),
            skip_white_space(text@, 0) == a,
            word_end(text@, a as int) == word_end(text@, b as int),
        ensures
            a <= b <= cs@.len(),
            word_end(text@, a as int) == b,
        decreases cs@.len() - b,
    {
        if b == cs.len() || is_whitespace(cs[b]) {
            break;
        }
        b += 1;
    }
    text.substring_char(a, b).to_owned()
}

/// What the caller found of the runtime bundle's checksum on disk.
pub enum ChecksumSource {
    /// The `mermaid.min.js.sha256` file exists; its text, if it could be read.
    Sidecar(Option<String>),
    /// There is no sidecar file; the bytes of `mermaid.min.js`, if it could be read.
    Bundle(Option<Vec<u8>>),
}

/// The runtime checksum recorded for what was found: the first word of a
/// readable sidecar file, or the hex SHA-256 of a readable bundle.
pub open spec fn checksum_spec(found: ChecksumSource) -> Option<Seq<char>> {
    match found {
        ChecksumSource::Sidecar(Some(text)) => Some(first_word(text@)),
        ChecksumSource::Bundle(Some(bytes)) => Some(hex_lower(sha256(bytes@))),
        _ => None,
    }
}

/// The checksum of a bundle covers every byte of it: two readable bundles
/// with different bytes get the same checksum only if SHA-256 gives the same
/// digest for two different inputs.
pub proof fn lemma_bundle_checksum_tells_bundles_apart(a: Vec<u8>, b: Vec<u8>)
    requires
        a@ != b@,
        checksum_spec(ChecksumSource::Bundle(Some(a))) == checksum_spec(ChecksumSource::Bundle(Some(b))),
    ensures
        exists|x: Seq<u8>, y: Seq<u8>| x != y && #[trigger] sha256(x) == #[trigger] sha256(y),
{
    lemma_hex_lower_injective(sha256(a@), sha256(b@));
    assert(a@ != b@ && sha256(a@) == sha256(b@));
}

// ---------------------------------------------------------------------------
// Cache fingerprint
// ---------------------------------------------------------------------------

/// The cache fingerprint of a render: the lower-case hex SHA-256 of the UTF-8
/// bytes of the runtime version, the source and the serialized configuration,
/// in that order.
pub open spec fn fingerprint(version: Seq<char>, source: Seq<char>, config_json: Seq<char>) -> Seq<char> {
    hex_lower(sha256(encode_utf8(version) + encode_utf8(source) + encode_utf8(config_json)))
}

/// The bytes a fingerprint hashes hold the whole runtime version, the whole
/// source and the whole configuration: two renders that differ in exactly one
/// of the three get the same fingerprint only if SHA-256 gives the same digest
/// for two different inputs.
pub proof fn lemma_fingerprint_tells_inputs_apart(
    version_a: Seq<char>,
    source_a: Seq<char>,
    config_a: Seq<char>,
    version_b: Seq<char>,
    source_b: Seq<char>,
    config_b: Seq<char>,
)
    requires
        (version_a != version_b && source_a == source_b && config_a == config_b)
            || (version_a == version_b && source_a != source_b && config_a == config_b)
            || (version_a == version_b && source_a == source_b && config_a != config_b),
        fingerprint(version_a, source_a, config_a) == fingerprint(version_b, source_b, config_b),
    ensures
        exists|x: Seq<u8>, y: Seq<u8>| x != y && #[trigger] sha256(x) == #[trigger] sha256(y),
{
    let v1 = encode_utf8(version_a);
    let v2 = encode_utf8(version_b);
    let e1 = encode_utf8(source_a);
    let e2 = encode_utf8(source_b);
    let f1 = encode_utf8(config_a);
    let f2 = encode_utf8(config_b);
    let x1 = v1 + e1 + f1;
    let x2 = v2 + e2 + f2;
    lemma_hex_lower_injective(sha256(x1), sha256(x2));
    encode_utf8_decode_utf8(version_a);
    encode_utf8_decode_utf8(version_b);
    encode_utf8_decode_utf8(source_a);
    encode_utf8_decode_utf8(source_b);
    encode_utf8_decode_utf8(config_a);
    encode_utf8_decode_utf8(config_b);
    if x1 == x2 {
        assert(x1.len() == v1.len() + e1.len() + f1.len());
        assert(x2.len() == v2.len() + e2.len() + f2.len());
        if version_a != version_b {
            assert(e1 == e2 && f1 == f2);
            assert(v1.len() == v2.len());
            assert(x1.subrange(0, v1.len() as int) =~= v1);
            assert(x2.subrange(0, v2.len() as int) =~= v2);
            assert(v1 == v2);
        } else if source_a != source_b {
            assert(v1 == v2 && f1 == f2);
            assert(e1.len() == e2.len());
            assert(x1.subrange(v1.len() as int, (v1.len() + e1.len()) as int) =~= e1);
            assert(x2.subrange(v2.len() as int, (v2.len() + e2.len()) as int) =~= e2);
            assert(e1 == e2);
        } else {
            assert(v1 == v2 && e1 == e2);
            assert(x1.subrange((v1.len() + e1.len()) as int, x1.len() as int) =~= f1);
            assert(x2.subrange((v2.len() + e2.len()) as int, x2.len() as int) =~= f2);
            assert(f1 == f2);
        }
    }
    assert(x1 != x2 && sha256(x1) == sha256(x2));
}

/// The cache fingerprint of rendering `source` with configuration `config_json`
/// (the configuration serialized as JSON) on Mermaid.js `version`.
pub fn cache_fingerprint(version: &str, source: &str, config_json: &str) -> (f: String)
    ensures
        f@ == fingerprint(version@, source@, config_json@),
        f@.len() == 64,
        forall|i: int| 0 <= i < f@.len() ==> is_lower_hex_digit(#[trigger] f@[i]),
{
    let mut data: Vec<u8> = Vec::new();
    append_bytes(&mut data, version.as_bytes());
    append_bytes(&mut data, source.as_bytes());
    append_bytes(&mut data, config_json.as_bytes());
    assert(data@ =~= encode_utf8(version@) + encode_utf8(source@) + encode_utf8(config_json@));
    let digest = sha256_digest(data.as_slice());
    proof {
        lemma_hex_lower_shape(digest@);
    }
    hex_encode(digest.as_slice())
}

// ---------------------------------------------------------------------------
// The render steps
// ---------------------------------------------------------------------------

/// What a finished process reported.
pub struct ProcessOutcome {
    /// The process exited with success.
    pub success: bool,
    /// Its standard output, decoded as UTF-8 (invalid sequences replaced).
    pub stdout: String,
    /// Its standard error, decoded likewise.
    pub stderr: String,
}

/// Where a Mermaid render stands, and what the caller must do next.
pub enum RenderStep {
    /// Run `node --version` and report with `RenderEvent::NodeProbed`.
    ProbeNode,
    /// Log `warning` when there is one (the Node.js version is not the
    /// recommended one), then check that the render script exists and report
    /// with `RenderEvent::ScriptLocated`.
    LocateScript { warning: Option<String> },
    /// Create the temporary `.svg` file the script writes to and report with
    /// `RenderEvent::OutputFileCreated`.
    CreateOutputFile,
    /// Run `node <render.mjs> <source> <output file>` and report with
    /// `RenderEvent::ScriptRan`.
    RunScript,
    /// Read the output file and report with `RenderEvent::SvgRead`.
    ReadSvg,
    /// The script produced this SVG document.
    Rendered(String),
    /// The render failed.
    Failed(RenderError),
}

/// What the caller observed while doing what a `RenderStep` asked for.
pub enum RenderEvent {
    /// `node --version` finished, or could not be started (with the reason).
    NodeProbed(Result<ProcessOutcome, String>),
    /// Whether the render script exists, and the path as it is shown in messages.
    ScriptLocated { found: bool, shown_path: String },
    /// The output file was created, or why not.
    OutputFileCreated(Result<(), String>),
    /// The render script finished, or could not be started (with the reason).
    ScriptRan(Result<ProcessOutcome, String>),
    /// The output file's text, or why it could not be read.
    SvgRead(Result<String, String>),
}

/// `event` is the report that `step` waits for.
pub open spec fn awaits(step: RenderStep, event: RenderEvent) -> bool {
    match step {
        RenderStep::ProbeNode => event is NodeProbed,
        RenderStep::LocateScript { .. } => event is ScriptLocated,
        RenderStep::CreateOutputFile => event is OutputFileCreated,
        RenderStep::RunScript => event is ScriptRan,
        RenderStep::ReadSvg => event is SvgRead,
        _ => false,
    }
}

/// How many steps at most remain before a render ends.
pub open spec fn steps_left(step: RenderStep) -> nat {
    match step {
        RenderStep::ProbeNode => 5,
        RenderStep::LocateScript { .. } => 4,
        RenderStep::CreateOutputFile => 3,
        RenderStep::RunScript => 2,
        RenderStep::ReadSvg => 1,
        _ => 0,
    }
}

/// `next` is the step that follows when `event` answers the step it waits for.
pub open spec fn advanced(event: RenderEvent, next: RenderStep) -> bool {
    match event {
        RenderEvent::NodeProbed(Err(e)) => next matches RenderStep::Failed(err)
            && is_runtime_error(err, "Failed to execute node --version: "@ + e@),
        RenderEvent::NodeProbed(Ok(p)) => if p.success {
            next matches RenderStep::LocateScript { warning } && match warning {
                Some(w) => version_warning(p.stdout@) == Some(w@),
                None => version_warning(p.stdout@) is None,
            }
        } else {
            next matches RenderStep::Failed(err) && is_runtime_error(err, "Node.js is not installed"@)
        },
        RenderEvent::ScriptLocated { found, shown_path } => if found {
            next is CreateOutputFile
        } else {
            next matches RenderStep::Failed(err)
                && is_runtime_error(err, "render.mjs not found at "@ + shown_path@)
        },
        RenderEvent::OutputFileCreated(Err(e)) => next matches RenderStep::Failed(err)
            && is_runtime_error(err, "Failed to create temp file: "@ + e@),
        RenderEvent::OutputFileCreated(Ok(())) => next is RunScript,
        RenderEvent::ScriptRan(Err(e)) => next matches RenderStep::Failed(err)
            && is_runtime_error(err, "Failed to execute node: "@ + e@),
        RenderEvent::ScriptRan(Ok(p)) => if p.success {
            next is ReadSvg
        } else {
            next matches RenderStep::Failed(err) && is_runtime_error(
                err,
                "Node.js render failed.\nstdout: "@ + p.stdout@ + "\nstderr: "@ + p.stderr@,
            )
        },
        RenderEvent::SvgRead(Err(e)) => next matches RenderStep::Failed(err)
            && is_runtime_error(err, "Failed to read output SVG: "@ + e@),
        RenderEvent::SvgRead(Ok(svg)) => next matches RenderStep::Rendered(s) && s@ == svg@,
    }
}

fn runtime_failure(prefix: &str, detail: &str) -> (step: RenderStep)
    ensures
        step matches RenderStep::Failed(err) && is_runtime_error(err, prefix@ + detail@),
{
    RenderStep::Failed(RenderError::Runtime(concat_str(prefix, detail)))
}

/// The index just past the last char before `j` that is not whitespace (0
/// when there is none).
pub open spec fn trailing_white_space_start(s: Seq<char>, j: int) -> int
    decreases j,
{
    if 0 < j <= s.len() && unicode_white_space(s[j - 1]) {
        trailing_white_space_start(s, j - 1)
    } else {
        j
    }
}

/// `s` without leading and trailing whitespace.
pub open spec fn trimmed(s: Seq<char>) -> Seq<char> {
    let a = skip_white_space(s, 0);
    let b = trailing_white_space_start(s, s.len() as int);
    if a <= b {
        s.subrange(a, b)
    } else {
        Seq::empty()
    }
}

/// The warning owed for what `node --version` printed: none when it mentions
/// `v24`, the recommended version, else a message naming the version found.
pub open spec fn version_warning(version_output: Seq<char>) -> Option<Seq<char>> {
    if contains_seq(version_output, "v24"@) {
        None
    } else {
        Some("Node.js version "@ + trimmed(version_output) + " detected. v24 is recommended."@)
    }
}

/// `s` without leading and trailing whitespace.
pub fn trim_white_space(s: &str) -> (t: String)
    ensures
        t@ == trimmed(s@),
{
    let cs = chars_of(s);
    let mut a: usize = 0;
    loop
        invariant
            cs@ == s@,
            0 <= a <= cs@.len(),
            skip_white_space(s@, 0) == skip_white_space(s@, a as int),
        ensures
            0 <= a <= cs@.len(),
            skip_white_space(s@, 0) == a,
        decreases cs@.len() - a,
    {
        if a == cs.len() || !is_whitespace(cs[a]) {
            break;
        }
        a += 1;
    }
    let mut b: usize = cs.len();
    loop
        invariant
            cs@ == s@,
            0 <= b <= cs@.len(),
            trailing_white_space_start(s@, s@.len() as int) == trailing_white_space_start(s@, b as int),
        ensures
            0 <= b <= cs@.len(),
            trailing_white_space_start(s@, s@.len() as int) == b,
        decreases b,
    {
        if b == 0 || !is_whitespace(cs[b - 1]) {
            break;
        }
        b -= 1;
    }
    if a <= b {
        s.substring_char(a, b).to_owned()
    } else {
        String::new()
    }
}

/// The warning owed for what `node --version` printed, if any.
pub fn node_version_warning(version_output: &str) -> (w: Option<String>)
    ensures
        match w {
            Some(m) => version_warning(version_output@) == Some(m@),
            None => version_warning(version_output@) is None,
        },
{
    if str_contains(version_output, "v24") {
        None
    } else {
        let mut m = String::from_str("Node.js version ");
        let version = trim_white_space(version_output);
        m.append(version.as_str());
        m.append(" detected. v24 is recommended.");
        Some(m)
    }
}

/// The step that follows `step` once `event`, the report it waits for, is in.
pub fn advance(step: RenderStep, event: RenderEvent) -> (next: RenderStep)
    requires
        awaits(step, event),
    ensures
        advanced(event, next),
        event matches RenderEvent::NodeProbed(Ok(p)) ==> ((next is LocateScript) == p.success),
        event matches RenderEvent::ScriptRan(Ok(p)) ==> ((next is ReadSvg) == p.success),
{
    match event {
        RenderEvent::NodeProbed(Err(e)) => runtime_failure("Failed to execute node --version: ", &e),
        RenderEvent::NodeProbed(Ok(p)) => if p.success {
            RenderStep::LocateScript { warning: node_version_warning(p.stdout.as_str()) }
        } else {
            RenderStep::Failed(RenderError::Runtime(String::from_str("Node.js is not installed")))
        },
        RenderEvent::ScriptLocated { found, shown_path } => if found {
            RenderStep::CreateOutputFile
        } else {
            runtime_failure("render.mjs not found at ", &shown_path)
        },
        RenderEvent::OutputFileCreated(Err(e)) => runtime_failure("Failed to create temp file: ", &e),
        RenderEvent::OutputFileCreated(Ok(())) => RenderStep::RunScript,
        RenderEvent::ScriptRan(Err(e)) => runtime_failure("Failed to execute node: ", &e),
        RenderEvent::ScriptRan(Ok(p)) => if p.success {
            RenderStep::ReadSvg
        } else {
            let mut msg = String::from_str("Node.js render failed.\nstdout: ");
            msg.append(&p.stdout);
            msg.append("\nstderr: ");
            msg.append(&p.stderr);
            RenderStep::Failed(RenderError::Runtime(msg))
        },
        RenderEvent::SvgRead(Err(e)) => runtime_failure("Failed to read output SVG: ", &e),
        RenderEvent::SvgRead(Ok(svg)) => RenderStep::Rendered(svg),
    }
}

/// What each report leads to: the render goes on exactly when the reported
/// work succeeded (the script exists, the output file was made, the SVG was
/// read); the SVG read is handed on unchanged; and every failure is a runtime
/// error whose message carries the reported reason (for a failed render
/// script, both its standard output and its standard error).
pub proof fn lemma_render_step_outcomes(event: RenderEvent, next: RenderStep)
    requires
        advanced(event, next),
    ensures
        match event {
            RenderEvent::NodeProbed(Err(e)) => next matches RenderStep::Failed(RenderError::Runtime(m))
                && contains_seq(m@, e@),
            RenderEvent::ScriptLocated { found, shown_path } => (next is CreateOutputFile) == found
                && (!found ==> (next matches RenderStep::Failed(RenderError::Runtime(m)) && contains_seq(m@, shown_path@))),
            RenderEvent::OutputFileCreated(r) => (next is RunScript) == (r is Ok)
                && (r matches Err(e) ==> (next matches RenderStep::Failed(RenderError::Runtime(m)) && contains_seq(m@, e@))),
            RenderEvent::ScriptRan(Err(e)) => next matches RenderStep::Failed(RenderError::Runtime(m))
                && contains_seq(m@, e@),
            RenderEvent::ScriptRan(Ok(p)) => !p.success ==> (next matches RenderStep::Failed(RenderError::Runtime(m))
                && contains_seq(m@, p.stdout@) && contains_seq(m@, p.stderr@)),
            RenderEvent::SvgRead(r) => (next is Rendered) == (r is Ok)
                && (r matches Ok(svg) ==> (next matches RenderStep::Rendered(out) && out@ == svg@))
                && (r matches Err(e) ==> (next matches RenderStep::Failed(RenderError::Runtime(m)) && contains_seq(m@, e@))),
            _ => true,
        },
{
    match event {
        RenderEvent::NodeProbed(Err(e)) => {
            lemma_suffix_occurs("Failed to execute node --version: "@, e@);
        },
        RenderEvent::ScriptLocated { found, shown_path } => {
            lemma_suffix_occurs("render.mjs not found at "@, shown_path@);
        },
        RenderEvent::OutputFileCreated(Err(e)) => {
            lemma_suffix_occurs("Failed to create temp file: "@, e@);
        },
        RenderEvent::ScriptRan(Err(e)) => {
            lemma_suffix_occurs("Failed to execute node: "@, e@);
        },
        RenderEvent::ScriptRan(Ok(p)) => {
            let head = "Node.js render failed.\nstdout: "@;
            let mid = "\nstderr: "@;
            let m = head + p.stdout@ + mid + p.stderr@;
            let k1 = head.len() as int;
            assert(m.subrange(k1, k1 + p.stdout@.len()) =~= p.stdout@);
            assert(occurs_at(m, p.stdout@, k1));
            let k2 = (head.len() + p.stdout@.len() + mid.len()) as int;
            assert(m.subrange(k2, k2 + p.stderr@.len()) =~= p.stderr@);
            assert(occurs_at(m, p.stderr@, k2));
        },
        RenderEvent::SvgRead(Err(e)) => {
            lemma_suffix_occurs("Failed to read output SVG: "@, e@);
        },
        _ => {},
    }
}

proof fn lemma_suffix_occurs(prefix: Seq<char>, tail: Seq<char>)
    ensures
        contains_seq(prefix + tail, tail),
{
    let m = prefix + tail;
    assert(m.subrange(prefix.len() as int, m.len() as int) =~= tail);
    assert(occurs_at(m, tail, prefix.len() as int));
}

/// A finished process is judged by its exit status alone: whatever it wrote
/// to standard output or standard error (a deprecation warning, say), a
/// successful Node.js probe moves on to locating the script and a successful
/// render-script run moves on to reading the SVG, and an unsuccessful one
/// fails the render.
pub proof fn lemma_exit_status_decides(p: ProcessOutcome, probe_next: RenderStep, run_next: RenderStep)
    requires
        advanced(RenderEvent::NodeProbed(Ok(p)), probe_next),
        advanced(RenderEvent::ScriptRan(Ok(p)), run_next),
    ensures
        (probe_next is LocateScript) == p.success,
        (run_next is ReadSvg) == p.success,
        !p.success ==> probe_next is Failed && run_next is Failed,
{
}

/// Each step moves a render strictly closer to its end: a render ends after at
/// most five reports.
pub proof fn lemma_render_progresses(step: RenderStep, event: RenderEvent, next: RenderStep)
    requires
        awaits(step, event),
        advanced(event, next),
    ensures
        steps_left(next) < steps_left(step),
{
}

// ---------------------------------------------------------------------------
// The render report
// ---------------------------------------------------------------------------

/// What a successful Mermaid render reports, besides the diagram's width and
/// height.
pub struct RenderReport {
    pub svg: String,
    pub view_box: String,
    pub runtime: RuntimeVersion,
    pub profile: RendererProfile,
    pub diagnostics: RenderDiagnostics,
    pub cache_fingerprint: String,
}

/// The warnings of a render, in order: missing width, missing height, missing
/// view box.
pub open spec fn render_warnings(width_found: bool, height_found: bool, view_box_found: bool) -> Seq<Seq<char>> {
    (if width_found { Seq::empty() } else { seq!["Width missing from SVG"@] })
        + (if height_found { Seq::empty() } else { seq!["Height missing from SVG"@] })
        + (if view_box_found { Seq::empty() } else { seq!["viewBox missing from SVG"@] })
}

/// The view box reported for `svg`: its own, or `0 0 800 600` when it has none.
pub open spec fn view_box_of(svg: Seq<char>) -> Seq<char> {
    match attr_value(svg, "viewBox"@) {
        Some(v) => v,
        None => "0 0 800 600"@,
    }
}

/// `r` is what `renderer` reports for a render whose script produced `svg`:
/// the SVG itself, its view box (or the default), one warning per missing
/// attribute, the runtime and profile, and the cache fingerprint of the
/// runtime version, `source` and `config_json`.
pub open spec fn is_report(
    renderer: MermaidRenderer,
    svg: Seq<char>,
    width_found: bool,
    height_found: bool,
    source: Seq<char>,
    config_json: Seq<char>,
    checksum: Option<String>,
    r: RenderReport,
) -> bool {
    &&& r.svg@ == svg
    &&& r.view_box@ == view_box_of(svg)
    &&& string_views(r.diagnostics.warnings@) == render_warnings(
        width_found,
        height_found,
        attr_value(svg, "viewBox"@) is Some,
    )
    &&& r.diagnostics.errors@.len() == 0
    &&& r.runtime.name@ == "mermaid-js"@
    &&& r.runtime.version@ == renderer.version@
    &&& r.runtime.checksum == checksum
    &&& r.profile.id@ == "mermaid-default"@
    &&& r.profile.description matches Some(d) && d@ == "Default Mermaid.js renderer"@
    &&& r.cache_fingerprint@ == fingerprint(renderer.version@, source, config_json)
}

/// The cache fingerprint of a render depends on the runtime version, the
/// source and the configuration alone: two renders that agree on those have
/// the same fingerprint, whatever their vendor directories, the SVG the
/// script wrote, its attributes or the runtime checksum.
pub proof fn lemma_fingerprint_depends_only_on_version_source_config(
    a: MermaidRenderer,
    svg_a: Seq<char>,
    width_a: bool,
    height_a: bool,
    source_a: Seq<char>,
    config_a: Seq<char>,
    checksum_a: Option<String>,
    report_a: RenderReport,
    b: MermaidRenderer,
    svg_b: Seq<char>,
    width_b: bool,
    height_b: bool,
    source_b: Seq<char>,
    config_b: Seq<char>,
    checksum_b: Option<String>,
    report_b: RenderReport,
)
    requires
        is_report(a, svg_a, width_a, height_a, source_a, config_a, checksum_a, report_a),
        is_report(b, svg_b, width_b, height_b, source_b, config_b, checksum_b, report_b),
        a.version@ == b.version@,
        source_a == source_b,
        config_a == config_b,
    ensures
        report_a.cache_fingerprint@ == report_b.cache_fingerprint@,
{
}

/// A report hands on the SVG unchanged, reports one warning per missing
/// width, height or view box (none when all three are there) and no errors,
/// uses the SVG's own view box when it has one, and names the renderer's
/// runtime version and the given checksum.
pub proof fn lemma_report_contents(
    renderer: MermaidRenderer,
    svg: Seq<char>,
    width_found: bool,
    height_found: bool,
    source: Seq<char>,
    config_json: Seq<char>,
    checksum: Option<String>,
    r: RenderReport,
)
    requires
        is_report(renderer, svg, width_found, height_found, source, config_json, checksum, r),
    ensures
        r.svg@ == svg,
        r.diagnostics.warnings@.len() == (if width_found { 0int } else { 1int }) + (if height_found {
            0int
        } else {
            1int
        }) + (if attr_value(svg, "viewBox"@) is Some { 0int } else { 1int }),
        r.diagnostics.errors@.len() == 0,
        attr_value(svg, "viewBox"@) matches Some(v) ==> r.view_box@ == v,
        r.runtime.version@ == renderer.version@,
        r.runtime.checksum == checksum,
{
    assert(r.diagnostics.warnings@.len() == string_views(r.diagnostics.warnings@).len());
}

/// A render report's fingerprint covers its source and its configuration:
/// two reports of one runtime version that differ in the source alone, or in
/// the configuration alone, share a fingerprint only through a SHA-256
/// collision, whatever else (vendor directory, SVG, checksum) they hold.
pub proof fn lemma_report_fingerprint_tells_inputs_apart(
    a: MermaidRenderer,
    svg_a: Seq<char>,
    width_a: bool,
    height_a: bool,
    source_a: Seq<char>,
    config_a: Seq<char>,
    checksum_a: Option<String>,
    report_a: RenderReport,
    b: MermaidRenderer,
    svg_b: Seq<char>,
    width_b: bool,
    height_b: bool,
    source_b: Seq<char>,
    config_b: Seq<char>,
    checksum_b: Option<String>,
    report_b: RenderReport,
)
    requires
        is_report(a, svg_a, width_a, height_a, source_a, config_a, checksum_a, report_a),
        is_report(b, svg_b, width_b, height_b, source_b, config_b, checksum_b, report_b),
        a.version@ == b.version@,
        (source_a != source_b && config_a == config_b) || (source_a == source_b && config_a != config_b),
        report_a.cache_fingerprint@ == report_b.cache_fingerprint@,
    ensures
        exists|x: Seq<u8>, y: Seq<u8>| x != y && #[trigger] sha256(x) == #[trigger] sha256(y),
{
    lemma_fingerprint_tells_inputs_apart(a.version@, source_a, config_a, b.version@, source_b, config_b);
}

impl MermaidRenderer {
    /// A renderer for Mermaid.js `version`, vendored under `vendor_dir`.
    pub fn new(version: &str, vendor_dir: PathBuf) -> (r: Self)
        ensures
            r.version@ == version@,
            r.vendor_dir == vendor_dir,
    {
        MermaidRenderer { vendor_dir, version: version.to_owned() }
    }

    /// The path of runtime file `file` under the vendor directory.
    fn runtime_file(&self, file: &str) -> (p: Vec<String>)
        ensures
            string_views(p@) == runtime_file_path(self.version@, file@),
    {
        let mut p: Vec<String> = Vec::new();
        p.push(String::from_str("mermaid"));
        p.push(self.version.clone());
        p.push(String::from_str(file));
        assert(string_views(p@) =~= runtime_file_path(self.version@, file@));
        p
    }

    /// The render script: `mermaid/<version>/render.mjs` under the vendor directory.
    pub fn render_script_path(&self) -> (p: Vec<String>)
        ensures
            string_views(p@) == runtime_file_path(self.version@, "render.mjs"@),
    {
        self.runtime_file("render.mjs")
    }

    /// The checksum file of the runtime bundle:
    /// `mermaid/<version>/mermaid.min.js.sha256` under the vendor directory.
    pub fn checksum_sidecar_path(&self) -> (p: Vec<String>)
        ensures
            string_views(p@) == runtime_file_path(self.version@, "mermaid.min.js.sha256"@),
    {
        self.runtime_file("mermaid.min.js.sha256")
    }

    /// The runtime bundle: `mermaid/<version>/mermaid.min.js` under the vendor directory.
    pub fn bundle_path(&self) -> (p: Vec<String>)
        ensures
            string_views(p@) == runtime_file_path(self.version@, "mermaid.min.js"@),
    {
        self.runtime_file("mermaid.min.js")
    }

    /// The first step of rendering a diagram of `kind`: only Mermaid diagrams
    /// are accepted, and the Node.js runtime is checked first.
    pub fn begin(&self, kind: DiagramKind) -> (step: RenderStep)
        ensures
            kind == DiagramKind::Mermaid ==> step is ProbeNode,
            kind != DiagramKind::Mermaid ==> (step matches RenderStep::Failed(err)
                && is_invalid_input(err, "Expected Mermaid diagram"@)),
    {
        if kind == DiagramKind::Mermaid {
            RenderStep::ProbeNode
        } else {
            RenderStep::Failed(RenderError::InvalidInput(String::from_str("Expected Mermaid diagram")))
        }
    }

    /// The checksum of the vendored runtime bundle, from what was found on disk.
    pub fn checksum_from(found: ChecksumSource) -> (r: Option<String>)
        ensures
            match r {
                Some(c) => checksum_spec(found) == Some(c@),
                None => checksum_spec(found) is None,
            },
            found matches ChecksumSource::Bundle(Some(_)) ==> (r matches Some(c) && c@.len() == 64),
            found matches ChecksumSource::Sidecar(Some(_)) ==> (r matches Some(c) && forall|i: int|
                0 <= i < c@.len() ==> !unicode_white_space(#[trigger] c@[i])),
    {
        proof {
            if found matches ChecksumSource::Sidecar(Some(_)) {
                lemma_sidecar_checksum_is_first_word(found);
            }
        }
        match found {
            ChecksumSource::Sidecar(Some(text)) => Some(first_word_of(&text)),
            ChecksumSource::Sidecar(None) => None,
            ChecksumSource::Bundle(Some(bytes)) => {
                let digest = sha256_digest(bytes.as_slice());
                proof {
                    lemma_hex_lower_shape(digest@);
                }
                Some(hex_encode(digest.as_slice()))
            },
            ChecksumSource::Bundle(None) => None,
        }
    }

    /// The report of a render whose script produced `svg`. `width_found` and
    /// `height_found` tell whether the SVG's `width` and `height` attributes
    /// were present and numeric; `config_json` is the render configuration
    /// serialized as JSON, and `checksum` the runtime checksum.
    pub fn report(
        &self,
        svg: String,
        width_found: bool,
        height_found: bool,
        source: &str,
        config_json: &str,
        checksum: Option<String>,
    ) -> (r: RenderReport)
        ensures
            is_report(*self, svg@, width_found, height_found, source@, config_json@, checksum, r),
            r.cache_fingerprint@.len() == 64,
    {
        let mut warnings: Vec<String> = Vec::new();
        if !width_found {
            warnings.push(String::from_str("Width missing from SVG"));
        }
        if !height_found {
            warnings.push(String::from_str("Height missing from SVG"));
        }
        let view_box = match extract_attr_str(&svg, "viewBox") {
            Some(v) => v,
            None => {
                warnings.push(String::from_str("viewBox missing from SVG"));
                String::from_str("0 0 800 600")
            },
        };
        assert(string_views(warnings@) =~= render_warnings(
            width_found,
            height_found,
            attr_value(svg@, "viewBox"@) is Some,
        ));
        let cache_fingerprint = cache_fingerprint(self.version.as_str(), source, config_json);
        RenderReport {
            svg,
            view_box,
            runtime: RuntimeVersion {
                name: String::from_str("mermaid-js"),
                version: self.version.clone(),
                checksum,
            },
            profile: RendererProfile {
                id: String::from_str("mermaid-default"),
                description: Some(String::from_str("Default Mermaid.js renderer")),
            },
            diagnostics: RenderDiagnostics { warnings, errors: Vec::new() },
            cache_fingerprint,
        }
    }
}

} // verus!
