//! Extraction of a command request's field set from its JSON text. The JSON
//! parsing is done by serde_json behind trusted wrappers; what each wrapper
//! returns is a function of the request text alone, so it carries a name
//! that the decode contracts speak of: the member of the text's JSON object
//! under a key, of the expected kind. The typed per-command decoding over
//! the extracted fields is verified in the router.

use vstd::prelude::*;

verus! {

/// Whether the text is a valid JSON document.
pub uninterp spec fn json_parses(text: Seq<char>) -> bool;

/// The string member of the text's JSON object under the key: its text when
/// the document parses, is an object, and holds a string member there;
/// absent otherwise.
pub uninterp spec fn json_str_member(text: Seq<char>, key: Seq<char>) -> Option<Seq<char>>;

/// The boolean member of the text's JSON object under the key, when the
/// document parses and one is there; absent otherwise.
pub uninterp spec fn json_bool_member(text: Seq<char>, key: Seq<char>) -> Option<bool>;

/// The numeric member of the text's JSON object under the key, when the
/// document parses and one is there as a non-negative integer fitting in 64
/// bits; absent otherwise.
pub uninterp spec fn json_u64_member(text: Seq<char>, key: Seq<char>) -> Option<u64>;

/// Relies on serde_json::from_str: whether the text parses as JSON. The
/// parse is deterministic in the text, so its success is a function of the
/// text alone.
#[verifier::external_body]
fn parses(text: &str) -> (r: bool)
    ensures
        r == json_parses(text@),
{
    serde_json::from_str::<serde_json::Value>(text).is_ok()
}

/// Relies on serde_json::from_str, Value::get and Value::as_str: parses the
/// text and extracts the string member under the key, `None` when the text
/// does not parse, is not an object, or has no string member there.
#[verifier::external_body]
fn str_member(text: &str, key: &str) -> (r: Option<String>)
    ensures
        match r {
            Some(s) => json_str_member(text@, key@) == Option::Some(s@),
            None => json_str_member(text@, key@) is None,
        },
{
    serde_json::from_str::<serde_json::Value>(text).ok().and_then(
        |v| v.get(key).and_then(|f| f.as_str()).map(|s| s.to_string()),
    )
}

/// Relies on serde_json::from_str, Value::get and Value::as_bool: parses the
/// text and extracts the boolean member under the key.
#[verifier::external_body]
fn bool_member(text: &str, key: &str) -> (r: Option<bool>)
    ensures
        r == json_bool_member(text@, key@),
{
    serde_json::from_str::<serde_json::Value>(text).ok().and_then(
        |v| v.get(key).and_then(|f| f.as_bool()),
    )
}

/// Relies on serde_json::from_str, Value::get and Value::as_u64: parses the
/// text and extracts the numeric member under the key.
#[verifier::external_body]
fn u64_member(text: &str, key: &str) -> (r: Option<u64>)
    ensures
        r == json_u64_member(text@, key@),
{
    serde_json::from_str::<serde_json::Value>(text).ok().and_then(
        |v| v.get(key).and_then(|f| f.as_u64()),
    )
}

/// The field set a command request can carry, each field as the parser
/// reported it: present with the expected kind, or absent. Unrecognized
/// extra fields are ignored; which fields are required is decided per
/// command by the router.
pub struct RawFields {
    pub container_id: Option<String>,
    pub bundle: Option<String>,
    pub exit_fifo_dir: Option<String>,
    pub exec_id: Option<String>,
    pub terminal: Option<bool>,
    pub stdin: Option<String>,
    pub stdout: Option<String>,
    pub stderr: Option<String>,
    pub process_spec: Option<String>,
    pub height: Option<u64>,
    pub width: Option<u64>,
    pub signal: Option<u64>,
    pub all: Option<bool>,
}

/// An extracted optional string field carries exactly the named member.
pub open spec fn str_field_is(field: Option<String>, member: Option<Seq<char>>) -> bool {
    match field {
        Option::Some(s) => member == Option::Some(s@),
        Option::None => member is None,
    }
}

/// The extracted field set carries, for every field a command can read,
/// exactly the member of the request text's JSON object under that field's
/// key.
pub open spec fn fields_of_text(f: RawFields, text: Seq<char>) -> bool {
    &&& str_field_is(f.container_id, json_str_member(text, "container_id"@))
    &&& str_field_is(f.bundle, json_str_member(text, "bundle"@))
    &&& str_field_is(f.exit_fifo_dir, json_str_member(text, "exit_fifo_dir"@))
    &&& str_field_is(f.exec_id, json_str_member(text, "exec_id"@))
    &&& f.terminal == json_bool_member(text, "terminal"@)
    &&& str_field_is(f.stdin, json_str_member(text, "stdin"@))
    &&& str_field_is(f.stdout, json_str_member(text, "stdout"@))
    &&& str_field_is(f.stderr, json_str_member(text, "stderr"@))
    &&& str_field_is(f.process_spec, json_str_member(text, "spec"@))
    &&& f.height == json_u64_member(text, "height"@)
    &&& f.width == json_u64_member(text, "width"@)
    &&& f.signal == json_u64_member(text, "signal"@)
    &&& f.all == json_bool_member(text, "all"@)
}

/// Parse a command's request text and extract its field set: absent when
/// the text is not valid JSON, else every field is the member of the text's
/// JSON object under the field's key (absent or differently-typed members
/// come back as absent fields).
pub fn parse_request(argv: &str) -> (r: Option<RawFields>)
    ensures
        r is Some <==> json_parses(argv@),
        r matches Some(f) ==> fields_of_text(f, argv@),
{
    if !parses(argv) {
        return Option::None;
    }
    Option::Some(
        RawFields {
            container_id: str_member(argv, "container_id"),
            bundle: str_member(argv, "bundle"),
            exit_fifo_dir: str_member(argv, "exit_fifo_dir"),
            exec_id: str_member(argv, "exec_id"),
            terminal: bool_member(argv, "terminal"),
            stdin: str_member(argv, "stdin"),
            stdout: str_member(argv, "stdout"),
            stderr: str_member(argv, "stderr"),
            process_spec: str_member(argv, "spec"),
            height: u64_member(argv, "height"),
            width: u64_member(argv, "width"),
            signal: u64_member(argv, "signal"),
            all: bool_member(argv, "all"),
        },
    )
}

} // verus!
