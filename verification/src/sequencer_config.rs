//! The sequencer's JSON configuration: setting the port that the sequencer
//! listens on, which the sequencer reads from this file and not from its
//! command line.

use vstd::prelude::*;
use crate::text::decimal;

verus! {

/// What `serde_json::from_str::<Value>` makes of a text: `Err` with the
/// `Display` text of serde's error where it refuses the text; else
/// `Ok(Some(entries))` where the value read is an object, each entry's value
/// given as its compact JSON text (`serde_json::to_string`), and `Ok(None)`
/// for any other value.
pub uninterp spec fn json_read(text: Seq<char>) -> Result<Option<Map<Seq<char>, Seq<char>>>, Seq<char>>;

/// The text `serde_json::to_string_pretty` writes for the object with these
/// entries (each value given as its compact JSON text). Without the
/// `preserve_order` feature serde_json keeps an object's entries in a
/// `BTreeMap`, so the text depends on the entries alone.
pub uninterp spec fn json_pretty_object(entries: Map<Seq<char>, Seq<char>>) -> Seq<char>;

/// Whether `serde_json` reads the text as one JSON value.
pub open spec fn json_text_parses(text: Seq<char>) -> bool {
    json_read(text) is Ok
}

/// Whether `serde_json` reads the text as one JSON object.
pub open spec fn json_text_is_object(text: Seq<char>) -> bool {
    json_read(text) matches Ok(Some(_))
}

/// The entries of the object that `serde_json` reads from the text.
pub open spec fn json_object_entries(text: Seq<char>) -> Map<Seq<char>, Seq<char>> {
    match json_read(text) {
        Ok(Some(entries)) => entries,
        _ => Map::empty(),
    }
}

/// What serde_json says when it refuses the text.
pub open spec fn json_error_text(text: Seq<char>) -> Seq<char> {
    match json_read(text) {
        Err(m) => m,
        _ => Seq::<char>::empty(),
    }
}

/// `serde_json::from_str::<Value>`, then which variant the value is: `Ok`
/// with whether it is an object, or the `Display` text of serde's error.
/// Trusted to agree with `json_read`, the name for what `from_str` gives.
#[verifier::external_body]
fn json_object_check(text: &str) -> (r: Result<bool, String>)
    ensures
        match r {
            Ok(is_object) => (json_read(text@) is Ok) && (is_object <==> json_text_is_object(
                text@,
            )),
            Err(m) => (json_read(text@) is Err) && m@ == json_error_text(text@),
        },
{
    match serde_json::from_str::<serde_json::Value>(text) {
        Ok(serde_json::Value::Object(_)) => Ok(true),
        Ok(_) => Ok(false),
        Err(e) => Err(e.to_string()),
    }
}

/// `serde_json::from_str::<Value>`, `Map::insert(key, Value::from(n))` on the
/// object read, and `serde_json::to_string_pretty` of the result. The text
/// must be a JSON object, so the read gives the `Object` variant. `insert`
/// adds the key, or replaces its value where it is there, and leaves every
/// other entry as it was; `Value::from(n)` is the number `n`, whose compact
/// text is its decimal digits. serde_json documents that writing fails only
/// for a failing `Serialize` impl or a map with keys that are not strings,
/// and a `Value` has neither. So the text written is `json_pretty_object` of
/// the entries read, with `key` set to `n`.
#[verifier::external_body]
fn json_set_number_field(text: &str, key: &str, n: u16) -> (s: String)
    requires
        json_text_is_object(text@),
    ensures
        s@ == json_pretty_object(json_object_entries(text@).insert(key@, decimal(n as nat))),
{
    match serde_json::from_str::<serde_json::Value>(text) {
        Ok(serde_json::Value::Object(mut map)) => {
            map.insert(key.to_string(), serde_json::Value::from(n));
            match serde_json::to_string_pretty(&serde_json::Value::Object(map)) {
                Ok(s) => s,
                Err(_) => String::new(),
            }
        },
        _ => String::new(),
    }
}

/// Why the sequencer configuration could not be updated.
#[derive(Debug, Clone, PartialEq, Eq)]
pub enum PatchError {
    /// The file is not JSON; `cause` is what serde_json said.
    Parse { cause: String },
    /// The file is JSON, but not an object.
    NotObject,
}

/// The message of a patch error, for the configuration file at `path`; a
/// parse error's cause is kept apart, in the error.
pub open spec fn patch_error_text(e: PatchError, path: Seq<char>) -> Seq<char> {
    match e {
        PatchError::Parse { .. } => "failed to parse sequencer_config.json"@,
        PatchError::NotObject => "sequencer_config.json is not a JSON object: "@ + path,
    }
}

impl PatchError {
    /// The message that the command line prints for this error.
    pub fn message(&self, path: &str) -> (s: String)
        ensures
            s@ == patch_error_text(*self, path@),
    {
        match self {
            PatchError::Parse { .. } => String::from_str("failed to parse sequencer_config.json"),
            PatchError::NotObject => {
                let mut s = String::from_str("sequencer_config.json is not a JSON object: ");
                s.append(path);
                s
            },
        }
    }
}

/// The key of the sequencer configuration that holds the port.
pub const PORT_KEY: &'static str = "port";

/// The sequencer configuration `text` with its `port` set to `port`, as
/// indented JSON with a final line break: the object's entries as they were,
/// with `port` added or replaced by the number. Text that is not JSON is
/// refused with `Parse`, carrying serde_json's message; JSON that is not an
/// object with `NotObject`; an object always succeeds.
pub fn sequencer_config_with_port(text: &str, port: u16) -> (r: Result<String, PatchError>)
    ensures
        r is Ok <==> json_text_is_object(text@),
        (r matches Err(PatchError::Parse { .. })) <==> !json_text_parses(text@),
        r matches Err(PatchError::Parse { cause }) ==> cause@ == json_error_text(text@),
        (r == Err::<String, PatchError>(PatchError::NotObject)) <==> (json_text_parses(text@)
            && !json_text_is_object(text@)),
        r is Ok ==> r->Ok_0@ == json_pretty_object(
            json_object_entries(text@).insert(PORT_KEY@, decimal(port as nat)),
        ).push('\n'),
{
    match json_object_check(text) {
        Err(cause) => Err(PatchError::Parse { cause }),
        Ok(false) => Err(PatchError::NotObject),
        Ok(true) => {
            let mut s = json_set_number_field(text, PORT_KEY, port);
            crate::text::push_char(&mut s, '\n');
            Ok(s)
        },
    }
}

/// The entries that a successful port rewrite writes: `port` holds the
/// number, and every other key holds what it held before.
pub proof fn lemma_port_entries(text: Seq<char>, port: u16, k: Seq<char>)
    ensures
        json_object_entries(text).insert(PORT_KEY@, decimal(port as nat))[PORT_KEY@] == decimal(
            port as nat,
        ),
        k != PORT_KEY@ ==> json_object_entries(text).insert(PORT_KEY@, decimal(port as nat)).dom().contains(k)
            == json_object_entries(text).dom().contains(k),
        k != PORT_KEY@ ==> json_object_entries(text).insert(PORT_KEY@, decimal(port as nat))[k]
            == json_object_entries(text)[k],
{
}

} // verus!
