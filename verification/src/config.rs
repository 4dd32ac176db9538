//! The persisted path store: a JSON config file holding one user-confirmed
//! executable path under the key `antigravityPath`, next to whatever other
//! fields the file already has. Reading and updating the config is verified
//! over an abstract view of the JSON object; encoding and decoding the object
//! itself is serde_json's, behind trusted items. The store is meaningful only
//! on Windows, where the install location is ambiguous; on every other OS
//! persistence is a no-op that succeeds.
//!
//! File reads and writes are the host's: `load_agent_config` takes the file's
//! current text (`None` for an absent file) and `persist_antigravity_path`
//! returns the new text to write, so that no step here touches the disk
//! except the executable-path probe.

use vstd::prelude::*;

use crate::host::path_is_file;
use crate::paths::join_path;
use crate::paths::spec_join;
use crate::OsKind;

verus! {

/// One field of a JSON object, as the store sees it: `(true, s)` for a string
/// field whose character content is `s`, and `(false, t)` for a field of any
/// other JSON type, identified by its canonical JSON text `t`.
pub type JsonField = (bool, Seq<char>);

/// The JSON-object representation the store works over.
pub type JsonObject = serde_json::Map<String, serde_json::Value>;

/// The fields of a JSON object value, by key. Two objects with the same
/// fields are the same object to every contract here.
pub uninterp spec fn json_fields(m: JsonObject) -> Map<Seq<char>, JsonField>;

/// A config with no fields at all.
pub open spec fn no_fields() -> Map<Seq<char>, JsonField> {
    Map::empty()
}

/// What parsing a text as a JSON object yields: the object's fields, or
/// `None` where the text is not a JSON object. A fixed function of the text.
pub uninterp spec fn parsed_json_fields(text: Seq<char>) -> Option<Map<Seq<char>, JsonField>>;

/// Whether an object's nesting stays within the parser's recursion limit, so
/// that a text rendering it parses back to the same fields. A property of the
/// value alone: parsing a text establishes it of the result, and adding or
/// replacing a top-level string field keeps it. An object nested deeper than
/// the limit serializes fine but its text is refused by the parser; no such
/// object can arise here, and no round-trip claim is made of one.
pub uninterp spec fn json_reparsable(m: JsonObject) -> bool;

#[verifier::external_type_specification]
#[verifier::external_body]
pub struct ExJsonValue(serde_json::Value);

#[verifier::external_type_specification]
#[verifier::external_body]
#[verifier::reject_recursive_types(K)]
#[verifier::reject_recursive_types(V)]
pub struct ExJsonMap<K, V>(serde_json::Map<K, V>);

/// Relies on serde_json::Map::new: the empty object has no fields, and its
/// rendering trivially parses back.
#[verifier::external_body]
fn json_map_new() -> (r: JsonObject)
    ensures
        json_fields(r) == no_fields(),
        json_reparsable(r),
{
    serde_json::Map::new()
}

/// Relies on serde_json::Map::insert: inserting a string value under a key
/// leaves every other field as it was and binds the key to that string. A
/// top-level string never deepens the nesting, so reparsability is kept.
#[verifier::external_body]
fn json_map_insert_string(m: &mut JsonObject, key: &str, value: &str)
    ensures
        json_fields(*final(m)) == json_fields(*old(m)).insert(key@, (true, value@)),
        json_reparsable(*old(m)) ==> json_reparsable(*final(m)),
{
    m.insert(key.to_string(), serde_json::Value::String(value.to_string()));
}

/// Relies on serde_json::Map::get and serde_json::Value::as_str: the string
/// content of the field under `key`, or `None` where the key is absent or its
/// value is not a JSON string.
#[verifier::external_body]
fn json_map_get_string(m: &JsonObject, key: &str) -> (r: Option<String>)
    ensures
        match r {
            Some(s) => json_fields(*m).contains_pair(key@, (true, s@)),
            None => forall|s: Seq<char>| !json_fields(*m).contains_pair(key@, (true, s)),
        },
{
    m.get(key).and_then(|v| v.as_str()).map(|s| s.to_string())
}

/// Relies on serde_json::from_str: parsing a text yields the JSON object it
/// spells, or `None` where it spells none (malformed text, a non-object, or
/// nesting past the parser's recursion limit); the same text always parses
/// the same way. What it accepted it can parse again, so the result is
/// reparsable.
#[verifier::external_body]
fn parse_json_object(text: &str) -> (r: Option<JsonObject>)
    ensures
        match r {
            Some(m) => parsed_json_fields(text@) == Some(json_fields(m)) && json_reparsable(m),
            None => parsed_json_fields(text@) is None,
        },
{
    serde_json::from_str(text).ok()
}

/// Relies on serde_json::to_string_pretty: serializing an object within the
/// parser's recursion limit yields a text that parses back to an object with
/// the same fields. Serializing a string-keyed map of JSON values cannot
/// fail; the fallback arm is never taken.
#[verifier::external_body]
fn render_json_object(m: &JsonObject) -> (r: String)
    ensures
        json_reparsable(*m) ==> parsed_json_fields(r@) == Some(json_fields(*m)),
{
    match serde_json::to_string_pretty(m) {
        Ok(s) => s,
        Err(_) => String::new(),
    }
}

/// The directory holding the companion's own config file: the OS's per-user
/// config directory — or the current directory, where the OS reports none —
/// joined with the companion's name.
pub open spec fn spec_companion_config_dir(os: OsKind, config_dir: Option<Seq<char>>) -> Seq<
    char,
> {
    match config_dir {
        Some(c) => spec_join(os, c, "antigravity-agent"@),
        None => spec_join(os, "."@, "antigravity-agent"@),
    }
}

/// The path of the companion's config file: its config directory joined with
/// `config.json`.
pub open spec fn spec_config_file_path(os: OsKind, config_dir: Option<Seq<char>>) -> Seq<char> {
    spec_join(os, spec_companion_config_dir(os, config_dir), "config.json"@)
}

/// The companion's config-file path for an environment whose per-user config
/// directory is as given.
pub fn config_file_path(os: OsKind, config_dir: &Option<String>) -> (r: String)
    ensures
        r@ == spec_config_file_path(os, config_dir.deep_view()),
{
    let base = match config_dir.as_ref() {
        Some(c) => join_path(os, c.as_str(), "antigravity-agent"),
        None => join_path(os, ".", "antigravity-agent"),
    };
    join_path(os, base.as_str(), "config.json")
}

/// The key under which the store keeps the confirmed executable path.
pub open spec fn path_key() -> Seq<char> {
    "antigravityPath"@
}

/// The fields that a config file with the given text holds: an absent or
/// unparseable file is an empty config — corruption never propagates.
pub open spec fn spec_config_fields(text: Option<Seq<char>>) -> Map<Seq<char>, JsonField> {
    match text {
        None => no_fields(),
        Some(t) => match parsed_json_fields(t) {
            Some(fields) => fields,
            None => no_fields(),
        },
    }
}

/// The executable path a config records: the string content of its
/// `antigravityPath` field, or `None` where that field is absent or not a
/// string.
pub open spec fn spec_stored_path(fields: Map<Seq<char>, JsonField>) -> Option<Seq<char>> {
    if exists|s: Seq<char>| fields.contains_pair(path_key(), (true, s)) {
        Some(choose|s: Seq<char>| fields.contains_pair(path_key(), (true, s)))
    } else {
        None
    }
}

/// The companion's own config: the fields of its JSON config file.
pub struct AgentConfig {
    fields: JsonObject,
}

impl AgentConfig {
    /// The fields this config holds.
    pub closed spec fn fields(&self) -> Map<Seq<char>, JsonField> {
        json_fields(self.fields)
    }

    /// A config the store can write out again: one whose object stays within
    /// the parser's nesting limit. Every constructor here establishes it and
    /// every update keeps it.
    pub closed spec fn well_formed(&self) -> bool {
        json_reparsable(self.fields)
    }

    /// An empty config.
    pub fn new() -> (c: AgentConfig)
        ensures
            c.fields() == no_fields(),
            c.well_formed(),
    {
        AgentConfig { fields: json_map_new() }
    }

    /// The executable path this config records, exactly the string field
    /// under `antigravityPath`.
    pub fn antigravity_path(&self) -> (r: Option<String>)
        ensures
            r.deep_view() == spec_stored_path(self.fields()),
    {
        let r = json_map_get_string(&self.fields, "antigravityPath");
        proof {
            match &r {
                Some(s) => {
                    assert(self.fields().contains_pair(path_key(), (true, s@)));
                    let w = choose|t: Seq<char>|
                        self.fields().contains_pair(path_key(), (true, t));
                    assert(self.fields()[path_key()] == (true, s@));
                    assert(self.fields()[path_key()] == (true, w));
                },
                None => {},
            }
        }
        r
    }

    /// Records `path` as the confirmed executable path, leaving every other
    /// field of the config exactly as it was.
    pub fn set_antigravity_path(&mut self, path: &str)
        ensures
            final(self).fields() == old(self).fields().insert(path_key(), (true, path@)),
            old(self).well_formed() ==> final(self).well_formed(),
    {
        json_map_insert_string(&mut self.fields, "antigravityPath", path);
    }

    /// The JSON text of a well-formed config, which parses back to exactly
    /// these fields. Well-formedness is the parser's nesting limit, a machine
    /// bound every config built or loaded by this store meets.
    pub fn to_json_text(&self) -> (r: String)
        requires
            self.well_formed(),
        ensures
            spec_config_fields(Some(r@)) == self.fields(),
    {
        render_json_object(&self.fields)
    }
}

/// The config that a file with the given text holds. An absent file (`None`)
/// or one whose text is not a JSON object loads as the empty config, never as
/// an error.
pub fn load_agent_config(text: Option<&str>) -> (c: AgentConfig)
    ensures
        c.fields() == spec_config_fields(text.deep_view()),
        c.well_formed(),
{
    match text {
        None => AgentConfig::new(),
        Some(t) => match parse_json_object(t) {
            Some(m) => AgentConfig { fields: m },
            None => AgentConfig::new(),
        },
    }
}

/// The error message returned when asked to persist a path that is not a
/// regular file.
pub open spec fn invalid_path_message() -> Seq<char> {
    "invalid Antigravity executable path"@
}

/// The persistence step with the path's validity given: on a non-Windows OS
/// a successful no-op (`Ok(None)`); on Windows with an invalid path the
/// validation error, and no text to write; on Windows with a valid path the
/// new config text, whose fields are the old ones with the path recorded and
/// everything else preserved.
pub fn persist_path_checked(
    os: OsKind,
    path: &str,
    path_is_valid: bool,
    current_text: Option<&str>,
) -> (r: Result<Option<String>, String>)
    ensures
        os != OsKind::Windows ==> (r matches Ok(w) && w is None),
        os == OsKind::Windows && !path_is_valid ==> (r matches Err(e) && e@
            == invalid_path_message()),
        os == OsKind::Windows && path_is_valid ==> (r matches Ok(w) && w matches Some(t)
            && spec_config_fields(Some(t@)) == spec_config_fields(
            current_text.deep_view(),
        ).insert(path_key(), (true, path@))),
{
    if let OsKind::Windows = os {
        if !path_is_valid {
            return Err(String::from_str("invalid Antigravity executable path"));
        }
        let mut config = load_agent_config(current_text);
        config.set_antigravity_path(path);
        Ok(Some(config.to_json_text()))
    } else {
        Ok(None)
    }
}

/// Persists `path` as the confirmed executable path: validates it against
/// the host file system, and on success returns the new config text to
/// write — the current config with only the path field changed. Returns the
/// validation error, and nothing to write, when the path is not a regular
/// file; a successful no-op on every OS but Windows.
pub fn persist_antigravity_path(os: OsKind, path: &str, current_text: Option<&str>) -> (r: Result<
    Option<String>,
    String,
>)
    ensures
        os != OsKind::Windows ==> (r matches Ok(w) && w is None),
        os == OsKind::Windows ==> (r matches Ok(w) ==> w is Some),
        r matches Err(e) ==> os == OsKind::Windows && e@ == invalid_path_message(),
        r matches Ok(w) ==> (w matches Some(t) ==> os == OsKind::Windows && spec_config_fields(
            Some(t@),
        ) == spec_config_fields(current_text.deep_view()).insert(path_key(), (true, path@))),
{
    if let OsKind::Windows = os {
        let valid = path_is_file(path);
        persist_path_checked(os, path, valid, current_text)
    } else {
        Ok(None)
    }
}

/// The persisted executable path, if a currently valid one is stored: the
/// string field under `antigravityPath`, and only where it still names a
/// regular file on the host. `None` on every OS but Windows.
pub fn load_persisted_antigravity_path(os: OsKind, current_text: Option<&str>) -> (r: Option<
    String,
>)
    ensures
        os != OsKind::Windows ==> r is None,
        r matches Some(p) ==> os == OsKind::Windows && spec_stored_path(
            spec_config_fields(current_text.deep_view()),
        ) == Some(p@),
{
    if let OsKind::Windows = os {
        let config = load_agent_config(current_text);
        match config.antigravity_path() {
            Some(p) => {
                if path_is_file(p.as_str()) {
                    Some(p)
                } else {
                    None
                }
            },
            None => None,
        }
    } else {
        None
    }
}

/// Persisting a path and loading it back round-trips the path exactly, and
/// preserves every other field already present: in the written fields the
/// stored path is the persisted one, and every key but `antigravityPath` is
/// bound exactly as before.
pub proof fn lemma_persist_load_round_trip(fields: Map<Seq<char>, JsonField>, p: Seq<char>)
    ensures
        spec_stored_path(fields.insert(path_key(), (true, p))) == Some(p),
        forall|k: Seq<char>|
            k != path_key() ==> #[trigger] fields.insert(path_key(), (true, p)).contains_key(k)
                == fields.contains_key(k),
        forall|k: Seq<char>|
            k != path_key() && fields.contains_key(k) ==> #[trigger] fields.insert(
                path_key(),
                (true, p),
            )[k] == fields[k],
{
    let updated = fields.insert(path_key(), (true, p));
    assert(updated.contains_pair(path_key(), (true, p)));
    let w = choose|s: Seq<char>| updated.contains_pair(path_key(), (true, s));
    assert(updated[path_key()] == (true, p));
    assert(updated[path_key()] == (true, w));
}

} // verus!
