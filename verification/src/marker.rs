use vstd::prelude::*;
use vstd::string::StringExecFns;

use crate::text::dec_spec;

verus! {

/// The fixed file name of the workspace marker.
pub open spec fn marker_name_spec() -> Seq<char> {
    ".zk.json"@
}

/// The fixed file name of the workspace marker, as a fresh string.
pub fn marker_name() -> (r: String)
    ensures
        r@ == marker_name_spec(),
{
    String::from_str(".zk.json")
}

/// A path joined from a base directory and an entry name, with the base
/// directory first.
pub open spec fn join_spec(base: Seq<char>, name: Seq<char>) -> Seq<char> {
    base + "/"@ + name
}

/// Joins `name` onto the directory `base`; the base always comes first.
pub fn join_path(base: &str, name: &str) -> (r: String)
    ensures
        r@ == join_spec(base@, name@),
{
    let mut out = String::from_str(base);
    out.append("/");
    out.append(name);
    out
}

/// The path of the workspace marker directly inside `root`.
pub open spec fn marker_path_spec(root: Seq<char>) -> Seq<char> {
    join_spec(root, marker_name_spec())
}

/// The path of the workspace marker directly inside `root`, as a string.
pub fn marker_path(root: &str) -> (r: String)
    ensures
        r@ == marker_path_spec(root@),
{
    let name = marker_name();
    join_path(root, name.as_str())
}

/// Characters that serialize into a JSON string verbatim, with no escaping.
pub open spec fn plain_key_char(c: char) -> bool {
    ||| ('a' as int) <= (c as int) <= ('z' as int)
    ||| ('A' as int) <= (c as int) <= ('Z' as int)
    ||| ('0' as int) <= (c as int) <= ('9' as int)
    ||| c == '_'
}

/// A key whose JSON string form is the key itself between quotes.
pub open spec fn json_safe_key(key: Seq<char>) -> bool {
    forall|i: int| 0 <= i < key.len() ==> plain_key_char(#[trigger] key[i])
}

/// The pretty-printed JSON text of an object holding one unsigned-integer
/// entry: the opening brace, a newline, a two-space indent, the quoted key,
/// a colon and a space, the decimal value, a newline, and the closing brace.
pub open spec fn json_pretty_uint(key: Seq<char>, value: nat) -> Seq<char> {
    "{\n  \""@ + key + "\": "@ + dec_spec(value) + "\n}"@
}

#[verifier::external_type_specification]
#[verifier::external_body]
pub struct ExSerdeJsonError(serde_json::Error);

/// Relies on serde_json::to_string_pretty with the default two-space
/// formatter: a one-entry object with an unsigned-integer value prints as
/// `{`, newline, two spaces, the quoted key, `: `, the decimal value,
/// newline, `}`; a key of plain characters is printed without escapes. The
/// call succeeds: the sink is an in-memory buffer whose writes cannot
/// fail, the key is a string, and the value is written by an integer
/// formatter.
#[verifier::external_body]
fn to_pretty_json_uint(key: &str, value: u64) -> (r: Result<String, serde_json::Error>)
    requires
        json_safe_key(key@),
    ensures
        r is Ok,
        (r matches Ok(s) ==> s@ == json_pretty_uint(key@, value as nat)),
{
    let mut map = serde_json::Map::new();
    map.insert(key.to_string(), serde_json::Value::from(value));
    serde_json::to_string_pretty(&serde_json::Value::Object(map))
}

/// The serialized default marker payload: a record whose single entry keeps
/// the marker format's version-carrying field.
pub open spec fn marker_text_spec() -> Seq<char> {
    json_pretty_uint("test"@, 5)
}

/// Serializes the default marker payload.
pub fn default_marker_content() -> (r: String)
    ensures
        r@ == marker_text_spec(),
{
    proof {
        reveal_strlit("test");
        assert(json_safe_key("test"@));
    }
    match to_pretty_json_uint("test", 5) {
        Ok(s) => s,
        Err(_) => {
            proof {
                assert(false);
            }
            String::new()
        },
    }
}

} // verus!
