//! Checking a request payload against the JSON schema registered for its topic.
use vstd::prelude::*;

verus! {

#[verifier::external_type_specification]
#[verifier::external_body]
pub struct ExJsonSchema(jsonschema::JSONSchema);

/// Whether a text is one JSON document.
pub uninterp spec fn json_parses(payload: Seq<char>) -> bool;

/// Tells whether a text parses as JSON (`serde_json::from_str` into a
/// `serde_json::Value`).
/// Trusted: it succeeds exactly when the text is one JSON document, which
/// `json_parses` names.
#[verifier::external_body]
fn is_json(payload: &str) -> (b: bool)
    ensures
        b == json_parses(payload@),
{
    serde_json::from_str::<serde_json::Value>(payload).is_ok()
}

/// The text of the first error that validating a JSON payload against the schema
/// meets, none where it meets none.
pub uninterp spec fn schema_first_error(schema: jsonschema::JSONSchema, payload: Seq<char>) -> Option<Seq<char>>;

/// Validates a JSON payload against the schema (`JSONSchema::validate` on the
/// payload as `serde_json::from_str` reads it, then the first item of its error
/// iterator, as text).
/// Trusted: the result is the one `schema_first_error` names for the schema and
/// the payload.
#[verifier::external_body]
fn first_validation_error(schema: &jsonschema::JSONSchema, payload: &str) -> (r: Option<String>)
    requires
        json_parses(payload@),
    ensures
        match r {
            Some(t) => schema_first_error(*schema, payload@) == Some(t@),
            None => schema_first_error(*schema, payload@) is None,
        },
{
    let value: serde_json::Value = serde_json::from_str(payload).unwrap_or(serde_json::Value::Null);
    let first = match schema.validate(&value) {
        Ok(()) => None,
        Err(mut errors) => errors.next().map(|e| e.to_string()),
    };
    first
}

/// The text of the error that compiling a JSON schema text under draft 7 meets,
/// none where it compiles.
pub uninterp spec fn schema_compile_error(schema_text: Seq<char>) -> Option<Seq<char>>;

/// Compiles a schema text (`serde_json::from_str` into a `serde_json::Value`, then
/// `JSONSchema::options().with_draft(Draft::Draft7).compile`, each error as its
/// text).
/// Trusted: a text that is no JSON is refused; a JSON text compiles exactly when
/// `schema_compile_error` names no error, and is refused with the text it names
/// otherwise. The text of the error for a text that is no JSON is left unsaid.
#[verifier::external_body]
pub fn parse_schema(schema_text: &str) -> (r: Result<jsonschema::JSONSchema, String>)
    ensures
        !json_parses(schema_text@) ==> r is Err,
        json_parses(schema_text@) ==> match schema_compile_error(schema_text@) {
            Some(t) => r matches Err(e) && e@ == t,
            None => r is Ok,
        },
{
    let value: serde_json::Value = match serde_json::from_str(schema_text) {
        Ok(v) => v,
        Err(e) => return Err(e.to_string()),
    };
    match jsonschema::JSONSchema::options().with_draft(jsonschema::Draft::Draft7).compile(&value) {
        Ok(schema) => Ok(schema),
        Err(e) => Err(e.to_string()),
    }
}

/// The reason given when a payload is no JSON.
pub open spec fn spec_parse_failed() -> Seq<char> {
    "parse payload failed"@
}

/// What the check says of a payload: `None` where it is accepted, the reason where
/// it is refused.
pub open spec fn spec_schema_verdict(schema: jsonschema::JSONSchema, payload: Seq<char>) -> Option<Seq<char>> {
    if !json_parses(payload) {
        Some(spec_parse_failed())
    } else {
        schema_first_error(schema, payload)
    }
}

/// Checks a payload against a schema: a payload that is no JSON is refused with
/// "parse payload failed"; a JSON payload is refused with the text of the first
/// error that the validation meets, and accepted where it meets none.
pub fn schema_check(schema: &jsonschema::JSONSchema, payload: &str) -> (r: Result<(), String>)
    ensures
        !json_parses(payload@) ==> (r matches Err(e) && e@ == spec_parse_failed()),
        json_parses(payload@) ==> match schema_first_error(*schema, payload@) {
            Some(t) => r matches Err(e) && e@ == t,
            None => r is Ok,
        },
{
    if !is_json(payload) {
        proof {
            reveal_strlit("parse payload failed");
        }
        return Err(crate::text::owned("parse payload failed"));
    }
    match first_validation_error(schema, payload) {
        None => Ok(()),
        Some(e) => Err(e),
    }
}

} // verus!
