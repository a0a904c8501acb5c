use vstd::prelude::*;

verus! {

/// A JSON document: the universal payload type for request bodies and for the
/// single value each stored procedure returns. The gateway never computes
/// with payload numbers, so a number is carried as its decimal lexeme, the
/// text that stood on the wire (`Num("9.99")`, `Num("36")`); the edge that
/// parses wire text preserves it exactly, whatever its width, and it is a
/// different thing from a JSON string of the same characters.
#[derive(Debug, PartialEq)]
pub enum JsonValue {
    Null,
    Bool(bool),
    Num(String),
    Str(String),
    Arr(Vec<JsonValue>),
    Obj(Vec<(String, JsonValue)>),
}

/// `v` is the fixed error body `{"error": msg}` that every catch-all handler
/// returns regardless of which route failed.
pub open spec fn is_error_body(v: JsonValue, msg: Seq<char>) -> bool {
    match v {
        JsonValue::Obj(fields) => {
            &&& fields@.len() == 1
            &&& fields@[0].0@ == "error"@
            &&& match fields@[0].1 {
                JsonValue::Str(s) => s@ == msg,
                _ => false,
            }
        },
        _ => false,
    }
}

/// Builds the uniform error body `{"error": msg}`.
pub fn error_body(msg: String) -> (v: JsonValue)
    ensures
        is_error_body(v, msg@),
{
    let mut fields: Vec<(String, JsonValue)> = Vec::new();
    fields.push((String::from_str("error"), JsonValue::Str(msg)));
    JsonValue::Obj(fields)
}

} // verus!
