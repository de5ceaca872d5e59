use vstd::prelude::*;

verus! {

/// Whether a text parses as a JSON document.
pub uninterp spec fn json_ok(s: Seq<char>) -> bool;

/// The named top-level member of a JSON document, when the document
/// parses and the member is present as a JSON string: its contents.
pub uninterp spec fn json_str_member(s: Seq<char>, key: Seq<char>) -> Option<Seq<char>>;

/// The member `inner` of the object held by the top-level member
/// `outer`, when the document parses and that member is a JSON string.
pub uninterp spec fn json_nested_str_member(
    s: Seq<char>,
    outer: Seq<char>,
    inner: Seq<char>,
) -> Option<Seq<char>>;

/// The JSON rendering of the named top-level member of a document;
/// the text `null` when the member is absent.
pub uninterp spec fn json_member_text(s: Seq<char>, key: Seq<char>) -> Seq<char>;

/// Relies on serde_json::from_str for serde_json::Value: it succeeds
/// exactly on well-formed JSON documents.
#[verifier::external_body]
pub(crate) fn json_doc_ok(s: &str) -> (r: bool)
    ensures
        r == json_ok(s@),
{
    serde_json::from_str::<serde_json::Value>(s).is_ok()
}

/// Relies on serde_json::from_str, Value::get and Value::as_str: looks a
/// top-level member up and hands its contents back when it is a string.
#[verifier::external_body]
pub(crate) fn json_get_str(s: &str, key: &str) -> (r: Option<String>)
    ensures
        r is Some <==> json_str_member(s@, key@) is Some,
        r matches Some(v) ==> json_str_member(s@, key@) matches Some(m) && v@ == m,
{
    let doc: serde_json::Value = match serde_json::from_str(s) {
        Ok(doc) => doc,
        Err(_) => return None,
    };
    match doc.get(key) {
        Some(member) => member.as_str().map(|t| t.to_string()),
        None => None,
    }
}

/// Relies on serde_json::from_str, Value::get and Value::as_str: looks a
/// member up one level down and hands its contents back when it is a string.
#[verifier::external_body]
pub(crate) fn json_get_nested_str(s: &str, outer: &str, inner: &str) -> (r: Option<String>)
    ensures
        r is Some <==> json_nested_str_member(s@, outer@, inner@) is Some,
        r matches Some(v) ==> json_nested_str_member(s@, outer@, inner@) matches Some(m) && v@
            == m,
{
    let doc: serde_json::Value = match serde_json::from_str(s) {
        Ok(doc) => doc,
        Err(_) => return None,
    };
    match doc.get(outer) {
        Some(section) => match section.get(inner) {
            Some(member) => member.as_str().map(|t| t.to_string()),
            None => None,
        },
        None => None,
    }
}

/// Relies on serde_json::from_str, Value's string indexing and its Display
/// rendering: renders the named top-level member back out as JSON text.
#[verifier::external_body]
pub(crate) fn json_member_to_text(s: &str, key: &str) -> (r: String)
    requires
        json_ok(s@),
    ensures
        r@ == json_member_text(s@, key@),
{
    let doc: serde_json::Value = serde_json::from_str(s).unwrap();
    doc[key].to_string()
}

} // verus!
