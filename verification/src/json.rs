use vstd::prelude::*;

verus! {

/// What the generic money route found at the `address` key of its JSON
/// payload.
pub enum AddressField {
    /// The key is absent, or the payload is not an object.
    Missing,
    /// The key is present but its value is not a string.
    NotText,
    /// The key holds this string.
    Text(String),
}

/// The reply when the key holds the string `s`.
pub open spec fn found_msg(s: Seq<char>) -> Seq<char> {
    "The value is: "@ + s
}

/// The reply when the key holds a non-string value.
pub open spec fn not_string_msg() -> Seq<char> {
    "The value is not a string."@
}

/// The reply when the key is absent.
pub open spec fn not_found_msg() -> Seq<char> {
    "Key not found in the payload."@
}

/// The reply for each outcome of the `address` lookup.
pub open spec fn address_msg(f: AddressField) -> Seq<char> {
    match f {
        AddressField::Missing => not_found_msg(),
        AddressField::NotText => not_string_msg(),
        AddressField::Text(s) => found_msg(s@),
    }
}

#[verifier::external_type_specification]
#[verifier::external_body]
pub struct ExValue(serde_json::Value);

/// What `serde_json::Value::get` returns for a value and a string key: the
/// entry of a JSON object under that key, `None` on a non-object value or
/// an absent key. It depends on the value and the key alone.
pub uninterp spec fn json_field(v: serde_json::Value, key: Seq<char>) -> Option<serde_json::Value>;

/// What `serde_json::Value::as_str` returns: the characters of a JSON
/// string, `None` for every other value. It depends on the value alone.
pub uninterp spec fn json_text(v: serde_json::Value) -> Option<Seq<char>>;

/// Whether `serde_json::Value::is_object` holds of a value: whether it is a
/// JSON object. It depends on the value alone.
pub uninterp spec fn json_is_object(v: serde_json::Value) -> bool;

/// The reply the generic money route owes for a payload: the three-way
/// branch on its `address` entry.
pub open spec fn payload_msg(v: serde_json::Value) -> Seq<char> {
    match json_field(v, "address"@) {
        None => not_found_msg(),
        Some(w) => match json_text(w) {
            None => not_string_msg(),
            Some(s) => found_msg(s),
        },
    }
}

/// Relies on serde_json::Value::get with a string index: `Some` exactly
/// when the value is a JSON object that has the key, holding the key's
/// value; always `None` on a value that is not an object.
#[verifier::external_body]
fn json_get<'a>(v: &'a serde_json::Value, key: &str) -> (r: Option<&'a serde_json::Value>)
    ensures
        r is Some <==> json_field(*v, key@) is Some,
        r matches Some(w) ==> json_field(*v, key@) == Some(*w),
        !json_is_object(*v) ==> r is None,
{
    v.get(key)
}

/// Relies on serde_json::Value::as_str: `Some` exactly when the value is a
/// JSON string, holding that string.
#[verifier::external_body]
fn json_as_str(v: &serde_json::Value) -> (r: Option<&str>)
    ensures
        r is Some <==> json_text(*v) is Some,
        r matches Some(s) ==> json_text(*v) == Some(s@),
{
    v.as_str()
}

/// Formats the reply for every possible outcome of the `address` lookup:
/// the three outcomes map to three disjoint fixed reply shapes.
pub fn address_reply(f: &AddressField) -> (r: String)
    ensures
        r@ == address_msg(*f),
{
    match f {
        AddressField::Missing => "Key not found in the payload.".to_owned(),
        AddressField::NotText => "The value is not a string.".to_owned(),
        AddressField::Text(s) => {
            let mut m: String = "The value is: ".to_owned();
            m.append(s.as_str());
            m
        },
    }
}

/// Looks the `address` key up in a JSON payload and classifies what stands
/// there, as the generic money route requires.
pub fn lookup_address(payload: &serde_json::Value) -> (f: AddressField)
    ensures
        address_msg(f) == payload_msg(*payload),
        !json_is_object(*payload) ==> payload_msg(*payload) == not_found_msg(),
{
    match json_get(payload, "address") {
        None => AddressField::Missing,
        Some(v) => match json_as_str(v) {
            None => AddressField::NotText,
            Some(s) => AddressField::Text(s.to_owned()),
        },
    }
}

/// The generic money route: inspects the `address` key of the payload and
/// answers with the reply that `payload_msg` fixes for it — never an error,
/// and a pure function of the payload.
pub fn send_money_generic(payload: &serde_json::Value) -> (r: String)
    ensures
        r@ == payload_msg(*payload),
        !json_is_object(*payload) ==> r@ == not_found_msg(),
{
    let field = lookup_address(payload);
    address_reply(&field)
}

/// Law: the generic money reply depends only on what stands under the
/// payload's top-level `address` key; every other part of the payload is
/// irrelevant.
pub proof fn lemma_reply_depends_on_address_entry(a: serde_json::Value, b: serde_json::Value)
    requires
        json_field(a, "address"@) == json_field(b, "address"@),
    ensures
        payload_msg(a) == payload_msg(b),
{
}

} // verus!
