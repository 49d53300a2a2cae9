//! The JSON values that spans and transactions carry.
use vstd::prelude::*;

use serde_json::Value;
use std::collections::BTreeMap;

verus! {

/// `serde_json`'s value: carried from caller to event, never looked into.
#[verifier::external_type_specification]
#[verifier::external_body]
pub struct ExValue(serde_json::Value);

/// `clone` of `serde_json`'s `Value` returns an equal value.
pub assume_specification[ <serde_json::Value as Clone>::clone ](value: &serde_json::Value) -> (copy:
    serde_json::Value)
    ensures
        copy == *value,
;

/// `serde_json`'s map from text to values.
#[verifier::external_type_specification]
#[verifier::external_body]
#[verifier::reject_recursive_types(K)]
#[verifier::reject_recursive_types(V)]
pub struct ExMap<K, V>(serde_json::Map<K, V>);

/// Arbitrary data passed by the caller, when starting a transaction.
///
/// May be inspected by the user in the `traces_sampler` callback, if set.
///
/// Represents arbitrary JSON data, the top level of which must be a map.
pub type CustomTransactionContext = serde_json::Map<String, serde_json::Value>;

/// The entries of a [`CustomTransactionContext`].
pub uninterp spec fn custom_entries(custom: serde_json::Map<String, serde_json::Value>) -> Map<
    Seq<char>,
    serde_json::Value,
>;

/// `clone` of `serde_json`'s map returns a map with equal entries.
pub assume_specification[ <serde_json::Map<String, serde_json::Value> as Clone>::clone ](
    custom: &serde_json::Map<String, serde_json::Value>,
) -> (copy: serde_json::Map<String, serde_json::Value>)
    ensures
        custom_entries(copy) == custom_entries(*custom),
;

/// The value `Value::String` of a text.
pub uninterp spec fn string_value(content: Seq<char>) -> serde_json::Value;

/// The value that a JSON document stands for; `None` where the text is no JSON document.
pub uninterp spec fn parsed_value(document: Seq<char>) -> Option<serde_json::Value>;

/// The value `Value::Object` with an entry `Value::String` for each entry of a map of texts.
pub uninterp spec fn object_value(entries: Map<String, String>) -> serde_json::Value;

/// Calls `default` of `serde_json`'s `Map`, which returns a map without entries.
#[verifier::external_body]
pub(crate) fn new_custom() -> (custom: CustomTransactionContext)
    ensures
        custom_entries(custom).is_empty(),
{
    CustomTransactionContext::default()
}

/// Calls `serde_json`'s `Map::insert`: it sets the value of the key, leaves the other entries
/// alone, and returns the value that the key had, or `None` where it had none.
#[verifier::external_body]
pub(crate) fn insert_custom(
    custom: &mut CustomTransactionContext,
    key: String,
    value: Value,
) -> (previous: Option<Value>)
    ensures
        custom_entries(*final(custom)) == custom_entries(*old(custom)).insert(key@, value),
        previous == custom_entries(*old(custom)).get(key@),
{
    custom.insert(key, value)
}

/// Calls `From<String>` of `serde_json`'s `Value`, which wraps the text in `Value::String`: the
/// result depends on the text alone.
#[verifier::external_body]
pub(crate) fn value_of_string(content: String) -> (value: Value)
    ensures
        value == string_value(content@),
{
    Value::from(content)
}

/// Calls `serde_json::from_str`, which parses a JSON document: whether it succeeds, and with which
/// value, depends on the text alone.
#[verifier::external_body]
pub(crate) fn value_of_document(document: &str) -> (value: Option<Value>)
    ensures
        value == parsed_value(document@),
{
    serde_json::from_str::<Value>(document).ok()
}

/// Calls `serde_json::to_value` on a map of texts. It can only fail on keys that are no text and
/// on values that refuse to be serialized, so here it succeeds, with an object that depends on the
/// map alone.
#[verifier::external_body]
pub(crate) fn value_of_entries(entries: BTreeMap<String, String>) -> (value: Option<Value>)
    ensures
        value == Some(object_value(entries@)),
{
    serde_json::to_value(entries).ok()
}

} // verus!
