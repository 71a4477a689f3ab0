use vstd::prelude::*;

verus! {

/// Mathematical model of a JSON document. An object is a mapping from
/// member name to member: it has no order and no name twice.
pub enum JsonModel {
    Null,
    Bool(bool),
    /// A number, by its decimal text.
    Number(Seq<char>),
    Text(Seq<char>),
    List(Seq<JsonModel>),
    Object(Map<Seq<char>, JsonModel>),
}

/// `serde_json::Value`, carried as an opaque value.
#[verifier::external_type_specification]
#[verifier::external_body]
pub struct ExJsonValue(serde_json::Value);

/// The document that a `serde_json::Value` holds.
pub uninterp spec fn json_model(value: serde_json::Value) -> JsonModel;

/// The compact text that `serde_json` writes for a document. Objects are
/// kept in a map ordered by member name, so the text depends on the
/// document alone.
pub uninterp spec fn json_text(model: JsonModel) -> Seq<char>;

/// The models of a sequence of values, in order.
pub open spec fn json_models(values: Seq<serde_json::Value>) -> Seq<JsonModel> {
    values.map_values(|v: serde_json::Value| json_model(v))
}

/// `serde_json::Value::String`: a JSON string holding the characters of `text`.
#[verifier::external_body]
pub(crate) fn json_string(text: &str) -> (value: serde_json::Value)
    ensures
        json_model(value) == JsonModel::Text(text@),
{
    serde_json::Value::String(text.to_owned())
}

/// `serde_json::Value::Array`: a JSON array of `items`, in order.
#[verifier::external_body]
pub(crate) fn json_array(items: Vec<serde_json::Value>) -> (value: serde_json::Value)
    ensures
        json_model(value) == JsonModel::List(json_models(items@)),
{
    serde_json::Value::Array(items)
}

/// `serde_json::Value::Object` over `serde_json::Map::new`: a JSON object
/// without members.
#[verifier::external_body]
pub(crate) fn json_object() -> (value: serde_json::Value)
    ensures
        json_model(value) == JsonModel::Object(Map::empty()),
{
    serde_json::Value::Object(serde_json::Map::new())
}

/// Assignment through `serde_json::Value`'s `IndexMut<&str>`: on an object,
/// stores `member` under `key`, replacing any member already there.
#[verifier::external_body]
pub(crate) fn json_put(object: &mut serde_json::Value, key: &str, member: serde_json::Value)
    requires
        json_model(*old(object)) is Object,
    ensures
        json_model(*final(object)) == JsonModel::Object(
            json_model(*old(object))->Object_0.insert(key@, json_model(member)),
        ),
{
    object[key] = member;
}

/// `serde_json::Value`'s `to_string`: the compact text of the document,
/// without insignificant white space.
#[verifier::external_body]
pub(crate) fn json_render(value: &serde_json::Value) -> (text: String)
    ensures
        text@ == json_text(json_model(*value)),
{
    value.to_string()
}

} // verus!
