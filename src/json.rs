use vstd::prelude::*;

verus! {

broadcast use vstd::std_specs::vec::axiom_vec_index_decreases;

/// A structured document: the tree that the text encoding denotes.
///
/// Numbers are split in two: a whole number that fits in 64 signed bits is an
/// `Int`; any other number is a `Float`, held by the IEEE-754 bit pattern of its
/// double-precision value. An object keeps its members in order.
#[derive(Debug, PartialEq)]
pub enum Json {
    Null,
    Bool(bool),
    Int(i64),
    Float(u64),
    Str(String),
    Array(Vec<Json>),
    Object(Vec<(String, Json)>),
}

/// The mathematical value of a [`Json`] document.
pub ghost enum JsonModel {
    Null,
    Bool(bool),
    Int(i64),
    Float(u64),
    Str(Seq<char>),
    Array(Seq<JsonModel>),
    Object(Seq<(Seq<char>, JsonModel)>),
}

/// The mathematical value of a document.
pub open spec fn model(j: Json) -> JsonModel
    decreases j,
{
    match j {
        Json::Null => JsonModel::Null,
        Json::Bool(b) => JsonModel::Bool(b),
        Json::Int(n) => JsonModel::Int(n),
        Json::Float(bits) => JsonModel::Float(bits),
        Json::Str(s) => JsonModel::Str(s@),
        Json::Array(items) => JsonModel::Array(elements(items@)),
        Json::Object(ms) => JsonModel::Object(members(ms@)),
    }
}

/// The elements of an array, as they stand in its model.
pub open spec fn elements(items: Seq<Json>) -> Seq<JsonModel>
    decreases items,
{
    if items.len() == 0 {
        seq![]
    } else {
        elements(items.drop_last()).push(model(items.last()))
    }
}

/// The members of an object, as they stand in its model.
pub open spec fn members(ms: Seq<(String, Json)>) -> Seq<(Seq<char>, JsonModel)>
    decreases ms,
{
    if ms.len() == 0 {
        seq![]
    } else {
        members(ms.drop_last()).push((ms.last().0@, model(ms.last().1)))
    }
}

impl View for Json {
    type V = JsonModel;

    open spec fn view(&self) -> JsonModel {
        model(*self)
    }
}

/// The model of an array holds the model of each element.
pub proof fn lemma_elements(items: Seq<Json>)
    ensures
        elements(items).len() == items.len(),
        forall|k: int| 0 <= k < items.len() ==> #[trigger] elements(items)[k] == items[k]@,
    decreases items.len(),
{
    if items.len() > 0 {
        lemma_elements(items.drop_last());
    }
}

/// The model of an object holds the model of each member.
pub proof fn lemma_members(ms: Seq<(String, Json)>)
    ensures
        members(ms).len() == ms.len(),
        forall|k: int| 0 <= k < ms.len() ==> #[trigger] members(ms)[k] == (ms[k].0@, ms[k].1@),
    decreases ms.len(),
{
    if ms.len() > 0 {
        lemma_members(ms.drop_last());
    }
}

/// Whether `s` reads `w`.
pub fn is_text(s: &String, w: &str) -> (r: bool)
    ensures
        r == (s@ == w@),
{
    let t = w.to_owned();
    s.eq(&t)
}

} // verus!
