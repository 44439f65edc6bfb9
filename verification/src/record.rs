//! The property record and the key by which it is looked up.

use vstd::prelude::*;

verus! {

/// A JSON value of `serde_json`. A payload is carried through the library
/// untouched: nothing here reads what is inside one.
#[verifier::external_type_specification]
#[verifier::external_body]
pub struct ExValue(serde_json::Value);

/// `Clone::clone` of `serde_json::Value`, which that crate derives: the copy
/// is the same JSON value as the one copied, whatever its depth.
pub assume_specification[ <serde_json::Value as Clone>::clone ](
    value: &serde_json::Value,
) -> (copy: serde_json::Value)
    ensures
        copy == *value,
;

/// The name under which a stored document keeps its model identifier.
pub const MODEL_ID_FIELD: &'static str = "modelId";

/// The name under which a stored document keeps its property name.
pub const NAME_FIELD: &'static str = "name";

/// The name under which a stored document keeps its payload.
pub const DATA_FIELD: &'static str = "data";

/// The unit of storage: a property of a model, with its payload.
#[derive(Debug, PartialEq)]
pub struct Properties {
    pub model_id: String,
    pub name: String,
    pub data: serde_json::Value,
}

/// What a record is: its two identifiers as text, and its payload.
pub struct Record {
    pub model_id: Seq<char>,
    pub name: Seq<char>,
    pub data: serde_json::Value,
}

impl Record {
    /// The record is filed under exactly this model and this name.
    pub open spec fn has_key(self, model_id: Seq<char>, name: Seq<char>) -> bool {
        self.model_id == model_id && self.name == name
    }
}

impl View for Properties {
    type V = Record;

    open spec fn view(&self) -> Record {
        Record { model_id: self.model_id@, name: self.name@, data: self.data }
    }
}

impl Clone for Properties {
    /// A copy of the record: the same identifiers and the same payload.
    fn clone(&self) -> (copy: Properties)
        ensures
            copy@ == self@,
    {
        Properties {
            model_id: self.model_id.clone(),
            name: self.name.clone(),
            data: self.data.clone(),
        }
    }
}

/// The key of a point lookup: a model identifier and a property name, both
/// compared letter for letter.
#[derive(Debug, Clone, PartialEq)]
pub struct Filter {
    pub model_id: String,
    pub name: String,
}

impl Filter {
    /// The filter of a lookup by the two strings of a request's path.
    pub fn new(model_id: String, name: String) -> (filter: Filter)
        ensures
            filter.model_id@ == model_id@,
            filter.name@ == name@,
    {
        Filter { model_id, name }
    }

    /// The filter selects the record: both identifiers are equal to its own.
    pub open spec fn selects(&self, record: Record) -> bool {
        record.has_key(self.model_id@, self.name@)
    }

    /// Tells whether the filter selects `record`.
    pub fn matches(&self, record: &Properties) -> (hit: bool)
        ensures
            hit == self.selects(record@),
    {
        self.model_id == record.model_id && self.name == record.name
    }
}

/// What a lookup found, taken by its view.
pub open spec fn found_of(found: Option<Properties>) -> Option<Record> {
    match found {
        Some(record) => Some(record@),
        None => None,
    }
}

/// The views of a batch of records, in the batch's order.
pub open spec fn records_of(batch: Seq<Properties>) -> Seq<Record> {
    batch.map_values(|p: Properties| p@)
}

} // verus!
