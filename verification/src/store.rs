//! The collection of property records: what a batch insert does to it and
//! what a point lookup may report of it, and a collection held in memory
//! that keeps to both.
//!
//! Nothing makes a record's model and name unique. A batch is added as it
//! is, and a lookup reports one record of those that match.

use vstd::prelude::*;
use crate::record::found_of;
use crate::record::records_of;
use crate::record::Filter;
use crate::record::Properties;
use crate::record::Record;
use crate::response::found_reply;
use crate::response::inserted_reply;
use crate::response::insert_response;
use crate::response::lookup_response;
use crate::response::not_found_reply;
use crate::response::Response;

verus! {

/// The collection after a batch was inserted: what it held, then the
/// batch, every record of it, in the batch's order.
pub open spec fn inserted(before: Seq<Record>, batch: Seq<Record>) -> Seq<Record> {
    before + batch
}

/// Some record of the collection is filed under this model and name.
pub open spec fn holds(records: Seq<Record>, model_id: Seq<char>, name: Seq<char>) -> bool {
    exists|i: int| 0 <= i < records.len() && (#[trigger] records[i]).has_key(model_id, name)
}

/// What a lookup may report of a collection: a record of it that is filed
/// under the model and name, whichever of them, or nothing where there is
/// none.
pub open spec fn admits(
    records: Seq<Record>,
    model_id: Seq<char>,
    name: Seq<char>,
    found: Option<Record>,
) -> bool {
    match found {
        Some(record) => record.has_key(model_id, name) && records.contains(record),
        None => !holds(records, model_id, name),
    }
}

/// The record at `i` is the first of the collection that is filed under
/// the model and name.
pub open spec fn is_first_match(
    records: Seq<Record>,
    model_id: Seq<char>,
    name: Seq<char>,
    i: int,
) -> bool {
    &&& 0 <= i < records.len()
    &&& records[i].has_key(model_id, name)
    &&& forall|j: int| 0 <= j < i ==> !(#[trigger] records[j]).has_key(model_id, name)
}

/// A collection of property records held in memory, in the order in which
/// they were inserted.
pub struct MemoryCollection {
    records: Vec<Properties>,
}

impl View for MemoryCollection {
    type V = Seq<Record>;

    closed spec fn view(&self) -> Seq<Record> {
        records_of(self.records@)
    }
}

impl MemoryCollection {
    /// A collection that holds nothing.
    pub fn new() -> (collection: MemoryCollection)
        ensures
            collection@ == Seq::<Record>::empty(),
    {
        let collection = MemoryCollection { records: Vec::new() };
        assert(collection@ =~= Seq::<Record>::empty());
        collection
    }

    /// The number of records held.
    pub fn len(&self) -> (n: usize)
        ensures
            n == self@.len(),
    {
        self.records.len()
    }

    /// Adds a batch: every record of it, after those already held, in the
    /// batch's order. A record whose model and name are already held is
    /// added like any other.
    pub fn insert_many(&mut self, batch: Vec<Properties>)
        ensures
            final(self)@ == inserted(old(self)@, records_of(batch@)),
    {
        let mut batch = batch;
        let ghost added = batch@;
        self.records.append(&mut batch);
        assert(records_of(old(self).records@ + added) =~= records_of(old(self).records@)
            + records_of(added));
    }

    /// Looks up the first record that the filter selects, and hands out a
    /// copy of it; nothing where the filter selects none.
    pub fn find_one(&self, filter: &Filter) -> (found: Option<Properties>)
        ensures
            admits(self@, filter.model_id@, filter.name@, found_of(found)),
            found.is_some() ==> exists|i: int|
                is_first_match(self@, filter.model_id@, filter.name@, i) && self@[i]
                    == found.unwrap()@,
    {
        let mut i: usize = 0;
        while i < self.records.len()
            invariant
                i <= self.records.len(),
                forall|j: int|
                    0 <= j < i ==> !(#[trigger] self@[j]).has_key(filter.model_id@, filter.name@),
            decreases self.records.len() - i,
        {
            if filter.matches(&self.records[i]) {
                let copy = self.records[i].clone();
                assert(is_first_match(self@, filter.model_id@, filter.name@, i as int));
                return Some(copy);
            }
            i += 1;
        }
        None
    }

    /// Serves a batch insert: the whole batch is added, and the reply is
    /// the fixed confirmation, which names no record.
    pub fn insert_properties(&mut self, batch: Vec<Properties>) -> (response: Response)
        ensures
            final(self)@ == inserted(old(self)@, records_of(batch@)),
            response@ == inserted_reply(),
    {
        self.insert_many(batch);
        insert_response(Ok(()))
    }

    /// Serves a point lookup: the payload of the first record filed under
    /// the model and name, without its identifiers, or the not-found reply
    /// where there is none.
    pub fn get_properties(&self, model_id: String, name: String) -> (response: Response)
        ensures
            !holds(self@, model_id@, name@) ==> response@ == not_found_reply(),
            holds(self@, model_id@, name@) ==> exists|i: int|
                is_first_match(self@, model_id@, name@, i) && response@ == found_reply(
                    self@[i].data,
                ),
    {
        let filter = Filter::new(model_id, name);
        let found = self.find_one(&filter);
        lookup_response(Ok(found))
    }
}

} // verus!
