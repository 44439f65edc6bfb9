//! What holds of inserts and lookups together, for every collection that
//! keeps to the contract of the store: a batch is added whole, and a
//! lookup reports a record that matches, or nothing where none does.

use vstd::prelude::*;
use crate::record::Record;
use crate::response::found_reply;
use crate::response::insert_reply;
use crate::response::inserted_reply;
use crate::response::lookup_reply;
use crate::response::not_found_reply;
use crate::response::STATUS_NOT_FOUND;
use crate::response::STATUS_OK;
use crate::response::STATUS_SERVER_ERROR;
use crate::store::admits;
use crate::store::holds;
use crate::store::inserted;

verus! {

/// After a batch was inserted, a lookup of the model and name of one of its
/// records is answered with exactly that record's payload, provided every
/// record then filed under that model and name carries this payload.
pub proof fn lemma_round_trip(
    before: Seq<Record>,
    batch: Seq<Record>,
    i: int,
    found: Option<Record>,
)
    requires
        0 <= i < batch.len(),
        admits(inserted(before, batch), batch[i].model_id, batch[i].name, found),
        forall|j: int|
            0 <= j < inserted(before, batch).len() && (#[trigger] inserted(before, batch)[j]).has_key(
                batch[i].model_id,
                batch[i].name,
            ) ==> inserted(before, batch)[j].data == batch[i].data,
    ensures
        lookup_reply(Ok(found)) == found_reply(batch[i].data),
{
    let after = inserted(before, batch);
    let at = before.len() + i;
    assert(after[at].has_key(batch[i].model_id, batch[i].name));
    let record = found.unwrap();
    let j = after.index_of(record);
    assert(after[j].has_key(batch[i].model_id, batch[i].name));
}

/// A lookup of a model and name under which nothing was ever inserted is
/// answered with the not-found reply: an empty result is no failure.
pub proof fn lemma_never_inserted_not_found(
    records: Seq<Record>,
    model_id: Seq<char>,
    name: Seq<char>,
    found: Option<Record>,
)
    requires
        !holds(records, model_id, name),
        admits(records, model_id, name, found),
    ensures
        lookup_reply(Ok(found)) == not_found_reply(),
        lookup_reply(Ok(found)).status != STATUS_SERVER_ERROR,
{
    if found.is_some() {
        let record = found.unwrap();
        let j = records.index_of(record);
        assert(records[j].has_key(model_id, name));
    }
}

/// After a batch was inserted, in whatever order its records stood, a
/// lookup of the model and name of any one of them finds a record filed
/// under that model and name and is answered with its payload.
pub proof fn lemma_batch_independence(
    before: Seq<Record>,
    batch: Seq<Record>,
    reordered: Seq<Record>,
    i: int,
    found: Option<Record>,
)
    requires
        reordered.to_multiset() == batch.to_multiset(),
        0 <= i < batch.len(),
        admits(inserted(before, reordered), batch[i].model_id, batch[i].name, found),
    ensures
        found.is_some(),
        found.unwrap().has_key(batch[i].model_id, batch[i].name),
        inserted(before, reordered).contains(found.unwrap()),
        lookup_reply(Ok(found)) == found_reply(found.unwrap().data),
        lookup_reply(Ok(found)).status == STATUS_OK,
{
    broadcast use vstd::seq_lib::group_to_multiset_ensures;

    let after = inserted(before, reordered);
    assert(batch.contains(batch[i]));
    assert(reordered.to_multiset().count(batch[i]) > 0);
    let k = reordered.index_of(batch[i]);
    assert(after[before.len() + k].has_key(batch[i].model_id, batch[i].name));
}

/// Two records filed under one model and name are both taken, in one batch
/// or in two, and the insert is confirmed. Where nothing else was filed
/// under that model and name, a lookup is then answered with the payload of
/// one of the two: which of them is open.
pub proof fn lemma_same_key_tolerated(
    before: Seq<Record>,
    first: Record,
    second: Record,
    found: Option<Record>,
)
    requires
        second.has_key(first.model_id, first.name),
        !holds(before, first.model_id, first.name),
        admits(inserted(before, seq![first, second]), first.model_id, first.name, found),
    ensures
        inserted(inserted(before, seq![first]), seq![second]) == inserted(
            before,
            seq![first, second],
        ),
        insert_reply(Ok(())) == inserted_reply(),
        lookup_reply(Ok(found)) == found_reply(first.data) || lookup_reply(Ok(found))
            == found_reply(second.data),
{
    let after = inserted(before, seq![first, second]);
    assert(inserted(inserted(before, seq![first]), seq![second]) =~= after);
    assert(after[before.len() as int].has_key(first.model_id, first.name));
    let record = found.unwrap();
    let j = after.index_of(record);
    if j < before.len() {
        assert(before[j].has_key(first.model_id, first.name));
    }
}

/// The status of the reply to a lookup tells which of the three outcomes
/// it was: a record found, none found, or the database failed.
pub proof fn lemma_status_tells_outcome(outcome: Result<Option<Record>, Seq<char>>)
    ensures
        lookup_reply(outcome).status == STATUS_OK <==> outcome is Ok && outcome->Ok_0 is Some,
        lookup_reply(outcome).status == STATUS_NOT_FOUND <==> outcome is Ok && outcome->Ok_0
            is None,
        lookup_reply(outcome).status == STATUS_SERVER_ERROR <==> outcome is Err,
{
}

} // verus!
