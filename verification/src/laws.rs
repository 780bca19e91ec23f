//! Catalog-wide laws, stated over the abstract catalog and proved from the
//! operations' specifications.

use vstd::prelude::*;

use crate::outcomes::{CreateTagResult, UpdateValueError, UpdateValueResult};
use crate::store::{spec_create_result, spec_create_state};
use crate::tag::{TagMeta, TagRecordView, TagValueView, Timestamp};
use crate::update::{spec_update_result, spec_update_state};
use crate::value::{DataType, Unit};

verus! {

/// Every record of the catalog conforms to its declared type.
pub open spec fn catalog_conforms(m: Map<Seq<char>, TagRecordView>) -> bool {
    forall|k: Seq<char>| m.dom().contains(k) ==> (#[trigger] m[k]).conforms()
}

/// The catalog after a chain of validated updates to one tag, applied in
/// order.
pub open spec fn apply_writes(
    m: Map<Seq<char>, TagRecordView>,
    name: Seq<char>,
    writes: Seq<TagValueView>,
) -> Map<Seq<char>, TagRecordView>
    decreases writes.len(),
{
    if writes.len() == 0 {
        m
    } else {
        spec_update_state(apply_writes(m, name, writes.drop_last()), name, writes.last())
    }
}

/// Whether every write of the chain is accepted when applied in order.
pub open spec fn all_accepted(
    m: Map<Seq<char>, TagRecordView>,
    name: Seq<char>,
    writes: Seq<TagValueView>,
) -> bool
    decreases writes.len(),
{
    if writes.len() == 0 {
        true
    } else {
        all_accepted(m, name, writes.drop_last()) && spec_update_result(
            apply_writes(m, name, writes.drop_last()),
            name,
            writes.last(),
        ) is Ok
    }
}

/// After a chain of accepted writes, the tag is still present, its metadata
/// is untouched, and it holds the last write verbatim.
pub proof fn lemma_accepted_writes_settle(
    m: Map<Seq<char>, TagRecordView>,
    name: Seq<char>,
    writes: Seq<TagValueView>,
)
    requires
        m.dom().contains(name),
        all_accepted(m, name, writes),
    ensures
        apply_writes(m, name, writes).dom().contains(name),
        apply_writes(m, name, writes)[name].meta == m[name].meta,
        writes.len() > 0 ==> apply_writes(m, name, writes)[name].value == writes.last(),
    decreases writes.len(),
{
    if writes.len() > 0 {
        lemma_accepted_writes_settle(m, name, writes.drop_last());
    }
}

/// Law of type monomorphism: an update whose value carries the declared
/// type is the only kind that can be accepted, and on acceptance the stored
/// value carries that type; a mismatched update is rejected with
/// `InvalidDataType` naming both types, and leaves the catalog unchanged.
pub proof fn lemma_type_monomorphism(
    m: Map<Seq<char>, TagRecordView>,
    name: Seq<char>,
    incoming: TagValueView,
)
    requires
        m.dom().contains(name),
    ensures
        spec_update_result(m, name, incoming) is Ok ==> incoming.value.data_type()
            == m[name].meta.data_type && spec_update_state(
            m,
            name,
            incoming,
        )[name].value.value.data_type() == m[name].meta.data_type,
        incoming.value.data_type() != m[name].meta.data_type ==> spec_update_result(
            m,
            name,
            incoming,
        ) == Err::<UpdateValueResult, UpdateValueError>(
            UpdateValueError::InvalidDataType {
                expected: m[name].meta.data_type,
                actual: incoming.value.data_type(),
            },
        ) && spec_update_state(m, name, incoming) == m,
{
}

/// Law of monotonicity: after a non-empty chain of accepted timestamped
/// writes ending at instant `last`, an attempt of the declared type whose
/// instant does not strictly advance is rejected with
/// `TimestampOutOfOrder{previous: last}`, and the catalog still holds
/// `last`.
pub proof fn lemma_monotonicity(
    m: Map<Seq<char>, TagRecordView>,
    name: Seq<char>,
    writes: Seq<TagValueView>,
    attempt: TagValueView,
    last: Timestamp,
    stale: Timestamp,
)
    requires
        m.dom().contains(name),
        writes.len() > 0,
        all_accepted(m, name, writes),
        writes.last().timestamp == Some(last),
        attempt.value.data_type() == m[name].meta.data_type,
        attempt.timestamp == Some(stale),
        stale.millis <= last.millis,
    ensures
        spec_update_result(apply_writes(m, name, writes), name, attempt) == Err::<
            UpdateValueResult,
            UpdateValueError,
        >(UpdateValueError::TimestampOutOfOrder { previous: last }),
        spec_update_state(apply_writes(m, name, writes), name, attempt) == apply_writes(
            m,
            name,
            writes,
        ),
        apply_writes(m, name, writes)[name].value.timestamp == Some(last),
{
    lemma_accepted_writes_settle(m, name, writes);
}

/// Law of idempotency: when an accepted write is followed by one carrying
/// the identical value and a strictly later instant, the second is accepted
/// as `Ignored`, and the catalog then holds that value with the later
/// instant.
pub proof fn lemma_idempotency(
    m: Map<Seq<char>, TagRecordView>,
    name: Seq<char>,
    first: TagValueView,
    second: TagValueView,
    t1: Timestamp,
    t2: Timestamp,
)
    requires
        spec_update_result(m, name, first) is Ok,
        second.value == first.value,
        first.timestamp == Some(t1),
        second.timestamp == Some(t2),
        t1.millis < t2.millis,
    ensures
        spec_update_result(spec_update_state(m, name, first), name, second) == Ok::<
            UpdateValueResult,
            UpdateValueError,
        >(UpdateValueResult::Ignored),
        spec_update_state(spec_update_state(m, name, first), name, second)[name].value == second,
{
}

/// Law of create uniqueness: of two creations of one absent name, the first
/// reports `SuccessfullyCreated`, the second `AlreadyExists`, and the
/// first's unit and declared type persist.
pub proof fn lemma_create_uniqueness(
    m: Map<Seq<char>, TagRecordView>,
    name: Seq<char>,
    unit1: Unit,
    data_type1: DataType,
    unit2: Unit,
    data_type2: DataType,
)
    requires
        !m.dom().contains(name),
    ensures
        spec_create_result(m, name) == CreateTagResult::SuccessfullyCreated,
        spec_create_result(spec_create_state(m, name, unit1, data_type1), name)
            == CreateTagResult::AlreadyExists,
        spec_create_state(spec_create_state(m, name, unit1, data_type1), name, unit2, data_type2)
            == spec_create_state(m, name, unit1, data_type1),
        spec_create_state(m, name, unit1, data_type1)[name].meta == (TagMeta {
            unit: unit1,
            data_type: data_type1,
        }),
{
}

/// Law of the delete round-trip: once a name is removed, a read misses, and
/// a creation under the same name succeeds and starts the tag afresh.
pub proof fn lemma_delete_round_trip(
    m: Map<Seq<char>, TagRecordView>,
    name: Seq<char>,
    unit: Unit,
    data_type: DataType,
)
    ensures
        !m.remove(name).dom().contains(name),
        spec_create_result(m.remove(name), name) == CreateTagResult::SuccessfullyCreated,
        spec_create_state(m.remove(name), name, unit, data_type)[name] == TagRecordView::fresh(
            unit,
            data_type,
        ),
{
}

/// Law of catalog consistency, base: the empty catalog conforms, so with
/// the three steps below every catalog reached through create, validated
/// update and delete conforms, and every tag a listing returns carries its
/// declared type.
pub proof fn lemma_empty_catalog_conforms()
    ensures
        catalog_conforms(Map::<Seq<char>, TagRecordView>::empty()),
{
}

/// Law of catalog consistency, creation step: creating a tag keeps every
/// record conformant, since a fresh record starts at the zero of its
/// declared type.
pub proof fn lemma_create_preserves_conformance(
    m: Map<Seq<char>, TagRecordView>,
    name: Seq<char>,
    unit: Unit,
    data_type: DataType,
)
    requires
        catalog_conforms(m),
    ensures
        catalog_conforms(spec_create_state(m, name, unit, data_type)),
{
    let m2 = spec_create_state(m, name, unit, data_type);
    assert forall|k: Seq<char>| m2.dom().contains(k) implies (#[trigger] m2[k]).conforms() by {
        if k != name {
            assert(m.dom().contains(k));
        }
    }
}

/// Law of catalog consistency, update step: a validated update keeps every
/// record conformant, since acceptance demands the declared type.
pub proof fn lemma_update_preserves_conformance(
    m: Map<Seq<char>, TagRecordView>,
    name: Seq<char>,
    incoming: TagValueView,
)
    requires
        catalog_conforms(m),
    ensures
        catalog_conforms(spec_update_state(m, name, incoming)),
{
    let m2 = spec_update_state(m, name, incoming);
    assert forall|k: Seq<char>| m2.dom().contains(k) implies (#[trigger] m2[k]).conforms() by {
        if k != name {
            assert(m.dom().contains(k));
        }
    }
}

/// Law of catalog consistency, delete step: removing a tag keeps every
/// remaining record conformant.
pub proof fn lemma_delete_preserves_conformance(m: Map<Seq<char>, TagRecordView>, name: Seq<char>)
    requires
        catalog_conforms(m),
    ensures
        catalog_conforms(m.remove(name)),
{
    let m2 = m.remove(name);
    assert forall|k: Seq<char>| m2.dom().contains(k) implies (#[trigger] m2[k]).conforms() by {
        assert(m.dom().contains(k));
    }
}

} // verus!
