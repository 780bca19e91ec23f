//! The tag store: a process-local concurrent mapping from tag name to
//! (current value, metadata), with atomic primitive operations.
//!
//! The mapping itself is a `dashmap::DashMap`; each primitive is specified
//! against the abstract contents of that map, named by `store_contents`.

use vstd::prelude::*;

use dashmap::DashMap;

use crate::outcomes::{CreateTagResult, DeleteTagError, ReadTagError};
use crate::tag::{Tag, TagMeta, TagRecord, TagRecordView, TagValue};
use crate::value::{DataType, Unit, Value};

verus! {

#[verifier::external_type_specification]
#[verifier::external_body]
#[verifier::reject_recursive_types(K)]
#[verifier::reject_recursive_types(V)]
#[verifier::reject_recursive_types(S)]
pub struct ExDashMap<K, V, S>(DashMap<K, V, S>);

/// What the map holds, keyed by tag name.
pub uninterp spec fn store_contents(m: DashMap<String, TagRecord>) -> Map<Seq<char>, TagRecordView>;

/// Relies on dashmap::DashMap::new: a freshly made map holds nothing.
#[verifier::external_body]
fn dash_new() -> (r: DashMap<String, TagRecord>)
    ensures
        store_contents(r).dom() == Set::<Seq<char>>::empty(),
{
    DashMap::new()
}

/// Relies on dashmap::DashMap::contains_key: whether the key is present.
#[verifier::external_body]
fn dash_contains(m: &DashMap<String, TagRecord>, name: &String) -> (r: bool)
    ensures
        r == store_contents(*m).dom().contains(name@),
{
    m.contains_key(name)
}

/// Relies on dashmap::DashMap::get: the entry under the key, if present.
#[verifier::external_body]
fn dash_get(m: &DashMap<String, TagRecord>, name: &String) -> (r: Option<TagRecord>)
    ensures
        match r {
            Some(rec) => store_contents(*m).dom().contains(name@)
                && rec@ == store_contents(*m)[name@],
            None => !store_contents(*m).dom().contains(name@),
        },
{
    m.get(name).map(|entry| entry.value().clone())
}

/// Relies on dashmap::DashMap::insert: binds the key to the value and
/// returns the value it replaced, if any.
#[verifier::external_body]
fn dash_insert(m: &mut DashMap<String, TagRecord>, name: String, record: TagRecord) -> (prev: Option<
    TagRecord,
>)
    ensures
        store_contents(*final(m)) == store_contents(*old(m)).insert(name@, record@),
        match prev {
            Some(p) => store_contents(*old(m)).dom().contains(name@)
                && p@ == store_contents(*old(m))[name@],
            None => !store_contents(*old(m)).dom().contains(name@),
        },
{
    m.insert(name, record)
}

/// Relies on dashmap::DashMap::remove: unbinds the key and returns what it
/// was bound to, if anything.
#[verifier::external_body]
fn dash_remove(m: &mut DashMap<String, TagRecord>, name: &String) -> (prev: Option<TagRecord>)
    ensures
        store_contents(*final(m)) == store_contents(*old(m)).remove(name@),
        match prev {
            Some(p) => store_contents(*old(m)).dom().contains(name@)
                && p@ == store_contents(*old(m))[name@],
            None => !store_contents(*old(m)).dom().contains(name@),
        },
{
    m.remove(name).map(|(_, record)| record)
}

/// Relies on dashmap::DashMap::iter: yields each present entry exactly
/// once, in no promised order.
#[verifier::external_body]
fn dash_entries(m: &DashMap<String, TagRecord>) -> (r: Vec<(String, TagRecord)>)
    ensures
        forall|i: int, j: int| 0 <= i < j < r@.len() ==> r@[i].0@ != r@[j].0@,
        forall|i: int|
            0 <= i < r@.len() ==> store_contents(*m).dom().contains(#[trigger] r@[i].0@)
                && r@[i].1@ == store_contents(*m)[r@[i].0@],
        forall|k: Seq<char>|
            #[trigger] store_contents(*m).dom().contains(k) ==> exists|i: int|
                0 <= i < r@.len() && #[trigger] r@[i].0@ == k,
{
    m.iter().map(|entry| (entry.key().clone(), entry.value().clone())).collect()
}

/// How a create call leaves the catalog: no effect if the name is taken,
/// else the name freshly bound.
pub open spec fn spec_create_state(
    m: Map<Seq<char>, TagRecordView>,
    name: Seq<char>,
    unit: Unit,
    data_type: DataType,
) -> Map<Seq<char>, TagRecordView> {
    if m.dom().contains(name) {
        m
    } else {
        m.insert(name, TagRecordView::fresh(unit, data_type))
    }
}

/// What a create call reports.
pub open spec fn spec_create_result(
    m: Map<Seq<char>, TagRecordView>,
    name: Seq<char>,
) -> CreateTagResult {
    if m.dom().contains(name) {
        CreateTagResult::AlreadyExists
    } else {
        CreateTagResult::SuccessfullyCreated
    }
}

/// Whether `tags` is an enumeration of the catalog `m`: one internally
/// consistent snapshot per stored name, each name once, in some order.
pub open spec fn tags_snapshot(m: Map<Seq<char>, TagRecordView>, tags: Seq<Tag>) -> bool {
    &&& forall|i: int, j: int| 0 <= i < j < tags.len() ==> tags[i]@.name != tags[j]@.name
    &&& forall|i: int|
        0 <= i < tags.len() ==> m.dom().contains(#[trigger] tags[i]@.name) && tags[i]@.value
            == m[tags[i]@.name].value && tags[i]@.meta == m[tags[i]@.name].meta
    &&& forall|k: Seq<char>|
        #[trigger] m.dom().contains(k) ==> exists|i: int|
            0 <= i < tags.len() && #[trigger] tags[i]@.name == k
}

/// The concurrent name -> (value, meta) catalog. At most one record per
/// name; its abstract contents are `self@`.
pub struct TagStore {
    map: DashMap<String, TagRecord>,
}

impl View for TagStore {
    type V = Map<Seq<char>, TagRecordView>;

    closed spec fn view(&self) -> Map<Seq<char>, TagRecordView> {
        store_contents(self.map)
    }
}

impl TagStore {
    /// An empty catalog.
    pub fn new() -> (r: Self)
        ensures
            r@ == Map::<Seq<char>, TagRecordView>::empty(),
    {
        TagStore { map: dash_new() }
    }

    /// Whether a tag of that name exists.
    pub fn is_tag_exists(&self, name: &String) -> (r: bool)
        ensures
            r == self@.dom().contains(name@),
    {
        dash_contains(&self.map, name)
    }

    /// Atomic check-and-insert. A new tag starts at the zero of its declared
    /// type with no timestamp; an existing tag is left untouched.
    pub fn create_tag(&mut self, name: String, unit: Unit, data_type: DataType) -> (r:
        CreateTagResult)
        ensures
            r == spec_create_result(old(self)@, name@),
            final(self)@ == spec_create_state(old(self)@, name@, unit, data_type),
    {
        if dash_contains(&self.map, &name) {
            CreateTagResult::AlreadyExists
        } else {
            let record = TagRecord {
                value: TagValue {
                    value: Value::default_with_data_type(data_type),
                    timestamp: None,
                },
                meta: TagMeta { unit, data_type },
            };
            let _prev = dash_insert(&mut self.map, name, record);
            CreateTagResult::SuccessfullyCreated
        }
    }

    /// A snapshot of one tag: its current value and metadata together.
    pub fn get_tag(&self, name: &String) -> (r: Result<Tag, ReadTagError>)
        ensures
            match r {
                Ok(t) => self@.dom().contains(name@) && t@.name == name@ && t@.value
                    == self@[name@].value && t@.meta == self@[name@].meta,
                Err(e) => !self@.dom().contains(name@) && e == ReadTagError::TagNameNotFound,
            },
    {
        match dash_get(&self.map, name) {
            Some(record) => Ok(Tag { name: name.clone(), value: record.value, meta: record.meta }),
            None => Err(ReadTagError::TagNameNotFound),
        }
    }

    /// A snapshot of the whole catalog: one internally consistent `Tag` per
    /// stored name, in no promised order.
    pub fn get_all_tags(&self) -> (r: Vec<Tag>)
        ensures
            tags_snapshot(self@, r@),
            crate::laws::catalog_conforms(self@) ==> forall|i: int|
                0 <= i < r@.len() ==> (#[trigger] r@[i]@).value.value.data_type()
                    == r@[i]@.meta.data_type,
    {
        let entries = dash_entries(&self.map);
        let mut tags: Vec<Tag> = Vec::new();
        let mut idx: usize = 0;
        while idx < entries.len()
            invariant
                idx <= entries@.len(),
                tags@.len() == idx,
                forall|j: int|
                    0 <= j < idx ==> (#[trigger] tags@[j]@).name == entries@[j].0@
                        && tags@[j]@.value == entries@[j].1@.value
                        && tags@[j]@.meta == entries@[j].1@.meta,
                forall|i: int, j: int| 0 <= i < j < entries@.len() ==> entries@[i].0@ != entries@[j].0@,
                forall|i: int|
                    0 <= i < entries@.len() ==> self@.dom().contains(#[trigger] entries@[i].0@)
                        && entries@[i].1@ == self@[entries@[i].0@],
                forall|k: Seq<char>|
                    #[trigger] self@.dom().contains(k) ==> exists|i: int|
                        0 <= i < entries@.len() && #[trigger] entries@[i].0@ == k,
            decreases entries@.len() - idx,
        {
            let entry = &entries[idx];
            tags.push(Tag {
                name: entry.0.clone(),
                value: entry.1.value.clone(),
                meta: entry.1.meta,
            });
            idx = idx + 1;
        }
        proof {
            assert forall|k: Seq<char>| #[trigger] self@.dom().contains(k) implies exists|i: int|
                0 <= i < tags@.len() && #[trigger] tags@[i]@.name == k by {
                let i = choose|i: int|
                    0 <= i < entries@.len() && #[trigger] entries@[i].0@ == k;
                assert(tags@[i]@.name == k);
            }
        }
        tags
    }

    /// Atomic swap of the current value of an existing tag, returning the
    /// prior value. Metadata untouched; no effect if the tag is absent.
    pub fn replace_value(&mut self, name: &String, value: TagValue) -> (r: Option<TagValue>)
        ensures
            old(self)@.dom().contains(name@) ==> {
                &&& final(self)@ == old(self)@.insert(
                    name@,
                    TagRecordView { value: value@, meta: old(self)@[name@].meta },
                )
                &&& r matches Some(prior) && prior@ == old(self)@[name@].value
            },
            !old(self)@.dom().contains(name@) ==> final(self)@ == old(self)@ && r is None,
    {
        match dash_get(&self.map, name) {
            Some(record) => {
                let _prev = dash_insert(
                    &mut self.map,
                    name.clone(),
                    TagRecord { value, meta: record.meta },
                );
                Some(record.value)
            },
            None => None,
        }
    }

    /// Atomic removal of a tag, value and metadata together.
    pub fn delete_tag(&mut self, name: &String) -> (r: Result<(), DeleteTagError>)
        ensures
            final(self)@ == old(self)@.remove(name@),
            r == (if old(self)@.dom().contains(name@) {
                Ok::<(), DeleteTagError>(())
            } else {
                Err::<(), DeleteTagError>(DeleteTagError::TagNameNotFound)
            }),
    {
        match dash_remove(&mut self.map, name) {
            Some(_) => Ok(()),
            None => Err(DeleteTagError::TagNameNotFound),
        }
    }

    /// The declared type of a tag, if it exists.
    pub fn get_tag_data_type(&self, name: &String) -> (r: Option<DataType>)
        ensures
            match r {
                Some(dt) => self@.dom().contains(name@) && dt == self@[name@].meta.data_type,
                None => !self@.dom().contains(name@),
            },
    {
        match dash_get(&self.map, name) {
            Some(record) => Some(record.meta.data_type),
            None => None,
        }
    }

    /// The current value of a tag, if it exists.
    pub fn get_tag_value(&self, name: &String) -> (r: Option<TagValue>)
        ensures
            match r {
                Some(v) => self@.dom().contains(name@) && v@ == self@[name@].value,
                None => !self@.dom().contains(name@),
            },
    {
        match dash_get(&self.map, name) {
            Some(record) => Some(record.value),
            None => None,
        }
    }
}

} // verus!
