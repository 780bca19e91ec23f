//! Command and query objects over the catalog: each captures one request's
//! payload and runs it against a repository.

use vstd::prelude::*;

use crate::outcomes::{
    CreateTagResult, DeleteTagError, DeleteTagResult, ReadTagError, UpdateValueError,
    UpdateValueResult,
};
use crate::store::{spec_create_result, spec_create_state, tags_snapshot, TagStore};
use crate::tag::{Tag, TagRecordView, TagValue};
use crate::update::{spec_update_result, spec_update_state};
use crate::value::{DataType, Unit};

verus! {

/// The capability set that creating a tag needs from a repository.
pub trait CreateTagRepository {
    /// The abstract catalog this repository holds.
    spec fn catalog(&self) -> Map<Seq<char>, TagRecordView>;

    /// Whether a tag of that name exists.
    fn tag_exists(&self, name: &String) -> (r: bool)
        ensures
            r == self.catalog().dom().contains(name@),
    ;

    /// Atomic check-and-insert of a fresh tag.
    fn insert_tag(&mut self, name: String, unit: Unit, data_type: DataType) -> (r: CreateTagResult)
        ensures
            r == spec_create_result(old(self).catalog(), name@),
            final(self).catalog() == spec_create_state(
                old(self).catalog(),
                name@,
                unit,
                data_type,
            ),
    ;
}

impl CreateTagRepository for TagStore {
    closed spec fn catalog(&self) -> Map<Seq<char>, TagRecordView> {
        self@
    }

    fn tag_exists(&self, name: &String) -> (r: bool) {
        self.is_tag_exists(name)
    }

    fn insert_tag(&mut self, name: String, unit: Unit, data_type: DataType) -> (r:
        CreateTagResult) {
        self.create_tag(name, unit, data_type)
    }
}

/// The create-tag command: declare a new name with its unit and type.
pub struct CreateTag {
    pub name: String,
    pub unit: Unit,
    pub data_type: DataType,
}

/// The create-tag command under its longer name.
pub type CreateTagCommand = CreateTag;

impl CreateTag {
    pub fn new(name: String, unit: Unit, data_type: DataType) -> (r: Self)
        ensures
            r.name@ == name@ && r.unit == unit && r.data_type == data_type,
    {
        CreateTag { name, unit, data_type }
    }

    pub fn execute<R: CreateTagRepository>(self, repo: &mut R) -> (r: CreateTagResult)
        ensures
            r == spec_create_result(old(repo).catalog(), self.name@),
            final(repo).catalog() == spec_create_state(
                old(repo).catalog(),
                self.name@,
                self.unit,
                self.data_type,
            ),
    {
        if repo.tag_exists(&self.name) {
            CreateTagResult::AlreadyExists
        } else {
            repo.insert_tag(self.name, self.unit, self.data_type)
        }
    }
}

/// The update-value command: submit a timestamped value for validation.
pub struct UpdateValue {
    pub name: String,
    pub value: TagValue,
}

/// The update-value command under its longer name.
pub type UpdateValueCommand = UpdateValue;

impl UpdateValue {
    pub fn new(name: String, value: TagValue) -> (r: Self)
        ensures
            r.name@ == name@ && r.value@ == value@,
    {
        UpdateValue { name, value }
    }

    pub fn execute(self, repo: &mut TagStore) -> (r: Result<UpdateValueResult, UpdateValueError>)
        ensures
            r == spec_update_result(old(repo)@, self.name@, self.value@),
            final(repo)@ == spec_update_state(old(repo)@, self.name@, self.value@),
    {
        repo.update_tag_value(&self.name, self.value)
    }
}

/// The delete-tag command.
pub struct DeleteTagCommand {
    pub name: String,
}

impl DeleteTagCommand {
    pub fn new(name: String) -> (r: Self)
        ensures
            r.name@ == name@,
    {
        DeleteTagCommand { name }
    }

    pub fn execute(self, repo: &mut TagStore) -> (r: Result<DeleteTagResult, DeleteTagError>)
        ensures
            final(repo)@ == old(repo)@.remove(self.name@),
            r == (if old(repo)@.dom().contains(self.name@) {
                Ok::<DeleteTagResult, DeleteTagError>(DeleteTagResult::Deleted)
            } else {
                Err::<DeleteTagResult, DeleteTagError>(DeleteTagError::TagNameNotFound)
            }),
    {
        match repo.delete_tag(&self.name) {
            Ok(_) => Ok(DeleteTagResult::Deleted),
            Err(e) => Err(e),
        }
    }
}

/// The read-tag query: one tag's snapshot.
pub struct ReadTag {
    pub tag_name: String,
}

/// The read-tag query under its longer name.
pub type ReadTagQuery = ReadTag;

impl ReadTag {
    pub fn new(tag_name: String) -> (r: Self)
        ensures
            r.tag_name@ == tag_name@,
    {
        ReadTag { tag_name }
    }

    pub fn execute(&self, repo: &TagStore) -> (r: Result<Tag, ReadTagError>)
        ensures
            match r {
                Ok(t) => repo@.dom().contains(self.tag_name@) && t@.name == self.tag_name@
                    && t@.value == repo@[self.tag_name@].value && t@.meta
                    == repo@[self.tag_name@].meta,
                Err(e) => !repo@.dom().contains(self.tag_name@) && e
                    == ReadTagError::TagNameNotFound,
            },
    {
        repo.get_tag(&self.tag_name)
    }
}

/// The list-tags query: the whole catalog as a snapshot.
pub struct ListTagsQuery {}

impl ListTagsQuery {
    pub fn new() -> (r: Self) {
        ListTagsQuery {}
    }

    pub fn execute(&self, repo: &TagStore) -> (r: ListTagsResult)
        ensures
            tags_snapshot(repo@, r.tags@),
    {
        ListTagsResult { tags: repo.get_all_tags() }
    }
}

/// What the list-tags query yields.
#[derive(Debug)]
pub struct ListTagsResult {
    pub tags: Vec<Tag>,
}

} // verus!
