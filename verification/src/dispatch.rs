//! The dispatch contract: the closed set of request kinds that reach the
//! catalog, and the routing of each to its operation and reply.
//!
//! A transport (a channel-fed consumer task, or direct calls under a lock)
//! carries a `Request` in and must deliver the returned `Reply` to that
//! request's sender exactly once.

use vstd::prelude::*;

use crate::outcomes::{
    CreateTagResult, DeleteTagError, ReadTagError, UpdateValueError, UpdateValueResult,
};
use crate::store::{spec_create_result, spec_create_state, tags_snapshot, TagStore};
use crate::tag::{Tag, TagValue};
use crate::update::{spec_update_result, spec_update_state};
use crate::value::{DataType, Unit};

verus! {

/// One request to the catalog, with its payload.
pub enum Request {
    CreateTag { name: String, unit: Unit, data_type: DataType },
    UpdateTagValue { name: String, value: TagValue },
    DeleteTag { name: String },
    TagExists { name: String },
    GetTag { name: String },
    GetAllTags,
    GetTagDataType { name: String },
    GetTagValue { name: String },
}

/// The reply owed to the sender of each kind of request.
pub enum Reply {
    CreateTag(CreateTagResult),
    UpdateTagValue(Result<UpdateValueResult, UpdateValueError>),
    DeleteTag(Result<(), DeleteTagError>),
    TagExists(bool),
    GetTag(Result<Tag, ReadTagError>),
    GetAllTags(Vec<Tag>),
    GetTagDataType(Option<DataType>),
    GetTagValue(Option<TagValue>),
}

impl TagStore {
    /// Routes one request to its catalog operation and yields the reply to
    /// deliver: requests mutate the catalog exactly as the operation they
    /// name, and every reply arm matches its request kind.
    pub fn dispatch(&mut self, req: Request) -> (reply: Reply)
        ensures
            match req {
                Request::CreateTag { name, unit, data_type } => {
                    &&& reply == Reply::CreateTag(spec_create_result(old(self)@, name@))
                    &&& final(self)@ == spec_create_state(old(self)@, name@, unit, data_type)
                },
                Request::UpdateTagValue { name, value } => {
                    &&& reply == Reply::UpdateTagValue(
                        spec_update_result(old(self)@, name@, value@),
                    )
                    &&& final(self)@ == spec_update_state(old(self)@, name@, value@)
                },
                Request::DeleteTag { name } => {
                    &&& final(self)@ == old(self)@.remove(name@)
                    &&& reply == Reply::DeleteTag(
                        if old(self)@.dom().contains(name@) {
                            Ok::<(), DeleteTagError>(())
                        } else {
                            Err::<(), DeleteTagError>(DeleteTagError::TagNameNotFound)
                        },
                    )
                },
                Request::TagExists { name } => {
                    &&& final(self)@ == old(self)@
                    &&& reply == Reply::TagExists(old(self)@.dom().contains(name@))
                },
                Request::GetTag { name } => {
                    &&& final(self)@ == old(self)@
                    &&& match reply {
                        Reply::GetTag(Ok(t)) => old(self)@.dom().contains(name@) && t@.name
                            == name@ && t@.value == old(self)@[name@].value && t@.meta == old(
                            self,
                        )@[name@].meta,
                        Reply::GetTag(Err(e)) => !old(self)@.dom().contains(name@) && e
                            == ReadTagError::TagNameNotFound,
                        _ => false,
                    }
                },
                Request::GetAllTags => {
                    &&& final(self)@ == old(self)@
                    &&& match reply {
                        Reply::GetAllTags(tags) => tags_snapshot(old(self)@, tags@),
                        _ => false,
                    }
                },
                Request::GetTagDataType { name } => {
                    &&& final(self)@ == old(self)@
                    &&& reply == Reply::GetTagDataType(
                        if old(self)@.dom().contains(name@) {
                            Some(old(self)@[name@].meta.data_type)
                        } else {
                            None::<DataType>
                        },
                    )
                },
                Request::GetTagValue { name } => {
                    &&& final(self)@ == old(self)@
                    &&& match reply {
                        Reply::GetTagValue(Some(v)) => old(self)@.dom().contains(name@) && v@
                            == old(self)@[name@].value,
                        Reply::GetTagValue(None) => !old(self)@.dom().contains(name@),
                        _ => false,
                    }
                },
            },
    {
        match req {
            Request::CreateTag { name, unit, data_type } => Reply::CreateTag(
                self.create_tag(name, unit, data_type),
            ),
            Request::UpdateTagValue { name, value } => Reply::UpdateTagValue(
                self.update_tag_value(&name, value),
            ),
            Request::DeleteTag { name } => Reply::DeleteTag(self.delete_tag(&name)),
            Request::TagExists { name } => Reply::TagExists(self.is_tag_exists(&name)),
            Request::GetTag { name } => Reply::GetTag(self.get_tag(&name)),
            Request::GetAllTags => Reply::GetAllTags(self.get_all_tags()),
            Request::GetTagDataType { name } => Reply::GetTagDataType(
                self.get_tag_data_type(&name),
            ),
            Request::GetTagValue { name } => Reply::GetTagValue(self.get_tag_value(&name)),
        }
    }
}

} // verus!
