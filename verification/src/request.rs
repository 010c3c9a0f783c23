//! A request: what the caller sent, and the metadata that came with it.

use crate::metadata::MetadataMap;
use vstd::prelude::*;

verus! {

/// A call as a handler sees it.
#[derive(Debug)]
pub struct Request<T> {
    pub metadata: MetadataMap,
    pub message: T,
}

impl<T> Request<T> {
    /// A request that carries the given message and no metadata.
    pub fn new(message: T) -> (request: Request<T>)
        ensures
            request.message == message,
            request.metadata@ == Map::<Seq<char>, Seq<char>>::empty(),
    {
        Request { metadata: MetadataMap::new(), message }
    }

    /// The metadata of this request.
    pub fn metadata(&self) -> (metadata: &MetadataMap)
        ensures
            *metadata == self.metadata,
    {
        &self.metadata
    }

    /// The metadata of this request, for changing it.
    pub fn metadata_mut(&mut self) -> (metadata: &mut MetadataMap)
        ensures
            *metadata == old(self).metadata,
            final(self).metadata == *final(metadata),
            final(self).message == old(self).message,
    {
        &mut self.metadata
    }

    /// The message that this request carries.
    pub fn into_inner(self) -> (message: T)
        ensures
            message == self.message,
    {
        self.message
    }
}

} // verus!
