//! Tags for the higher-level operations of the storage workloads.
use vstd::prelude::*;

use crate::flash::TagLabel;

verus! {

/// A higher-level storage operation, used to tag the records it causes.
#[derive(Clone, Copy, Debug, PartialEq, Eq, Structural)]
pub enum Operation {
    QueuePush,
    QueuePop,
    MapStore,
    MapRemove,
    MapFetch,
}

impl Operation {
    /// The operation's short name.
    pub open spec fn spec_name(self) -> Seq<char> {
        match self {
            Operation::QueuePush => "Push"@,
            Operation::QueuePop => "Pop"@,
            Operation::MapStore => "Store"@,
            Operation::MapRemove => "Remove"@,
            Operation::MapFetch => "Fetch"@,
        }
    }

    /// The operation's short name: Push, Pop, Store, Remove or Fetch.
    pub fn to_string(&self) -> (r: String)
        ensures
            r@ == self.spec_name(),
    {
        match self {
            Operation::QueuePush => "Push".to_owned(),
            Operation::QueuePop => "Pop".to_owned(),
            Operation::MapStore => "Store".to_owned(),
            Operation::MapRemove => "Remove".to_owned(),
            Operation::MapFetch => "Fetch".to_owned(),
        }
    }
}

impl TagLabel for Operation {
    fn label(&self) -> String {
        self.to_string()
    }
}

} // verus!
