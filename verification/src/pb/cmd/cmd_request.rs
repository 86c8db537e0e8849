//! The command that a request carries.

use vstd::prelude::*;

use super::{Get, Publish, SetValue, Subscribe, Unsubscribe};

verus! {

/// One of the commands a client can send.
#[derive(Clone, Debug, PartialEq, Eq)]
pub enum ReqData {
    Get(Get),
    SetValue(SetValue),
    Publish(Publish),
    Subscribe(Subscribe),
    Unsubscribe(Unsubscribe),
}

} // verus!
