//! How each command is carried out against a store.

use vstd::prelude::*;

use super::{get_allowed, get_reply, get_response, set_allowed, set_reply, set_response, CmdService};
use crate::pb::cmd::{CmdResponse, Get, SetValue};
use crate::storage::Storage;

verus! {

impl CmdService for Get {
    /// Reads the key once and answers `get_reply` of what the store returned.
    fn execute<S: Storage>(self, store: &mut S) -> (r: CmdResponse)
        ensures
            *final(store) == *old(store),
            exists|found|
                get_allowed(*old(store), self.key@, found) && r@ == #[trigger] get_reply(found),
    {
        let found = store.get(self.key.as_str());
        let r = get_response(found);
        assert(get_allowed(*old(store), self.key@, found) && r@ == get_reply(found));
        r
    }
}

impl CmdService for SetValue {
    /// Writes the value under the key once and answers `set_reply` of what the
    /// store returned.
    fn execute<S: Storage>(self, store: &mut S) -> (r: CmdResponse)
        ensures
            exists|stored|
                set_allowed(*old(store), *final(store), self.key@, self.value@, stored) && r@
                    == #[trigger] set_reply(stored),
    {
        let ghost value = self.value@;
        let stored = store.set(self.key.as_str(), self.value);
        let r = set_response(stored);
        assert(set_allowed(*old(store), *store, self.key@, value, stored) && r@ == set_reply(stored));
        r
    }
}

} // verus!
