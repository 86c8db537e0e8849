//! Where the key-value pairs are kept.

pub mod mem_storage;

use vstd::prelude::*;

verus! {

/// The failure of a storage backend, with the text that describes it.
#[derive(Clone, Debug, PartialEq, Eq)]
pub struct StorageError {
    pub message: String,
}

/// A store of byte values under string keys.
///
/// A store that `tracks_contents` describes what it holds by `contents`, the
/// map from keys to values, and its calls agree with that map. A store that
/// is `reliable` answers every call with `Ok`, and a write with `Ok(Some(..))`.
/// A store that says neither of itself is held to nothing but handing a
/// written value back unchanged: `contents` then means nothing.
pub trait Storage: Sized {
    open spec fn tracks_contents(&self) -> bool {
        false
    }

    open spec fn contents(&self) -> Map<Seq<char>, Seq<u8>> {
        Map::empty()
    }

    open spec fn reliable(&self) -> bool {
        false
    }

    /// The value stored under `key`, if there is one.
    fn get(&self, key: &str) -> (r: Result<Option<Vec<u8>>, StorageError>)
        ensures
            self.tracks_contents() ==> (r matches Ok(Some(v)) ==> self.contents().contains_key(key@)
                && v@ == self.contents()[key@]),
            self.tracks_contents() ==> (r matches Ok(None) ==> !self.contents().contains_key(
                key@,
            )),
            self.reliable() ==> r is Ok,
    ;

    /// Stores `value` under `key`; on success hands the stored value back.
    fn set(&mut self, key: &str, value: Vec<u8>) -> (r: Result<Option<Vec<u8>>, StorageError>)
        ensures
            r matches Ok(Some(v)) ==> v@ == value@,
            old(self).tracks_contents() ==> final(self).tracks_contents(),
            old(self).tracks_contents() ==> (r matches Ok(Some(_)) ==> final(self).contents()
                == old(self).contents().insert(key@, value@)),
            old(self).reliable() ==> (r matches Ok(Some(_)) && final(self).reliable()),
    ;
}

} // verus!
