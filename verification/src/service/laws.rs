//! What holds of every request and every store.

use vstd::prelude::*;

use super::{apply_request, get_allowed, get_reply, lookup_reply, served, set_allowed, set_reply};
use crate::storage::Storage;
use crate::pb::cmd::{CmdResponse, RequestView, ResponseView};
use crate::pb::{message_reply, value_reply, STATUS_BAD_REQUEST, STATUS_INTERNAL_ERROR, STATUS_OK};

verus! {

/// A read of a key just written gives back the value written.
pub proof fn lemma_read_after_write(m: Map<Seq<char>, Seq<u8>>, key: Seq<char>, value: Seq<u8>)
    ensures
        apply_request(
            apply_request(m, RequestView::Store { key, value }).0,
            RequestView::Get { key },
        ).1 == value_reply(value),
{
}

/// A write to one key leaves what every other key reads unchanged.
pub proof fn lemma_write_leaves_other_keys(
    m: Map<Seq<char>, Seq<u8>>,
    key: Seq<char>,
    value: Seq<u8>,
    other: Seq<char>,
)
    requires
        other != key,
    ensures
        lookup_reply(apply_request(m, RequestView::Store { key, value }).0, other) == lookup_reply(
            m,
            other,
        ),
{
}

/// Of two writes to one key, the later one decides the contents.
pub proof fn lemma_last_write_wins(
    m: Map<Seq<char>, Seq<u8>>,
    key: Seq<char>,
    first: Seq<u8>,
    second: Seq<u8>,
)
    ensures
        apply_request(
            apply_request(m, RequestView::Store { key, value: first }).0,
            RequestView::Store { key, value: second },
        ).0 == apply_request(m, RequestView::Store { key, value: second }).0,
{
    assert(m.insert(key, first).insert(key, second) =~= m.insert(key, second));
}

/// A write answers with the value written.
pub proof fn lemma_write_echoes_value(m: Map<Seq<char>, Seq<u8>>, key: Seq<char>, value: Seq<u8>)
    ensures
        apply_request(m, RequestView::Store { key, value }).1 == value_reply(value),
{
}

/// Only a write changes the contents.
pub proof fn lemma_only_writes_change(m: Map<Seq<char>, Seq<u8>>, req: RequestView)
    requires
        !(req is Store),
    ensures
        apply_request(m, req).0 == m,
{
}

/// Every command other than GET and SET, and a request without a command,
/// is refused with "Invalid command".
pub proof fn lemma_other_commands_refused(m: Map<Seq<char>, Seq<u8>>, req: RequestView)
    requires
        !(req is Get),
        !(req is Store),
    ensures
        apply_request(m, req) == (m, message_reply("Invalid command"@)),
{
}

/// A read of a key that holds nothing answers "Not found".
pub proof fn lemma_missing_key_not_found(m: Map<Seq<char>, Seq<u8>>, key: Seq<char>)
    requires
        !m.contains_key(key),
    ensures
        apply_request(m, RequestView::Get { key }) == (m, message_reply("Not found"@)),
{
}

/// A store that tracks its contents and does not fail serves every request
/// as `apply_request` says, and stays such a store.
pub proof fn lemma_reliable_store_applies<S: Storage>(
    before: S,
    after: S,
    req: RequestView,
    res: ResponseView,
)
    requires
        served(before, after, req, res),
        before.tracks_contents(),
        before.reliable(),
    ensures
        (after.contents(), res) == apply_request(before.contents(), req),
        after.tracks_contents(),
        after.reliable(),
{
    match req {
        RequestView::Get { key } => {
            let found = choose|found| get_allowed(before, key, found) && res == #[trigger] get_reply(
                found,
            );
        },
        RequestView::Store { key, value } => {
            let stored = choose|stored|
                set_allowed(before, after, key, value, stored) && res == #[trigger] set_reply(stored);
        },
        _ => {},
    }
}

/// An answer with status 200 from a store that tracks its contents tells the
/// truth, whether or not the store may fail: it is the value read, from
/// unchanged contents, or the value written, into the contents that now hold
/// it.
pub proof fn lemma_success_reflects_store<S: Storage>(
    before: S,
    after: S,
    req: RequestView,
    res: ResponseView,
)
    requires
        served(before, after, req, res),
        before.tracks_contents(),
        res.status == STATUS_OK,
    ensures
        match req {
            RequestView::Get { key } => before.contents().contains_key(key) && res == value_reply(
                before.contents()[key],
            ) && after == before,
            RequestView::Store { key, value } => res == value_reply(value) && after.contents()
                == before.contents().insert(key, value) && after.tracks_contents(),
            _ => false,
        },
{
    match req {
        RequestView::Get { key } => {
            let found = choose|found| get_allowed(before, key, found) && res == #[trigger] get_reply(
                found,
            );
        },
        RequestView::Store { key, value } => {
            let stored = choose|stored|
                set_allowed(before, after, key, value, stored) && res == #[trigger] set_reply(stored);
        },
        _ => {},
    }
}

/// A read never changes the store, even when the store fails.
pub proof fn lemma_reads_never_write<S: Storage>(
    before: S,
    after: S,
    key: Seq<char>,
    res: ResponseView,
)
    requires
        served(before, after, RequestView::Get { key }, res),
    ensures
        after == before,
{
}

/// Every answer has status 200, 400 or 500; 500 only reports a failure of a
/// store that may fail. Only a 200 answer carries a value.
pub proof fn lemma_status_codes<S: Storage>(
    before: S,
    after: S,
    req: RequestView,
    res: ResponseView,
)
    requires
        served(before, after, req, res),
    ensures
        res.status == STATUS_OK || res.status == STATUS_BAD_REQUEST || res.status
            == STATUS_INTERNAL_ERROR,
        res.status == STATUS_INTERNAL_ERROR ==> !before.reliable(),
        res.status != STATUS_OK ==> res.value.len() == 0,
{
    match req {
        RequestView::Get { key } => {
            let found = choose|found| get_allowed(before, key, found) && res == #[trigger] get_reply(
                found,
            );
        },
        RequestView::Store { key, value } => {
            let stored = choose|stored|
                set_allowed(before, after, key, value, stored) && res == #[trigger] set_reply(stored);
        },
        _ => {},
    }
}

/// After a write that answered with status 200, a read of the same key that
/// does not fail gives back the value written, on any store that tracks its
/// contents.
pub proof fn lemma_successful_write_then_read<S: Storage>(
    s0: S,
    s1: S,
    s2: S,
    key: Seq<char>,
    value: Seq<u8>,
    written: ResponseView,
    read: ResponseView,
)
    requires
        s0.tracks_contents(),
        served(s0, s1, RequestView::Store { key, value }, written),
        written.status == STATUS_OK,
        served(s1, s2, RequestView::Get { key }, read),
        read.status != STATUS_INTERNAL_ERROR,
    ensures
        read == value_reply(value),
        read.status == STATUS_OK,
        read.value == value,
        s2 == s1,
{
    lemma_success_reflects_store(s0, s1, RequestView::Store { key, value }, written);
    let found = choose|found| get_allowed(s1, key, found) && read == #[trigger] get_reply(found);
}

/// After a write that answered with status 200, a read of another key that
/// does not fail answers as it would have before the write.
pub proof fn lemma_successful_write_keeps_other_keys<S: Storage>(
    s0: S,
    s1: S,
    s2: S,
    key: Seq<char>,
    value: Seq<u8>,
    other: Seq<char>,
    written: ResponseView,
    read: ResponseView,
)
    requires
        other != key,
        s0.tracks_contents(),
        served(s0, s1, RequestView::Store { key, value }, written),
        written.status == STATUS_OK,
        served(s1, s2, RequestView::Get { key: other }, read),
        read.status != STATUS_INTERNAL_ERROR,
    ensures
        read == lookup_reply(s0.contents(), other),
{
    lemma_success_reflects_store(s0, s1, RequestView::Store { key, value }, written);
    let found = choose|found| get_allowed(s1, other, found) && read == #[trigger] get_reply(found);
}

/// A 200 answer to a read carries exactly the bytes stored under the key,
/// on any store that tracks its contents, and leaves the store as it was.
pub proof fn lemma_read_answer_is_stored_bytes<S: Storage>(
    before: S,
    after: S,
    key: Seq<char>,
    res: ResponseView,
)
    requires
        served(before, after, RequestView::Get { key }, res),
        before.tracks_contents(),
        res.status == STATUS_OK,
    ensures
        before.contents().contains_key(key),
        res.value == before.contents()[key],
        res.message == "success"@,
        after == before,
{
    let found = choose|found| get_allowed(before, key, found) && res == #[trigger] get_reply(found);
}

/// A 200 answer to a write carries exactly the bytes written, on any store;
/// on a store that tracks its contents the key then holds those bytes.
pub proof fn lemma_write_answer_is_written_bytes<S: Storage>(
    before: S,
    after: S,
    key: Seq<char>,
    value: Seq<u8>,
    res: ResponseView,
)
    requires
        served(before, after, RequestView::Store { key, value }, res),
        res.status == STATUS_OK,
    ensures
        res.value == value,
        res.message == "success"@,
        before.tracks_contents() ==> after.contents().contains_key(key) && after.contents()[key]
            == value,
{
    let stored = choose|stored|
        set_allowed(before, after, key, value, stored) && res == #[trigger] set_reply(stored);
}

/// A store that tracks its contents and does not fail answers a read of a
/// key it holds with status 200 and exactly the stored bytes, and a write with
/// status 200 and exactly the written bytes.
pub proof fn lemma_reliable_answers_carry_bytes<S: Storage>(
    before: S,
    after: S,
    req: RequestView,
    res: ResponseView,
)
    requires
        served(before, after, req, res),
        before.tracks_contents(),
        before.reliable(),
    ensures
        req matches RequestView::Get { key } ==> (before.contents().contains_key(key) ==> (
        res.status == STATUS_OK && res.value == before.contents()[key])),
        req matches RequestView::Store { key, value } ==> (res.status == STATUS_OK && res.value
            == value && after.contents()[key] == value),
{
    lemma_reliable_store_applies(before, after, req, res);
}

/// Before-response hooks that leave every response as they find it leave the
/// store's answer as it was: the chain of values that the hooks take a
/// response through ends where it began.
pub proof fn lemma_unchanging_hooks_keep_answer<B: Fn(&mut CmdResponse)>(
    hooks: Seq<B>,
    steps: Seq<CmdResponse>,
)
    requires
        forall|i: int, m: &mut CmdResponse|
            0 <= i < hooks.len() && #[trigger] call_ensures(hooks[i], (m,), ()) ==> *final(m) == *m,
        steps.len() == hooks.len() + 1,
        forall|j: int|
            #![trigger steps[j]]
            0 <= j < hooks.len() ==> exists|m: &mut CmdResponse|
                *m == steps[j] && *final(m) == steps[j + 1] && call_ensures(hooks[j], (m,), ()),
    ensures
        steps.last() == steps[0],
{
    assert forall|j: int| 0 <= j < hooks.len() implies #[trigger] steps[j + 1] == steps[j] by {
        let m = choose|m: &mut CmdResponse|
            *m == steps[j] && *final(m) == steps[j + 1] && call_ensures(hooks[j], (m,), ());
        assert(*final(m) == *m);
    }
    constant_chain(steps, hooks.len() as int);
}

/// A sequence in which each value equals the one before holds its first value
/// up to every index.
proof fn constant_chain(steps: Seq<CmdResponse>, k: int)
    requires
        0 <= k < steps.len(),
        forall|j: int| 0 <= j < steps.len() - 1 ==> #[trigger] steps[j + 1] == steps[j],
    ensures
        steps[k] == steps[0],
    decreases k,
{
    if k > 0 {
        constant_chain(steps, k - 1);
        assert(steps[(k - 1) + 1] == steps[k - 1]);
    }
}

} // verus!
