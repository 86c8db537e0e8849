//! The service: carries out commands against a store, with hooks that observe
//! each request and may adjust each response.

pub mod cmd_service;
pub mod laws;

use vstd::prelude::*;

use crate::pb::cmd::cmd_request::ReqData;
use crate::pb::cmd::{CmdRequest, CmdResponse, RequestView, ResponseView};
use crate::pb::{
    error_reply, message_reply, value_reply, STATUS_BAD_REQUEST, STATUS_INTERNAL_ERROR, STATUS_OK,
};
use crate::storage::{Storage, StorageError};

verus! {

/// A command that can be carried out against a store.
pub trait CmdService: Sized {
    fn execute<S: Storage>(self, store: &mut S) -> (r: CmdResponse);
}

/// The answer to reading `key` from contents `m`.
pub open spec fn lookup_reply(m: Map<Seq<char>, Seq<u8>>, key: Seq<char>) -> ResponseView {
    if m.contains_key(key) {
        value_reply(m[key])
    } else {
        message_reply("Not found"@)
    }
}

/// What a store that does not fail does with a request: the contents afterwards
/// and the answer. GET reads, SET writes and echoes the value, and every other
/// command, or none, is refused with "Invalid command".
pub open spec fn apply_request(m: Map<Seq<char>, Seq<u8>>, req: RequestView) -> (
    Map<Seq<char>, Seq<u8>>,
    ResponseView,
) {
    match req {
        RequestView::Get { key } => (m, lookup_reply(m, key)),
        RequestView::Store { key, value } => (m.insert(key, value), value_reply(value)),
        _ => (m, message_reply("Invalid command"@)),
    }
}

/// The answer to a read, for each result of the store's `get`: the value
/// with status 200, "Not found" with status 400, or the error's text with
/// status 500.
pub open spec fn get_reply(found: Result<Option<Vec<u8>>, StorageError>) -> ResponseView {
    match found {
        Ok(Some(v)) => value_reply(v@),
        Ok(None) => message_reply("Not found"@),
        Err(e) => error_reply(e.message@),
    }
}

/// The answer to a write, for each result of the store's `set`: the value
/// handed back with status 200, "Set fail" with status 400, or the error's
/// text with status 500.
pub open spec fn set_reply(stored: Result<Option<Vec<u8>>, StorageError>) -> ResponseView {
    match stored {
        Ok(Some(v)) => value_reply(v@),
        Ok(None) => message_reply("Set fail"@),
        Err(e) => error_reply(e.message@),
    }
}

/// The response to the result of a read.
pub fn get_response(found: Result<Option<Vec<u8>>, StorageError>) -> (r: CmdResponse)
    ensures
        r@ == get_reply(found),
        found matches Ok(Some(v)) ==> r.status == STATUS_OK && r.message@ == "success"@ && r.value@
            == v@,
        found is Ok && !(found matches Ok(Some(_))) ==> r.status == STATUS_BAD_REQUEST
            && r.message@ == "Not found"@ && r.value@.len() == 0,
        found matches Err(e) ==> r.status == STATUS_INTERNAL_ERROR && r.message@ == e.message@
            && r.value@.len() == 0,
{
    match found {
        Ok(Some(value)) => CmdResponse::from_value(value),
        Ok(None) => CmdResponse::from_message("Not found"),
        Err(e) => CmdResponse::from_error(e),
    }
}

/// The response to the result of a write.
pub fn set_response(stored: Result<Option<Vec<u8>>, StorageError>) -> (r: CmdResponse)
    ensures
        r@ == set_reply(stored),
        stored matches Ok(Some(v)) ==> r.status == STATUS_OK && r.message@ == "success"@ && r.value@
            == v@,
        stored is Ok && !(stored matches Ok(Some(_))) ==> r.status == STATUS_BAD_REQUEST
            && r.message@ == "Set fail"@ && r.value@.len() == 0,
        stored matches Err(e) ==> r.status == STATUS_INTERNAL_ERROR && r.message@ == e.message@
            && r.value@.len() == 0,
{
    match stored {
        Ok(Some(value)) => CmdResponse::from_value(value),
        Ok(None) => CmdResponse::from_message("Set fail"),
        Err(e) => CmdResponse::from_error(e),
    }
}

/// What the store's `get` may return for `key`: what `Storage::get` promises.
pub open spec fn get_allowed<S: Storage>(
    store: S,
    key: Seq<char>,
    found: Result<Option<Vec<u8>>, StorageError>,
) -> bool {
    &&& store.tracks_contents() ==> (found matches Ok(Some(v)) ==> store.contents().contains_key(
        key,
    ) && v@ == store.contents()[key])
    &&& store.tracks_contents() ==> (found matches Ok(None) ==> !store.contents().contains_key(
        key,
    ))
    &&& store.reliable() ==> found is Ok
}

/// What the store's `set` of `value` under `key` may return, taking the store
/// from `before` to `after`: what `Storage::set` promises.
pub open spec fn set_allowed<S: Storage>(
    before: S,
    after: S,
    key: Seq<char>,
    value: Seq<u8>,
    stored: Result<Option<Vec<u8>>, StorageError>,
) -> bool {
    &&& stored matches Ok(Some(v)) ==> v@ == value
    &&& before.tracks_contents() ==> after.tracks_contents()
    &&& before.tracks_contents() ==> (stored matches Ok(Some(_)) ==> after.contents()
        == before.contents().insert(key, value))
    &&& before.reliable() ==> (stored matches Ok(Some(_)) && after.reliable())
}

/// Carrying out `req` takes the store from `before` to `after` and answers
/// `res`: a GET reads the key once, leaves the store as it was, and answers
/// `get_reply` of what came back; a SET writes the value under the key once
/// and answers `set_reply` of what came back; anything else leaves the store
/// as it was and answers "Invalid command".
pub open spec fn served<S: Storage>(before: S, after: S, req: RequestView, res: ResponseView) -> bool {
    match req {
        RequestView::Get { key } => after == before && exists|found|
            get_allowed(before, key, found) && res == #[trigger] get_reply(found),
        RequestView::Store { key, value } => exists|stored|
            set_allowed(before, after, key, value, stored) && res == #[trigger] set_reply(stored),
        _ => after == before && res == message_reply("Invalid command"@),
    }
}

/// Carries out a request: GET and SET go to the store, anything else is
/// refused with "Invalid command".
pub fn process_cmd<S: Storage>(cmd_req: CmdRequest, store: &mut S) -> (r: CmdResponse)
    ensures
        served(*old(store), *final(store), cmd_req@, r@),
{
    match cmd_req.req_data {
        Some(ReqData::Get(cmd_get)) => cmd_get.execute(store),
        Some(ReqData::SetValue(cmd_set)) => cmd_set.execute(store),
        _ => CmdResponse::from_message("Invalid command"),
    }
}

/// The store together with the hooks registered on it: hooks that see each
/// request as it arrives, hooks that see each response once the store has
/// answered, and hooks that may change each response before it goes out.
pub struct StoreService<Store, R, E, B> {
    store: Store,
    on_recv_req: Vec<R>,
    on_exec_req: Vec<E>,
    on_before_res: Vec<B>,
}

impl<Store, R, E, B> StoreService<Store, R, E, B> where
    R: Fn(&CmdRequest),
    E: Fn(&CmdResponse),
    B: Fn(&mut CmdResponse),
 {
    /// Every registered hook accepts every argument.
    pub closed spec fn wf(&self) -> bool {
        &&& forall|i: int, x: &CmdRequest|
            0 <= i < self.on_recv_req@.len() ==> #[trigger] call_requires(self.on_recv_req@[i], (x,))
        &&& forall|i: int, x: &CmdResponse|
            0 <= i < self.on_exec_req@.len() ==> #[trigger] call_requires(self.on_exec_req@[i], (x,))
        &&& forall|i: int, x: &mut CmdResponse|
            0 <= i < self.on_before_res@.len() ==> #[trigger] call_requires(self.on_before_res@[i], (x,))
    }

    /// The store.
    pub closed spec fn store(&self) -> Store {
        self.store
    }

    /// The hooks that see each request, in the order of registration.
    pub closed spec fn recv_hooks(&self) -> Seq<R> {
        self.on_recv_req@
    }

    /// The hooks that see each response, in the order of registration.
    pub closed spec fn exec_hooks(&self) -> Seq<E> {
        self.on_exec_req@
    }

    /// The hooks that may change each response, in the order of registration.
    pub closed spec fn before_hooks(&self) -> Seq<B> {
        self.on_before_res@
    }

    /// The service over `store`, with no hook.
    pub fn new(store: Store) -> (s: Self)
        ensures
            s.wf(),
            s.store() == store,
            s.recv_hooks().len() == 0,
            s.exec_hooks().len() == 0,
            s.before_hooks().len() == 0,
    {
        StoreService {
            store,
            on_recv_req: Vec::new(),
            on_exec_req: Vec::new(),
            on_before_res: Vec::new(),
        }
    }

    /// Adds a hook that sees each request as it arrives.
    pub fn regist_recv_req(self, f: R) -> (s: Self)
        requires
            self.wf(),
            forall|x: &CmdRequest| call_requires(f, (x,)),
        ensures
            s.wf(),
            s.store() == self.store(),
            s.recv_hooks() == self.recv_hooks().push(f),
            s.exec_hooks() == self.exec_hooks(),
            s.before_hooks() == self.before_hooks(),
    {
        let mut s = self;
        s.on_recv_req.push(f);
        s
    }

    /// Adds a hook that sees each response once the store has answered.
    pub fn regist_exec_req(self, f: E) -> (s: Self)
        requires
            self.wf(),
            forall|x: &CmdResponse| call_requires(f, (x,)),
        ensures
            s.wf(),
            s.store() == self.store(),
            s.recv_hooks() == self.recv_hooks(),
            s.exec_hooks() == self.exec_hooks().push(f),
            s.before_hooks() == self.before_hooks(),
    {
        let mut s = self;
        s.on_exec_req.push(f);
        s
    }

    /// Adds a hook that may change each response before it goes out.
    pub fn regist_before_res(self, f: B) -> (s: Self)
        requires
            self.wf(),
            forall|x: &mut CmdResponse| call_requires(f, (x,)),
        ensures
            s.wf(),
            s.store() == self.store(),
            s.recv_hooks() == self.recv_hooks(),
            s.exec_hooks() == self.exec_hooks(),
            s.before_hooks() == self.before_hooks().push(f),
    {
        let mut s = self;
        s.on_before_res.push(f);
        s
    }

    /// Calls each request hook on `cmd_req`, in the order of registration.
    pub fn notify_recv_req(&self, cmd_req: &CmdRequest)
        requires
            self.wf(),
        ensures
            forall|j: int|
                0 <= j < self.recv_hooks().len() ==> #[trigger] call_ensures(
                    self.recv_hooks()[j],
                    (cmd_req,),
                    (),
                ),
    {
        let mut i: usize = 0;
        while i < self.on_recv_req.len()
            invariant
                forall|j: int, x: &CmdRequest|
                    0 <= j < self.on_recv_req@.len() ==> #[trigger] call_requires(self.on_recv_req@[j], (x,)),
                i <= self.on_recv_req@.len(),
                forall|j: int|
                    0 <= j < i ==> #[trigger] call_ensures(self.on_recv_req@[j], (cmd_req,), ()),
            decreases self.on_recv_req.len() - i,
        {
            let f = &self.on_recv_req[i];
            f(cmd_req);
            i = i + 1;
        }
    }

    /// Calls each response hook on `cmd_res`, in the order of registration.
    pub fn notify_exec_req(&self, cmd_res: &CmdResponse)
        requires
            self.wf(),
        ensures
            forall|j: int|
                0 <= j < self.exec_hooks().len() ==> #[trigger] call_ensures(
                    self.exec_hooks()[j],
                    (cmd_res,),
                    (),
                ),
    {
        let mut i: usize = 0;
        while i < self.on_exec_req.len()
            invariant
                forall|j: int, x: &CmdResponse|
                    0 <= j < self.on_exec_req@.len() ==> #[trigger] call_requires(self.on_exec_req@[j], (x,)),
                i <= self.on_exec_req@.len(),
                forall|j: int|
                    0 <= j < i ==> #[trigger] call_ensures(self.on_exec_req@[j], (cmd_res,), ()),
            decreases self.on_exec_req.len() - i,
        {
            let f = &self.on_exec_req[i];
            f(cmd_res);
            i = i + 1;
        }
    }

    /// Passes `cmd_res` through each before-response hook, in the order of
    /// registration: the response goes through a chain of values, the first
    /// the response given, the last the response left, each hook taking one
    /// to the next.
    pub fn notify_before_res(&self, cmd_res: &mut CmdResponse)
        requires
            self.wf(),
        ensures
            exists|steps: Seq<CmdResponse>|
                {
                    &&& steps.len() == self.before_hooks().len() + 1
                    &&& steps[0] == *old(cmd_res)
                    &&& steps.last() == *final(cmd_res)
                    &&& forall|j: int|
                        #![trigger steps[j]]
                        0 <= j < self.before_hooks().len() ==> exists|m: &mut CmdResponse|
                            *m == steps[j] && *final(m) == steps[j + 1] && call_ensures(
                                self.before_hooks()[j],
                                (m,),
                                (),
                            )
                },
    {
        let ghost mut steps: Seq<CmdResponse> = seq![*cmd_res];
        let mut i: usize = 0;
        while i < self.on_before_res.len()
            invariant
                forall|j: int, x: &mut CmdResponse|
                    0 <= j < self.on_before_res@.len() ==> #[trigger] call_requires(self.on_before_res@[j], (x,)),
                i <= self.on_before_res@.len(),
                steps.len() == i + 1,
                steps[0] == *old(cmd_res),
                steps.last() == *cmd_res,
                forall|j: int|
                    #![trigger steps[j]]
                    0 <= j < i ==> exists|m: &mut CmdResponse|
                        *m == steps[j] && *final(m) == steps[j + 1] && call_ensures(
                            self.on_before_res@[j],
                            (m,),
                            (),
                        ),
            decreases self.on_before_res.len() - i,
        {
            let f = &self.on_before_res[i];
            f(cmd_res);
            proof {
                steps = steps.push(*cmd_res);
            }
            i = i + 1;
        }
    }
}

/// The service that answers requests: a store service, with its hooks.
pub struct Service<Store, R, E, B> {
    store_svc: StoreService<Store, R, E, B>,
}

impl<Store, R, E, B> Service<Store, R, E, B> {
    /// The store service inside.
    pub closed spec fn store_service(&self) -> StoreService<Store, R, E, B> {
        self.store_svc
    }
}

impl<Store, R, E, B> Service<Store, R, E, B> where
    Store: Storage,
    R: Fn(&CmdRequest),
    E: Fn(&CmdResponse),
    B: Fn(&mut CmdResponse),
 {
    /// Every registered hook accepts every argument.
    pub open spec fn wf(&self) -> bool {
        self.store_service().wf()
    }

    /// The contents of the store.
    pub open spec fn contents(&self) -> Map<Seq<char>, Seq<u8>> {
        self.store_service().store().contents()
    }

    /// Whether the store never fails.
    pub open spec fn reliable(&self) -> bool {
        self.store_service().store().reliable()
    }

    /// The service over `store`, with no hook.
    pub fn new(store: Store) -> (s: Self)
        ensures
            s.wf(),
            s.store_service().store() == store,
            s.store_service().recv_hooks().len() == 0,
            s.store_service().exec_hooks().len() == 0,
            s.store_service().before_hooks().len() == 0,
    {
        Service { store_svc: StoreService::new(store) }
    }

    /// Answers a request: shows it to the request hooks, carries it out
    /// against the store, shows the store's answer to the response hooks, and
    /// passes it through the before-response hooks. With no before-response
    /// hook the answer is the store's, as `served` states; in general it is
    /// what the before-response hooks make of that answer, one after the other.
    pub fn execute(&mut self, cmd_req: CmdRequest) -> (r: CmdResponse)
        requires
            old(self).wf(),
        ensures
            final(self).wf(),
            final(self).store_service().recv_hooks() == old(self).store_service().recv_hooks(),
            final(self).store_service().exec_hooks() == old(self).store_service().exec_hooks(),
            final(self).store_service().before_hooks() == old(self).store_service().before_hooks(),
            old(self).reliable() ==> final(self).reliable(),
            forall|j: int|
                0 <= j < old(self).store_service().recv_hooks().len() ==> #[trigger] call_ensures(
                    old(self).store_service().recv_hooks()[j],
                    (&cmd_req,),
                    (),
                ),
            old(self).store_service().before_hooks().len() == 0 ==> served(
                old(self).store_service().store(),
                final(self).store_service().store(),
                cmd_req@,
                r@,
            ),
            exists|steps: Seq<CmdResponse>|
                {
                    &&& steps.len() == old(self).store_service().before_hooks().len() + 1
                    &&& served(
                        old(self).store_service().store(),
                        final(self).store_service().store(),
                        cmd_req@,
                        steps[0]@,
                    )
                    &&& steps.last() == r
                    &&& forall|j: int|
                        0 <= j < old(self).store_service().exec_hooks().len() ==> #[trigger] call_ensures(
                            old(self).store_service().exec_hooks()[j],
                            (&steps[0],),
                            (),
                        )
                    &&& forall|j: int|
                        #![trigger steps[j]]
                        0 <= j < old(self).store_service().before_hooks().len() ==> exists|
                            m: &mut CmdResponse,
                        |
                            *m == steps[j] && *final(m) == steps[j + 1] && call_ensures(
                                old(self).store_service().before_hooks()[j],
                                (m,),
                                (),
                            )
                },
    {
        self.store_svc.notify_recv_req(&cmd_req);
        let mut cmd_res = process_cmd(cmd_req, &mut self.store_svc.store);
        let ghost answered = cmd_res;
        self.store_svc.notify_exec_req(&cmd_res);
        self.store_svc.notify_before_res(&mut cmd_res);
        proof {
            let steps = choose|steps: Seq<CmdResponse>|
                {
                    &&& steps.len() == self.store_svc.before_hooks().len() + 1
                    &&& steps[0] == answered
                    &&& steps.last() == cmd_res
                    &&& forall|j: int|
                        #![trigger steps[j]]
                        0 <= j < self.store_svc.before_hooks().len() ==> exists|
                            m: &mut CmdResponse,
                        |
                            *m == steps[j] && *final(m) == steps[j + 1] && call_ensures(
                                self.store_svc.before_hooks()[j],
                                (m,),
                                (),
                            )
                };
            assert(forall|j: int|
                0 <= j < self.store_svc.exec_hooks().len() ==> #[trigger] call_ensures(
                    self.store_svc.exec_hooks()[j],
                    (&steps[0],),
                    (),
                ));
        }
        cmd_res
    }
}

impl<Store, R, E, B> From<StoreService<Store, R, E, B>> for Service<Store, R, E, B> {
    /// The service that answers through `store`.
    fn from(store: StoreService<Store, R, E, B>) -> (s: Self)
        ensures
            s.store_service() == store,
    {
        Service { store_svc: store }
    }
}

impl<Store, R, E, B> vstd::std_specs::convert::FromSpecImpl<StoreService<Store, R, E, B>> for Service<Store, R, E, B> {
    open spec fn obeys_from_spec() -> bool {
        true
    }

    closed spec fn from_spec(store: StoreService<Store, R, E, B>) -> Self {
        Service { store_svc: store }
    }
}

} // verus!
