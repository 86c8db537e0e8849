//! The server: its settings, and what it does on each event of a connection.

use vstd::prelude::*;

use crate::pb::cmd::{CmdRequest, CmdResponse};
use crate::service::{served, Service};
use crate::storage::Storage;

verus! {

/// Where a connection stands.
#[derive(Clone, Copy, Debug, PartialEq, Eq)]
pub enum ConnState {
    /// Requests are read and answered.
    Serving,
    /// The client's stream has ended or failed; the connection only waits for
    /// the shutdown notice.
    Draining,
    /// The connection has finished.
    Closed,
}

/// What happens on a connection.
pub enum ConnEvent {
    /// A request arrived.
    Request(CmdRequest),
    /// The client's stream ended or could not be read.
    StreamEnded,
    /// The server is shutting down.
    Shutdown,
}

/// What the connection does next.
pub enum ConnAction {
    /// Send this response to the client.
    Reply(CmdResponse),
    /// Do nothing; wait for the next event.
    Ignore,
    /// End the connection; ending it is what tells the server it is done.
    Finish,
}

/// Where a connection goes on an event: a request keeps a serving connection
/// serving, the end of the stream makes it drain, and a shutdown closes any
/// connection that is still open. A closed connection stays closed.
pub open spec fn next_conn_state(state: ConnState, event: ConnEvent) -> ConnState {
    match state {
        ConnState::Closed => ConnState::Closed,
        _ => match event {
            ConnEvent::Shutdown => ConnState::Closed,
            ConnEvent::StreamEnded => ConnState::Draining,
            ConnEvent::Request(_) => state,
        },
    }
}

/// A closed connection stays closed, whatever happens next.
pub proof fn lemma_closed_stays_closed(event: ConnEvent)
    ensures
        next_conn_state(ConnState::Closed, event) == ConnState::Closed,
{
}

/// A request on a serving connection leaves it serving, whatever command it
/// carries: the connection goes on reading and answering.
pub proof fn lemma_request_keeps_serving(req: CmdRequest)
    ensures
        next_conn_state(ConnState::Serving, ConnEvent::Request(req)) == ConnState::Serving,
{
}

/// Only the end of the client's stream makes a serving connection drain.
pub proof fn lemma_drain_only_on_stream_end(event: ConnEvent)
    ensures
        next_conn_state(ConnState::Serving, event) == ConnState::Draining <==> event is StreamEnded,
{
}

/// A shutdown closes every connection.
pub proof fn lemma_shutdown_closes(state: ConnState)
    ensures
        next_conn_state(state, ConnEvent::Shutdown) == ConnState::Closed,
{
}

/// A connection that has stopped serving never serves again.
pub proof fn lemma_no_return_to_serving(state: ConnState, event: ConnEvent)
    requires
        state != ConnState::Serving,
    ensures
        next_conn_state(state, event) != ConnState::Serving,
{
}

/// The server: where it listens, the service it runs, and how many
/// connection permits it hands out (see `max_conns`).
pub struct Server<Store, R, E, B> {
    listen_addr: String,
    service: Service<Store, R, E, B>,
    max_conns: usize,
}

impl<Store, R, E, B> Server<Store, R, E, B> {
    /// The address the server listens on.
    pub closed spec fn spec_listen_addr(&self) -> Seq<char> {
        self.listen_addr@
    }

    /// The service.
    pub closed spec fn service(&self) -> Service<Store, R, E, B> {
        self.service
    }

    /// The number of connection permits.
    pub closed spec fn spec_max_conns(&self) -> usize {
        self.max_conns
    }

    /// A server for `service` on `listen_addr` with `max_conns` connection
    /// permits.
    pub fn new(listen_addr: String, service: Service<Store, R, E, B>, max_conns: usize) -> (s: Self)
        ensures
            s.spec_listen_addr() == listen_addr@,
            s.service() == service,
            s.spec_max_conns() == max_conns,
    {
        Server { listen_addr, service, max_conns }
    }

    /// The address the server listens on.
    pub fn listen_addr(&self) -> (r: &str)
        ensures
            r@ == self.spec_listen_addr(),
    {
        self.listen_addr.as_str()
    }

    /// The number of connection permits: the accept loop takes a permit
    /// before each accept, and a connection gives its permit back as soon as
    /// its task starts, so this bounds the connections being set up at once,
    /// not the connections open.
    pub fn max_conns(&self) -> (r: usize)
        ensures
            r == self.spec_max_conns(),
    {
        self.max_conns
    }
}

impl<Store, R, E, B> Server<Store, R, E, B> where
    Store: Storage,
    R: Fn(&CmdRequest),
    E: Fn(&CmdResponse),
    B: Fn(&mut CmdResponse),
 {
    /// Carries a connection through one event. A request on a serving
    /// connection is answered by the service; a shutdown on an open
    /// connection finishes it; anything else changes nothing but the state.
    pub fn handle_event(&mut self, state: ConnState, event: ConnEvent) -> (r: (
        ConnState,
        ConnAction,
    ))
        requires
            old(self).service().wf(),
        ensures
            final(self).service().wf(),
            final(self).spec_listen_addr() == old(self).spec_listen_addr(),
            final(self).spec_max_conns() == old(self).spec_max_conns(),
            r.0 == next_conn_state(state, event),
            state == ConnState::Serving && event is Request ==> r.0 == ConnState::Serving,
            state == ConnState::Serving && event is StreamEnded ==> r.0 == ConnState::Draining,
            state != ConnState::Closed && event is Shutdown ==> r.0 == ConnState::Closed,
            state == ConnState::Closed ==> r.0 == ConnState::Closed,
            r.1 is Reply <==> (state == ConnState::Serving && event is Request),
            r.1 is Finish <==> (state != ConnState::Closed && event is Shutdown),
            !(r.1 is Reply) ==> *final(self) == *old(self),
            r.1 is Reply ==> {
                let svc0 = old(self).service();
                let svc1 = final(self).service();
                &&& svc1.store_service().recv_hooks() == svc0.store_service().recv_hooks()
                &&& svc1.store_service().exec_hooks() == svc0.store_service().exec_hooks()
                &&& svc1.store_service().before_hooks() == svc0.store_service().before_hooks()
                &&& svc0.reliable() ==> svc1.reliable()
                &&& forall|j: int|
                    0 <= j < svc0.store_service().recv_hooks().len() ==> #[trigger] call_ensures(
                        svc0.store_service().recv_hooks()[j],
                        (&event->Request_0,),
                        (),
                    )
                &&& svc0.store_service().before_hooks().len() == 0 ==> served(
                    svc0.store_service().store(),
                    svc1.store_service().store(),
                    event->Request_0@,
                    r.1->Reply_0@,
                )
                &&& exists|steps: Seq<CmdResponse>|
                    {
                        &&& steps.len() == svc0.store_service().before_hooks().len() + 1
                        &&& served(
                            svc0.store_service().store(),
                            svc1.store_service().store(),
                            event->Request_0@,
                            steps[0]@,
                        )
                        &&& steps.last() == r.1->Reply_0
                        &&& forall|j: int|
                            0 <= j < svc0.store_service().exec_hooks().len() ==> #[trigger] call_ensures(
                                svc0.store_service().exec_hooks()[j],
                                (&steps[0],),
                                (),
                            )
                        &&& forall|j: int|
                            #![trigger steps[j]]
                            0 <= j < svc0.store_service().before_hooks().len() ==> exists|
                                m: &mut CmdResponse,
                            |
                                *m == steps[j] && *final(m) == steps[j + 1] && call_ensures(
                                    svc0.store_service().before_hooks()[j],
                                    (m,),
                                    (),
                                )
                    }
            },
    {
        match state {
            ConnState::Closed => (ConnState::Closed, ConnAction::Ignore),
            ConnState::Serving => match event {
                ConnEvent::Request(req) => {
                    let res = self.service.execute(req);
                    (ConnState::Serving, ConnAction::Reply(res))
                },
                ConnEvent::StreamEnded => (ConnState::Draining, ConnAction::Ignore),
                ConnEvent::Shutdown => (ConnState::Closed, ConnAction::Finish),
            },
            ConnState::Draining => match event {
                ConnEvent::Shutdown => (ConnState::Closed, ConnAction::Finish),
                ConnEvent::StreamEnded => (ConnState::Draining, ConnAction::Ignore),
                ConnEvent::Request(_) => (ConnState::Draining, ConnAction::Ignore),
            },
        }
    }
}

} // verus!
