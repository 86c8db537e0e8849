//! The command messages exchanged between client and server.

pub mod cmd_request;

use vstd::prelude::*;

use self::cmd_request::ReqData;

verus! {

/// A request sent by a client: at most one command.
#[derive(Clone, Debug, PartialEq, Eq, Default)]
pub struct CmdRequest {
    pub req_data: Option<ReqData>,
}

/// The server's answer to a request.
#[derive(Clone, Debug, PartialEq, Eq, Default)]
pub struct CmdResponse {
    pub status: u32,
    pub message: String,
    pub value: Vec<u8>,
}

/// Reads the value stored under a key.
#[derive(Clone, Debug, PartialEq, Eq, Default)]
pub struct Get {
    pub key: String,
}

/// Stores a value under a key.
#[derive(Clone, Debug, PartialEq, Eq, Default)]
pub struct SetValue {
    pub key: String,
    pub value: Vec<u8>,
}

/// Publishes a value on a topic.
#[derive(Clone, Debug, PartialEq, Eq, Default)]
pub struct Publish {
    pub topic: String,
    pub value: Vec<u8>,
}

/// Subscribes to a topic.
#[derive(Clone, Debug, PartialEq, Eq, Default)]
pub struct Subscribe {
    pub topic: String,
}

/// Ends the subscription with the given id on a topic.
#[derive(Clone, Debug, PartialEq, Eq, Default)]
pub struct Unsubscribe {
    pub topic: String,
    pub id: u32,
}

/// What a request means, with keys and topics as character sequences and
/// values as byte sequences.
pub enum RequestView {
    Get { key: Seq<char> },
    Store { key: Seq<char>, value: Seq<u8> },
    Publish { topic: Seq<char>, value: Seq<u8> },
    Subscribe { topic: Seq<char> },
    Unsubscribe { topic: Seq<char>, id: u32 },
    Empty,
}

/// What a response carries.
pub struct ResponseView {
    pub status: u32,
    pub message: Seq<char>,
    pub value: Seq<u8>,
}

impl View for CmdRequest {
    type V = RequestView;

    open spec fn view(&self) -> RequestView {
        match self.req_data {
            Some(ReqData::Get(g)) => RequestView::Get { key: g.key@ },
            Some(ReqData::SetValue(s)) => RequestView::Store { key: s.key@, value: s.value@ },
            Some(ReqData::Publish(p)) => RequestView::Publish { topic: p.topic@, value: p.value@ },
            Some(ReqData::Subscribe(s)) => RequestView::Subscribe { topic: s.topic@ },
            Some(ReqData::Unsubscribe(u)) => RequestView::Unsubscribe { topic: u.topic@, id: u.id },
            None => RequestView::Empty,
        }
    }
}

impl View for CmdResponse {
    type V = ResponseView;

    open spec fn view(&self) -> ResponseView {
        ResponseView { status: self.status, message: self.message@, value: self.value@ }
    }
}

} // verus!
