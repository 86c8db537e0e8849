//! Building requests and responses.

pub mod cmd;

use vstd::prelude::*;

use crate::storage::StorageError;
use self::cmd::cmd_request::ReqData;
use self::cmd::{
    CmdRequest, CmdResponse, Get, Publish, RequestView, ResponseView, SetValue, Subscribe,
    Unsubscribe,
};

verus! {

/// Status of a response that carries a result.
pub const STATUS_OK: u32 = 200;

/// Status of a response that refuses a request.
pub const STATUS_BAD_REQUEST: u32 = 400;

/// Status of a response that reports a storage failure.
pub const STATUS_INTERNAL_ERROR: u32 = 500;

/// The answer that carries a value: status 200, message "success".
pub open spec fn value_reply(value: Seq<u8>) -> ResponseView {
    ResponseView { status: STATUS_OK, message: "success"@, value }
}

/// The answer that refuses a request: status 400, the given message, no value.
pub open spec fn message_reply(message: Seq<char>) -> ResponseView {
    ResponseView { status: STATUS_BAD_REQUEST, message, value: Seq::empty() }
}

/// The answer that reports a storage failure: status 500, the error's text, no value.
pub open spec fn error_reply(message: Seq<char>) -> ResponseView {
    ResponseView { status: STATUS_INTERNAL_ERROR, message, value: Seq::empty() }
}

/// The answer that carries a value has status 200, message "success" and
/// exactly the bytes given, all of them.
pub proof fn lemma_value_reply_carries_value(value: Seq<u8>)
    ensures
        value_reply(value).status == STATUS_OK,
        value_reply(value).message == "success"@,
        value_reply(value).value == value,
        value_reply(value).value.len() == value.len(),
{
}

/// The answer that refuses a request has status 400, the message given, and
/// no value.
pub proof fn lemma_message_reply_fields(message: Seq<char>)
    ensures
        message_reply(message).status == STATUS_BAD_REQUEST,
        message_reply(message).message == message,
        message_reply(message).value.len() == 0,
{
}

/// The answer that reports a failure has status 500, the error's text, and
/// no value.
pub proof fn lemma_error_reply_fields(message: Seq<char>)
    ensures
        error_reply(message).status == STATUS_INTERNAL_ERROR,
        error_reply(message).message == message,
        error_reply(message).value.len() == 0,
{
}

impl CmdRequest {
    /// A GET command for `key`.
    pub fn get(key: String) -> (r: Self)
        ensures
            r@ == (RequestView::Get { key: key@ }),
    {
        CmdRequest { req_data: Some(ReqData::Get(Get { key })) }
    }

    /// A SET command that stores `value` under `key`.
    pub fn set(key: String, value: Vec<u8>) -> (r: Self)
        ensures
            r@ == (RequestView::Store { key: key@, value: value@ }),
    {
        CmdRequest { req_data: Some(ReqData::SetValue(SetValue { key, value })) }
    }

    /// A PUBLISH command that sends `value` on `topic`.
    pub fn publish(topic: String, value: Vec<u8>) -> (r: Self)
        ensures
            r@ == (RequestView::Publish { topic: topic@, value: value@ }),
    {
        CmdRequest { req_data: Some(ReqData::Publish(Publish { topic, value })) }
    }

    /// A SUBSCRIBE command for `topic`.
    pub fn subscribe(topic: String) -> (r: Self)
        ensures
            r@ == (RequestView::Subscribe { topic: topic@ }),
    {
        CmdRequest { req_data: Some(ReqData::Subscribe(Subscribe { topic })) }
    }

    /// An UNSUBSCRIBE command that ends subscription `id` on `topic`.
    pub fn unsubscribe(topic: String, id: u32) -> (r: Self)
        ensures
            r@ == (RequestView::Unsubscribe { topic: topic@, id }),
    {
        CmdRequest { req_data: Some(ReqData::Unsubscribe(Unsubscribe { topic, id })) }
    }
}

impl CmdResponse {
    /// A response with the given parts.
    pub fn new(status: u32, message: String, value: Vec<u8>) -> (r: Self)
        ensures
            r@ == (ResponseView { status, message: message@, value: value@ }),
    {
        CmdResponse { status, message, value }
    }

    /// The response that carries a value read or written.
    pub fn from_value(value: Vec<u8>) -> (r: Self)
        ensures
            r@ == value_reply(value@),
            r.status == STATUS_OK,
            r.message@ == "success"@,
            r.value@ == value@,
    {
        CmdResponse { status: STATUS_OK, message: "success".to_owned(), value }
    }

    /// The response that refuses a request with `message`.
    pub fn from_message(message: &str) -> (r: Self)
        ensures
            r@ == message_reply(message@),
            r.status == STATUS_BAD_REQUEST,
            r.message@ == message@,
            r.value@.len() == 0,
    {
        CmdResponse { status: STATUS_BAD_REQUEST, message: message.to_owned(), value: Vec::new() }
    }

    /// The response that reports a storage failure.
    pub fn from_error(error: StorageError) -> (r: Self)
        ensures
            r@ == error_reply(error.message@),
            r.status == STATUS_INTERNAL_ERROR,
            r.message@ == error.message@,
            r.value@.len() == 0,
    {
        CmdResponse { status: STATUS_INTERNAL_ERROR, message: error.message, value: Vec::new() }
    }
}

} // verus!
