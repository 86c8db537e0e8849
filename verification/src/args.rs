//! The client's command line, and the request it stands for.

use vstd::prelude::*;

use crate::pb::cmd::{CmdRequest, RequestView};

verus! {

/// A command given on the client's command line.
#[derive(Clone, Debug, PartialEq, Eq)]
pub enum ClientArgs {
    Get { key: String },
    SetValue { key: String, value: String },
    Publish { topic: String, value: String },
    Subscribe { topic: String },
    Unsubscribe { topic: String, id: u32 },
}

/// The request that a command line stands for: text values are sent as
/// their UTF-8 bytes.
pub open spec fn args_request(args: ClientArgs) -> RequestView {
    match args {
        ClientArgs::Get { key } => RequestView::Get { key: key@ },
        ClientArgs::SetValue { key, value } => RequestView::Store {
            key: key@,
            value: vstd::utf8::encode_utf8(value@),
        },
        ClientArgs::Publish { topic, value } => RequestView::Publish {
            topic: topic@,
            value: vstd::utf8::encode_utf8(value@),
        },
        ClientArgs::Subscribe { topic } => RequestView::Subscribe { topic: topic@ },
        ClientArgs::Unsubscribe { topic, id } => RequestView::Unsubscribe { topic: topic@, id },
    }
}

/// A GET command line asks for exactly the key given on it.
pub proof fn lemma_get_args_keep_key(key: String)
    ensures
        args_request(ClientArgs::Get { key }) == (RequestView::Get { key: key@ }),
{
}

/// A SET command line stores, under exactly the key given, the whole UTF-8
/// encoding of the value given.
pub proof fn lemma_set_args_keep_key_and_value(key: String, value: String)
    ensures
        args_request(ClientArgs::SetValue { key, value }) == (RequestView::Store {
            key: key@,
            value: vstd::utf8::encode_utf8(value@),
        }),
{
}

/// A PUBLISH command line sends, on exactly the topic given, the whole UTF-8
/// encoding of the value given.
pub proof fn lemma_publish_args_keep_topic_and_value(topic: String, value: String)
    ensures
        args_request(ClientArgs::Publish { topic, value }) == (RequestView::Publish {
            topic: topic@,
            value: vstd::utf8::encode_utf8(value@),
        }),
{
}

/// SUBSCRIBE and UNSUBSCRIBE command lines keep their topic and id.
pub proof fn lemma_subscription_args_keep_fields(topic: String, id: u32)
    ensures
        args_request(ClientArgs::Subscribe { topic }) == (RequestView::Subscribe { topic: topic@ }),
        args_request(ClientArgs::Unsubscribe { topic, id }) == (RequestView::Unsubscribe {
            topic: topic@,
            id,
        }),
{
}

/// The bytes of a text.
fn utf8_bytes(text: String) -> (r: Vec<u8>)
    ensures
        r@ == vstd::utf8::encode_utf8(text@),
{
    vstd::slice::slice_to_vec(text.as_str().as_bytes())
}

/// Builds the request that a command line stands for.
pub fn process_args(client_args: ClientArgs) -> (r: CmdRequest)
    ensures
        r@ == args_request(client_args),
        client_args matches ClientArgs::Get { key } ==> r@ == (RequestView::Get { key: key@ }),
        client_args matches ClientArgs::SetValue { key, value } ==> r@ == (RequestView::Store {
            key: key@,
            value: vstd::utf8::encode_utf8(value@),
        }),
        client_args matches ClientArgs::Publish { topic, value } ==> r@ == (RequestView::Publish {
            topic: topic@,
            value: vstd::utf8::encode_utf8(value@),
        }),
        client_args matches ClientArgs::Subscribe { topic } ==> r@ == (RequestView::Subscribe {
            topic: topic@,
        }),
        client_args matches ClientArgs::Unsubscribe { topic, id } ==> r@ == (
        RequestView::Unsubscribe { topic: topic@, id }),
{
    match client_args {
        ClientArgs::Get { key } => CmdRequest::get(key),
        ClientArgs::SetValue { key, value } => CmdRequest::set(key, utf8_bytes(value)),
        ClientArgs::Publish { topic, value } => CmdRequest::publish(topic, utf8_bytes(value)),
        ClientArgs::Subscribe { topic } => CmdRequest::subscribe(topic),
        ClientArgs::Unsubscribe { topic, id } => CmdRequest::unsubscribe(topic, id),
    }
}

} // verus!
