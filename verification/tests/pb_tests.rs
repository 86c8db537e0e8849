use kvserver::cmd_request::ReqData;
use kvserver::{
    process_args, ClientArgs, CmdRequest, CmdResponse, Get, Publish, SetValue, StorageError,
    Subscribe, Unsubscribe,
};

#[test]
fn request_constructors() {
    assert_eq!(
        CmdRequest::get("k".to_string()).req_data,
        Some(ReqData::Get(Get { key: "k".to_string() }))
    );
    assert_eq!(
        CmdRequest::set("k".to_string(), vec![1, 2]).req_data,
        Some(ReqData::SetValue(SetValue { key: "k".to_string(), value: vec![1, 2] }))
    );
    assert_eq!(
        CmdRequest::publish("t".to_string(), vec![3]).req_data,
        Some(ReqData::Publish(Publish { topic: "t".to_string(), value: vec![3] }))
    );
    assert_eq!(
        CmdRequest::subscribe("t".to_string()).req_data,
        Some(ReqData::Subscribe(Subscribe { topic: "t".to_string() }))
    );
    assert_eq!(
        CmdRequest::unsubscribe("t".to_string(), 7).req_data,
        Some(ReqData::Unsubscribe(Unsubscribe { topic: "t".to_string(), id: 7 }))
    );
}

#[test]
fn response_constructors() {
    let r = CmdResponse::new(200, "success".to_string(), vec![9]);
    assert_eq!((r.status, r.message.as_str(), r.value.as_slice()), (200, "success", &[9u8][..]));
    let r = CmdResponse::from_value(vec![1, 2, 3]);
    assert_eq!(r, CmdResponse::new(200, "success".to_string(), vec![1, 2, 3]));
    let r = CmdResponse::from_message("Not found");
    assert_eq!(r, CmdResponse::new(400, "Not found".to_string(), vec![]));
    let r = CmdResponse::from_error(StorageError { message: "boom".to_string() });
    assert_eq!(r, CmdResponse::new(500, "boom".to_string(), vec![]));
}

#[test]
fn args_become_requests() {
    assert_eq!(
        process_args(ClientArgs::Get { key: "k".to_string() }),
        CmdRequest::get("k".to_string())
    );
    assert_eq!(
        process_args(ClientArgs::SetValue { key: "k".to_string(), value: "hé".to_string() }),
        CmdRequest::set("k".to_string(), vec![b'h', 0xc3, 0xa9])
    );
    assert_eq!(
        process_args(ClientArgs::Publish { topic: "t".to_string(), value: "v".to_string() }),
        CmdRequest::publish("t".to_string(), vec![b'v'])
    );
    assert_eq!(
        process_args(ClientArgs::Subscribe { topic: "t".to_string() }),
        CmdRequest::subscribe("t".to_string())
    );
    assert_eq!(
        process_args(ClientArgs::Unsubscribe { topic: "t".to_string(), id: 5 }),
        CmdRequest::unsubscribe("t".to_string(), 5)
    );
}
