use std::cell::Cell;

use kvserver::cmd_request::ReqData;
use kvserver::{
    get_response, set_response, process_cmd, CmdRequest, CmdResponse, CmdService, Get, MemStorage, Service, SetValue, Storage,
    StorageError, StoreService,
};

fn bytes(s: &str) -> Vec<u8> {
    s.as_bytes().to_vec()
}

/// A store whose every call fails.
struct BrokenStorage;

impl Storage for BrokenStorage {
    fn get(&self, _key: &str) -> Result<Option<Vec<u8>>, StorageError> {
        Err(StorageError { message: "disk gone".to_string() })
    }

    fn set(&mut self, _key: &str, _value: Vec<u8>) -> Result<Option<Vec<u8>>, StorageError> {
        Err(StorageError { message: "disk full".to_string() })
    }
}

/// A store that accepts writes but hands nothing back.
struct SilentStorage;

impl Storage for SilentStorage {
    fn get(&self, _key: &str) -> Result<Option<Vec<u8>>, StorageError> {
        Ok(None)
    }

    fn set(&mut self, _key: &str, _value: Vec<u8>) -> Result<Option<Vec<u8>>, StorageError> {
        Ok(None)
    }
}

#[test]
fn get_missing_key_is_not_found() {
    let mut store = MemStorage::new();
    let res = process_cmd(CmdRequest::get("mykey".to_string()), &mut store);
    assert_eq!(res.status, 400);
    assert_eq!(res.message, "Not found");
    assert!(res.value.is_empty());
}

#[test]
fn set_echoes_value() {
    let mut store = MemStorage::new();
    let res = process_cmd(CmdRequest::set("k".to_string(), bytes("v1")), &mut store);
    assert_eq!(res, CmdResponse::new(200, "success".to_string(), bytes("v1")));
}

#[test]
fn read_after_write() {
    let mut store = MemStorage::new();
    process_cmd(CmdRequest::set("k".to_string(), bytes("hello")), &mut store);
    let res = process_cmd(CmdRequest::get("k".to_string()), &mut store);
    assert_eq!(res.status, 200);
    assert_eq!(res.message, "success");
    assert_eq!(res.value, bytes("hello"));
}

#[test]
fn last_write_wins() {
    let mut store = MemStorage::new();
    process_cmd(CmdRequest::set("k".to_string(), bytes("one")), &mut store);
    process_cmd(CmdRequest::set("k".to_string(), bytes("two")), &mut store);
    let res = process_cmd(CmdRequest::get("k".to_string()), &mut store);
    assert_eq!(res.value, bytes("two"));
}

#[test]
fn write_leaves_other_keys() {
    let mut store = MemStorage::new();
    process_cmd(CmdRequest::set("a".to_string(), bytes("1")), &mut store);
    process_cmd(CmdRequest::set("b".to_string(), bytes("2")), &mut store);
    assert_eq!(process_cmd(CmdRequest::get("a".to_string()), &mut store).value, bytes("1"));
    assert_eq!(process_cmd(CmdRequest::get("b".to_string()), &mut store).value, bytes("2"));
    assert_eq!(process_cmd(CmdRequest::get("c".to_string()), &mut store).message, "Not found");
}

#[test]
fn other_commands_are_invalid() {
    let mut store = MemStorage::new();
    let requests = vec![
        CmdRequest::publish("t".to_string(), bytes("x")),
        CmdRequest::subscribe("t".to_string()),
        CmdRequest::unsubscribe("t".to_string(), 3),
        CmdRequest { req_data: None },
    ];
    for req in requests {
        let res = process_cmd(req, &mut store);
        assert_eq!(res, CmdResponse::new(400, "Invalid command".to_string(), Vec::new()));
    }
    // Nothing was written.
    assert_eq!(store.get("t").unwrap(), None);
}

#[test]
fn storage_error_becomes_500() {
    let mut store = BrokenStorage;
    let res = process_cmd(CmdRequest::get("k".to_string()), &mut store);
    assert_eq!(res, CmdResponse::new(500, "disk gone".to_string(), Vec::new()));
    let res = process_cmd(CmdRequest::set("k".to_string(), bytes("v")), &mut store);
    assert_eq!(res, CmdResponse::new(500, "disk full".to_string(), Vec::new()));
}

#[test]
fn set_without_value_back_is_set_fail() {
    let mut store = SilentStorage;
    let res = process_cmd(CmdRequest::set("k".to_string(), bytes("v")), &mut store);
    assert_eq!(res, CmdResponse::new(400, "Set fail".to_string(), Vec::new()));
}

#[test]
fn commands_execute_directly() {
    let mut store = MemStorage::new();
    let set = SetValue { key: "x".to_string(), value: bytes("42") };
    assert_eq!(set.execute(&mut store).value, bytes("42"));
    let get = Get { key: "x".to_string() };
    assert_eq!(get.execute(&mut store).value, bytes("42"));
}

#[test]
fn mem_storage_get_and_set() {
    let mut store = MemStorage::new();
    assert_eq!(store.get("k").unwrap(), None);
    assert_eq!(store.set("k", bytes("v")).unwrap(), Some(bytes("v")));
    assert_eq!(store.get("k").unwrap(), Some(bytes("v")));
    assert_eq!(store.get("other").unwrap(), None);
}

#[test]
fn mem_storage_clone_is_separate() {
    let mut store = MemStorage::default();
    store.set("k", bytes("v")).unwrap();
    let mut copy = store.clone();
    assert_eq!(copy.get("k").unwrap(), Some(bytes("v")));
    copy.set("k", bytes("w")).unwrap();
    assert_eq!(store.get("k").unwrap(), Some(bytes("v")));
    assert_eq!(copy.get("k").unwrap(), Some(bytes("w")));
}

fn no_req(_: &CmdRequest) {}
fn no_res(_: &CmdResponse) {}
fn no_change(_: &mut CmdResponse) {}

type PlainService =
    Service<MemStorage, fn(&CmdRequest), fn(&CmdResponse), fn(&mut CmdResponse)>;

#[test]
fn service_without_hooks_answers_from_store() {
    let mut svc: PlainService = Service::new(MemStorage::new());
    let res = svc.execute(CmdRequest::set("k".to_string(), bytes("v")));
    assert_eq!(res, CmdResponse::new(200, "success".to_string(), bytes("v")));
    let res = svc.execute(CmdRequest::get("k".to_string()));
    assert_eq!(res.value, bytes("v"));
}

fn mark_created(res: &mut CmdResponse) {
    res.status = 201;
}

fn append_bang(res: &mut CmdResponse) {
    res.message.push('!');
}

#[test]
fn before_hooks_apply_in_order() {
    let store_svc: StoreService<MemStorage, fn(&CmdRequest), fn(&CmdResponse), fn(&mut CmdResponse)> =
        StoreService::new(MemStorage::new())
            .regist_recv_req(no_req as fn(&CmdRequest))
            .regist_exec_req(no_res as fn(&CmdResponse))
            .regist_before_res(mark_created as fn(&mut CmdResponse))
            .regist_before_res(append_bang as fn(&mut CmdResponse))
            .regist_before_res(no_change as fn(&mut CmdResponse));
    let mut svc: PlainService = Service::from(store_svc);
    let res = svc.execute(CmdRequest::set("k".to_string(), bytes("v")));
    assert_eq!(res, CmdResponse::new(201, "success!".to_string(), bytes("v")));
}

#[test]
fn request_and_response_hooks_see_each_call() {
    let seen_req = Cell::new(0u32);
    let seen_res = Cell::new(0u32);
    let on_req = |r: &CmdRequest| {
        if matches!(r.req_data, Some(ReqData::Get(_))) {
            seen_req.set(seen_req.get() + 1);
        }
    };
    let on_res = |r: &CmdResponse| seen_res.set(seen_res.get() + r.status);
    let store_svc = StoreService::new(MemStorage::new())
        .regist_recv_req(on_req)
        .regist_exec_req(on_res)
        .regist_before_res(no_change as fn(&mut CmdResponse));
    let mut svc = Service::from(store_svc);
    svc.execute(CmdRequest::get("a".to_string()));
    svc.execute(CmdRequest::set("a".to_string(), bytes("1")));
    svc.execute(CmdRequest::get("a".to_string()));
    assert_eq!(seen_req.get(), 2);
    assert_eq!(seen_res.get(), 400 + 200 + 200);
}

#[test]
fn unchanging_hooks_keep_answer() {
    let store_svc: StoreService<MemStorage, fn(&CmdRequest), fn(&CmdResponse), fn(&mut CmdResponse)> =
        StoreService::new(MemStorage::new())
            .regist_before_res(no_change as fn(&mut CmdResponse))
            .regist_before_res(no_change as fn(&mut CmdResponse));
    let mut svc: PlainService = store_svc.into();
    let res = svc.execute(CmdRequest::get("nothing".to_string()));
    assert_eq!(res, CmdResponse::new(400, "Not found".to_string(), Vec::new()));
}

#[test]
fn read_results_become_answers() {
    assert_eq!(
        get_response(Ok(Some(bytes("v")))),
        CmdResponse::new(200, "success".to_string(), bytes("v"))
    );
    assert_eq!(get_response(Ok(None)), CmdResponse::new(400, "Not found".to_string(), Vec::new()));
    assert_eq!(
        get_response(Err(StorageError { message: "io".to_string() })),
        CmdResponse::new(500, "io".to_string(), Vec::new())
    );
}

#[test]
fn write_results_become_answers() {
    assert_eq!(
        set_response(Ok(Some(bytes("v")))),
        CmdResponse::new(200, "success".to_string(), bytes("v"))
    );
    assert_eq!(set_response(Ok(None)), CmdResponse::new(400, "Set fail".to_string(), Vec::new()));
    assert_eq!(
        set_response(Err(StorageError { message: "full".to_string() })),
        CmdResponse::new(500, "full".to_string(), Vec::new())
    );
}
