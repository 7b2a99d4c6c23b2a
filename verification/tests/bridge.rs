use ding_push::http::HttpServer;
use ding_push::lua_service::{
    Header, LuaRequest, LuaSvr, MakeLuaSvr, ResponseError, ScriptOutcome, ScriptValue,
};

fn header(name: &str, value: &str) -> Header {
    Header { name: name.to_string(), value: value.to_string() }
}

fn request() -> LuaRequest {
    LuaRequest::new(
        "127.0.0.1:8080".to_string(),
        vec![header("Host", "my-awesome-agent/1.0")],
    )
}

#[test]
fn test_lua_svr() {
    let req = request();
    let h = req.get_header("Host");
    assert_eq!(h, "my-awesome-agent/1.0");
    let svr = LuaSvr::new("127.0.0.1:8080".to_string());
    let resp = svr.call(ScriptOutcome::Returned {
        body: ScriptValue::Bytes(h.into_bytes()),
        status: ScriptValue::Nil,
    });
    assert_eq!(resp.status, 200);
    assert_eq!(std::str::from_utf8(&resp.body[..]).unwrap(), "my-awesome-agent/1.0");
}

#[test]
fn status_and_body_passed_through() {
    let svr = LuaSvr::new("127.0.0.1:8080".to_string());
    let resp = svr.call(ScriptOutcome::Returned {
        body: ScriptValue::Bytes(b"x".to_vec()),
        status: ScriptValue::Integer(200),
    });
    assert_eq!(resp.status, 200);
    assert_eq!(resp.body, b"x".to_vec());
}

#[test]
fn status_defaults_to_200() {
    let svr = LuaSvr::new("127.0.0.1:8080".to_string());
    let resp = svr.call(ScriptOutcome::Returned {
        body: ScriptValue::Bytes(b"y".to_vec()),
        status: ScriptValue::Nil,
    });
    assert_eq!(resp.status, 200);
    assert_eq!(resp.body, b"y".to_vec());
}

#[test]
fn status_of_unexpected_type_defaults_to_200() {
    let svr = LuaSvr::new("127.0.0.1:8080".to_string());
    let resp = svr.call(ScriptOutcome::Returned {
        body: ScriptValue::Bytes(b"y".to_vec()),
        status: ScriptValue::Boolean(true),
    });
    assert_eq!(resp.status, 200);
}

#[test]
fn failure_then_success_on_same_connection() {
    let svr = LuaSvr::new("10.0.0.7:55000".to_string());
    let failed = svr.call(ScriptOutcome::Failed);
    assert_eq!(failed.status, 500);
    assert_eq!(std::str::from_utf8(&failed.body[..]).unwrap(), "Intenal Error");
    let ok = svr.call(ScriptOutcome::Returned {
        body: ScriptValue::Bytes(b"still here".to_vec()),
        status: ScriptValue::Integer(200),
    });
    assert_eq!(ok.status, 200);
    assert_eq!(ok.body, b"still here".to_vec());
}

#[test]
fn get_header_present_and_absent() {
    let req = request();
    assert_eq!(req.get_header("Host"), "my-awesome-agent/1.0");
    assert_eq!(req.get_header("host"), "my-awesome-agent/1.0");
    assert_eq!(req.get_header("HOST"), "my-awesome-agent/1.0");
    assert_eq!(req.get_header("X-Missing"), "");
}

#[test]
fn get_header_first_match_wins() {
    let req = LuaRequest::new(
        "127.0.0.1:8080".to_string(),
        vec![
            header("Accept", "text/html"),
            header("X-Tag", "first"),
            header("x-tag", "second"),
        ],
    );
    assert_eq!(req.get_header("X-Tag"), "first");
    assert_eq!(req.get_header("X-TAG"), "first");
    assert_eq!(req.get_header("Accept"), "text/html");
}

#[test]
fn get_header_on_empty_request() {
    let req = LuaRequest::new("127.0.0.1:8080".to_string(), vec![]);
    assert_eq!(req.get_header("Host"), "");
}

#[test]
fn remote_addr_is_the_literal_address() {
    let req = request();
    assert_eq!(req.remote_addr(), "127.0.0.1:8080");
    let other = LuaRequest::new("192.168.1.9:1234".to_string(), vec![]);
    assert_eq!(other.remote_addr(), "192.168.1.9:1234");
}

#[test]
fn conversion_rejects_missing_body() {
    let r = ding_push::lua_service::convert_response(ScriptValue::Nil, ScriptValue::Nil);
    assert!(matches!(r, Err(ResponseError::MissingBody)));
}

#[test]
fn conversion_rejects_non_string_body() {
    let r = ding_push::lua_service::convert_response(
        ScriptValue::Boolean(false),
        ScriptValue::Nil,
    );
    assert!(matches!(r, Err(ResponseError::InvalidBody)));
    let r = ding_push::lua_service::convert_response(
        ScriptValue::Integer(5),
        ScriptValue::Nil,
    );
    assert!(matches!(r, Err(ResponseError::InvalidBody)));
}

#[test]
fn conversion_rejects_out_of_range_status() {
    let r = ding_push::lua_service::convert_response(
        ScriptValue::Bytes(b"z".to_vec()),
        ScriptValue::Integer(1000),
    );
    assert!(matches!(r, Err(ResponseError::InvalidStatus)));
    let r = ding_push::lua_service::convert_response(
        ScriptValue::Bytes(b"z".to_vec()),
        ScriptValue::Integer(99),
    );
    assert!(matches!(r, Err(ResponseError::InvalidStatus)));
}

#[test]
fn conversion_keeps_status_range_edges() {
    let r = ding_push::lua_service::convert_response(
        ScriptValue::Bytes(b"a".to_vec()),
        ScriptValue::Integer(100),
    )
    .unwrap();
    assert_eq!(r.status, 100);
    let r = ding_push::lua_service::convert_response(
        ScriptValue::Bytes(b"a".to_vec()),
        ScriptValue::Integer(599),
    )
    .unwrap();
    assert_eq!(r.status, 599);
}

#[test]
fn factory_binds_each_connection_address() {
    let factory = MakeLuaSvr::new();
    let a = factory.call("1.2.3.4:50000".to_string());
    let b = factory.call("5.6.7.8:50001".to_string());
    let ra = a.make_context(vec![]);
    let rb = b.make_context(vec![]);
    assert_eq!(ra.remote_addr(), "1.2.3.4:50000");
    assert_eq!(rb.remote_addr(), "5.6.7.8:50001");
}

#[test]
fn interleaved_requests_do_not_bleed() {
    let a = LuaSvr::new("1.2.3.4:50000".to_string());
    let b = LuaSvr::new("5.6.7.8:50001".to_string());
    let ra = a.call(ScriptOutcome::Returned {
        body: ScriptValue::Bytes(b"alpha".to_vec()),
        status: ScriptValue::Integer(201),
    });
    let rb = b.call(ScriptOutcome::Returned {
        body: ScriptValue::Bytes(b"beta".to_vec()),
        status: ScriptValue::Integer(404),
    });
    let rc = a.call(ScriptOutcome::Failed);
    assert_eq!((ra.status, ra.body), (201, b"alpha".to_vec()));
    assert_eq!((rb.status, rb.body), (404, b"beta".to_vec()));
    assert_eq!(rc.status, 500);
}

#[test]
fn server_keeps_its_script_path() {
    let svr = HttpServer::new("handler.lua".to_string());
    assert_eq!(svr.lua_file(), "handler.lua");
}
