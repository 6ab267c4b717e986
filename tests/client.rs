use aleo_rpc::client::{decoded, read_reply};
use aleo_rpc::path::{block_url_text, decimal_text, push_decimal, trim_end_slashes_of};
use aleo_rpc::{AleoRpcClient, FetchError, Reply, REQUEST_TIMEOUT_SECS};

fn client(base: &str) -> AleoRpcClient {
    match AleoRpcClient::new(base) {
        Ok(c) => c,
        Err(e) => panic!("transport could not be built: {:?}", e),
    }
}

fn answered(status: u16, body: &str) -> Reply {
    Reply::Answered { status, body: Ok(body.to_string()) }
}

#[test]
fn trailing_slashes_are_trimmed() {
    assert_eq!(trim_end_slashes_of("https://api.example.com/v1/mainnet///"), "https://api.example.com/v1/mainnet");
    assert_eq!(trim_end_slashes_of("https://api.example.com/v1/mainnet"), "https://api.example.com/v1/mainnet");
    assert_eq!(trim_end_slashes_of("a//b/"), "a//b");
    assert_eq!(trim_end_slashes_of("///"), "");
    assert_eq!(trim_end_slashes_of(""), "");
}

#[test]
fn block_url_has_no_double_slash_after_trimmed_base() {
    for base in ["https://api.example.com/v1/mainnet", "https://api.example.com/v1/mainnet/", "https://api.example.com/v1/mainnet////"] {
        let c = client(base);
        let url = c.block_url(7);
        assert_eq!(url, "https://api.example.com/v1/mainnet/block/7");
        assert!(!url["https://".len()..].contains("//"));
    }
}

#[test]
fn block_url_of_all_slash_base() {
    let c = client("////");
    assert_eq!(c.block_url(0), "/block/0");
}

#[test]
fn block_url_for_height() {
    let c = client("https://api.example.com/v1/mainnet/");
    assert_eq!(c.block_url(1203484), "https://api.example.com/v1/mainnet/block/1203484");
    assert_eq!(c.block_url(u32::MAX), "https://api.example.com/v1/mainnet/block/4294967295");
}

#[test]
fn decimal_notation() {
    assert_eq!(decimal_text(0), "0");
    assert_eq!(decimal_text(9), "9");
    assert_eq!(decimal_text(10), "10");
    assert_eq!(decimal_text(1203484), "1203484");
    assert_eq!(decimal_text(u32::MAX), "4294967295");
    let mut s = String::from("x=");
    push_decimal(&mut s, 405);
    assert_eq!(s, "x=405");
    assert_eq!(block_url_text("b", 12), "b/block/12");
}

#[test]
fn timeout_is_five_seconds() {
    assert_eq!(REQUEST_TIMEOUT_SECS, 5);
}

#[test]
fn success_with_json_returns_the_document() {
    let c = client("http://localhost:1");
    let r = c.get_resource("http://localhost:1/x", answered(200, r#"{"height": 12, "hash": "ab", "list": [1, 2]}"#));
    let mut expected = serde_json::Map::new();
    expected.insert("height".to_string(), serde_json::Value::from(12));
    expected.insert("hash".to_string(), serde_json::Value::from("ab"));
    expected.insert("list".to_string(), serde_json::Value::Array(vec![serde_json::Value::from(1), serde_json::Value::from(2)]));
    match r {
        Ok(v) => assert_eq!(v, serde_json::Value::Object(expected)),
        Err(e) => panic!("unexpected error: {}", e.message()),
    }
}

#[test]
fn not_found_is_an_http_status_error() {
    let c = client("http://localhost:1");
    match c.get_resource("http://localhost:1/block/9", answered(404, "not found")) {
        Err(FetchError::HttpStatus { url, status, body }) => {
            assert_eq!(url, "http://localhost:1/block/9");
            assert_eq!(status, 404);
            assert_eq!(body, "not found");
        }
        other => panic!("unexpected result: {:?}", other),
    }
}

#[test]
fn invalid_json_is_a_decode_error_with_the_body() {
    let c = client("http://localhost:1");
    match c.get_resource("http://localhost:1/block/9", answered(200, "{not valid json")) {
        Err(FetchError::Decode { url, body, .. }) => {
            assert_eq!(url, "http://localhost:1/block/9");
            assert_eq!(body, "{not valid json");
        }
        other => panic!("unexpected result: {:?}", other),
    }
}

#[test]
fn error_status_with_invalid_json_is_not_decoded() {
    let c = client("http://localhost:1");
    match c.get_resource("u", answered(500, "{not valid json")) {
        Err(FetchError::HttpStatus { status, body, .. }) => {
            assert_eq!(status, 500);
            assert_eq!(body, "{not valid json");
        }
        other => panic!("unexpected result: {:?}", other),
    }
}

#[test]
fn timeout_is_a_transport_error() {
    let c = client("http://localhost:1");
    let reply = Reply::Unanswered { cause: "operation timed out".to_string(), timed_out: true };
    match c.get_resource("http://localhost:1/block/1", reply) {
        Err(FetchError::Transport { url, cause, timed_out }) => {
            assert_eq!(url, "http://localhost:1/block/1");
            assert_eq!(cause, "operation timed out");
            assert!(timed_out);
        }
        other => panic!("unexpected result: {:?}", other),
    }
}

#[test]
fn unreadable_body_is_a_body_read_error() {
    let reply = Reply::Answered { status: 200, body: Err("connection reset".to_string()) };
    match read_reply("u", reply) {
        Err(FetchError::BodyRead { url, status, cause }) => {
            assert_eq!(url, "u");
            assert_eq!(status, 200);
            assert_eq!(cause, "connection reset");
        }
        other => panic!("unexpected result: {:?}", other),
    }
}

#[test]
fn success_class_bounds() {
    assert!(matches!(read_reply("u", answered(200, "a")), Ok(b) if b == "a"));
    assert!(matches!(read_reply("u", answered(299, "b")), Ok(b) if b == "b"));
    assert!(matches!(read_reply("u", answered(199, "c")), Err(FetchError::HttpStatus { status: 199, .. })));
    assert!(matches!(read_reply("u", answered(300, "d")), Err(FetchError::HttpStatus { status: 300, .. })));
}

#[test]
fn decoded_keeps_value_or_body() {
    let ok: Result<u8, serde_json::Error> = Ok(3);
    assert!(matches!(decoded("u", "3".to_string(), ok), Ok(3)));
    let bad = serde_json::from_str::<u8>("x");
    match decoded("u", "x".to_string(), bad) {
        Err(FetchError::Decode { url, body, .. }) => {
            assert_eq!(url, "u");
            assert_eq!(body, "x");
        }
        other => panic!("unexpected result: {:?}", other),
    }
}

#[test]
fn get_block_uses_the_block_url() {
    let c = client("https://api.example.com/v1/mainnet/");
    match c.get_block(1203484, answered(404, "missing")) {
        Err(FetchError::HttpStatus { url, status, body }) => {
            assert_eq!(url, "https://api.example.com/v1/mainnet/block/1203484");
            assert_eq!(status, 404);
            assert_eq!(body, "missing");
        }
        other => panic!("unexpected result: {:?}", other),
    }
    assert!(c.get_block(1, answered(200, "[1,2,3]")).is_ok());
}

#[test]
fn messages_quote_url_status_and_body() {
    let c = client("b");
    let e = c.get_resource("http://h/block/3", answered(404, "not found")).unwrap_err();
    assert_eq!(e.message(), "request http://h/block/3 failed, status: 404, body: not found");
    let e = c.get_resource("http://h/block/3", answered(200, "{not valid json")).unwrap_err();
    assert_eq!(e.message(), "request http://h/block/3 returned a body that does not decode: {not valid json");
    let e = read_reply("u", Reply::Unanswered { cause: "dns".to_string(), timed_out: false }).unwrap_err();
    assert_eq!(e.message(), "request u got no response: dns");
    let e = read_reply("u", Reply::Unanswered { cause: "slow".to_string(), timed_out: true }).unwrap_err();
    assert_eq!(e.message(), "request u timed out: slow");
    let e = read_reply("u", Reply::Answered { status: 201, body: Err("cut".to_string()) }).unwrap_err();
    assert_eq!(e.message(), "request u, status: 201, body could not be read: cut");
}

#[test]
fn calls_on_one_client_keep_their_own_results() {
    let c = client("https://api.example.com/v1/mainnet");
    let shared = c.clone();
    let a = c.get_block(1, answered(200, r#"{"n": 1}"#));
    let b = shared.get_block(2, answered(404, "two"));
    let d = c.get_block(3, answered(200, r#"{"n": 3}"#));
    assert_eq!(a.unwrap()["n"], serde_json::Value::from(1));
    match b {
        Err(FetchError::HttpStatus { url, body, .. }) => {
            assert_eq!(url, "https://api.example.com/v1/mainnet/block/2");
            assert_eq!(body, "two");
        }
        other => panic!("unexpected result: {:?}", other),
    }
    assert_eq!(d.unwrap()["n"], serde_json::Value::from(3));
    assert_eq!(shared.block_url(5), c.block_url(5));
}
