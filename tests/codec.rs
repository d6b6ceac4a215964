use stratum_client::{
    classify, contains, decimal, encode_request, job_params, login_params, parse_difficulty,
    payload_kind, signed_decimal, str_eq, submit_params, tls_host_name, Algorithm, FrameKind,
    PayloadKind, RpcRequest,
};

fn decode(text: &str) -> RpcRequest {
    let v: serde_json::Value = serde_json::from_str(text).unwrap();
    RpcRequest {
        id: v["id"].as_str().unwrap().to_string(),
        jsonrpc: v["jsonrpc"].as_str().unwrap().to_string(),
        method: v["method"].as_str().unwrap().to_string(),
        params: if v["params"].is_null() { None } else { Some(v["params"].to_string()) },
    }
}

#[test]
fn request_round_trip() {
    let cases = vec![
        RpcRequest { id: "7".to_string(), jsonrpc: "2.0".to_string(), method: "status".to_string(), params: None },
        RpcRequest {
            id: "0".to_string(),
            jsonrpc: "2.0".to_string(),
            method: "we\"ird\\\nmethod é".to_string(),
            params: Some(login_params("al\"ice", "p\tw", "epic-miner/v1")),
        },
        RpcRequest {
            id: "12".to_string(),
            jsonrpc: "2.0".to_string(),
            method: "submit".to_string(),
            params: Some(submit_params(1234, 42, u64::MAX, "{\"a\":[1,2]}")),
        },
    ];
    for req in cases {
        let text = encode_request(&req);
        assert!(!text.contains('\n'));
        let back = decode(&text);
        assert_eq!(back.id, req.id);
        assert_eq!(back.jsonrpc, req.jsonrpc);
        assert_eq!(back.method, req.method);
        match (&back.params, &req.params) {
            (None, None) => {}
            (Some(a), Some(b)) => assert_eq!(
                serde_json::from_str::<serde_json::Value>(a).unwrap(),
                serde_json::from_str::<serde_json::Value>(b).unwrap()
            ),
            _ => panic!("params differ"),
        }
    }
}

#[test]
fn request_text_is_canonical() {
    let req = RpcRequest { id: "0".to_string(), jsonrpc: "2.0".to_string(), method: "login".to_string(),
        params: Some(login_params("user", "x", "epic-miner/v1.2.3")) };
    assert_eq!(
        encode_request(&req),
        "{\"id\":\"0\",\"jsonrpc\":\"2.0\",\"method\":\"login\",\"params\":{\"login\":\"user\",\"pass\":\"x\",\"agent\":\"epic-miner/v1.2.3\"}}"
    );
    let status = RpcRequest { id: "3".to_string(), jsonrpc: "2.0".to_string(), method: "status".to_string(), params: None };
    assert_eq!(encode_request(&status), "{\"id\":\"3\",\"jsonrpc\":\"2.0\",\"method\":\"status\",\"params\":null}");
    assert_eq!(job_params("progpow"), "{\"algorithm\":\"progpow\"}");
    assert_eq!(submit_params(1234, 42, 99887766, "{}"), "{\"height\":1234,\"job_id\":42,\"nonce\":99887766,\"pow\":{}}");
}

#[test]
fn frames_classified_by_method() {
    assert_eq!(classify(Some("job")), FrameKind::Request);
    assert_eq!(classify(Some("getjobtemplate")), FrameKind::Response);
    assert_eq!(classify(Some("submit")), FrameKind::Response);
    assert_eq!(classify(None), FrameKind::Response);
    assert_eq!(payload_kind("job"), PayloadKind::Job);
    assert_eq!(payload_kind("getjobtemplate"), PayloadKind::Job);
    assert_eq!(payload_kind("status"), PayloadKind::Status);
    assert_eq!(payload_kind("seed"), PayloadKind::Seed);
    assert_eq!(payload_kind("submit"), PayloadKind::Untyped);
}

#[test]
fn algorithm_tokens() {
    assert_eq!(Algorithm::Cuckoo.token(), "cuckoo");
    assert_eq!(Algorithm::RandomX.parse_algorithm(), "randomx");
    assert_eq!(Algorithm::ProgPow.display_name(), "ProgPow");
    assert_eq!(Algorithm::from_token("progpow").unwrap(), Algorithm::ProgPow);
    assert!(matches!(Algorithm::from_token("sha256"), Err(stratum_client::Error::RequestError(ref m)) if m == "Algorithm isn't supported!"));
    assert_eq!(stratum_client::display_name_for_token("cuckoo"), "Cuckatoo");
    assert_eq!(stratum_client::display_name_for_token("x"), "");
}

#[test]
fn text_helpers() {
    assert_eq!(decimal(0), "0");
    assert_eq!(decimal(u64::MAX), "18446744073709551615");
    assert_eq!(signed_decimal(-1), "-1");
    assert_eq!(signed_decimal(i64::MIN), "-9223372036854775808");
    assert_eq!(signed_decimal(i64::MAX), "9223372036854775807");
    assert!(contains("share is too late", "too late"));
    assert!(contains("\"blockfound\"", "blockfound"));
    assert!(!contains("too lat", "too late"));
    assert!(contains("abc", ""));
    assert!(str_eq("héllo", "héllo"));
    assert!(!str_eq("a", "ab"));
}

#[test]
fn difficulty_summary_uses_last_entries() {
    let list = vec![
        ("cuckoo".to_string(), 1000),
        ("progpow".to_string(), 5),
        ("cuckoo".to_string(), 2000),
        ("sha".to_string(), 9),
    ];
    assert_eq!(parse_difficulty(&list), "Cuckatoo: 2000, ProgPow: 5, RandomX: Nan");
    assert_eq!(parse_difficulty(&vec![]), "Cuckatoo: Nan, ProgPow: Nan, RandomX: Nan");
    assert_eq!(stratum_client::difficulty_for_algorithm(&list, Algorithm::Cuckoo), 1000);
    assert_eq!(stratum_client::difficulty_for_algorithm(&list, Algorithm::RandomX), 1);
}

#[test]
fn tls_name_is_full_host() {
    assert_eq!(tls_host_name("pool.example.com:3333").unwrap(), "pool.example.com");
    assert_eq!(tls_host_name("pool.co.uk:1").unwrap(), "pool.co.uk");
    assert_eq!(tls_host_name("10.0.0.1").unwrap(), "10.0.0.1");
    assert_eq!(tls_host_name("localhost:3416").unwrap(), "localhost");
    assert!(tls_host_name(":3416").is_none());
}

#[test]
fn string_escaping_is_exact() {
    let req = RpcRequest {
        id: "a\"b\\c".to_string(),
        jsonrpc: "2.0".to_string(),
        method: "\u{8}\t\n\u{c}\r\u{1}\u{1f} é/".to_string(),
        params: None,
    };
    assert_eq!(
        encode_request(&req),
        "{\"id\":\"a\\\"b\\\\c\",\"jsonrpc\":\"2.0\",\"method\":\"\\b\\t\\n\\f\\r\\u0001\\u001f é/\",\"params\":null}"
    );
}
