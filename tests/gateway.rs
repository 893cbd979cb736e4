use ccip_read_server::dispatch::{complete, not_found, success, unexpected_error, BodyField, Route, RPCCall};
use ccip_read_server::errors::CCIPReadMiddlewareError;
use ccip_read_server::gateway::{
    ends_with, gateway, gateway_get, gateway_post, parse_calldata, CCIPReadMiddlewareRequest,
};
use ccip_read_server::selector::{selector_from, selector_of, signature_text};
use ccip_read_server::server::{key_of, IpAddress, Server};
use ethers_core::abi::{AbiParser, ParamType, Token};

const RESOLVE_ABI: &str = r#"[
    function resolve(bytes memory name, bytes memory data) external view returns(bytes memory)
]"#;

const UNKNOWN_SELECTOR_CALL: &str = "0x9061b92300000000000000000000000000000000000000000000000000000000000000400000000000000000000000000000000000000000000000000000000000000080000000000000000000000000000000000000000000000000000000000000000a0474657374036574680000000000000000000000000000000000000000000000000000000000000000000000000000000000000000000000000000000000008459d1d43ceb4f647bea6caa36333c816d7b46fdcb05f9466ecacc140ea8c66faf15b3d9f100000000000000000000000000000000000000000000000000000000000000400000000000000000000000000000000000000000000000000000000000000005656d61696c00000000000000000000000000000000000000000000000000000000000000000000000000000000000000000000000000000000000000.json";

const RESOLVE_CALL: &str = "0x9061b92300000000000000000000000000000000000000000000000000000000000000400000000000000000000000000000000000000000000000000000000000000080000000000000000000000000000000000000000000000000000000000000000a047465737403657468000000000000000000000000000000000000000000000000000000000000000000000000000000000000000000000000000000000000243b3b57deeb4f647bea6caa36333c816d7b46fdcb05f9466ecacc140ea8c66faf15b3d9f100000000000000000000000000000000000000000000000000000000.json";

const SENDER: &str = "0x8464135c8f25da09e49bc8782676a84730c318bc";

fn empty_server() -> Server<u32> {
    Server::new(IpAddress::V4([127, 0, 0, 1]), 8080)
}

fn resolver_server() -> Server<u32> {
    let abi = AbiParser::default().parse_str(RESOLVE_ABI).unwrap();
    let mut server = empty_server();
    assert!(server.add(&abi, "resolve", 7).is_ok());
    server
}

fn respond(route: Route) -> (u16, BodyField, String) {
    match route {
        Route::Respond(r) => (r.status, r.field, r.text),
        Route::Invoke { .. } => panic!("expected a direct answer"),
    }
}

#[test]
fn it_parse_offchain_resolver_abi() {
    let abi = AbiParser::default().parse_str(RESOLVE_ABI).unwrap();
    let mut server = empty_server();
    assert_eq!(server.add(&abi, "resolve", 1), Ok(()));
    assert_eq!(server.len(), 1);
    let entry = server.entry(0x9061b923).unwrap();
    assert_eq!(entry.selector, [0x90, 0x61, 0xb9, 0x23]);
    assert_eq!(entry.name, "resolve");
    assert_eq!(entry.input_types, vec!["bytes".to_string(), "bytes".to_string()]);
    println!("{:?}", entry.function);
}

#[test]
fn test_gateway_get_on_unknown_selector() {
    let server = empty_server();
    let (status, field, text) =
        respond(gateway_get(&server, SENDER.to_string(), UNKNOWN_SELECTOR_CALL.to_string()));
    assert_eq!(status, 404);
    assert_eq!(field, BodyField::Message);
    assert_eq!(text, "No implementation for function with selector 0x9061b923");
}

#[test]
fn unknown_selector_with_resolver_registered() {
    let server = resolver_server();
    let calldata = format!("0x59d1d43c{}", "00".repeat(64));
    let (status, field, text) = respond(gateway_get(&server, SENDER.to_string(), calldata));
    assert_eq!(status, 404);
    assert_eq!(field, BodyField::Message);
    assert_eq!(text, "No implementation for function with selector 0x59d1d43c");
}

#[test]
fn unknown_selector_ignores_invalid_rest() {
    let server = resolver_server();
    let (status, _, text) = respond(server.route(RPCCall { to: SENDER.to_string(), data: vec![0xde, 0xad, 0xbe, 0xef, 1, 2, 3] }));
    assert_eq!(status, 404);
    assert_eq!(text, "No implementation for function with selector 0xdeadbeef");
}

#[test]
fn short_calldata_is_not_found() {
    let server = resolver_server();
    let (status, _, text) = respond(gateway_get(&server, SENDER.to_string(), "0x1234".to_string()));
    assert_eq!(status, 404);
    assert_eq!(text, "No implementation for function with selector 0x1234");
    let (status, _, text) = respond(gateway_get(&server, SENDER.to_string(), "0x".to_string()));
    assert_eq!(status, 404);
    assert_eq!(text, "No implementation for function with selector 0x");
}

#[test]
fn non_hex_calldata_is_unexpected_error() {
    let server = resolver_server();
    for bad in ["0x9061b9zz", "9061b923", "0x9061b92", "", "0", "0x0x", "0x0x12345678"] {
        let (status, field, text) = respond(gateway(&server, SENDER.to_string(), bad));
        assert_eq!(status, 500);
        assert_eq!(field, BodyField::Message);
        assert_eq!(text, "Unexpected error");
    }
}

#[test]
fn get_and_post_agree() {
    let server = resolver_server();
    for calldata in ["0x9061b92300", "0x59d1d43c", "0xzz", "0x12"] {
        let get = respond(gateway_get(&server, SENDER.to_string(), calldata.to_string()));
        let post = respond(gateway_post(
            &server,
            CCIPReadMiddlewareRequest { sender: SENDER.to_string(), calldata: calldata.to_string() },
        ));
        assert_eq!(get, post);
    }
}

#[test]
fn identical_requests_identical_answers() {
    let server = resolver_server();
    let first = respond(gateway(&server, SENDER.to_string(), "0x59d1d43c00"));
    let second = respond(gateway(&server, SENDER.to_string(), "0x59d1d43c00"));
    assert_eq!(first, second);
    assert_eq!(success(&[1, 2]).text, success(&[1, 2]).text);
}

#[test]
fn registered_selector_invokes_handler() {
    let server = resolver_server();
    match gateway_get(&server, SENDER.to_string(), RESOLVE_CALL.to_string()) {
        Route::Invoke { key, args, call } => {
            assert_eq!(key, 0x9061b923);
            assert_eq!(server.entry(key).unwrap().handler, 7);
            assert_eq!(call.to, SENDER);
            assert_eq!(call.data.len(), (RESOLVE_CALL.len() - 2 - 5) / 2);
            assert_eq!(&call.data[0..4], &[0x90, 0x61, 0xb9, 0x23]);
            assert_eq!(args.len(), 2);
            assert_eq!(args[0], Token::Bytes(b"\x04test\x03eth\x00".to_vec()));
        }
        Route::Respond(_) => panic!("expected the handler to be invoked"),
    }
}

#[test]
fn undecodable_arguments_are_unexpected_error() {
    let server = resolver_server();
    let (status, field, text) = respond(gateway(&server, SENDER.to_string(), "0x9061b92300"));
    assert_eq!(status, 500);
    assert_eq!(field, BodyField::Message);
    assert_eq!(text, "Unexpected error");
}

#[test]
fn handler_result_round_trips() {
    let tokens = vec![Token::Bytes(vec![0xca, 0xfe, 0x01])];
    let response = complete::<()>(Ok(tokens.clone()));
    assert_eq!(response.status, 200);
    assert_eq!(response.field, BodyField::Data);
    assert!(response.text.starts_with("0x"));
    let bytes = parse_calldata(&response.text, ".json").unwrap();
    let decoded = ethers_core::abi::decode(&[ParamType::Bytes], &bytes).unwrap();
    assert_eq!(decoded, tokens);
}

#[test]
fn handler_failure_is_unexpected_error() {
    let response = complete::<String>(Err("boom".to_string()));
    assert_eq!(response.status, 500);
    assert_eq!(response.field, BodyField::Message);
    assert_eq!(response.text, "Unexpected error");
    let fixed = unexpected_error();
    assert_eq!((fixed.status, fixed.text), (500, "Unexpected error".to_string()));
}

#[test]
fn success_renders_lower_case_hex() {
    let r = success(&[0xab, 0x01, 0xff]);
    assert_eq!(r.status, 200);
    assert_eq!(r.text, "0xab01ff");
    assert_eq!(success(&[]).text, "0x");
    assert_eq!(not_found(&[0x0a, 0xbc]).text, "No implementation for function with selector 0x0abc");
}

#[test]
fn selector_of_resolve() {
    let types = vec!["bytes".to_string(), "bytes".to_string()];
    assert_eq!(signature_text("resolve", &types), "resolve(bytes,bytes)");
    assert_eq!(selector_of("resolve", &types), [0x90, 0x61, 0xb9, 0x23]);
    assert_eq!(selector_of("resolve", &types), selector_of("resolve", &types));
    assert_eq!(signature_text("f", &vec![]), "f()");
    assert_eq!(selector_of("transfer", &vec!["address".to_string(), "uint256".to_string()]), [0xa9, 0x05, 0x9c, 0xbb]);
}

#[test]
fn selector_from_calldata() {
    assert_eq!(selector_from(&[1, 2, 3, 4, 5]), Ok([1, 2, 3, 4]));
    assert_eq!(selector_from(&[1, 2, 3]), Err(CCIPReadMiddlewareError::MalformedCall));
    assert_eq!(selector_from(&[]), Err(CCIPReadMiddlewareError::MalformedCall));
}

#[test]
fn calldata_text_parsing() {
    assert_eq!(parse_calldata("0xABcd.json", ".json"), Some(vec![0xab, 0xcd]));
    assert_eq!(parse_calldata("0xabcd", ".json"), Some(vec![0xab, 0xcd]));
    assert_eq!(parse_calldata("0x", ".json"), Some(vec![]));
    assert_eq!(parse_calldata("0x0x12", ".json"), None);
    assert_eq!(parse_calldata("0x0X12", ".json"), None);
    assert_eq!(parse_calldata("0xabc", ".json"), None);
    assert_eq!(parse_calldata("abcd", ".json"), None);
    assert_eq!(parse_calldata("0xab.txt", ".txt"), Some(vec![0xab]));
    assert!(ends_with("a.json", ".json"));
    assert!(!ends_with("json", ".json"));
    assert!(ends_with("x", ""));
}

#[test]
fn add_unknown_function_fails() {
    let abi = AbiParser::default().parse_str(RESOLVE_ABI).unwrap();
    let mut server = resolver_server();
    assert_eq!(server.add(&abi, "missing", 9), Err(CCIPReadMiddlewareError::UnknownFunction));
    assert_eq!(server.len(), 1);
    assert_eq!(CCIPReadMiddlewareError::UnknownFunction.message(), "Unknown function");
}

#[test]
fn add_same_selector_replaces_handler() {
    let abi = AbiParser::default().parse_str(RESOLVE_ABI).unwrap();
    let mut server = resolver_server();
    assert!(server.add(&abi, "resolve", 8).is_ok());
    assert_eq!(server.len(), 1);
    assert_eq!(server.entry(0x9061b923).unwrap().handler, 8);
    assert_eq!(server.port(), 8080);
    assert!(matches!(server.ip_address(), IpAddress::V4([127, 0, 0, 1])));
}

#[test]
fn double_prefix_is_unexpected_error_for_both_entries() {
    let server = empty_server();
    let get = respond(gateway_get(&server, SENDER.to_string(), "0x0x12345678".to_string()));
    let post = respond(gateway_post(
        &server,
        CCIPReadMiddlewareRequest { sender: SENDER.to_string(), calldata: "0x0x12345678".to_string() },
    ));
    assert_eq!(get, (500, BodyField::Message, "Unexpected error".to_string()));
    assert_eq!(get, post);
}

#[test]
fn handler_result_is_encoding_of_tokens() {
    let tokens = vec![Token::Uint(5u64.into()), Token::Bytes(vec![1, 2])];
    let response = complete::<()>(Ok(tokens.clone()));
    let expected = format!("0x{}", ethers_core::utils::hex::encode(ethers_core::abi::encode(&tokens)));
    assert_eq!(response.text, expected);
}

#[test]
fn selector_key_is_big_endian() {
    assert_eq!(key_of(&[0x90, 0x61, 0xb9, 0x23]), 0x9061b923);
    assert_eq!(key_of(&[0, 0, 0, 1]), 1);
    assert_eq!(key_of(&[0xff, 0xff, 0xff, 0xff]), u32::MAX);
}
