use logos_scaffold::rpc::{body_height, last_block_of_reply, RpcReplyError};

const OK_HEAD: &str = "HTTP/1.1 200 OK\r\nContent-Type: application/json\r\n\r\n";

#[test]
fn height_is_read_from_a_successful_reply() {
    let reply = format!("{OK_HEAD}  {{\"jsonrpc\":\"2.0\",\"id\":1,\"result\":{{\"last_block\":17}}}}\n");
    assert_eq!(last_block_of_reply(&reply), Ok(17));
    let reply = format!("{OK_HEAD}{{\"result\":{{\"last_block\":0}}}}");
    assert_eq!(last_block_of_reply(&reply), Ok(0));
}

#[test]
fn reply_without_blank_line_is_malformed() {
    assert_eq!(last_block_of_reply("HTTP/1.1 200 OK\r\n{}"), Err(RpcReplyError::Malformed));
    assert_eq!(last_block_of_reply(""), Err(RpcReplyError::Malformed));
    assert_eq!(RpcReplyError::Malformed.message(), "malformed HTTP response");
}

#[test]
fn error_status_is_refused_with_its_line() {
    let e = last_block_of_reply("HTTP/1.1 503 Service Unavailable\r\nX: y\r\n\r\n{}").unwrap_err();
    assert_eq!(e, RpcReplyError::HttpStatus("HTTP/1.1 503 Service Unavailable".to_string()));
    assert_eq!(e.message(), "HTTP error: HTTP/1.1 503 Service Unavailable");
    assert_eq!(last_block_of_reply("\r\n\r\n{}"), Err(RpcReplyError::HttpStatus(String::new())));
    assert_eq!(last_block_of_reply("HTTP/1.1\r\n\r\n{}"), Err(RpcReplyError::HttpStatus("HTTP/1.1".to_string())));
}

#[test]
fn body_errors() {
    let reply = format!("{OK_HEAD}not json");
    let expected = serde_json::from_str::<serde_json::Value>("not json").unwrap_err().to_string();
    assert_eq!(last_block_of_reply(&reply), Err(RpcReplyError::InvalidJson(expected.clone())));
    assert_eq!(
        RpcReplyError::InvalidJson(expected.clone()).message(),
        format!("invalid JSON-RPC response: {expected}")
    );
    let reply = format!("{OK_HEAD}{{\"result\":{{\"last_block\":-1}}}} ");
    let e = last_block_of_reply(&reply).unwrap_err();
    assert_eq!(e, RpcReplyError::Unexpected("{\"result\":{\"last_block\":-1}}".to_string()));
    assert_eq!(e.message(), "unexpected JSON-RPC response: {\"result\":{\"last_block\":-1}}");
    assert_eq!(body_height("b", Ok(Some(5))), Ok(5));
    assert_eq!(body_height("b", Ok(None)), Err(RpcReplyError::Unexpected("b".to_string())));
    assert_eq!(body_height("b", Err("m".to_string())), Err(RpcReplyError::InvalidJson("m".to_string())));
}
