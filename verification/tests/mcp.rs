use paper_cli::mcp::{
    ensure_tool_succeeded, guide_call_params, initialize_params, is_event_stream, needs_guide,
    negotiated_protocol_version, notification_payload, parse_json_messages, parse_request_response,
    parse_sse_messages, request_payload, tool_call_params, McpSession, ToolCall, ToolCallStage,
    ToolCallStep, ToolListing, request_needs_guide,
};
use paper_cli::sse::sse_data_blocks;
use serde_json::Value;

fn j(text: &str) -> Value {
    serde_json::from_str(text).unwrap()
}

#[test]
fn parses_single_and_multiline_sse_data() {
    let body = "event: message\n\
                data: {\"jsonrpc\":\"2.0\",\n\
                data: \"id\":2,\"result\":{\"ok\":true}}\n\n";

    let messages = parse_sse_messages(body).unwrap();
    assert_eq!(messages[0]["id"], 2);
    assert_eq!(messages[0]["result"]["ok"], true);
}

#[test]
fn ignores_sse_comments_and_non_data_fields() {
    let body = ": keep-alive\n\
                event: message\n\
                id: ignored\n\
                data: {\"jsonrpc\":\"2.0\",\"id\":3,\"result\":null}\n\n";

    let messages = parse_sse_messages(body).unwrap();
    assert_eq!(messages.len(), 1);
    assert_eq!(messages[0]["id"], 3);
}

#[test]
fn rejects_empty_sse_stream() {
    let error = parse_sse_messages(": keep-alive\n\n").unwrap_err();
    assert!(error.message().contains("empty event stream"));
}

#[test]
fn sse_blocks_follow_line_rules() {
    // Data lines join with newlines; one leading space is removed; CRLF endings count; the
    // last event needs no blank line after it.
    let body = "data:a\r\ndata:  b\r\n\r\n: note\ndata: c";
    assert_eq!(sse_data_blocks(body), vec!["a\n b".to_string(), "c".to_string()]);
    assert_eq!(sse_data_blocks(""), Vec::<String>::new());
    assert_eq!(sse_data_blocks("data\ndata:\n\n"), vec!["".to_string()]);
}

#[test]
fn malformed_sse_data_is_named() {
    let error = parse_sse_messages("data: {oops\n\n").unwrap_err();
    assert!(error
        .message()
        .starts_with("Paper returned malformed SSE data: {oops: "));
}

#[test]
fn json_body_may_hold_a_batch() {
    let batch = parse_json_messages(r#"[{"id": 1}, {"id": 2}]"#).unwrap();
    assert_eq!(batch.len(), 2);
    let single = parse_json_messages(r#"{"id": 7}"#).unwrap();
    assert_eq!(single, vec![j(r#"{"id": 7}"#)]);
    let error = parse_json_messages("nope").unwrap_err();
    assert!(error.message().starts_with("Paper returned malformed JSON: "));
}

#[test]
fn reply_with_matching_id_is_chosen() {
    let body = r#"[{"jsonrpc":"2.0","id":1,"result":"old"},{"jsonrpc":"2.0","id":2,"result":{"ok":true}}]"#;
    let result = parse_request_response(200, "200 OK", Some("application/json"), body, 2).unwrap();
    assert_eq!(result, j(r#"{"ok":true}"#));

    let stream = "data: {\"jsonrpc\":\"2.0\",\"id\":5,\"result\":[1]}\n\n";
    let result = parse_request_response(
        200,
        "200 OK",
        Some("text/event-stream; charset=utf-8"),
        stream,
        5,
    )
    .unwrap();
    assert_eq!(result, j("[1]"));
}

#[test]
fn reply_errors_are_reported() {
    let http = parse_request_response(404, "404 Not Found", None, "gone", 1).unwrap_err();
    assert_eq!(http.message(), "HTTP 404 Not Found: gone");

    let accepted = parse_request_response(202, "202 Accepted", None, "", 1).unwrap_err();
    assert_eq!(
        accepted.message(),
        "Paper accepted a request but did not return its result"
    );

    let missing = parse_request_response(200, "200 OK", None, r#"{"id":9,"result":1}"#, 3)
        .unwrap_err();
    assert_eq!(
        missing.message(),
        "Paper returned no JSON-RPC response for request 3"
    );

    let rpc = parse_request_response(
        200,
        "200 OK",
        None,
        r#"{"id":4,"error":{"code":-32601,"message":"Method not found","data":{"m":"x"}}}"#,
        4,
    )
    .unwrap_err();
    assert_eq!(
        rpc.message(),
        "JSON-RPC -32601: Method not found: {\"m\":\"x\"}"
    );

    let bare = parse_request_response(200, "200 OK", None, r#"{"id":4,"error":{}}"#, 4)
        .unwrap_err();
    assert_eq!(bare.message(), "JSON-RPC error: unknown JSON-RPC error");

    let neither = parse_request_response(200, "200 OK", None, r#"{"id":4}"#, 4).unwrap_err();
    assert_eq!(
        neither.message(),
        "Paper's JSON-RPC response has neither result nor error"
    );
}

#[test]
fn event_stream_is_recognized_by_prefix() {
    assert!(is_event_stream(Some("text/event-stream")));
    assert!(!is_event_stream(Some("application/json")));
    assert!(!is_event_stream(None));
}

#[test]
fn requests_carry_jsonrpc_members() {
    let request = request_payload(7, "tools/list", Some(j(r#"{"cursor":"c"}"#)));
    assert_eq!(
        request,
        j(r#"{"jsonrpc":"2.0","id":7,"method":"tools/list","params":{"cursor":"c"}}"#)
    );
    let notification = notification_payload("notifications/initialized", None);
    assert_eq!(
        notification,
        j(r#"{"jsonrpc":"2.0","method":"notifications/initialized"}"#)
    );
    assert_eq!(
        initialize_params("1.2.3"),
        j(r#"{"protocolVersion":"2025-06-18","capabilities":{},"clientInfo":{"name":"paper-cli","version":"1.2.3"}}"#)
    );
}

#[test]
fn guide_precedes_every_other_tool() {
    assert!(needs_guide("get_selection"));
    assert!(!needs_guide("get_guide"));
    assert_eq!(
        guide_call_params(),
        j(r#"{"name":"get_guide","arguments":{"topic":"paper-mcp-instructions"}}"#)
    );
    assert_eq!(
        tool_call_params("write_html", j(r#"{"html":"<p/>"}"#)),
        j(r#"{"name":"write_html","arguments":{"html":"<p/>"}}"#)
    );
}

#[test]
fn protocol_version_is_required() {
    assert_eq!(
        negotiated_protocol_version(&j(r#"{"protocolVersion":"2025-03-26"}"#)).unwrap(),
        "2025-03-26"
    );
    let error = negotiated_protocol_version(&j("{}")).unwrap_err();
    assert_eq!(
        error.message(),
        "Paper's initialize response has no protocolVersion"
    );
}

#[test]
fn session_ids_and_headers() {
    let mut session = McpSession::new("http://127.0.0.1:29979/mcp");
    assert_eq!(session.allocate_id(), 1);
    assert_eq!(session.allocate_id(), 2);
    assert!(session.session_headers(false).unwrap().is_none());
    assert_eq!(
        session.session_headers(true).unwrap_err().message(),
        "Paper did not establish an MCP session"
    );
    assert_eq!(
        session
            .observe_session_header(Some(Err("invalid byte".to_string())))
            .unwrap_err()
            .message(),
        "Paper returned a non-UTF-8 MCP session ID: invalid byte"
    );
    session
        .observe_session_header(Some(Ok("abc".to_string())))
        .unwrap();
    session
        .observe_session_header(Some(Ok("other".to_string())))
        .unwrap();
    assert_eq!(session.session_id.as_deref(), Some("abc"));
    assert_eq!(
        session.session_headers(true).unwrap(),
        Some(("abc".to_string(), "2025-06-18".to_string()))
    );
    assert_eq!(
        session.begin_close(),
        Some(("abc".to_string(), "2025-06-18".to_string()))
    );
    assert_eq!(session.begin_close(), None);
}

#[test]
fn tool_listing_follows_cursors_and_rejects_repeats() {
    let mut listing = ToolListing::new();
    assert!(listing.request_params().is_none());
    assert!(listing
        .accept_page(&j(r#"{"tools":[{"name":"a"}],"nextCursor":"p2"}"#))
        .unwrap());
    assert_eq!(listing.request_params(), Some(j(r#"{"cursor":"p2"}"#)));
    assert!(!listing
        .accept_page(&j(r#"{"tools":[{"name":"b"}]}"#))
        .unwrap());
    let tools = listing.into_tools();
    assert_eq!(tools, vec![j(r#"{"name":"a"}"#), j(r#"{"name":"b"}"#)]);

    let mut looping = ToolListing::new();
    looping
        .accept_page(&j(r#"{"tools":[],"nextCursor":"same"}"#))
        .unwrap();
    let error = looping
        .accept_page(&j(r#"{"tools":[],"nextCursor":"same"}"#))
        .unwrap_err();
    assert_eq!(error.message(), "Paper repeated tools/list cursor `same`");

    let error = ToolListing::new().accept_page(&j("{}")).unwrap_err();
    assert_eq!(error.message(), "Paper's tools/list response has no tools array");
}

#[test]
fn failed_tool_reports_its_texts() {
    assert!(ensure_tool_succeeded("x", &j(r#"{"isError":false}"#)).is_ok());
    let error = ensure_tool_succeeded(
        "write_html",
        &j(r#"{"isError":true,"content":[{"type":"text","text":"bad"},{"type":"text","text":"worse"}]}"#),
    )
    .unwrap_err();
    assert_eq!(error.message(), "Paper tool `write_html` failed: bad\nworse");

    let error = ensure_tool_succeeded("t", &j(r#"{"isError":true}"#)).unwrap_err();
    assert_eq!(error.message(), "Paper tool `t` failed: {\"isError\":true}");
}

#[test]
fn tool_call_fetches_the_guide_first() {
    let (call, params) = ToolCall::start("get_selection", j(r#"{"fileId": "f"}"#));
    assert!(matches!(call.stage, ToolCallStage::Guide));
    assert_eq!(
        params,
        j(r#"{"name": "get_guide", "arguments": {"topic": "paper-mcp-instructions"}}"#)
    );
    let (call, step) = call.on_reply(j(r#"{"content": []}"#));
    assert!(matches!(call.stage, ToolCallStage::Tool));
    let ToolCallStep::Send(params) = step else {
        panic!("expected the tool call");
    };
    assert_eq!(
        params,
        j(r#"{"name": "get_selection", "arguments": {"fileId": "f"}}"#)
    );
    let reply = j(r#"{"content": [{"type": "text", "text": "ok"}]}"#);
    let (_, step) = call.on_reply(reply.clone());
    let ToolCallStep::Done(Ok(result)) = step else {
        panic!("expected the result");
    };
    assert_eq!(result, reply);
}

#[test]
fn tool_call_of_the_guide_itself_is_sent_once() {
    let (call, params) = ToolCall::start("get_guide", j(r#"{"topic": "x"}"#));
    assert!(matches!(call.stage, ToolCallStage::Tool));
    assert_eq!(params, j(r#"{"name": "get_guide", "arguments": {"topic": "x"}}"#));
}

#[test]
fn tool_call_stops_when_the_guide_fails() {
    let (call, _) = ToolCall::start("write_html", j("{}"));
    let (_, step) = call.on_reply(j(
        r#"{"isError": true, "content": [{"type": "text", "text": "no file open"}]}"#,
    ));
    let ToolCallStep::Done(Err(error)) = step else {
        panic!("expected a failure");
    };
    assert_eq!(error.message(), "Paper tool `get_guide` failed: no file open");
}

#[test]
fn tool_call_reports_a_failed_tool() {
    let (call, _) = ToolCall::start("get_guide", j("{}"));
    let (_, step) = call.on_reply(j(r#"{"isError": true, "content": []}"#));
    let ToolCallStep::Done(Err(error)) = step else {
        panic!("expected a failure");
    };
    assert!(error.message().starts_with("Paper tool `get_guide` failed: "));
}

#[test]
fn initialize_reply_sets_the_protocol_version() {
    let mut session = McpSession::new("http://localhost/mcp");
    session
        .accept_initialize(&j(r#"{"protocolVersion": "2025-03-26"}"#))
        .unwrap();
    assert_eq!(session.protocol_version, "2025-03-26");
    let before = session.protocol_version.clone();
    assert!(session.accept_initialize(&j("{}")).is_err());
    assert_eq!(session.protocol_version, before);
}

#[test]
fn generic_tool_calls_fetch_the_guide_first() {
    assert!(request_needs_guide("tools/call", Some(&j(r#"{"name": "write_html"}"#))));
    assert!(request_needs_guide("tools/call", None));
    assert!(!request_needs_guide("tools/call", Some(&j(r#"{"name": "get_guide"}"#))));
    assert!(!request_needs_guide("prompts/list", None));
}

#[test]
fn a_session_is_ended_once() {
    let mut session = McpSession::new("http://localhost/mcp");
    session.observe_session_header(Some(Ok("s-1".to_string()))).unwrap();
    assert_eq!(
        session.begin_close(),
        Some(("s-1".to_string(), "2025-06-18".to_string()))
    );
    assert_eq!(session.begin_close(), None);
    let mut unopened = McpSession::new("http://localhost/mcp");
    assert_eq!(unopened.begin_close(), None);
}
