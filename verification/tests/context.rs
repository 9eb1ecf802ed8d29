use std::collections::VecDeque;

use paper_cli::context::{
    capture_screenshot, quoted_names, read_context, resolve_named_artboard, resolve_selected,
    Artboard, BasicInfo, CaptureStage, CaptureStep, ContextError, ContextRead, ContextStage,
    ContextStep, PaperContext, PaperRequest, PaperTools, ScreenshotCapture, ScreenshotTarget,
    SelectedNode, Selection, ToolCatalog,
};
use paper_cli::record::Recorded;
use serde_json::Value;

fn j(text: &str) -> Value {
    serde_json::from_str(text).unwrap()
}

struct MockTools {
    available: Vec<&'static str>,
    responses: VecDeque<(&'static str, Value)>,
    calls: Vec<(String, Value)>,
    list_calls: usize,
}

impl MockTools {
    fn new(available: Vec<&'static str>, responses: Vec<(&'static str, Value)>) -> Self {
        Self {
            available,
            responses: responses.into(),
            calls: Vec::new(),
            list_calls: 0,
        }
    }
}

impl PaperTools for MockTools {
    fn list_tools(&mut self) -> Result<Vec<Value>, String> {
        self.list_calls += 1;
        Ok(self
            .available
            .iter()
            .map(|name| {
                let mut tool = serde_json::Map::new();
                tool.insert("name".to_string(), Value::String(name.to_string()));
                Value::Object(tool)
            })
            .collect())
    }

    fn call_tool(&mut self, name: &str, arguments: Value) -> Result<Value, String> {
        self.calls.push((name.to_owned(), arguments));
        let Some((expected_name, response)) = self.responses.pop_front() else {
            return Err(format!("unexpected call to {name}"));
        };
        if expected_name != name {
            return Err(format!("expected call to {expected_name}, got {name}"));
        }
        Ok(response)
    }
}

impl PaperTools for &mut MockTools {
    fn list_tools(&mut self) -> Result<Vec<Value>, String> {
        (**self).list_tools()
    }

    fn call_tool(&mut self, name: &str, arguments: Value) -> Result<Value, String> {
        (**self).call_tool(name, arguments)
    }
}

fn tool_result(payload: Value) -> Value {
    let mut item = serde_json::Map::new();
    item.insert("type".to_string(), Value::String("text".to_string()));
    item.insert(
        "text".to_string(),
        Value::String(serde_json::to_string(&payload).unwrap()),
    );
    let mut result = serde_json::Map::new();
    result.insert("content".to_string(), Value::Array(vec![Value::Object(item)]));
    Value::Object(result)
}

fn selection(nodes: &str) -> Value {
    let nodes = j(nodes);
    let count = nodes.as_array().map_or(0, Vec::len);
    let mut payload = serde_json::Map::new();
    payload.insert("selectedNodes".to_string(), nodes);
    payload.insert("count".to_string(), Value::from(count));
    tool_result(Value::Object(payload))
}

fn basic_info(artboards: &str) -> Value {
    let artboards = j(artboards);
    let artboard_count = artboards.as_array().map_or(0, Vec::len);
    let mut payload = serde_json::Map::new();
    payload.insert("fileName".to_string(), Value::String("Example file".to_string()));
    payload.insert("pageName".to_string(), Value::String("Page 1".to_string()));
    payload.insert("artboards".to_string(), artboards);
    payload.insert("artboardCount".to_string(), Value::from(artboard_count));
    tool_result(Value::Object(payload))
}

fn image_result() -> Value {
    j(r#"{"content": [{"type": "image", "mimeType": "image/jpeg", "data": "/9j/2Q=="}]}"#)
}

fn all_tools() -> Vec<&'static str> {
    vec!["get_selection", "get_basic_info", "get_screenshot"]
}

fn message(error: ContextError) -> String {
    error.message()
}

#[test]
fn positional_node_id_preserves_existing_screenshot_behavior() {
    let mut tools = MockTools::new(vec![], vec![("get_screenshot", image_result())]);

    capture_screenshot(&mut Recorded::new(&mut tools),
        ScreenshotTarget::NodeId("node-secret".into()),
        Some("file-1"),
        Some(Value::from(2.0)),
    )
    .unwrap();

    assert_eq!(tools.list_calls, 0);
    assert_eq!(
        tools.calls,
        vec![(
            "get_screenshot".into(),
            j(r#"{"nodeId": "node-secret", "fileId": "file-1", "scale": 2.0}"#)
        )]
    );
}

#[test]
fn selected_resolves_exactly_one_node() {
    let mut tools = MockTools::new(
        all_tools(),
        vec![
            (
                "get_selection",
                selection(
                    r#"[{"id": "node-secret", "name": "Search field", "artboardId": "artboard-secret"}]"#,
                ),
            ),
            ("get_screenshot", image_result()),
        ],
    );

    capture_screenshot(&mut Recorded::new(&mut tools), ScreenshotTarget::Selected, None, None).unwrap();

    assert_eq!(tools.calls[1].1["nodeId"], "node-secret");
}

#[test]
fn selected_rejects_empty_selection() {
    let mut tools = MockTools::new(all_tools(), vec![("get_selection", selection("[]"))]);
    let error = capture_screenshot(&mut Recorded::new(&mut tools), ScreenshotTarget::Selected, None, None).unwrap_err();

    assert!(message(error).contains("no nodes are selected"));
    assert_eq!(tools.calls.len(), 1);
}

#[test]
fn selected_rejects_multiple_nodes_without_exposing_ids() {
    let mut tools = MockTools::new(
        all_tools(),
        vec![(
            "get_selection",
            selection(
                r#"[{"id": "secret-1", "name": "Header"}, {"id": "secret-2", "name": "Footer"}]"#,
            ),
        )],
    );
    let error = capture_screenshot(&mut Recorded::new(&mut tools), ScreenshotTarget::Selected, None, None).unwrap_err();
    let message = message(error);

    assert!(message.contains("\"Header\", \"Footer\""));
    assert!(!message.contains("secret-1"));
    assert!(!message.contains("secret-2"));
}

#[test]
fn active_artboard_resolves_from_selected_child() {
    let mut tools = MockTools::new(
        all_tools(),
        vec![
            (
                "get_selection",
                selection(
                    r#"[{"id": "child-secret", "name": "Title", "artboardId": "artboard-secret"}]"#,
                ),
            ),
            ("get_screenshot", image_result()),
        ],
    );

    capture_screenshot(&mut Recorded::new(&mut tools), ScreenshotTarget::ActiveArtboard, None, None).unwrap();

    assert_eq!(tools.calls[1].1["nodeId"], "artboard-secret");
    assert!(!tools.calls.iter().any(|(name, _)| name == "get_basic_info"));
}

#[test]
fn active_artboard_falls_back_to_only_artboard() {
    let mut tools = MockTools::new(
        all_tools(),
        vec![
            ("get_selection", selection("[]")),
            (
                "get_basic_info",
                basic_info(
                    r#"[{"id": "artboard-secret", "name": "Dashboard", "width": 1440, "height": 900}]"#,
                ),
            ),
            ("get_screenshot", image_result()),
        ],
    );

    capture_screenshot(&mut Recorded::new(&mut tools), ScreenshotTarget::ActiveArtboard, None, None).unwrap();

    assert_eq!(tools.calls[2].1["nodeId"], "artboard-secret");
}

#[test]
fn active_artboard_rejects_ambiguous_artboards() {
    let mut tools = MockTools::new(
        all_tools(),
        vec![
            ("get_selection", selection("[]")),
            (
                "get_basic_info",
                basic_info(
                    r#"[
                        {"id": "secret-1", "name": "Desktop", "width": 1440, "height": 900},
                        {"id": "secret-2", "name": "Mobile", "width": 390, "height": 844}
                    ]"#,
                ),
            ),
        ],
    );
    let error =
        capture_screenshot(&mut Recorded::new(&mut tools), ScreenshotTarget::ActiveArtboard, None, None).unwrap_err();
    let message = message(error);

    assert!(message.contains("\"Desktop\", \"Mobile\""));
    assert!(message.contains("--artboard"));
    assert!(!message.contains("secret-1"));
}

#[test]
fn active_artboard_rejects_page_without_artboards() {
    let mut tools = MockTools::new(
        all_tools(),
        vec![
            ("get_selection", selection("[]")),
            ("get_basic_info", basic_info("[]")),
        ],
    );
    let error =
        capture_screenshot(&mut Recorded::new(&mut tools), ScreenshotTarget::ActiveArtboard, None, None).unwrap_err();

    assert!(message(error).contains("contains no artboards"));
}

#[test]
fn named_artboard_resolves_one_exact_match() {
    let mut tools = MockTools::new(
        all_tools(),
        vec![
            (
                "get_basic_info",
                basic_info(
                    r#"[
                        {"id": "desktop-secret", "name": "Dashboard — Desktop", "width": 1440, "height": 900},
                        {"id": "mobile-secret", "name": "Dashboard — Mobile", "width": 390, "height": 844}
                    ]"#,
                ),
            ),
            ("get_screenshot", image_result()),
        ],
    );

    capture_screenshot(&mut Recorded::new(&mut tools),
        ScreenshotTarget::Artboard("Dashboard — Desktop".into()),
        None,
        None,
    )
    .unwrap();

    assert_eq!(tools.calls[1].1["nodeId"], "desktop-secret");
}

#[test]
fn named_artboard_lists_available_names_when_no_match_exists() {
    let mut tools = MockTools::new(
        all_tools(),
        vec![(
            "get_basic_info",
            basic_info(
                r#"[
                    {"id": "secret-1", "name": "Desktop", "width": 1440, "height": 900},
                    {"id": "secret-2", "name": "Mobile", "width": 390, "height": 844}
                ]"#,
            ),
        )],
    );
    let error = capture_screenshot(&mut Recorded::new(&mut tools),
        ScreenshotTarget::Artboard("Tablet".into()),
        None,
        None,
    )
    .unwrap_err();
    let message = message(error);

    assert!(message.contains("available artboards: \"Desktop\", \"Mobile\""));
    assert!(!message.contains("secret-1"));
}

#[test]
fn named_artboard_rejects_duplicate_exact_names() {
    let mut tools = MockTools::new(
        all_tools(),
        vec![(
            "get_basic_info",
            basic_info(
                r#"[
                    {"id": "secret-1", "name": "Dashboard", "width": 1440, "height": 900},
                    {"id": "secret-2", "name": "Dashboard", "width": 390, "height": 844}
                ]"#,
            ),
        )],
    );
    let error = capture_screenshot(&mut Recorded::new(&mut tools),
        ScreenshotTarget::Artboard("Dashboard".into()),
        None,
        None,
    )
    .unwrap_err();
    let message = message(error);

    assert!(message.contains("multiple artboards are named"));
    assert!(!message.contains("secret-1"));
}

#[test]
fn file_id_is_propagated_to_every_required_tool_call() {
    let mut tools = MockTools::new(
        all_tools(),
        vec![
            ("get_selection", selection("[]")),
            (
                "get_basic_info",
                basic_info(
                    r#"[{"id": "artboard-secret", "name": "Dashboard", "width": 1440, "height": 900}]"#,
                ),
            ),
            ("get_screenshot", image_result()),
        ],
    );

    capture_screenshot(&mut Recorded::new(&mut tools),
        ScreenshotTarget::ActiveArtboard,
        Some("file-1"),
        Some(Value::from(1.0)),
    )
    .unwrap();

    assert_eq!(tools.calls.len(), 3);
    for (_, arguments) in &tools.calls {
        assert_eq!(arguments["fileId"], "file-1");
    }
    assert_eq!(tools.calls[2].1["scale"], 1.0);
}

#[test]
fn missing_required_tool_is_actionable() {
    let mut tools = MockTools::new(vec!["get_screenshot"], vec![]);
    let error = capture_screenshot(&mut Recorded::new(&mut tools), ScreenshotTarget::Selected, None, None).unwrap_err();
    let message = message(error);

    assert!(message.contains("required `get_selection` tool"));
    assert!(message.contains("paper tools --names"));
}

#[test]
fn short_context_contains_names_and_dimensions_without_ids() {
    let mut tools = MockTools::new(
        all_tools(),
        vec![
            (
                "get_basic_info",
                basic_info(
                    r#"[{"id": "artboard-secret", "name": "Dashboard — Desktop", "width": 1440, "height": 900}]"#,
                ),
            ),
            (
                "get_selection",
                selection(
                    r#"[{"id": "node-secret", "name": "Search field", "artboardId": "artboard-secret"}]"#,
                ),
            ),
        ],
    );

    let output = read_context(&mut Recorded::new(&mut tools), Some("file-1")).unwrap().output(true);
    let rendered = serde_json::to_string(&output).unwrap();

    assert_eq!(output["fileName"], "Example file");
    assert_eq!(output["pageName"], "Page 1");
    assert_eq!(output["artboards"][0]["name"], "Dashboard — Desktop");
    assert_eq!(output["artboards"][0]["width"], 1440);
    assert_eq!(output["selectedNodes"][0], "Search field");
    assert_eq!(output["selectedNodeCount"], 1);
    assert!(!rendered.contains("secret"));
    for (_, arguments) in &tools.calls {
        assert_eq!(arguments["fileId"], "file-1");
    }
}

#[test]
fn full_context_keeps_raw_results() {
    let basic = basic_info(r#"[{"id": "a-1", "name": "Desktop", "width": 10, "height": 20}]"#);
    let sel = selection(r#"[{"id": "n-1", "name": "Button"}]"#);
    let mut tools = MockTools::new(
        all_tools(),
        vec![("get_basic_info", basic.clone()), ("get_selection", sel.clone())],
    );

    let output = read_context(&mut Recorded::new(&mut tools), None).unwrap().output(false);

    assert_eq!(output["basicInfo"], basic);
    assert_eq!(output["selection"], sel);
    assert_eq!(output.as_object().unwrap().len(), 2);
    assert_eq!(tools.calls[0].1, j("{}"));
}

#[test]
fn structured_content_takes_precedence_over_text() {
    let result = j(r#"{
        "structuredContent": {"selectedNodes": [{"id": "x", "component": "Card"}]},
        "content": [{"type": "text", "text": "{\"selectedNodes\": []}"}]
    }"#);
    let selection = Selection::parse(&result).unwrap();

    assert_eq!(selection.nodes.len(), 1);
    assert_eq!(selection.nodes[0].id, "x");
    assert_eq!(selection.nodes[0].name, "Card");
}

#[test]
fn blank_names_fall_back() {
    let node = SelectedNode::parse(&j(r#"{"id": "n", "name": "   ", "component": "\t"}"#)).unwrap();
    assert_eq!(node.name, "Unnamed node");
    assert_eq!(node.artboard_id, None);

    let artboard = Artboard::parse(&j(r#"{"id": "a"}"#)).unwrap();
    assert_eq!(artboard.name, "Unnamed artboard");
    assert_eq!(artboard.width, Value::Null);
}

#[test]
fn node_without_id_is_rejected() {
    let error = SelectedNode::parse(&j(r#"{"name": "Header"}"#)).unwrap_err();
    assert_eq!(
        error.message(),
        "get_selection returned a selected node without an ID"
    );
}

#[test]
fn payload_errors_name_the_tool() {
    let no_content = Selection::parse(&j("{}")).unwrap_err();
    assert_eq!(no_content.message(), "get_selection returned no MCP content");

    let no_json = BasicInfo::parse(&j(r#"{"content": [{"type": "text", "text": "not json"}]}"#))
        .unwrap_err();
    assert_eq!(
        no_json.message(),
        "get_basic_info returned no structured JSON content"
    );

    let missing = BasicInfo::parse(&j(r#"{"structuredContent": {"fileName": "F"}}"#)).unwrap_err();
    assert_eq!(missing.message(), "get_basic_info response is missing pageName");
}

#[test]
fn named_artboard_on_empty_page_says_none_are_available() {
    let basic = BasicInfo {
        file_name: "F".into(),
        page_name: "P".into(),
        artboards: vec![],
    };
    let error = resolve_named_artboard("Tablet", &basic).unwrap_err();
    assert_eq!(
        error.message(),
        "no artboard named \"Tablet\" exists on the active page; no artboards are available"
    );
}

#[test]
fn one_selected_node_resolves_to_its_id() {
    let selection = Selection {
        nodes: vec![SelectedNode {
            id: "1-2".into(),
            name: "Logo".into(),
            artboard_id: None,
        }],
    };
    assert_eq!(resolve_selected(&selection).unwrap(), "1-2");
}

#[test]
fn catalog_requires_listed_tools() {
    let catalog = ToolCatalog::from_tools(&vec![
        j(r#"{"name": "get_selection"}"#),
        j(r#"{"description": "no name"}"#),
    ]);
    assert!(catalog.require("get_selection").is_ok());
    assert!(catalog.require("get_basic_info").is_err());
    assert_eq!(catalog.names, vec!["get_selection".to_string()]);
}

#[test]
fn quoted_names_escape_quotes() {
    let names = vec!["Header".to_string(), "Say \"hi\"".to_string()];
    assert_eq!(quoted_names(&names), "\"Header\", \"Say \\\"hi\\\"\"");
    assert_eq!(quoted_names(&vec![]), "");
}

fn tool_list(names: &[&str]) -> Vec<Value> {
    names
        .iter()
        .map(|name| j(&format!("{{\"name\": \"{name}\"}}")))
        .collect()
}

fn asked(step: CaptureStep) -> (String, Value) {
    match step {
        CaptureStep::Ask(PaperRequest::CallTool { name, arguments }) => (name, arguments),
        CaptureStep::Ask(PaperRequest::ListTools) => panic!("asked for the tool list again"),
        CaptureStep::Finish(result) => panic!("finished early: {:?}", result.map_err(message)),
    }
}

fn finished(step: CaptureStep) -> Result<Value, String> {
    match step {
        CaptureStep::Finish(result) => result.map_err(message),
        CaptureStep::Ask(_) => panic!("expected the capture to finish"),
    }
}

#[test]
fn capture_of_node_id_calls_screenshot_at_once() {
    let (capture, request) = ScreenshotCapture::start(
        ScreenshotTarget::NodeId("9-9".into()),
        Some("file-2"),
        Some(j("3")),
    );
    assert!(matches!(capture.stage, CaptureStage::Screenshot));
    let PaperRequest::CallTool { name, arguments } = request else {
        panic!("expected a tool call");
    };
    assert_eq!(name, "get_screenshot");
    assert_eq!(arguments, j(r#"{"fileId": "file-2", "nodeId": "9-9", "scale": 3}"#));
    let (_, step) = capture.on_tool_result(Ok(image_result()));
    assert_eq!(finished(step).unwrap(), image_result());
}

#[test]
fn capture_of_selection_walks_list_selection_screenshot() {
    let (capture, request) = ScreenshotCapture::start(ScreenshotTarget::Selected, None, None);
    assert!(matches!(request, PaperRequest::ListTools));
    let (capture, step) = capture.on_tool_list(Ok(tool_list(&all_tools())));
    assert!(matches!(capture.stage, CaptureStage::Selection));
    assert_eq!(asked(step), ("get_selection".to_string(), j("{}")));
    let (capture, step) =
        capture.on_tool_result(Ok(selection(r#"[{"id": "4-1", "name": "Logo"}]"#)));
    assert!(matches!(capture.stage, CaptureStage::Screenshot));
    assert_eq!(
        asked(step),
        ("get_screenshot".to_string(), j(r#"{"nodeId": "4-1"}"#))
    );
}

#[test]
fn capture_without_screenshot_tool_stops_after_list() {
    let (capture, _) = ScreenshotCapture::start(ScreenshotTarget::Selected, None, None);
    let (_, step) = capture.on_tool_list(Ok(tool_list(&["get_selection"])));
    let error = finished(step).unwrap_err();
    assert!(error.contains("`get_screenshot`"), "{error}");
}

#[test]
fn capture_reports_a_failed_tool_list() {
    let (capture, _) = ScreenshotCapture::start(ScreenshotTarget::ActiveArtboard, None, None);
    let (_, step) = capture.on_tool_list(Err("connection refused".into()));
    assert_eq!(
        finished(step).unwrap_err(),
        "failed to read Paper's live tool catalog: connection refused"
    );
}

#[test]
fn capture_of_active_artboard_needs_basic_info_tool_for_fallback() {
    let (capture, _) = ScreenshotCapture::start(ScreenshotTarget::ActiveArtboard, None, None);
    let (capture, _) =
        capture.on_tool_list(Ok(tool_list(&["get_selection", "get_screenshot"])));
    let (_, step) = capture.on_tool_result(Ok(selection("[]")));
    let error = finished(step).unwrap_err();
    assert!(error.contains("`get_basic_info`"), "{error}");
}

#[test]
fn capture_of_named_artboard_reads_basic_info() {
    let (capture, _) =
        ScreenshotCapture::start(ScreenshotTarget::Artboard("Tablet".into()), Some("f"), None);
    let (capture, step) = capture.on_tool_list(Ok(tool_list(&all_tools())));
    assert!(matches!(capture.stage, CaptureStage::BasicInfo));
    assert_eq!(asked(step), ("get_basic_info".to_string(), j(r#"{"fileId": "f"}"#)));
    let (_, step) = capture.on_tool_result(Ok(basic_info(
        r#"[{"id": "1", "name": "Desktop"}, {"id": "2", "name": "Tablet"}]"#,
    )));
    assert_eq!(
        asked(step),
        ("get_screenshot".to_string(), j(r#"{"fileId": "f", "nodeId": "2"}"#))
    );
}

#[test]
fn capture_reports_a_failed_tool_call() {
    let (capture, _) = ScreenshotCapture::start(ScreenshotTarget::NodeId("1".into()), None, None);
    let (_, step) = capture.on_tool_result(Err("timed out".into()));
    assert_eq!(finished(step).unwrap_err(), "timed out");
}

#[test]
fn context_from_results_reads_basic_info_first() {
    let error = PaperContext::from_results(j("{}"), j("{}")).unwrap_err();
    assert_eq!(message(error), "get_basic_info returned no MCP content");
    let error =
        PaperContext::from_results(basic_info("[]"), j(r#"{"structuredContent": {}}"#)).unwrap_err();
    assert_eq!(message(error), "get_selection response is missing selectedNodes");
    let context = PaperContext::from_results(basic_info("[]"), selection("[]")).unwrap();
    assert_eq!(context.basic.page_name, "Page 1");
    assert!(context.selection.nodes.is_empty());
}

fn context_asked(step: ContextStep) -> (String, Value) {
    match step {
        ContextStep::Ask(PaperRequest::CallTool { name, arguments }) => (name, arguments),
        ContextStep::Ask(PaperRequest::ListTools) => panic!("asked for the tool list again"),
        ContextStep::Finish(_) => panic!("finished early"),
    }
}

#[test]
fn context_read_calls_basic_info_then_selection_with_the_file() {
    let (read, request) = ContextRead::start(Some("file-9"));
    assert!(matches!(request, PaperRequest::ListTools));
    let (read, step) = read.on_tool_list(Ok(tool_list(&all_tools())));
    assert!(matches!(read.stage, ContextStage::BasicInfo));
    assert_eq!(
        context_asked(step),
        ("get_basic_info".to_string(), j(r#"{"fileId": "file-9"}"#))
    );
    let (read, step) = read.on_tool_result(Ok(basic_info("[]")));
    assert!(matches!(read.stage, ContextStage::Selection));
    assert_eq!(
        context_asked(step),
        ("get_selection".to_string(), j(r#"{"fileId": "file-9"}"#))
    );
    let (_, step) = read.on_tool_result(Ok(selection(r#"[{"id": "n", "name": "Card"}]"#)));
    let ContextStep::Finish(Ok(context)) = step else {
        panic!("expected the context");
    };
    assert_eq!(context.selection.nodes[0].name, "Card");
    assert_eq!(context.basic_raw, basic_info("[]"));
}

#[test]
fn context_read_needs_both_tools() {
    let (read, _) = ContextRead::start(None);
    let (_, step) = read.on_tool_list(Ok(tool_list(&["get_basic_info"])));
    let ContextStep::Finish(Err(error)) = step else {
        panic!("expected a failure");
    };
    assert!(message(error).contains("`get_selection`"));
    let (read, _) = ContextRead::start(None);
    let (_, step) = read.on_tool_list(Ok(tool_list(&["get_selection"])));
    let ContextStep::Finish(Err(error)) = step else {
        panic!("expected a failure");
    };
    assert!(message(error).contains("`get_basic_info`"));
}

#[test]
fn context_read_reports_a_failed_call() {
    let (read, _) = ContextRead::start(None);
    let (read, _) = read.on_tool_list(Ok(tool_list(&all_tools())));
    let (_, step) = read.on_tool_result(Err("gone".into()));
    let ContextStep::Finish(Err(error)) = step else {
        panic!("expected a failure");
    };
    assert_eq!(message(error), "gone");
}

#[test]
fn quoted_names_are_empty_only_without_names() {
    assert_eq!(quoted_names(&vec!["é\n".to_string()]), "\"é\\n\"");
    assert!(!quoted_names(&vec![String::new()]).is_empty());
}
