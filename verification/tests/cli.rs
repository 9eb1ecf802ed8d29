use paper_cli::cli::{
    printable_tool_names, unreachable_status,
    check_tool_arguments, file_json, files_arguments, find_tool, json_source, notify_output,
    open_arguments, parse_json, read_json, render_json, screenshot_target, status_output, stdin_json,
    tool_names, tools_output, JsonInput, JsonSource, DEFAULT_ENDPOINT,
};
use paper_cli::context::ScreenshotTarget;
use paper_cli::record::Recorded;
use serde_json::Value;

fn j(text: &str) -> Value {
    serde_json::from_str(text).unwrap()
}

struct FakeInput {
    terminal: bool,
    stdin: String,
    reads: Vec<String>,
}

impl JsonInput for FakeInput {
    fn stdin_is_terminal(&mut self) -> bool {
        self.terminal
    }

    fn read_stdin(&mut self) -> Result<String, String> {
        self.reads.push("stdin".to_string());
        Ok(self.stdin.clone())
    }

    fn read_file(&mut self, path: &str) -> Result<String, String> {
        self.reads.push(path.to_string());
        if path == "args.json" {
            Ok(r#"{"from":"file"}"#.to_string())
        } else {
            Err("No such file or directory (os error 2)".to_string())
        }
    }
}

impl JsonInput for &mut FakeInput {
    fn stdin_is_terminal(&mut self) -> bool {
        (**self).stdin_is_terminal()
    }

    fn read_stdin(&mut self) -> Result<String, String> {
        (**self).read_stdin()
    }

    fn read_file(&mut self, path: &str) -> Result<String, String> {
        (**self).read_file(path)
    }
}

fn terminal() -> FakeInput {
    FakeInput {
        terminal: true,
        stdin: String::new(),
        reads: Vec::new(),
    }
}

#[test]
fn parses_inline_json() {
    let value = read_json(Some(r#"{"nodeId":"1-2"}"#), Value::Null, &mut Recorded::new(terminal())).unwrap();
    assert_eq!(value["nodeId"], "1-2");
}

#[test]
fn rejects_non_object_tool_arguments() {
    let value = read_json(Some("[]"), j("{}"), &mut Recorded::new(terminal())).unwrap();
    assert!(!value.is_object());
    assert_eq!(
        check_tool_arguments(&value).unwrap_err().message(),
        "tool arguments must be a JSON object"
    );
    assert!(check_tool_arguments(&j("{}")).is_ok());
}

#[test]
fn status_short_contains_only_connection_details() {
    let initialize = j(r#"{
        "protocolVersion": "2025-06-18",
        "serverInfo": {"name": "paper-desktop", "version": "0.5.5"},
        "capabilities": {"tools": {}},
        "instructions": "long instructions"
    }"#);

    assert_eq!(
        status_output("http://127.0.0.1:29979/mcp", Some(&initialize), true),
        j(r#"{
            "connected": true,
            "endpoint": "http://127.0.0.1:29979/mcp",
            "server": {"name": "paper-desktop", "version": "0.5.5"},
            "protocolVersion": "2025-06-18"
        }"#)
    );
}

#[test]
fn full_status_preserves_initialize_response() {
    let initialize = j(r#"{
        "protocolVersion": "2025-06-18",
        "serverInfo": {"name": "paper-desktop", "version": "0.5.5"},
        "capabilities": {"tools": {}},
        "instructions": "Paper instructions"
    }"#);
    let status = status_output("http://127.0.0.1:29979/mcp", Some(&initialize), false);

    assert_eq!(status["connected"], true);
    assert_eq!(status["endpoint"], "http://127.0.0.1:29979/mcp");
    for key in ["protocolVersion", "serverInfo", "capabilities", "instructions"] {
        assert_eq!(status[key], initialize[key]);
    }
}

#[test]
fn status_without_a_reply() {
    assert_eq!(
        status_output(DEFAULT_ENDPOINT, None, true),
        j(r#"{"connected":false,"endpoint":"http://127.0.0.1:29979/mcp","server":{"name":null,"version":null},"protocolVersion":null}"#)
    );
    assert_eq!(
        status_output("e", Some(&j("[1]")), false),
        j(r#"{"endpoint":"e","connected":true,"initializeResult":[1]}"#)
    );
}

#[test]
fn json_sources() {
    let mut input = FakeInput {
        terminal: false,
        stdin: "  \n".to_string(),
        reads: Vec::new(),
    };
    assert_eq!(read_json(None, j("{}"), &mut Recorded::new(&mut input)).unwrap(), j("{}"));
    assert_eq!(input.reads, vec!["stdin".to_string()]);

    let mut input = FakeInput {
        terminal: false,
        stdin: r#"{"a":1}"#.to_string(),
        reads: Vec::new(),
    };
    assert_eq!(read_json(Some("-"), Value::Null, &mut Recorded::new(&mut input)).unwrap(), j(r#"{"a":1}"#));

    let mut input = terminal();
    assert_eq!(read_json(None, Value::Null, &mut Recorded::new(&mut input)).unwrap(), Value::Null);
    assert!(input.reads.is_empty());

    assert_eq!(
        read_json(Some("@args.json"), Value::Null, &mut Recorded::new(terminal())).unwrap(),
        j(r#"{"from":"file"}"#)
    );
    assert_eq!(
        read_json(Some("@"), Value::Null, &mut Recorded::new(terminal()))
            .unwrap_err()
            .message(),
        "expected a file path after @"
    );
    assert_eq!(
        read_json(Some("@missing.json"), Value::Null, &mut Recorded::new(terminal()))
            .unwrap_err()
            .message(),
        "failed to read JSON from missing.json: No such file or directory (os error 2)"
    );
    assert!(read_json(Some("{"), Value::Null, &mut Recorded::new(terminal()))
        .unwrap_err()
        .message()
        .starts_with("invalid JSON from command line: "));
    assert!(parse_json("nul", "stdin")
        .unwrap_err()
        .message()
        .starts_with("invalid JSON from stdin: "));
}

#[test]
fn tool_listing_outputs() {
    let tools = vec![j(r#"{"name":"a","x":1}"#), j(r#"{"name":"b"}"#)];
    assert_eq!(
        tool_names(&tools).unwrap(),
        vec!["a".to_string(), "b".to_string()]
    );
    assert_eq!(find_tool(&tools, "a").unwrap(), j(r#"{"name":"a","x":1}"#));
    assert_eq!(
        find_tool(&tools, "c").unwrap_err().message(),
        "Paper does not expose a tool named `c`"
    );
    assert_eq!(
        tool_names(&vec![j("{}")]).unwrap_err().message(),
        "Paper returned a tool without a name"
    );
    assert_eq!(
        tools_output(tools),
        j(r#"{"tools":[{"name":"a","x":1},{"name":"b"}]}"#)
    );
}

#[test]
fn command_arguments() {
    assert_eq!(files_arguments(50), j(r#"{"limit":50}"#));
    assert_eq!(
        open_arguments("file-1", Some("1-0")),
        j(r#"{"fileId":"file-1","pageId":"1-0"}"#)
    );
    assert_eq!(open_arguments("file-1", None), j(r#"{"fileId":"file-1"}"#));
    assert_eq!(notify_output(), j(r#"{"accepted":true}"#));
}

#[test]
fn screenshot_flags_name_one_target() {
    assert_eq!(
        screenshot_target(Some("1-2".into()), false, false, None),
        Some(ScreenshotTarget::NodeId("1-2".into()))
    );
    assert_eq!(
        screenshot_target(None, true, false, None),
        Some(ScreenshotTarget::Selected)
    );
    assert_eq!(
        screenshot_target(None, false, true, None),
        Some(ScreenshotTarget::ActiveArtboard)
    );
    assert_eq!(
        screenshot_target(None, false, false, Some("Dashboard — Desktop".into())),
        Some(ScreenshotTarget::Artboard("Dashboard — Desktop".into()))
    );
    assert_eq!(screenshot_target(Some("n".into()), true, false, None), None);
    assert_eq!(screenshot_target(None, false, false, None), None);
}

#[test]
fn json_source_tells_stdin_files_and_inline_apart() {
    assert!(matches!(json_source(None), Ok(JsonSource::StdinOrDefault)));
    assert!(matches!(json_source(Some("-")), Ok(JsonSource::Stdin)));
    assert!(matches!(json_source(Some("@args.json")), Ok(JsonSource::File(p)) if p == "args.json"));
    assert!(matches!(json_source(Some("{}")), Ok(JsonSource::Inline(t)) if t == "{}"));
    assert_eq!(
        json_source(Some("@")).err().unwrap().message(),
        "expected a file path after @"
    );
}

#[test]
fn stdin_of_white_space_falls_back_to_default_only_when_allowed() {
    let default = j(r#"{"d": 1}"#);
    assert_eq!(
        stdin_json(Ok("  \n".into()), default.clone(), true).unwrap(),
        default
    );
    let error = stdin_json(Ok("  \n".into()), default.clone(), false).unwrap_err();
    assert!(error.message().starts_with("invalid JSON from stdin: "));
    assert_eq!(
        stdin_json(Err("closed".into()), default, true).unwrap_err().message(),
        "failed to read JSON from stdin: closed"
    );
}

#[test]
fn file_json_names_the_file_in_errors() {
    assert_eq!(
        file_json("a.json", Err("not found".into())).unwrap_err().message(),
        "failed to read JSON from a.json: not found"
    );
    let error = file_json("a.json", Ok("{".into())).unwrap_err();
    assert!(error.message().starts_with("invalid JSON from a.json: "));
    assert_eq!(file_json("a.json", Ok("[1]".into())).unwrap(), j("[1]"));
}

#[test]
fn rendered_json_is_compact_or_indented() {
    let value = j(r#"{"b": [1, 2], "a": "x"}"#);
    assert_eq!(render_json(&value, true).unwrap(), r#"{"a":"x","b":[1,2]}"#);
    assert_eq!(
        render_json(&value, false).unwrap(),
        "{\n  \"a\": \"x\",\n  \"b\": [\n    1,\n    2\n  ]\n}"
    );
}

#[test]
fn tool_names_are_printed_up_to_a_tool_without_one() {
    let tools = vec![j(r#"{"name": "a"}"#), j(r#"{"name": "b"}"#), j("{}"), j(r#"{"name": "c"}"#)];
    let (names, missing) = printable_tool_names(&tools);
    assert_eq!(names, vec!["a".to_string(), "b".to_string()]);
    assert_eq!(missing.unwrap().message(), "Paper returned a tool without a name");
    let (names, missing) = printable_tool_names(&vec![j(r#"{"name": "x"}"#)]);
    assert_eq!(names, vec!["x".to_string()]);
    assert!(missing.is_none());
}

#[test]
fn unreachable_paper_gives_a_short_status_only_for_short_status() {
    let status = unreachable_status("http://h/mcp", true).unwrap();
    assert_eq!(status["connected"], false);
    assert_eq!(status["endpoint"], "http://h/mcp");
    assert!(unreachable_status("http://h/mcp", false).is_none());
}
