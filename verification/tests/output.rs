use paper_cli::output::{
    extract_single_image, extract_text, file_names_text, image_metadata, is_image_mime,
    normalize_mime_type, plan_image, prepare_tool_output, resolve_output_path, PreparedOutput,
};
use serde_json::Value;

const JPEG_DATA: &str = "/9j/2Q==";
const PNG_DATA: &str = "iVBORw0KGgo=";

fn j(text: &str) -> Value {
    serde_json::from_str(text).unwrap()
}

fn image_result(mime_type: &str, data: &str) -> Value {
    let mut item = serde_json::Map::new();
    item.insert("type".to_string(), Value::String("image".to_string()));
    item.insert("mimeType".to_string(), Value::String(mime_type.to_string()));
    item.insert("data".to_string(), Value::String(data.to_string()));
    let mut result = serde_json::Map::new();
    result.insert("content".to_string(), Value::Array(vec![Value::Object(item)]));
    Value::Object(result)
}

#[test]
fn rejects_text_for_image_content() {
    let error =
        prepare_tool_output(image_result("image/png", PNG_DATA), true, None, false).unwrap_err();
    let message = error.message();
    assert!(message.contains("non-text MCP content (image)"));
    assert!(message.contains("--output <path>"));
}

#[test]
fn rejects_text_for_embedded_resource_content() {
    let error = prepare_tool_output(
        j(r#"{
            "content": [{
                "type": "resource",
                "resource": {"uri": "paper://image", "mimeType": "image/png", "blob": "iVBORw0KGgo="}
            }]
        }"#),
        true,
        None,
        false,
    )
    .unwrap_err();

    assert!(error.message().contains("non-text MCP content (resource)"));
}

#[test]
fn rejects_output_when_no_image_exists() {
    let error = prepare_tool_output(
        j(r#"{"content": [{"type": "text", "text": "hello"}]}"#),
        false,
        Some("/tmp/paper-cli-test/shot.png"),
        false,
    )
    .unwrap_err();
    assert!(error.message().contains("no writable image"));
}

#[test]
fn rejects_ambiguous_multiple_images() {
    let error = prepare_tool_output(
        j(r#"{
            "content": [
                {"type": "image", "mimeType": "image/png", "data": "iVBORw0KGgo="},
                {"type": "image", "mimeType": "image/jpeg", "data": "/9j/2Q=="}
            ]
        }"#),
        false,
        Some("/tmp/paper-cli-test/shot.png"),
        false,
    )
    .unwrap_err();
    assert!(error.message().contains("2 images"));
    assert!(error.message().contains("exactly one"));
}

#[test]
fn preserves_json_without_output_options() {
    let result = image_result("image/png", PNG_DATA);
    let PreparedOutput::Json(actual) =
        prepare_tool_output(result.clone(), false, None, false).unwrap()
    else {
        panic!("expected JSON output");
    };
    assert_eq!(actual, result);
}

#[test]
fn rejects_incompatible_extension() {
    let error = prepare_tool_output(
        image_result("image/png", PNG_DATA),
        false,
        Some("/tmp/paper-cli-test/shot.jpg"),
        false,
    )
    .unwrap_err();
    assert!(error.message().contains("incompatible"));
}

#[test]
fn file_names_are_rendered_one_per_line() {
    let result = j(r#"{
        "content": [{
            "type": "text",
            "text": "{\"files\":[{\"id\":\"1\",\"name\":\"First file\"},{\"id\":\"2\",\"name\":\"Second file\"}]}"
        }]
    }"#);
    assert_eq!(file_names_text(&result).unwrap(), "First file\nSecond file\n");
}

#[test]
fn text_and_output_exclude_each_other() {
    let error = prepare_tool_output(j("{}"), true, Some("shot.png"), false).unwrap_err();
    assert_eq!(error.message(), "--text and --output cannot be used together");
}

#[test]
fn jpeg_image_is_decoded_for_writing() {
    let prepared = prepare_tool_output(
        image_result("image/jpeg", JPEG_DATA),
        false,
        Some("captures/shot.jpg"),
        false,
    )
    .unwrap();
    let PreparedOutput::Image(file) = prepared else {
        panic!("expected an image to write");
    };
    assert_eq!(file.bytes, vec![0xff, 0xd8, 0xff, 0xd9]);
    assert_eq!(file.path, "captures/shot.jpg");
    assert_eq!(file.mime_type, "image/jpeg");
    assert!(!file.force);
    assert_eq!(
        image_metadata(&file.path, &file.mime_type, file.bytes.len()),
        j(r#"{"path":"captures/shot.jpg","mimeType":"image/jpeg","bytes":4}"#)
    );
}

#[test]
fn png_path_gains_its_extension() {
    let file = plan_image(&image_result("image/png", PNG_DATA), "dir/shot", true).unwrap();
    assert_eq!(file.path, "dir/shot.png");
    assert_eq!(
        file.bytes,
        vec![0x89, b'P', b'N', b'G', 0x0d, 0x0a, 0x1a, 0x0a]
    );
    assert!(file.force);
}

#[test]
fn invalid_base64_is_rejected() {
    let error = plan_image(&image_result("image/png", "***"), "shot.png", false).unwrap_err();
    assert!(error
        .message()
        .starts_with("Paper returned invalid base64 image data: "));
}

#[test]
fn embedded_image_resource_is_written() {
    let result = j(r#"{"content": [
        {"type": "text", "text": "caption"},
        {"type": "resource", "resource": {"mimeType": "Image/PNG; q=1", "blob": "iVBORw0KGgo="}}
    ]}"#);
    let (data, mime) = extract_single_image(&result).unwrap();
    assert_eq!(data, PNG_DATA);
    assert_eq!(mime, "Image/PNG; q=1");
    let file = plan_image(&result, "out.PNG", false).unwrap();
    assert_eq!(file.mime_type, "image/png");
    assert_eq!(file.path, "out.PNG");
}

#[test]
fn image_item_errors() {
    let error =
        extract_single_image(&j(r#"{"content":[{"type":"image","mimeType":"image/png"}]}"#))
            .unwrap_err();
    assert_eq!(error.message(), "image content is missing base64 data");
    let error = extract_single_image(&j(r#"{"content":[{"type":"image","data":"x"}]}"#))
        .unwrap_err();
    assert_eq!(error.message(), "image content is missing a MIME type");
    let error = extract_single_image(&j(
        r#"{"content":[{"type":"image","data":"x","mimeType":"text/plain"}]}"#,
    ))
    .unwrap_err();
    assert_eq!(
        error.message(),
        "image content has incompatible MIME type `text/plain`"
    );
    let error = extract_single_image(&j(
        r#"{"content":[{"type":"resource","resource":{"mimeType":"image/gif"}}]}"#,
    ))
    .unwrap_err();
    assert_eq!(
        error.message(),
        "embedded image resource is missing base64 data"
    );
    let error = extract_single_image(&j(r#"{"result":1}"#)).unwrap_err();
    assert_eq!(
        error.message(),
        "tool result has no MCP content array; omit output options to see the full JSON"
    );
}

#[test]
fn output_paths_follow_the_mime_type() {
    assert_eq!(resolve_output_path("a/b", "image/jpeg").unwrap(), "a/b.jpg");
    assert_eq!(resolve_output_path("a/b.JPEG", "image/jpeg").unwrap(), "a/b.JPEG");
    assert_eq!(resolve_output_path("x.tif", "image/tiff").unwrap(), "x.tif");
    assert_eq!(resolve_output_path("icon", "image/x-icon").unwrap(), "icon.ico");
    let error = resolve_output_path("a.png", "image/heic").unwrap_err();
    assert_eq!(error.message(), "unsupported image MIME type `image/heic`");
    let error = resolve_output_path("a.Gif", "image/png").unwrap_err();
    assert_eq!(
        error.message(),
        "output extension .gif is incompatible with returned MIME type `image/png`"
    );
}

#[test]
fn mime_types_are_normalized() {
    assert_eq!(normalize_mime_type("  Image/PNG ; charset=x"), "image/png");
    assert_eq!(normalize_mime_type("image/webp"), "image/webp");
    assert_eq!(normalize_mime_type("\u{a0}TEXT/Plain\u{2003}"), "text/plain");
    assert!(is_image_mime("IMAGE/svg+xml; a=b"));
    assert!(!is_image_mime("text/html"));
    assert!(!is_image_mime("imag"));
}

#[test]
fn text_content_is_joined_line_by_line() {
    let text = extract_text(&j(
        r#"{"content":[{"type":"text","text":"one"},{"type":"text","text":"two\n"},{"type":"text","text":""}]}"#,
    ))
    .unwrap();
    assert_eq!(text, "one\ntwo\n\n");

    let error = extract_text(&j(r#"{"content":[]}"#)).unwrap_err();
    assert_eq!(
        error.message(),
        "tool returned no text content; omit --text to see the full JSON"
    );
    let error = extract_text(&j(r#"{"content":[{"type":"text"}]}"#)).unwrap_err();
    assert_eq!(
        error.message(),
        "Paper returned text content without a text value"
    );
    let error = extract_text(&j(r#"{"content":[{"type":"image"},{"kind":1}]}"#)).unwrap_err();
    assert!(error.message().contains("(image, unknown)"));
}

#[test]
fn file_names_from_structured_content() {
    let result = j(r#"{"structuredContent":{"files":[{"name":"A"}]},"content":[]}"#);
    assert_eq!(file_names_text(&result).unwrap(), "A\n");
    let error = file_names_text(&j(r#"{"content":[{"type":"text","text":"[]"}]}"#)).unwrap_err();
    assert_eq!(
        error.message(),
        "list_files response does not contain a files array"
    );
    let error =
        file_names_text(&j(r#"{"structuredContent":{"files":[{"id":"1"}]}}"#)).unwrap_err();
    assert_eq!(error.message(), "list_files returned a file without a name");
}
