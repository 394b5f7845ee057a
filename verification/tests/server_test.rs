use godot_mcp::json::Json;
use godot_mcp::protocol::{JsonRpcResponse, ToolContent, ToolResult};
use godot_mcp::tools::ToolManager;
use serde_json::{Number, Value};

/// The serde form of a library JSON value.
fn to_serde(j: &Json) -> Value {
    match j {
        Json::Null => Value::Null,
        Json::Bool(b) => Value::Bool(*b),
        Json::Number(n) => Value::Number(n.parse::<Number>().expect("number text")),
        Json::Str(s) => Value::String(s.clone()),
        Json::Array(items) => Value::Array(items.iter().map(to_serde).collect()),
        Json::Object(members) => {
            let mut m = serde_json::Map::new();
            for (k, v) in members {
                m.insert(k.clone(), to_serde(v));
            }
            Value::Object(m)
        }
    }
}

/// The wire form of a response.
fn response_text(r: JsonRpcResponse) -> String {
    serde_json::to_string(&to_serde(&r.to_json())).expect("Serialization failed")
}

fn object(members: Vec<(&str, Json)>) -> Json {
    Json::Object(members.into_iter().map(|(k, v)| (k.to_string(), v)).collect())
}

fn text_of(r: &ToolResult) -> String {
    match &r.content[0] {
        ToolContent::Text { text } => text.clone(),
        ToolContent::Image { .. } => panic!("expected text"),
    }
}

#[test]
fn test_jsonrpc_success_response() {
    let resp = JsonRpcResponse::success(
        Json::Number("1".to_string()),
        object(vec![("status", Json::Str("ok".to_string()))]),
    );
    let serialized = response_text(resp);

    assert!(serialized.contains("\"jsonrpc\":\"2.0\""));
    assert!(serialized.contains("\"id\":1"));
    assert!(serialized.contains("\"status\":\"ok\""));
}

#[test]
fn test_jsonrpc_error_response() {
    let resp = JsonRpcResponse::error(Json::Str("req-123".to_string()), -32601, "Method not found");
    let serialized = response_text(resp);

    assert!(serialized.contains("\"code\":-32601"));
    assert!(serialized.contains("Method not found"));
}

#[test]
fn test_tool_definitions() {
    let tools = ToolManager::list_tools();
    assert!(!tools.is_empty());

    let tool_names: Vec<&str> = tools.iter().map(|t| t.name.as_str()).collect();
    assert!(tool_names.contains(&"godot_get_version"));
    assert!(tool_names.contains(&"godot_get_scene_tree"));
    assert!(tool_names.contains(&"godot_add_node"));
    assert!(tool_names.contains(&"godot_remove_node"));
    assert!(tool_names.contains(&"godot_capture_viewport"));
    assert!(tool_names.contains(&"godot_create_script"));
    assert!(tool_names.contains(&"godot_validate_script"));
    // No assertion on `godot_stop_project`, `godot_get_run_status`, `godot_get_open_scenes`
    // or `godot_resave_resources`: the README lists the tools the server offers, none of
    // these among them, and its roadmap names the resave tool as not implemented yet.

    // Verify all input schemas are valid JSON objects
    for tool in &tools {
        let schema = to_serde(&tool.input_schema);
        assert!(schema.is_object());
        assert_eq!(schema["type"], "object");
    }
}

#[test]
fn response_wire_form() {
    let ok = to_serde(&JsonRpcResponse::success(Json::Str("a".into()), Json::Bool(true)).to_json());
    assert_eq!(ok, serde_json::from_str::<Value>(r#"{"jsonrpc":"2.0","id":"a","result":true}"#).unwrap());
    let err = to_serde(&JsonRpcResponse::error(Json::Null, -32700, "Parse error").to_json());
    assert_eq!(
        err,
        serde_json::from_str::<Value>(r#"{"jsonrpc":"2.0","id":null,"error":{"code":-32700,"message":"Parse error"}}"#).unwrap()
    );
}

#[test]
fn test_tool_result_helpers() {
    let text_res = ToolResult::text("Sample output");
    assert!(!text_res.is_error);
    assert_eq!(text_res.content.len(), 1);

    let err_res = ToolResult::error("Sample error", &["Recovery suggestion 1"]);
    assert!(err_res.is_error);
    assert_eq!(err_res.content.len(), 1);
}

#[test]
fn tool_error_text_lists_suggestions() {
    let err_res = ToolResult::error("Sample error", &["first", "second"]);
    assert_eq!(text_of(&err_res), "Sample error\n\nSuggestions:\n- first\n- second");
    let bare = ToolResult::error("Only the message", &[]);
    assert_eq!(text_of(&bare), "Only the message");
    assert_eq!(text_of(&ToolResult::text("plain")), "plain");
}

#[test]
fn image_result_holds_one_image() {
    let r = ToolResult::image("aGVsbG8=", "image/png");
    assert!(!r.is_error);
    assert_eq!(r.content.len(), 1);
    match &r.content[0] {
        ToolContent::Image { data, mime_type } => {
            assert_eq!(data, "aGVsbG8=");
            assert_eq!(mime_type, "image/png");
        }
        ToolContent::Text { .. } => panic!("expected an image"),
    }
}

#[test]
fn tool_result_json_form() {
    let j = ToolResult::error("bad", &[]).to_json();
    let v = to_serde(&j);
    assert_eq!(v["isError"], Value::Bool(true));
    assert_eq!(v["content"][0]["type"], "text");
    assert_eq!(v["content"][0]["text"], "bad");
    let img = to_serde(&ToolResult::image("d", "image/png").to_json());
    assert_eq!(img["isError"], Value::Bool(false));
    assert_eq!(img["content"][0]["type"], "image");
    assert_eq!(img["content"][0]["data"], "d");
    assert_eq!(img["content"][0]["mimeType"], "image/png");
}

#[test]
fn tool_catalog_lists_the_documented_tools() {
    let tools = ToolManager::list_tools();
    let names: Vec<&str> = tools.iter().map(|t| t.name.as_str()).collect();
    assert_eq!(
        names,
        vec![
            "godot_get_version",
            "godot_get_project_info",
            "godot_launch_editor",
            "godot_run_project",
            "godot_get_scene_tree",
            "godot_add_node",
            "godot_remove_node",
            "godot_get_node_properties",
            "godot_set_node_properties",
            "godot_capture_viewport",
            "godot_open_scene",
            "godot_save_scene",
            "godot_create_script",
            "godot_validate_script",
        ]
    );
    for tool in &tools {
        let schema = to_serde(&tool.input_schema);
        assert!(schema.is_object());
        assert_eq!(schema["type"], "object");
        assert!(schema["properties"].is_object());
        assert!(!tool.description.is_empty());
    }
}

#[test]
fn tool_names_are_distinct() {
    let tools = ToolManager::list_tools();
    for (i, a) in tools.iter().enumerate() {
        for b in tools.iter().skip(i + 1) {
            assert_ne!(a.name, b.name);
        }
    }
}

#[test]
fn required_arguments_are_declared() {
    for tool in ToolManager::list_tools() {
        let schema = to_serde(&tool.input_schema);
        if let Some(required) = schema.get("required") {
            let required = required.as_array().expect("required is an array");
            assert!(!required.is_empty());
            for r in required {
                let name = r.as_str().expect("required names are strings");
                assert!(schema["properties"].get(name).is_some(), "{name} is not declared");
            }
        }
    }
}

#[test]
fn add_node_schema() {
    let tools = ToolManager::list_tools();
    let add = tools.iter().find(|t| t.name == "godot_add_node").expect("add_node");
    let schema = to_serde(&add.input_schema);
    assert_eq!(schema["required"], serde_json::Value::Array(vec![Value::String("node_type".into())]));
    assert_eq!(schema["properties"]["node_type"]["type"], "string");
    assert_eq!(
        schema["properties"]["parent_node_path"]["description"],
        "Path to parent node (e.g. '.' for root or 'Player/Sprite')."
    );
    let set = tools.iter().find(|t| t.name == "godot_set_node_properties").expect("set");
    let schema = to_serde(&set.input_schema);
    assert_eq!(schema["properties"]["properties"]["type"], "object");
}
