use godot_mcp::bridge::{BridgeClient, BridgeEvent, BridgeResponse, BridgeStep};
use godot_mcp::cli_runner::{CliRunner, ProcessOutput};
use godot_mcp::config::{Config, DirStep, HostPlatform, WindowsScan, DEFAULT_DEBUG_PORT};
use godot_mcp::error::McpError;
use godot_mcp::json::Json;
use godot_mcp::protocol::{JsonRpcRequest, ToolContent, ToolResult};
use godot_mcp::server::{Dispatch, McpServer};
use godot_mcp::text::{decimal_string, trim};
use godot_mcp::tools::{BridgeReply, ToolAction, ToolCall, ToolEvent, ToolManager};

fn object(members: Vec<(&str, Json)>) -> Json {
    Json::Object(members.into_iter().map(|(k, v)| (k.to_string(), v)).collect())
}

fn s(text: &str) -> Json {
    Json::Str(text.to_string())
}

fn text_of(r: &ToolResult) -> String {
    match &r.content[0] {
        ToolContent::Text { text } => text.clone(),
        ToolContent::Image { .. } => panic!("expected text"),
    }
}

fn finished(a: ToolAction) -> ToolResult {
    match a {
        ToolAction::Finish(r) => r,
        _ => panic!("expected the call to finish"),
    }
}

fn manager() -> ToolManager {
    ToolManager::new(BridgeClient::new(9333), CliRunner::new("/opt/godot".to_string()))
}

fn config(path: Option<&str>) -> Config {
    Config {
        godot_path: path.map(|p| p.to_string()),
        godot_console_path: None,
        debug_port: DEFAULT_DEBUG_PORT,
        mcp_url: None,
    }
}

fn strings(v: &[&str]) -> Vec<String> {
    v.iter().map(|x| x.to_string()).collect()
}

// ----- text -------------------------------------------------------------------------

#[test]
fn decimal_rendering() {
    assert_eq!(decimal_string(0), "0");
    assert_eq!(decimal_string(9333), "9333");
    assert_eq!(decimal_string(u64::MAX), u64::MAX.to_string());
}

#[test]
fn trimming() {
    assert_eq!(trim("  4.3.stable \n"), "4.3.stable");
    assert_eq!(trim("\u{3000}\tx y\u{a0}"), "x y");
    assert_eq!(trim(" \n\t "), "");
    assert_eq!(trim(&trim(" a ")), trim(" a "));
}

// ----- json -------------------------------------------------------------------------

#[test]
fn json_field_access() {
    let j = object(vec![("a", s("1")), ("b", Json::Bool(true)), ("a", s("2"))]);
    assert_eq!(j.get_str("a"), Some("1".to_string()));
    assert_eq!(j.get_str("b"), None);
    assert_eq!(j.get_str("c"), None);
    assert_eq!(s("x").get_str("a"), None);
    assert!(j.is_object());
    assert!(!Json::Null.is_object());
    match j.take_field("b") {
        Some(Json::Bool(true)) => {}
        _ => panic!("expected the member b"),
    }
}

// ----- errors -----------------------------------------------------------------------

#[test]
fn error_messages() {
    assert_eq!(McpError::Bridge("x".into()).to_string(), "Bridge connection error: x");
    assert_eq!(McpError::Config("x".into()).to_string(), "Configuration error: x");
    assert_eq!(McpError::Process("x".into()).to_string(), "Engine process error: x");
    assert_eq!(McpError::Protocol("x".into()).to_string(), "Protocol error: x");
    assert_eq!(McpError::ToolExecution("x".into()).to_string(), "Tool execution error: x");
    assert_eq!(McpError::Validation("x".into()).to_string(), "Validation error: x");
    assert_eq!(McpError::Io("x".into()).to_string(), "I/O error: x");
    assert_eq!(McpError::Json("x".into()).to_string(), "JSON serialization error: x");
}

// ----- bridge -----------------------------------------------------------------------

#[test]
fn bridge_address() {
    let c = BridgeClient::new(9333);
    assert_eq!(c.url(), "ws://127.0.0.1:9333");
    assert_eq!(c.port(), 9333);
    match c.connect_timed_out() {
        McpError::Bridge(m) => assert_eq!(
            m,
            "Connection to Godot Editor bridge at ws://127.0.0.1:9333 timed out. Ensure Godot Editor is open and plugin is active on port 9333."
        ),
        _ => panic!("expected a bridge error"),
    }
    match c.connect_failed("refused") {
        McpError::Bridge(m) => assert_eq!(
            m,
            "Failed to connect to Godot Editor bridge at ws://127.0.0.1:9333: refused. Ensure Godot is running and the Godot MCP Bridge plugin is enabled."
        ),
        _ => panic!("expected a bridge error"),
    }
}

#[test]
fn commands_get_fresh_uuids() {
    let c = BridgeClient::new(1);
    let (cmd, pending) = c.prepare_command("get_scene_tree", Json::Null);
    let (cmd2, _) = c.prepare_command("get_scene_tree", Json::Null);
    assert_eq!(cmd.command_type, "get_scene_tree");
    assert_eq!(pending.command_id, cmd.command_id);
    assert_eq!(cmd.command_id.len(), 36);
    assert_eq!(cmd.command_id.chars().nth(14), Some('4'));
    assert_ne!(cmd.command_id, cmd2.command_id);
}

#[test]
fn replies_are_matched_by_command_id() {
    let c = BridgeClient::new(1);
    let (_, pending) = c.prepare_command("save_scene", Json::Null);
    let other = BridgeResponse {
        command_id: "someone-else".into(),
        status: "success".into(),
        result: None,
        error: None,
    };
    assert!(matches!(pending.on_event(BridgeEvent::Text(Ok(other))), BridgeStep::Wait));
    let mine = BridgeResponse {
        command_id: pending.command_id.clone(),
        status: "success".into(),
        result: Some(s("saved")),
        error: None,
    };
    match pending.on_event(BridgeEvent::Text(Ok(mine))) {
        BridgeStep::Done(Ok(Json::Str(v))) => assert_eq!(v, "saved"),
        _ => panic!("expected the result"),
    }
    let empty = BridgeResponse {
        command_id: pending.command_id.clone(),
        status: "success".into(),
        result: None,
        error: None,
    };
    assert!(matches!(pending.on_event(BridgeEvent::Text(Ok(empty))), BridgeStep::Done(Ok(Json::Null))));
    let failed = BridgeResponse {
        command_id: pending.command_id.clone(),
        status: "error".into(),
        result: None,
        error: None,
    };
    match pending.on_event(BridgeEvent::Text(Ok(failed))) {
        BridgeStep::Done(Err(McpError::ToolExecution(m))) => assert_eq!(m, "Unknown engine error"),
        _ => panic!("expected an engine error"),
    }
}

#[test]
fn other_bridge_events() {
    let c = BridgeClient::new(1);
    let (_, pending) = c.prepare_command("open_scene", Json::Null);
    match pending.on_event(BridgeEvent::Ping(vec![1, 2])) {
        BridgeStep::Pong(d) => assert_eq!(d, vec![1, 2]),
        _ => panic!("expected a pong"),
    }
    assert!(matches!(pending.on_event(BridgeEvent::Binary), BridgeStep::Wait));
    assert!(matches!(pending.on_event(BridgeEvent::Pong), BridgeStep::Wait));
    assert!(matches!(pending.on_event(BridgeEvent::Frame), BridgeStep::Wait));
    match pending.on_event(BridgeEvent::Close) {
        BridgeStep::Done(Err(e)) => assert_eq!(e, McpError::Bridge("Connection closed by Godot Editor bridge".into())),
        _ => panic!("expected an error"),
    }
    match pending.on_event(BridgeEvent::Ended) {
        BridgeStep::Done(Err(e)) => assert_eq!(e, McpError::Bridge("WebSocket connection closed without response".into())),
        _ => panic!("expected an error"),
    }
    match pending.on_event(BridgeEvent::ReceiveError("reset".into())) {
        BridgeStep::Done(Err(e)) => assert_eq!(e, McpError::Bridge("WebSocket receive error: reset".into())),
        _ => panic!("expected an error"),
    }
    match pending.on_event(BridgeEvent::Text(Err("eof".into()))) {
        BridgeStep::Done(Err(e)) => assert_eq!(e, McpError::Protocol("Malformed bridge response: eof".into())),
        _ => panic!("expected an error"),
    }
    assert_eq!(
        pending.timed_out(),
        McpError::Bridge("Timed out waiting for response from Godot Editor for command 'open_scene'".into())
    );
    assert_eq!(pending.send_failed("broken"), McpError::Bridge("Failed to send command to Godot: broken".into()));
}

// ----- cli --------------------------------------------------------------------------

#[test]
fn command_lines() {
    let cli = CliRunner::new("/opt/godot".to_string());
    let v = cli.version_command();
    assert_eq!(v.program, "/opt/godot");
    assert_eq!(v.args, strings(&["--version"]));
    assert!(!v.detached_io);
    let e = cli.editor_command("/p");
    assert_eq!(e.args, strings(&["--editor", "--path", "/p"]));
    assert!(e.detached_io);
    assert_eq!(cli.project_command("/p", None).args, strings(&["--path", "/p"]));
    assert!(cli.project_command("/p", None).detached_io);
    assert_eq!(
        cli.project_command("/p", Some("res://Main.tscn")).args,
        strings(&["--path", "/p", "res://Main.tscn"])
    );
    assert_eq!(
        cli.validate_command(None, "a.gd").args,
        strings(&["--headless", "--check-only", "--script", "a.gd"])
    );
    assert_eq!(
        cli.validate_command(Some("/p"), "a.gd").args,
        strings(&["--headless", "--check-only", "--path", "/p", "--script", "a.gd"])
    );
}

#[test]
fn version_outcomes() {
    let cli = CliRunner::new("/opt/godot".to_string());
    let ok = ProcessOutput { success: true, stdout: b"4.3.stable.official\n".to_vec(), stderr: vec![] };
    assert_eq!(cli.version_outcome(Ok(ok)), Ok("4.3.stable.official".to_string()));
    let bad = ProcessOutput { success: false, stdout: vec![], stderr: vec![b'x', 0xff] };
    assert_eq!(
        cli.version_outcome(Ok(bad)),
        Err(McpError::Process("Godot --version exited with error: x\u{fffd}".into()))
    );
    assert_eq!(
        cli.version_outcome(Err("not found".into())),
        Err(McpError::Process("Failed to invoke Godot executable at '/opt/godot': not found".into()))
    );
}

#[test]
fn spawn_outcomes() {
    assert_eq!(CliRunner::editor_spawned(Ok(Some(7))), Ok(7));
    assert_eq!(
        CliRunner::editor_spawned(Ok(None)),
        Err(McpError::Process("Failed to obtain Godot process ID".into()))
    );
    assert_eq!(
        CliRunner::editor_spawned(Err("denied".into())),
        Err(McpError::Process("Failed to spawn Godot Editor process: denied".into()))
    );
    assert_eq!(
        CliRunner::project_spawned(Ok(None)),
        Err(McpError::Process("Failed to obtain project process ID".into()))
    );
    assert_eq!(
        CliRunner::project_spawned(Err("denied".into())),
        Err(McpError::Process("Failed to spawn Godot project: denied".into()))
    );
}

#[test]
fn validation_outcomes() {
    let pass = ProcessOutput { success: true, stdout: b"ok".to_vec(), stderr: b" \n".to_vec() };
    assert_eq!(
        CliRunner::validation_outcome(Ok(pass)),
        Ok("GDScript validation passed successfully with no errors.".to_string())
    );
    let warn = ProcessOutput { success: true, stdout: b"out\n".to_vec(), stderr: b"SCRIPT ERROR\n".to_vec() };
    assert_eq!(
        CliRunner::validation_outcome(Ok(warn)),
        Err(McpError::Validation("Stdout: out\n\nStderr: SCRIPT ERROR".into()))
    );
    let fail = ProcessOutput { success: false, stdout: vec![], stderr: vec![] };
    assert_eq!(
        CliRunner::validation_outcome(Ok(fail)),
        Err(McpError::Validation("Stdout: \nStderr:".into()))
    );
    assert_eq!(
        CliRunner::validation_outcome(Err("gone".into())),
        Err(McpError::Process("Failed to run Godot script validation: gone".into()))
    );
}

// ----- config -----------------------------------------------------------------------

#[test]
fn choosing_the_executable() {
    let c = config(Some("/my/godot"));
    assert_eq!(c.choose_godot_path(true, Some("/usr/bin/godot".into())), "/my/godot");
    assert_eq!(c.choose_godot_path(false, Some("/usr/bin/godot".into())), "/usr/bin/godot");
    assert_eq!(c.choose_godot_path(false, None), "godot");
    assert_eq!(config(None).choose_godot_path(true, None), "godot");
}

#[test]
fn resolving_the_executable() {
    assert_eq!(config(Some("/")).resolve_godot_path(&HostPlatform::Other), "/");
    let missing = config(Some("/definitely/not/a/godot/binary"));
    assert_eq!(missing.resolve_godot_path(&HostPlatform::Other), "godot");
    assert_eq!(
        missing.resolve_godot_path(&HostPlatform::Windows { installed: Some("C:\\G\\Godot.exe".into()) }),
        "C:\\G\\Godot.exe"
    );
}

#[test]
fn install_locations() {
    assert_eq!(
        Config::install_candidates(&HostPlatform::Linux),
        strings(&["/usr/bin/godot", "/usr/local/bin/godot", "/var/lib/flatpak/exports/bin/org.godotengine.Godot"])
    );
    assert_eq!(
        Config::install_candidates(&HostPlatform::MacOs),
        strings(&["/Applications/Godot.app/Contents/MacOS/Godot", "/Applications/Godot_mono.app/Contents/MacOS/Godot"])
    );
    assert!(Config::install_candidates(&HostPlatform::Other).is_empty());
    assert_eq!(
        Config::windows_scan_roots(Some("C:\\PF".into()), None, Some("C:\\L".into())),
        strings(&["C:\\PF", "C:\\L\\Programs"])
    );
}

#[test]
fn windows_executable_names() {
    assert!(Config::godot_exe_name("Godot_v4.3-stable_win64.exe"));
    assert!(Config::godot_exe_name("GODOT.EXE"));
    assert!(!Config::godot_exe_name("Godot_v4.3-stable_win64_console.exe"));
    assert!(!Config::godot_exe_name("godot.zip"));
    assert!(!Config::godot_exe_name("mygodot.exe"));
    let names = strings(&["readme.txt", "Godot_v4.2-stable_win64.exe", "Godot_v4.3-stable_win64.exe", "Godot_v4.3-stable_win64_console.exe"]);
    assert_eq!(Config::pick_godot_exe(&names), Some(2));
    assert_eq!(Config::pick_godot_exe(&strings(&["a.txt"])), None);
    match Config::windows_dir_step(&names, vec![], 2) {
        DirStep::Found(f) => assert_eq!(f, "Godot_v4.3-stable_win64.exe"),
        _ => panic!("expected a find"),
    }
    match Config::windows_dir_step(&strings(&["a.txt"]), strings(&["C:\\x\\sub"]), 2) {
        DirStep::Descend { subdirs, depth } => {
            assert_eq!(subdirs, strings(&["C:\\x\\sub"]));
            assert_eq!(depth, 1);
        }
        _ => panic!("expected to descend"),
    }
    assert!(matches!(Config::windows_dir_step(&strings(&["a.txt"]), vec![], 0), DirStep::NotFound));
}

#[test]
fn first_present_candidate() {
    let c = strings(&["a", "b", "c"]);
    assert_eq!(Config::first_present(&c, &vec![false, true, true]), Some("b".to_string()));
    assert_eq!(Config::first_present(&c, &vec![false, false, false]), None);
    assert_eq!(Config::first_present(&c, &vec![false]), None);
    assert_eq!(Config::first_present(&c, &vec![true]), Some("a".to_string()));
    assert_eq!(Config::first_existing(&strings(&["/definitely/not/here", "/", "/tmp"])), Some("/".to_string()));
    assert_eq!(Config::first_existing(&strings(&["/definitely/not/here"])), None);
    assert_eq!(Config::scan_for_godot_binary(&HostPlatform::Other), None);
}

#[test]
fn lower_case_names() {
    assert!(Config::lower_name_matches("godot_v4.3-stable_win64.exe"));
    assert!(!Config::lower_name_matches("Godot_v4.3-stable_win64.exe"));
    assert!(!Config::lower_name_matches("godot_console.exe"));
}

#[test]
fn windows_scan_order() {
    let mut scan = WindowsScan::new(strings(&["C:\\A", "C:\\B"]));
    assert_eq!(scan.next_folder(), Some(("C:\\A".to_string(), 1)));
    assert_eq!(scan.visit(&strings(&["x.txt"]), strings(&["C:\\A\\s1", "C:\\A\\s2"]), 1), None);
    assert_eq!(scan.next_folder(), Some(("C:\\A\\s1".to_string(), 0)));
    // One level down is the deepest the scan looks.
    assert_eq!(scan.visit(&vec![], strings(&["C:\\A\\s1\\deep"]), 0), None);
    assert_eq!(scan.next_folder(), Some(("C:\\A\\s2".to_string(), 0)));
    assert_eq!(scan.visit(&strings(&["Godot_v4.2.exe", "Godot_v4.3.exe"]), vec![], 0), Some("Godot_v4.3.exe".to_string()));
    assert_eq!(scan.next_folder(), Some(("C:\\B".to_string(), 1)));
    assert_eq!(scan.next_folder(), None);
}

// ----- tools ------------------------------------------------------------------------

#[test]
fn unknown_tool_is_reported() {
    let (call, action) = manager().call_tool("godot_fly", Json::Null);
    assert!(matches!(call, ToolCall::Done));
    let r = finished(action);
    assert!(r.is_error);
    assert_eq!(
        text_of(&r),
        "Tool 'godot_fly' is not recognized\n\nSuggestions:\n- Check tool name spelling against tools/list"
    );
}

#[test]
fn every_listed_tool_is_served() {
    let m = manager();
    for tool in ToolManager::list_tools() {
        let (_, action) = m.call_tool(&tool.name, object(vec![]));
        if let ToolAction::Finish(r) = action {
            assert!(!text_of(&r).contains("is not recognized"), "{} is not served", tool.name);
        }
    }
}

#[test]
fn forwarded_tools_pass_their_arguments() {
    let (call, action) = manager().call_tool("godot_add_node", object(vec![("node_type", s("Sprite2D"))]));
    assert!(matches!(call, ToolCall::Forward));
    match action {
        ToolAction::Bridge { command, params } => {
            assert_eq!(command, "add_node");
            assert_eq!(params.get_str("node_type"), Some("Sprite2D".to_string()));
        }
        _ => panic!("expected a bridge command"),
    }
    let m = manager();
    let (call, action) = m.call_tool("godot_save_scene", Json::Null);
    assert!(matches!(action, ToolAction::Bridge { .. }));
    let reply = BridgeReply { value: Json::Null, pretty: "null".into() };
    let (call, action) = m.resume(call, ToolEvent::Bridge(Ok(reply)));
    assert!(matches!(call, ToolCall::Done));
    assert_eq!(text_of(&finished(action)), "null");
    let (call, _) = m.call_tool("godot_get_scene_tree", Json::Null);
    let (_, action) = m.resume(call, ToolEvent::Bridge(Err(McpError::Bridge("down".into()))));
    let r = finished(action);
    assert!(r.is_error);
    assert!(text_of(&r).starts_with("Bridge connection error: down\n\nSuggestions:\n- Launch Godot Editor with your project"));
}

#[test]
fn version_falls_back_to_the_executable() {
    let m = manager();
    let (call, action) = m.call_tool("godot_get_version", Json::Null);
    match &action {
        ToolAction::Bridge { command, .. } => assert_eq!(command, "get_version"),
        _ => panic!("expected a bridge command"),
    }
    let live = BridgeReply { value: Json::Null, pretty: "{\"v\": 4}".into() };
    let (_, done) = m.resume(call, ToolEvent::Bridge(Ok(live)));
    assert_eq!(text_of(&finished(done)), "Godot Engine (Live Editor Connected):\n{\"v\": 4}");

    let (call, _) = m.call_tool("godot_get_version", Json::Null);
    let (call, action) = m.resume(call, ToolEvent::Bridge(Err(McpError::Bridge("down".into()))));
    assert!(matches!(call, ToolCall::VersionCli));
    match &action {
        ToolAction::Run(c) => assert_eq!(c.args, strings(&["--version"])),
        _ => panic!("expected a run"),
    }
    let out = ProcessOutput { success: true, stdout: b"4.3\n".to_vec(), stderr: vec![] };
    let (_, done) = m.resume(call, ToolEvent::Ran(Ok(out)));
    assert_eq!(
        text_of(&finished(done)),
        "Godot Engine (Headless CLI):\nVersion: 4.3\nNote: Editor bridge is offline. Launch Godot Editor and enable Godot MCP Bridge plugin for live manipulation."
    );

    let (call, _) = m.call_tool("godot_get_version", Json::Null);
    let (call, _) = m.resume(call, ToolEvent::Bridge(Err(McpError::Bridge("down".into()))));
    let (_, done) = m.resume(call, ToolEvent::Ran(Err("missing".into())));
    let r = finished(done);
    assert!(r.is_error);
    assert_eq!(
        text_of(&r),
        "Failed to retrieve Godot version: Engine process error: Failed to invoke Godot executable at '/opt/godot': missing\n\nSuggestions:\n- Verify GODOT_PATH in .env\n- Ensure Godot executable is installed and reachable"
    );
}

#[test]
fn capture_viewport() {
    let m = manager();
    let (call, _) = m.call_tool("godot_capture_viewport", Json::Null);
    let value = object(vec![("data", s("QUJD")), ("mime_type", s("image/png"))]);
    let (_, done) = m.resume(call, ToolEvent::Bridge(Ok(BridgeReply { value, pretty: String::new() })));
    let r = finished(done);
    assert!(!r.is_error);
    assert!(matches!(&r.content[0], ToolContent::Image { data, mime_type } if data == "QUJD" && mime_type == "image/png"));

    let (call, _) = m.call_tool("godot_capture_viewport", Json::Null);
    let value = object(vec![("data", s("QUJD"))]);
    let (_, done) = m.resume(call, ToolEvent::Bridge(Ok(BridgeReply { value, pretty: String::new() })));
    assert_eq!(text_of(&finished(done)), "Invalid image response received from Godot viewport");

    let (call, _) = m.call_tool("godot_capture_viewport", Json::Null);
    let (_, done) = m.resume(call, ToolEvent::Bridge(Err(McpError::Bridge("x".into()))));
    assert_eq!(
        text_of(&finished(done)),
        "Failed to capture viewport: Bridge connection error: x\n\nSuggestions:\n- Ensure Godot Editor has a scene open in 2D or 3D view"
    );
}

#[test]
fn launch_editor() {
    let m = manager();
    let (call, action) = m.call_tool("godot_launch_editor", object(vec![]));
    assert!(matches!(call, ToolCall::Done));
    assert_eq!(text_of(&finished(action)), "Missing required parameter: project_path");

    let (call, action) = m.call_tool("godot_launch_editor", object(vec![("project_path", s("/games/a"))]));
    match &action {
        ToolAction::CheckPath(p) => assert_eq!(p, "/games/a"),
        _ => panic!("expected a path check"),
    }
    let (_, done) = m.resume(call, ToolEvent::PathExists(false));
    assert_eq!(
        text_of(&finished(done)),
        "Project directory does not exist: /games/a\n\nSuggestions:\n- Verify path spelling and ensure project.godot exists"
    );

    let (call, _) = m.call_tool("godot_launch_editor", object(vec![("project_path", s("/games/a"))]));
    let (call, action) = m.resume(call, ToolEvent::PathExists(true));
    match &action {
        ToolAction::Spawn(c) => {
            assert_eq!(c.args, strings(&["--editor", "--path", "/games/a"]));
            assert!(c.detached_io);
        }
        _ => panic!("expected a spawn"),
    }
    let (_, done) = m.resume(call, ToolEvent::Spawned(Ok(Some(4242))));
    assert_eq!(text_of(&finished(done)), "Godot Editor launched successfully for '/games/a' (PID: 4242).");
}

#[test]
fn run_project() {
    let m = manager();
    let args = object(vec![("project_path", s("/g")), ("scene", s("res://Main.tscn"))]);
    let (call, action) = m.call_tool("godot_run_project", args);
    match &action {
        ToolAction::Spawn(c) => {
            assert_eq!(c.args, strings(&["--path", "/g", "res://Main.tscn"]));
            assert!(c.detached_io);
        }
        _ => panic!("expected a spawn"),
    }
    let (_, done) = m.resume(call, ToolEvent::Spawned(Ok(Some(17))));
    assert_eq!(text_of(&finished(done)), "Godot project instance spawned (PID: 17) for '/g'.");
    let (call, _) = m.call_tool("godot_run_project", object(vec![("project_path", s("/g"))]));
    let (_, done) = m.resume(call, ToolEvent::Spawned(Ok(None)));
    assert_eq!(
        text_of(&finished(done)),
        "Failed to run project: Engine process error: Failed to obtain project process ID"
    );
}

#[test]
fn create_script() {
    let m = manager();
    let (_, action) = m.call_tool("godot_create_script", object(vec![("file_path", s("../evil.gd"))]));
    let r = finished(action);
    assert!(r.is_error);
    assert_eq!(
        text_of(&r),
        "Invalid path: directory traversal with '..' is strictly forbidden\n\nSuggestions:\n- Provide a path without relative parent references"
    );

    let args = object(vec![("file_path", s("scripts/player.gd")), ("extends_class", s("CharacterBody2D")), ("class_name", s("Player"))]);
    let (call, action) = m.call_tool("godot_create_script", args);
    match &action {
        ToolAction::WriteFile { path, content } => {
            assert_eq!(path, "scripts/player.gd");
            assert_eq!(content, "extends CharacterBody2D\nclass_name Player\n\nfunc _ready() -> void:\n\tpass\n");
        }
        _ => panic!("expected a write"),
    }
    let (_, done) = m.resume(call, ToolEvent::Written(Ok(())));
    assert_eq!(
        text_of(&finished(done)),
        "Successfully created GDScript file at 'scripts/player.gd' extending 'CharacterBody2D'."
    );

    let (call, action) = m.call_tool("godot_create_script", object(vec![("file_path", s("a.gd"))]));
    match &action {
        ToolAction::WriteFile { content, .. } => assert_eq!(content, "extends Node\n\nfunc _ready() -> void:\n\tpass\n"),
        _ => panic!("expected a write"),
    }
    let (_, done) = m.resume(call, ToolEvent::Written(Err("read-only".into())));
    assert_eq!(text_of(&finished(done)), "Failed to write script file: read-only");
}

#[test]
fn validate_script() {
    let m = manager();
    let (_, action) = m.call_tool("godot_validate_script", object(vec![]));
    assert_eq!(text_of(&finished(action)), "Missing required parameter: script_path");
    let args = object(vec![("script_path", s("a.gd")), ("project_path", s("/g"))]);
    let (call, action) = m.call_tool("godot_validate_script", args);
    match &action {
        ToolAction::Run(c) => assert_eq!(c.args, strings(&["--headless", "--check-only", "--path", "/g", "--script", "a.gd"])),
        _ => panic!("expected a run"),
    }
    let out = ProcessOutput { success: false, stdout: vec![], stderr: b"Parse Error\n".to_vec() };
    let (_, done) = m.resume(call, ToolEvent::Ran(Ok(out)));
    let r = finished(done);
    assert!(r.is_error);
    assert!(text_of(&r).starts_with("Script validation failed: Validation error: Stdout: \nStderr: Parse Error\n\nSuggestions:"));
}

#[test]
fn accepted_events() {
    assert!(ToolCall::Forward.accepts_event(&ToolEvent::Bridge(Err(McpError::Bridge("x".into())))));
    assert!(!ToolCall::Forward.accepts_event(&ToolEvent::PathExists(true)));
    assert!(!ToolCall::Done.accepts_event(&ToolEvent::PathExists(true)));
    assert!(ToolCall::Validating.accepts_event(&ToolEvent::Ran(Err("x".into()))));
}

// ----- server -----------------------------------------------------------------------

fn request(id: Option<Json>, method: &str, params: Json) -> JsonRpcRequest {
    JsonRpcRequest { id, method: method.to_string(), params }
}

fn server() -> McpServer {
    McpServer::new(&config(Some("/definitely/not/there")), &HostPlatform::Other)
}

#[test]
fn server_setup() {
    let srv = server();
    assert_eq!(srv.tool_manager().bridge().port(), 9333);
    assert_eq!(srv.tool_manager().cli().binary(), "godot");
}

#[test]
fn initialize_and_ping() {
    let srv = server();
    match srv.handle_request(request(Some(Json::Number("1".into())), "initialize", Json::Null)) {
        Dispatch::Reply(Some(r)) => {
            assert!(r.error.is_none());
            assert!(matches!(&r.id, Json::Number(n) if n == "1"));
            let res = r.result.expect("result");
            assert_eq!(res.get_str("protocolVersion"), Some("2024-11-05".to_string()));
        }
        _ => panic!("expected an answer"),
    }
    match srv.handle_request(request(Some(s("p")), "ping", Json::Null)) {
        Dispatch::Reply(Some(r)) => assert!(matches!(r.result, Some(Json::Object(m)) if m.is_empty())),
        _ => panic!("expected an answer"),
    }
    assert!(matches!(
        srv.handle_request(request(None, "notifications/initialized", Json::Null)),
        Dispatch::Reply(None)
    ));
}

#[test]
fn unknown_methods() {
    let srv = server();
    match srv.handle_request(request(Some(Json::Number("7".into())), "resources/list", Json::Null)) {
        Dispatch::Reply(Some(r)) => {
            let e = r.error.expect("error");
            assert_eq!(e.code, -32601);
            assert_eq!(e.message, "Method 'resources/list' not found");
            assert!(r.result.is_none());
        }
        _ => panic!("expected an answer"),
    }
    assert!(matches!(srv.handle_request(request(None, "resources/list", Json::Null)), Dispatch::Reply(None)));
}

#[test]
fn tool_list_and_calls() {
    let srv = server();
    match srv.handle_request(request(Some(Json::Number("2".into())), "tools/list", Json::Null)) {
        Dispatch::Reply(Some(r)) => match r.result {
            Some(Json::Object(m)) => match &m[0].1 {
                Json::Array(items) => assert_eq!(items.len(), 14),
                _ => panic!("expected the tools"),
            },
            _ => panic!("expected an object"),
        },
        _ => panic!("expected an answer"),
    }
    let params = object(vec![("name", s("godot_save_scene")), ("arguments", object(vec![("x", s("y"))]))]);
    match srv.handle_request(request(Some(Json::Number("3".into())), "tools/call", params)) {
        Dispatch::CallTool { id, name, arguments } => {
            assert!(matches!(id, Json::Number(n) if n == "3"));
            assert_eq!(name, "godot_save_scene");
            assert_eq!(arguments.get_str("x"), Some("y".to_string()));
        }
        _ => panic!("expected a tool call"),
    }
    match srv.handle_request(request(None, "tools/call", object(vec![]))) {
        Dispatch::CallTool { id, name, arguments } => {
            assert!(matches!(id, Json::Null));
            assert_eq!(name, "");
            assert!(matches!(arguments, Json::Object(m) if m.is_empty()));
        }
        _ => panic!("expected a tool call"),
    }
    let r = McpServer::tool_call_response(s("id"), ToolResult::text("done"));
    assert!(r.error.is_none());
    assert!(matches!(r.id, Json::Str(ref i) if i == "id"));
}

#[test]
fn request_lines() {
    assert_eq!(McpServer::request_text("  {\"a\":1}\n"), Some("{\"a\":1}".to_string()));
    assert_eq!(McpServer::request_text(" \t\r\n"), None);
    let r = McpServer::parse_error_response();
    let e = r.error.expect("error");
    assert_eq!(e.code, -32700);
    assert_eq!(e.message, "Parse error");
    assert!(matches!(r.id, Json::Null));
}
