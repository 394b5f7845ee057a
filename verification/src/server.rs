//! The MCP server: how each JSON-RPC request is answered.
use vstd::prelude::*;
use crate::bridge::BridgeClient;
use crate::cli_runner::CliRunner;
use crate::config::{
    Config, HostPlatform, chosen_godot_path, install_locations, opt_view, scan_result,
};
use crate::json::{Json, lemma_member_value_distinct, member};
use crate::protocol::{JsonRpcRequest, JsonRpcResponse, ToolResult};
use crate::text::{trim, trimmed};
use crate::tools::{ToolManager, ToolSpec, schema_describes, tool_specs};

verus! {

/// The MCP protocol revision the server speaks.
pub open spec fn protocol_version() -> Seq<char> {
    "2024-11-05"@
}

/// The server's name, as announced to clients.
pub open spec fn server_name() -> Seq<char> {
    "godot-mcp"@
}

/// The server's version, as announced to clients.
pub open spec fn server_version() -> Seq<char> {
    "0.1.0"@
}

/// The id a response to `req` carries: the request's id, or `null` when it has none.
pub open spec fn response_id(req: JsonRpcRequest) -> Json {
    match req.id {
        Some(id) => id,
        None => Json::Null,
    }
}

/// `j` is the answer to `initialize`: the protocol revision, the tool capability (whose
/// list does not change) and the server's name and version.
pub open spec fn is_initialize_result(j: Json) -> bool {
    &&& j.keys() == seq!["protocolVersion"@, "capabilities"@, "serverInfo"@]
    &&& j.str_field("protocolVersion"@) == Some(protocol_version())
    &&& j.field("capabilities"@) matches Some(caps) && caps.keys() == seq!["tools"@] && (caps.field(
        "tools"@,
    ) matches Some(tools) && tools.keys() == seq!["listChanged"@] && tools.field("listChanged"@)
        == Some(Json::Bool(false)))
    &&& j.field("serverInfo"@) matches Some(info) && info.keys() == seq!["name"@, "version"@]
        && info.str_field("name"@) == Some(server_name()) && info.str_field("version"@) == Some(
        server_version(),
    )
}

/// The answer to `initialize` announces the tool capability, whose list does not change,
/// since the server offers tools through `tools/list` and `tools/call`.
pub proof fn lemma_initialize_announces_tools(j: Json)
    requires
        is_initialize_result(j),
    ensures
        tool_specs().len() > 0,
        j.field("capabilities"@) matches Some(caps) && (caps.field("tools"@) matches Some(t) && t.field(
            "listChanged"@,
        ) == Some(Json::Bool(false))),
        j.field("serverInfo"@) matches Some(info) && info.str_field("name"@) == Some("godot-mcp"@),
{
}

/// `j` is the JSON entry of the tool `spec` in `tools/list`.
pub open spec fn lists_tool(j: Json, spec: ToolSpec) -> bool {
    &&& j.keys() == seq!["name"@, "description"@, "inputSchema"@]
    &&& j.str_field("name"@) == Some(spec.name)
    &&& j.str_field("description"@) == Some(spec.description)
    &&& j.field("inputSchema"@) matches Some(s) && schema_describes(s, spec.params, spec.required)
}

/// `j` is the answer to `tools/list`: every offered tool, in order.
pub open spec fn is_tool_list(j: Json) -> bool {
    &&& j.keys() == seq!["tools"@]
    &&& j.field("tools"@) matches Some(Json::Array(items)) && items@.len() == tool_specs().len()
        && forall|i: int| 0 <= i < items@.len() ==> #[trigger] lists_tool(items@[i], tool_specs()[i])
}

/// The empty object.
pub open spec fn is_empty_object(j: Json) -> bool {
    j matches Json::Object(m) && m@.len() == 0
}

/// The response `r` answers `req` successfully with a result that satisfies `p`.
pub open spec fn answers_with(r: JsonRpcResponse, req: JsonRpcRequest, p: spec_fn(Json) -> bool) -> bool {
    &&& r.jsonrpc@ == "2.0"@
    &&& r.id == response_id(req)
    &&& r.error is None
    &&& r.result matches Some(j) && p(j)
}

/// The response `r` refuses `req` as a call of an unknown method.
pub open spec fn refuses_method(r: JsonRpcResponse, req: JsonRpcRequest) -> bool {
    &&& r.jsonrpc@ == "2.0"@
    &&& r.id == response_id(req)
    &&& r.result is None
    &&& r.error matches Some(e) && e.code == -32601 && e.message@ == "Method '"@ + req.method@
        + "' not found"@
}

/// What to do with a request.
pub enum Dispatch {
    /// Send this response, or nothing (for notifications that need no answer).
    Reply(Option<JsonRpcResponse>),
    /// Run the tool `name` with `arguments`, then answer `id` with its result
    /// (see `McpServer::tool_call_response`).
    CallTool { id: Json, name: String, arguments: Json },
}

/// The MCP server: answers JSON-RPC requests, running tools through its tool manager.
pub struct McpServer {
    tool_manager: ToolManager,
}

impl McpServer {
    /// The tool manager the server runs tools with.
    pub closed spec fn spec_tools(&self) -> ToolManager {
        self.tool_manager
    }

    /// A server for `config`: it talks to the editor bridge on the configured port, and runs
    /// the Godot executable that `Config::resolve_godot_path` picks on `platform`.
    pub fn new(config: &Config, platform: &HostPlatform) -> (s: Self)
        ensures
            s.spec_tools().spec_bridge().spec_port() == config.debug_port,
            exists|configured_exists: bool, present: Seq<bool>|
                {
                    &&& present.len() <= install_locations(*platform).len()
                    &&& s.spec_tools().spec_cli().spec_binary() == chosen_godot_path(
                        opt_view(config.godot_path),
                        configured_exists,
                        scan_result(*platform, present),
                    )
                },
    {
        let godot_bin = config.resolve_godot_path(platform);
        let bridge = BridgeClient::new(config.debug_port);
        let cli = CliRunner::new(godot_bin);
        Self { tool_manager: ToolManager::new(bridge, cli) }
    }

    /// The tool manager the server runs tools with.
    pub fn tool_manager(&self) -> (t: &ToolManager)
        ensures
            *t == self.spec_tools(),
    {
        &self.tool_manager
    }

    /// The text of a request line: the line without surrounding white space, or nothing
    /// when it is blank (blank lines are skipped).
    pub fn request_text(line: &str) -> (r: Option<String>)
        ensures
            trimmed(line@).len() == 0 ==> r is None,
            trimmed(line@).len() > 0 ==> (r matches Some(t) && t@ == trimmed(line@)),
    {
        let t = trim(line);
        if t.as_str().unicode_len() == 0 {
            None
        } else {
            Some(t)
        }
    }

    /// The answer to a line that is not a JSON-RPC request.
    pub fn parse_error_response() -> (r: JsonRpcResponse)
        ensures
            r.jsonrpc@ == "2.0"@,
            r.id == Json::Null,
            r.result is None,
            r.error matches Some(e) && e.code == -32700 && e.message@ == "Parse error"@,
    {
        JsonRpcResponse::error(Json::Null, -32700, "Parse error")
    }

    /// The answer to a `tools/call` request with the tool's result.
    pub fn tool_call_response(id: Json, result: ToolResult) -> (r: JsonRpcResponse)
        ensures
            r.jsonrpc@ == "2.0"@,
            r.id == id,
            r.error is None,
            r.result matches Some(j) && result.rendered_as(j),
    {
        JsonRpcResponse::success(id, result.to_json())
    }

    fn initialize_result() -> (j: Json)
        ensures
            is_initialize_result(j),
    {
        let mut listing: Vec<(String, Json)> = Vec::new();
        listing.push(member("listChanged", Json::Bool(false)));
        let tools = Json::Object(listing);
        let mut cap: Vec<(String, Json)> = Vec::new();
        cap.push(member("tools", tools));
        let caps = Json::Object(cap);
        let mut inf: Vec<(String, Json)> = Vec::new();
        inf.push(member("name", Json::string("godot-mcp")));
        inf.push(member("version", Json::string("0.1.0")));
        let info = Json::Object(inf);
        let mut top: Vec<(String, Json)> = Vec::new();
        top.push(member("protocolVersion", Json::string("2024-11-05")));
        top.push(member("capabilities", caps));
        top.push(member("serverInfo", info));
        let j = Json::Object(top);
        proof {
            reveal_strlit("listChanged");
            reveal_strlit("tools");
            reveal_strlit("name");
            reveal_strlit("version");
            reveal_strlit("protocolVersion");
            reveal_strlit("capabilities");
            reveal_strlit("serverInfo");
            lemma_member_value_distinct(listing@, 0);
            lemma_member_value_distinct(cap@, 0);
            assert("name"@.len() != "version"@.len());
            lemma_member_value_distinct(inf@, 0);
            lemma_member_value_distinct(inf@, 1);
            assert("protocolVersion"@.len() != "capabilities"@.len());
            assert("protocolVersion"@.len() != "serverInfo"@.len());
            assert("capabilities"@.len() != "serverInfo"@.len());
            lemma_member_value_distinct(top@, 0);
            lemma_member_value_distinct(top@, 1);
            lemma_member_value_distinct(top@, 2);
            assert(tools.keys() =~= seq!["listChanged"@]);
            assert(caps.keys() =~= seq!["tools"@]);
            assert(info.keys() =~= seq!["name"@, "version"@]);
            assert(j.keys() =~= seq!["protocolVersion"@, "capabilities"@, "serverInfo"@]);
        }
        j
    }

    fn tool_list() -> (j: Json)
        ensures
            is_tool_list(j),
    {
        let mut tools = ToolManager::list_tools();
        let ghost all = tools@;
        let mut reversed: Vec<Json> = Vec::new();
        while tools.len() > 0
            invariant
                tools@ == all.take(tools@.len() as int),
                all.len() == tool_specs().len(),
                forall|i: int| 0 <= i < all.len() ==> #[trigger] all[i].describes(tool_specs()[i]),
                reversed@.len() == all.len() - tools@.len(),
                forall|i: int|
                    0 <= i < reversed@.len() ==> #[trigger] lists_tool(
                        reversed@[i],
                        tool_specs()[all.len() - 1 - i],
                    ),
            decreases tools@.len(),
        {
            let t = tools.pop().unwrap();
            let ghost n = tools@.len();
            proof {
                assert(t == all[n as int]);
                assert(t.describes(tool_specs()[n as int]));
            }
            reversed.push(t.to_json());
            assert(tools@ =~= all.take(tools@.len() as int));
        }
        let mut items: Vec<Json> = Vec::new();
        while reversed.len() > 0
            invariant
                all.len() == tool_specs().len(),
                items@.len() + reversed@.len() == all.len(),
                forall|i: int|
                    0 <= i < reversed@.len() ==> #[trigger] lists_tool(
                        reversed@[i],
                        tool_specs()[all.len() - 1 - i],
                    ),
                forall|i: int| 0 <= i < items@.len() ==> #[trigger] lists_tool(items@[i], tool_specs()[i]),
            decreases reversed@.len(),
        {
            let ghost r = reversed@.len();
            let item = reversed.pop().unwrap();
            proof {
                assert(lists_tool(item, tool_specs()[all.len() - 1 - (r - 1)]));
            }
            items.push(item);
        }
        let mut top: Vec<(String, Json)> = Vec::new();
        top.push(member("tools", Json::Array(items)));
        let j = Json::Object(top);
        proof {
            reveal_strlit("tools");
            lemma_member_value_distinct(top@, 0);
            assert(j.keys() =~= seq!["tools"@]);
        }
        j
    }

    fn named(method: &String, literal: &str) -> (b: bool)
        ensures
            b == (method@ == literal@),
    {
        *method == String::from_str(literal)
    }

    /// What to do with a request.
    ///
    /// `initialize`, `ping` and `tools/list` are answered at once; the notification
    /// `notifications/initialized` is not answered; `tools/call` runs the tool named by the
    /// `name` parameter (empty when missing) with the `arguments` parameter (an empty object
    /// when missing); any other method is refused with code -32601 when the request has an
    /// id, and ignored when it is a notification. Every answer carries the request's id.
    pub fn handle_request(&self, req: JsonRpcRequest) -> (d: Dispatch)
        ensures
            if req.method@ == "initialize"@ {
                d matches Dispatch::Reply(Some(r)) && answers_with(
                    r,
                    req,
                    |j: Json| is_initialize_result(j),
                )
            } else if req.method@ == "notifications/initialized"@ {
                d == Dispatch::Reply(None)
            } else if req.method@ == "ping"@ {
                d matches Dispatch::Reply(Some(r)) && answers_with(
                    r,
                    req,
                    |j: Json| is_empty_object(j),
                )
            } else if req.method@ == "tools/list"@ {
                d matches Dispatch::Reply(Some(r)) && answers_with(r, req, |j: Json| is_tool_list(j))
            } else if req.method@ == "tools/call"@ {
                d matches Dispatch::CallTool { id, name, arguments } && id == response_id(req)
                    && name@ == (match req.params.str_field("name"@) {
                    Some(n) => n,
                    None => seq![],
                }) && match req.params.field("arguments"@) {
                    Some(a) => arguments == a,
                    None => is_empty_object(arguments),
                }
            } else if req.id is Some {
                d matches Dispatch::Reply(Some(r)) && refuses_method(r, req)
            } else {
                d == Dispatch::Reply(None)
            },
    {
        let ghost r0 = req;
        let has_id = req.id.is_some();
        let id = match req.id {
            Some(i) => i,
            None => Json::Null,
        };
        let method = req.method;
        let params = req.params;
        if Self::named(&method, "initialize") {
            Dispatch::Reply(Some(JsonRpcResponse::success(id, Self::initialize_result())))
        } else if Self::named(&method, "notifications/initialized") {
            Dispatch::Reply(None)
        } else if Self::named(&method, "ping") {
            Dispatch::Reply(Some(JsonRpcResponse::success(id, Json::empty_object())))
        } else if Self::named(&method, "tools/list") {
            Dispatch::Reply(Some(JsonRpcResponse::success(id, Self::tool_list())))
        } else if Self::named(&method, "tools/call") {
            let name = match params.get_str("name") {
                Some(n) => n,
                None => String::new(),
            };
            let arguments = match params.take_field("arguments") {
                Some(a) => a,
                None => Json::empty_object(),
            };
            Dispatch::CallTool { id, name, arguments }
        } else if has_id {
            let mut m = String::from_str("Method '");
            m.append(method.as_str());
            m.append("' not found");
            Dispatch::Reply(Some(JsonRpcResponse::error(id, -32601, m.as_str())))
        } else {
            Dispatch::Reply(None)
        }
    }
}

} // verus!
