//! The tools the server offers, and how a tool call proceeds.
use vstd::prelude::*;
use vstd::pervasive::unreached;
use crate::bridge::BridgeClient;
use crate::cli_runner::{
    CliRunner, CommandLine, ProcessOutput, editor_args, project_args, spawn_report,
    string_views, validate_args, validation_report, version_args, version_report,
};
use crate::error::McpError;
use crate::json::{Json, member, lemma_member_value_distinct};
use crate::protocol::{Tool, ToolContent, ToolResult, error_text, views};
use crate::text::{chars_of, contains, decimal, has_infix, push_decimal};

verus! {

/// A declared argument of a tool: its name, JSON type and description.
pub struct ParamSpec {
    pub name: Seq<char>,
    pub kind: Seq<char>,
    pub description: Seq<char>,
}

/// What `tools/list` says of a tool: its name, description, arguments and which of them
/// are required.
pub struct ToolSpec {
    pub name: Seq<char>,
    pub description: Seq<char>,
    pub params: Seq<ParamSpec>,
    pub required: Seq<Seq<char>>,
}

/// A tool with no arguments.
pub open spec fn tool_spec(name: Seq<char>, description: Seq<char>) -> ToolSpec {
    ToolSpec { name, description, params: seq![], required: seq![] }
}

impl ToolSpec {
    /// The tool with one more argument.
    pub open spec fn param(self, name: Seq<char>, kind: Seq<char>, description: Seq<char>) -> ToolSpec {
        ToolSpec {
            name: self.name,
            description: self.description,
            params: self.params.push(ParamSpec { name, kind, description }),
            required: self.required,
        }
    }

    /// The tool with one more required argument.
    pub open spec fn require(self, name: Seq<char>) -> ToolSpec {
        ToolSpec {
            name: self.name,
            description: self.description,
            params: self.params,
            required: self.required.push(name),
        }
    }
}

/// The tools the server offers, in the order `tools/list` gives them.
pub open spec fn tool_specs() -> Seq<ToolSpec> {
    seq![
        tool_spec("godot_get_version"@, "Retrieves the Godot Engine version and build information."@),
        tool_spec("godot_get_project_info"@, "Inspects project configuration, name, main scene, and enabled features."@)
            .param("project_path"@, "string"@, "Optional project root directory. Defaults to active editor project."@),
        tool_spec("godot_launch_editor"@, "Launches the Godot Editor for a designated project directory."@)
            .param("project_path"@, "string"@, "Absolute path to the Godot project directory containing project.godot."@)
            .require("project_path"@),
        tool_spec("godot_run_project"@, "Runs the Godot project or a specific scene in debug mode."@)
            .param("project_path"@, "string"@, "Path to the project root directory."@)
            .param("scene"@, "string"@, "Optional specific scene path (e.g., 'res://scenes/Main.tscn')."@)
            .require("project_path"@),
        tool_spec("godot_get_scene_tree"@, "Retrieves the complete node hierarchy of the active scene open in Godot Editor."@),
        tool_spec("godot_add_node"@, "Adds a new node to the active scene in Godot Editor with undo/redo support."@)
            .param("parent_node_path"@, "string"@, "Path to parent node (e.g. '.' for root or 'Player/Sprite')."@)
            .param("node_type"@, "string"@, "Godot class name to instantiate (e.g. 'Sprite2D', 'Camera3D', 'Node')."@)
            .param("node_name"@, "string"@, "Optional custom name for the new node."@)
            .require("node_type"@),
        tool_spec("godot_remove_node"@, "Removes a node from the active scene tree with undo/redo support."@)
            .param("node_path"@, "string"@, "Path to the node to remove."@)
            .require("node_path"@),
        tool_spec("godot_get_node_properties"@, "Inspects all properties, export variables, and types of a target node."@)
            .param("node_path"@, "string"@, "Path to target node."@)
            .require("node_path"@),
        tool_spec("godot_set_node_properties"@, "Modifies exported properties or transforms on a target node in the active scene."@)
            .param("node_path"@, "string"@, "Path to target node."@)
            .param("properties"@, "object"@, "Key-value map of property names to new values."@)
            .require("node_path"@)
            .require("properties"@),
        tool_spec("godot_capture_viewport"@, "Captures a screenshot of the active Godot 2D/3D editor viewport as a base64 image."@),
        tool_spec("godot_open_scene"@, "Opens a scene file in the Godot Editor by its res:// path."@)
            .param("scene_path"@, "string"@, "Resource path to scene (e.g. 'res://scenes/level1.tscn')."@)
            .require("scene_path"@),
        tool_spec("godot_save_scene"@, "Saves changes to the current open scene in Godot Editor."@),
        tool_spec("godot_create_script"@, "Creates a new GDScript file with standard class header and optional base class."@)
            .param("file_path"@, "string"@, "Absolute or relative file path for the .gd script."@)
            .param("extends_class"@, "string"@, "Base class to extend (e.g. 'Node2D', 'CharacterBody3D'). Defaults to 'Node'."@)
            .param("class_name"@, "string"@, "Optional global class_name registration."@)
            .require("file_path"@),
        tool_spec("godot_validate_script"@, "Performs syntax checking and static validation on a GDScript file without execution."@)
            .param("script_path"@, "string"@, "Path to the .gd script file."@)
            .param("project_path"@, "string"@, "Optional project root path for class resolution."@)
            .require("script_path"@),
    ]
}

/// The names of the offered tools.
pub open spec fn tool_names() -> Seq<Seq<char>> {
    tool_specs().map_values(|t: ToolSpec| t.name)
}

/// `m` is the schema entry of the argument `p`: `{"type": .., "description": ..}`.
pub open spec fn describes_param(m: (String, Json), p: ParamSpec) -> bool {
    &&& m.0@ == p.name
    &&& m.1.keys() == seq!["type"@, "description"@]
    &&& m.1.str_field("type"@) == Some(p.kind)
    &&& m.1.str_field("description"@) == Some(p.description)
}

/// `j` is the JSON schema of a tool's arguments: an object schema listing the arguments
/// under `properties`, and, when some are required, their names under `required`.
pub open spec fn schema_describes(j: Json, params: Seq<ParamSpec>, required: Seq<Seq<char>>) -> bool {
    &&& j.keys() == if required.len() == 0 {
        seq!["type"@, "properties"@]
    } else {
        seq!["type"@, "properties"@, "required"@]
    }
    &&& j.str_field("type"@) == Some("object"@)
    &&& j.field("properties"@) matches Some(Json::Object(members)) && members@.len() == params.len()
        && forall|k: int| 0 <= k < params.len() ==> #[trigger] describes_param(members@[k], params[k])
    &&& required.len() > 0 ==> (j.field("required"@) matches Some(Json::Array(items)) && items@.len()
        == required.len() && forall|k: int| 0 <= k < required.len() ==> #[trigger] items@[k].text()
        == Some(required[k]))
}

impl Tool {
    /// The tool is the one `spec` describes.
    pub open spec fn describes(self, spec: ToolSpec) -> bool {
        &&& self.name@ == spec.name
        &&& self.description@ == spec.description
        &&& schema_describes(self.input_schema, spec.params, spec.required)
    }
}

/// Builds the description of a tool step by step.
struct ToolBuilder {
    name: String,
    description: String,
    properties: Vec<(String, Json)>,
    required: Vec<Json>,
    spec: Ghost<ToolSpec>,
}

impl ToolBuilder {
    spec fn wf(self) -> bool {
        &&& self.name@ == self.spec@.name
        &&& self.description@ == self.spec@.description
        &&& self.properties@.len() == self.spec@.params.len()
        &&& forall|k: int|
            0 <= k < self.properties@.len() ==> #[trigger] describes_param(
                self.properties@[k],
                self.spec@.params[k],
            )
        &&& self.required@.len() == self.spec@.required.len()
        &&& forall|k: int|
            0 <= k < self.required@.len() ==> #[trigger] self.required@[k].text()
                == Some(self.spec@.required[k])
    }

    fn start(name: &str, description: &str) -> (b: Self)
        ensures
            b.wf(),
            b.spec@ == tool_spec(name@, description@),
    {
        ToolBuilder {
            name: String::from_str(name),
            description: String::from_str(description),
            properties: Vec::new(),
            required: Vec::new(),
            spec: Ghost(tool_spec(name@, description@)),
        }
    }

    fn param(self, name: &str, kind: &str, description: &str) -> (b: Self)
        requires
            self.wf(),
        ensures
            b.wf(),
            b.spec@ == self.spec@.param(name@, kind@, description@),
    {
        let mut entry: Vec<(String, Json)> = Vec::new();
        entry.push(member("type", Json::string(kind)));
        entry.push(member("description", Json::string(description)));
        let value = Json::Object(entry);
        proof {
            reveal_strlit("type");
            reveal_strlit("description");
            assert(value.keys() =~= seq!["type"@, "description"@]);
            assert("type"@.len() != "description"@.len());
            lemma_member_value_distinct(entry@, 0);
            lemma_member_value_distinct(entry@, 1);
        }
        let mut properties = self.properties;
        properties.push(member(name, value));
        ToolBuilder {
            name: self.name,
            description: self.description,
            properties,
            required: self.required,
            spec: Ghost(self.spec@.param(name@, kind@, description@)),
        }
    }

    fn require(self, name: &str) -> (b: Self)
        requires
            self.wf(),
        ensures
            b.wf(),
            b.spec@ == self.spec@.require(name@),
    {
        let mut required = self.required;
        required.push(Json::string(name));
        ToolBuilder {
            name: self.name,
            description: self.description,
            properties: self.properties,
            required,
            spec: Ghost(self.spec@.require(name@)),
        }
    }

    fn finish(self) -> (t: Tool)
        requires
            self.wf(),
        ensures
            t.describes(self.spec@),
    {
        let ghost spec = self.spec@;
        let has_required = self.required.len() > 0;
        let mut schema: Vec<(String, Json)> = Vec::new();
        schema.push(member("type", Json::string("object")));
        schema.push(member("properties", Json::Object(self.properties)));
        if has_required {
            schema.push(member("required", Json::Array(self.required)));
        }
        let input_schema = Json::Object(schema);
        proof {
            reveal_strlit("type");
            reveal_strlit("properties");
            reveal_strlit("required");
            assert("type"@.len() != "properties"@.len());
            assert("type"@.len() != "required"@.len());
            assert("properties"@.len() != "required"@.len());
            if has_required {
                assert(input_schema.keys() =~= seq!["type"@, "properties"@, "required"@]);
                lemma_member_value_distinct(schema@, 2);
            } else {
                assert(input_schema.keys() =~= seq!["type"@, "properties"@]);
            }
            lemma_member_value_distinct(schema@, 0);
            lemma_member_value_distinct(schema@, 1);
        }
        Tool { name: self.name, description: self.description, input_schema }
    }
}

/// Runs the tools: some through the live editor bridge, some through the Godot executable.
pub struct ToolManager {
    bridge: BridgeClient,
    cli: CliRunner,
}

impl ToolManager {
    /// The bridge the manager talks to.
    pub closed spec fn spec_bridge(&self) -> BridgeClient {
        self.bridge
    }

    /// The runner of the Godot executable.
    pub closed spec fn spec_cli(&self) -> CliRunner {
        self.cli
    }

    /// A manager using `bridge` and `cli`.
    pub fn new(bridge: BridgeClient, cli: CliRunner) -> (m: Self)
        ensures
            m.spec_bridge() == bridge,
            m.spec_cli() == cli,
    {
        Self { bridge, cli }
    }

    /// The bridge the manager talks to.
    pub fn bridge(&self) -> (b: &BridgeClient)
        ensures
            *b == self.spec_bridge(),
    {
        &self.bridge
    }

    /// The runner of the Godot executable.
    pub fn cli(&self) -> (c: &CliRunner)
        ensures
            *c == self.spec_cli(),
    {
        &self.cli
    }

    /// All the tools the server offers, with the schemas of their arguments.
    pub fn list_tools() -> (tools: Vec<Tool>)
        ensures
            tools@.len() == tool_specs().len(),
            forall|i: int| 0 <= i < tools@.len() ==> #[trigger] tools@[i].describes(tool_specs()[i]),
    {
        let mut tools: Vec<Tool> = Vec::new();
        tools.push(
            ToolBuilder::start("godot_get_version", "Retrieves the Godot Engine version and build information.")
                .finish(),
        );
        assert(tools@[0].describes(tool_specs()[0]));
        tools.push(
            ToolBuilder::start("godot_get_project_info", "Inspects project configuration, name, main scene, and enabled features.")
                .param("project_path", "string", "Optional project root directory. Defaults to active editor project.")
                .finish(),
        );
        assert(tools@[1].describes(tool_specs()[1]));
        tools.push(
            ToolBuilder::start("godot_launch_editor", "Launches the Godot Editor for a designated project directory.")
                .param("project_path", "string", "Absolute path to the Godot project directory containing project.godot.")
                .require("project_path")
                .finish(),
        );
        assert(tools@[2].describes(tool_specs()[2]));
        tools.push(
            ToolBuilder::start("godot_run_project", "Runs the Godot project or a specific scene in debug mode.")
                .param("project_path", "string", "Path to the project root directory.")
                .param("scene", "string", "Optional specific scene path (e.g., 'res://scenes/Main.tscn').")
                .require("project_path")
                .finish(),
        );
        assert(tools@[3].describes(tool_specs()[3]));
        tools.push(
            ToolBuilder::start("godot_get_scene_tree", "Retrieves the complete node hierarchy of the active scene open in Godot Editor.")
                .finish(),
        );
        assert(tools@[4].describes(tool_specs()[4]));
        tools.push(
            ToolBuilder::start("godot_add_node", "Adds a new node to the active scene in Godot Editor with undo/redo support.")
                .param("parent_node_path", "string", "Path to parent node (e.g. '.' for root or 'Player/Sprite').")
                .param("node_type", "string", "Godot class name to instantiate (e.g. 'Sprite2D', 'Camera3D', 'Node').")
                .param("node_name", "string", "Optional custom name for the new node.")
                .require("node_type")
                .finish(),
        );
        assert(tools@[5].describes(tool_specs()[5]));
        tools.push(
            ToolBuilder::start("godot_remove_node", "Removes a node from the active scene tree with undo/redo support.")
                .param("node_path", "string", "Path to the node to remove.")
                .require("node_path")
                .finish(),
        );
        assert(tools@[6].describes(tool_specs()[6]));
        tools.push(
            ToolBuilder::start("godot_get_node_properties", "Inspects all properties, export variables, and types of a target node.")
                .param("node_path", "string", "Path to target node.")
                .require("node_path")
                .finish(),
        );
        assert(tools@[7].describes(tool_specs()[7]));
        tools.push(
            ToolBuilder::start("godot_set_node_properties", "Modifies exported properties or transforms on a target node in the active scene.")
                .param("node_path", "string", "Path to target node.")
                .param("properties", "object", "Key-value map of property names to new values.")
                .require("node_path")
                .require("properties")
                .finish(),
        );
        assert(tools@[8].describes(tool_specs()[8]));
        tools.push(
            ToolBuilder::start("godot_capture_viewport", "Captures a screenshot of the active Godot 2D/3D editor viewport as a base64 image.")
                .finish(),
        );
        assert(tools@[9].describes(tool_specs()[9]));
        tools.push(
            ToolBuilder::start("godot_open_scene", "Opens a scene file in the Godot Editor by its res:// path.")
                .param("scene_path", "string", "Resource path to scene (e.g. 'res://scenes/level1.tscn').")
                .require("scene_path")
                .finish(),
        );
        assert(tools@[10].describes(tool_specs()[10]));
        tools.push(
            ToolBuilder::start("godot_save_scene", "Saves changes to the current open scene in Godot Editor.")
                .finish(),
        );
        assert(tools@[11].describes(tool_specs()[11]));
        tools.push(
            ToolBuilder::start("godot_create_script", "Creates a new GDScript file with standard class header and optional base class.")
                .param("file_path", "string", "Absolute or relative file path for the .gd script.")
                .param("extends_class", "string", "Base class to extend (e.g. 'Node2D', 'CharacterBody3D'). Defaults to 'Node'.")
                .param("class_name", "string", "Optional global class_name registration.")
                .require("file_path")
                .finish(),
        );
        assert(tools@[12].describes(tool_specs()[12]));
        tools.push(
            ToolBuilder::start("godot_validate_script", "Performs syntax checking and static validation on a GDScript file without execution.")
                .param("script_path", "string", "Path to the .gd script file.")
                .param("project_path", "string", "Optional project root path for class resolution.")
                .require("script_path")
                .finish(),
        );
        assert(tools@[13].describes(tool_specs()[13]));
        tools
    }
}

/// The offered tools have distinct names.
pub proof fn lemma_tool_names_distinct()
    ensures
        tool_names().no_duplicates(),
{
    let names = tool_names();
    reveal_strlit("godot_get_version");
    reveal_strlit("godot_get_project_info");
    reveal_strlit("godot_launch_editor");
    reveal_strlit("godot_run_project");
    reveal_strlit("godot_get_scene_tree");
    reveal_strlit("godot_add_node");
    reveal_strlit("godot_remove_node");
    reveal_strlit("godot_get_node_properties");
    reveal_strlit("godot_set_node_properties");
    reveal_strlit("godot_capture_viewport");
    reveal_strlit("godot_open_scene");
    reveal_strlit("godot_save_scene");
    reveal_strlit("godot_create_script");
    reveal_strlit("godot_validate_script");
    assert(names[0] == "godot_get_version"@);
    assert(names[1] == "godot_get_project_info"@);
    assert(names[2] == "godot_launch_editor"@);
    assert(names[3] == "godot_run_project"@);
    assert(names[4] == "godot_get_scene_tree"@);
    assert(names[5] == "godot_add_node"@);
    assert(names[6] == "godot_remove_node"@);
    assert(names[7] == "godot_get_node_properties"@);
    assert(names[8] == "godot_set_node_properties"@);
    assert(names[9] == "godot_capture_viewport"@);
    assert(names[10] == "godot_open_scene"@);
    assert(names[11] == "godot_save_scene"@);
    assert(names[12] == "godot_create_script"@);
    assert(names[13] == "godot_validate_script"@);
    assert("godot_get_version"@.len() != "godot_get_project_info"@.len());
    assert("godot_get_version"@.len() != "godot_launch_editor"@.len());
    assert("godot_get_version"@[6] != "godot_run_project"@[6]);
    assert("godot_get_version"@.len() != "godot_get_scene_tree"@.len());
    assert("godot_get_version"@.len() != "godot_add_node"@.len());
    assert("godot_get_version"@[6] != "godot_remove_node"@[6]);
    assert("godot_get_version"@.len() != "godot_get_node_properties"@.len());
    assert("godot_get_version"@.len() != "godot_set_node_properties"@.len());
    assert("godot_get_version"@.len() != "godot_capture_viewport"@.len());
    assert("godot_get_version"@.len() != "godot_open_scene"@.len());
    assert("godot_get_version"@.len() != "godot_save_scene"@.len());
    assert("godot_get_version"@.len() != "godot_create_script"@.len());
    assert("godot_get_version"@.len() != "godot_validate_script"@.len());
    assert("godot_get_project_info"@.len() != "godot_launch_editor"@.len());
    assert("godot_get_project_info"@.len() != "godot_run_project"@.len());
    assert("godot_get_project_info"@.len() != "godot_get_scene_tree"@.len());
    assert("godot_get_project_info"@.len() != "godot_add_node"@.len());
    assert("godot_get_project_info"@.len() != "godot_remove_node"@.len());
    assert("godot_get_project_info"@.len() != "godot_get_node_properties"@.len());
    assert("godot_get_project_info"@.len() != "godot_set_node_properties"@.len());
    assert("godot_get_project_info"@[6] != "godot_capture_viewport"@[6]);
    assert("godot_get_project_info"@.len() != "godot_open_scene"@.len());
    assert("godot_get_project_info"@.len() != "godot_save_scene"@.len());
    assert("godot_get_project_info"@.len() != "godot_create_script"@.len());
    assert("godot_get_project_info"@.len() != "godot_validate_script"@.len());
    assert("godot_launch_editor"@.len() != "godot_run_project"@.len());
    assert("godot_launch_editor"@.len() != "godot_get_scene_tree"@.len());
    assert("godot_launch_editor"@.len() != "godot_add_node"@.len());
    assert("godot_launch_editor"@.len() != "godot_remove_node"@.len());
    assert("godot_launch_editor"@.len() != "godot_get_node_properties"@.len());
    assert("godot_launch_editor"@.len() != "godot_set_node_properties"@.len());
    assert("godot_launch_editor"@.len() != "godot_capture_viewport"@.len());
    assert("godot_launch_editor"@.len() != "godot_open_scene"@.len());
    assert("godot_launch_editor"@.len() != "godot_save_scene"@.len());
    assert("godot_launch_editor"@[6] != "godot_create_script"@[6]);
    assert("godot_launch_editor"@.len() != "godot_validate_script"@.len());
    assert("godot_run_project"@.len() != "godot_get_scene_tree"@.len());
    assert("godot_run_project"@.len() != "godot_add_node"@.len());
    assert("godot_run_project"@[7] != "godot_remove_node"@[7]);
    assert("godot_run_project"@.len() != "godot_get_node_properties"@.len());
    assert("godot_run_project"@.len() != "godot_set_node_properties"@.len());
    assert("godot_run_project"@.len() != "godot_capture_viewport"@.len());
    assert("godot_run_project"@.len() != "godot_open_scene"@.len());
    assert("godot_run_project"@.len() != "godot_save_scene"@.len());
    assert("godot_run_project"@.len() != "godot_create_script"@.len());
    assert("godot_run_project"@.len() != "godot_validate_script"@.len());
    assert("godot_get_scene_tree"@.len() != "godot_add_node"@.len());
    assert("godot_get_scene_tree"@.len() != "godot_remove_node"@.len());
    assert("godot_get_scene_tree"@.len() != "godot_get_node_properties"@.len());
    assert("godot_get_scene_tree"@.len() != "godot_set_node_properties"@.len());
    assert("godot_get_scene_tree"@.len() != "godot_capture_viewport"@.len());
    assert("godot_get_scene_tree"@.len() != "godot_open_scene"@.len());
    assert("godot_get_scene_tree"@.len() != "godot_save_scene"@.len());
    assert("godot_get_scene_tree"@.len() != "godot_create_script"@.len());
    assert("godot_get_scene_tree"@.len() != "godot_validate_script"@.len());
    assert("godot_add_node"@.len() != "godot_remove_node"@.len());
    assert("godot_add_node"@.len() != "godot_get_node_properties"@.len());
    assert("godot_add_node"@.len() != "godot_set_node_properties"@.len());
    assert("godot_add_node"@.len() != "godot_capture_viewport"@.len());
    assert("godot_add_node"@.len() != "godot_open_scene"@.len());
    assert("godot_add_node"@.len() != "godot_save_scene"@.len());
    assert("godot_add_node"@.len() != "godot_create_script"@.len());
    assert("godot_add_node"@.len() != "godot_validate_script"@.len());
    assert("godot_remove_node"@.len() != "godot_get_node_properties"@.len());
    assert("godot_remove_node"@.len() != "godot_set_node_properties"@.len());
    assert("godot_remove_node"@.len() != "godot_capture_viewport"@.len());
    assert("godot_remove_node"@.len() != "godot_open_scene"@.len());
    assert("godot_remove_node"@.len() != "godot_save_scene"@.len());
    assert("godot_remove_node"@.len() != "godot_create_script"@.len());
    assert("godot_remove_node"@.len() != "godot_validate_script"@.len());
    assert("godot_get_node_properties"@[6] != "godot_set_node_properties"@[6]);
    assert("godot_get_node_properties"@.len() != "godot_capture_viewport"@.len());
    assert("godot_get_node_properties"@.len() != "godot_open_scene"@.len());
    assert("godot_get_node_properties"@.len() != "godot_save_scene"@.len());
    assert("godot_get_node_properties"@.len() != "godot_create_script"@.len());
    assert("godot_get_node_properties"@.len() != "godot_validate_script"@.len());
    assert("godot_set_node_properties"@.len() != "godot_capture_viewport"@.len());
    assert("godot_set_node_properties"@.len() != "godot_open_scene"@.len());
    assert("godot_set_node_properties"@.len() != "godot_save_scene"@.len());
    assert("godot_set_node_properties"@.len() != "godot_create_script"@.len());
    assert("godot_set_node_properties"@.len() != "godot_validate_script"@.len());
    assert("godot_capture_viewport"@.len() != "godot_open_scene"@.len());
    assert("godot_capture_viewport"@.len() != "godot_save_scene"@.len());
    assert("godot_capture_viewport"@.len() != "godot_create_script"@.len());
    assert("godot_capture_viewport"@.len() != "godot_validate_script"@.len());
    assert("godot_open_scene"@[6] != "godot_save_scene"@[6]);
    assert("godot_open_scene"@.len() != "godot_create_script"@.len());
    assert("godot_open_scene"@.len() != "godot_validate_script"@.len());
    assert("godot_save_scene"@.len() != "godot_create_script"@.len());
    assert("godot_save_scene"@.len() != "godot_validate_script"@.len());
    assert("godot_create_script"@.len() != "godot_validate_script"@.len());
}

/// A tool served by forwarding to the editor bridge sends the bridge command named after
/// the tool: its name without the `godot_` prefix.
pub proof fn lemma_forwarded_command_is_tool_name(name: Seq<char>)
    ensures
        tool_kind(name) matches ToolKind::Forward(c) ==> name == "godot_"@ + c,
{
    if tool_kind(name) is Forward {
        reveal_strlit("godot_");
        reveal_strlit("godot_get_project_info");
        reveal_strlit("get_project_info");
        reveal_strlit("godot_get_scene_tree");
        reveal_strlit("get_scene_tree");
        reveal_strlit("godot_add_node");
        reveal_strlit("add_node");
        reveal_strlit("godot_remove_node");
        reveal_strlit("remove_node");
        reveal_strlit("godot_get_node_properties");
        reveal_strlit("get_node_properties");
        reveal_strlit("godot_set_node_properties");
        reveal_strlit("set_node_properties");
        reveal_strlit("godot_open_scene");
        reveal_strlit("open_scene");
        reveal_strlit("godot_save_scene");
        reveal_strlit("save_scene");
        if name == "godot_get_project_info"@ {
            assert(name =~= "godot_"@ + "get_project_info"@);
        }
        if name == "godot_get_scene_tree"@ {
            assert(name =~= "godot_"@ + "get_scene_tree"@);
        }
        if name == "godot_add_node"@ {
            assert(name =~= "godot_"@ + "add_node"@);
        }
        if name == "godot_remove_node"@ {
            assert(name =~= "godot_"@ + "remove_node"@);
        }
        if name == "godot_get_node_properties"@ {
            assert(name =~= "godot_"@ + "get_node_properties"@);
        }
        if name == "godot_set_node_properties"@ {
            assert(name =~= "godot_"@ + "set_node_properties"@);
        }
        if name == "godot_open_scene"@ {
            assert(name =~= "godot_"@ + "open_scene"@);
        }
        if name == "godot_save_scene"@ {
            assert(name =~= "godot_"@ + "save_scene"@);
        }
    }
}

/// Distinct forwarded tools send distinct bridge commands.
pub proof fn lemma_forwarded_commands_distinct(a: Seq<char>, b: Seq<char>)
    requires
        tool_kind(a) is Forward,
        tool_kind(b) is Forward,
        a != b,
    ensures
        tool_kind(a)->Forward_0 != tool_kind(b)->Forward_0,
{
    lemma_forwarded_command_is_tool_name(a);
    lemma_forwarded_command_is_tool_name(b);
}

/// The arguments each handler of `call_tool` reads from a call's arguments.
pub open spec fn handler_reads(kind: ToolKind) -> Seq<Seq<char>> {
    match kind {
        ToolKind::LaunchEditor => seq!["project_path"@],
        ToolKind::RunProject => seq!["project_path"@, "scene"@],
        ToolKind::CreateScript => seq!["file_path"@, "extends_class"@, "class_name"@],
        ToolKind::ValidateScript => seq!["script_path"@, "project_path"@],
        _ => seq![],
    }
}

/// Every argument that a tool's handler reads is declared in the schema that
/// `tools/list` gives for the tool.
pub proof fn lemma_read_arguments_declared(i: int, k: int)
    requires
        0 <= i < tool_specs().len(),
        0 <= k < handler_reads(tool_kind(tool_specs()[i].name)).len(),
    ensures
        exists|j: int|
            0 <= j < tool_specs()[i].params.len() && #[trigger] tool_specs()[i].params[j].name
                == handler_reads(tool_kind(tool_specs()[i].name))[k],
{
    lemma_tool_names_distinct();
    let names = tool_names();
    let t = tool_specs()[i];
    assert(names[i] == t.name);
    let kind = tool_kind(t.name);
    if kind is LaunchEditor {
        assert(names[2] == "godot_launch_editor"@);
        assert(i == 2);
        assert(t.params[0].name == handler_reads(kind)[k]);
    } else if kind is RunProject {
        assert(names[3] == "godot_run_project"@);
        assert(i == 3);
        assert(t.params[k].name == handler_reads(kind)[k]);
    } else if kind is CreateScript {
        assert(names[12] == "godot_create_script"@);
        assert(i == 12);
        assert(t.params[k].name == handler_reads(kind)[k]);
    } else if kind is ValidateScript {
        assert(names[13] == "godot_validate_script"@);
        assert(i == 13);
        assert(t.params[k].name == handler_reads(kind)[k]);
    }
}

/// A new script starts with its `extends` line (the given base class, else `Node`), then,
/// whenever a class name is given, whatever the base, the `class_name` line, then the
/// `_ready` stub.
pub proof fn lemma_script_layout(args: Json)
    ensures
        script_base(args) == (match args.str_field("extends_class"@) {
            Some(b) => b,
            None => "Node"@,
        }),
        match args.str_field("class_name"@) {
            Some(c) => script_text(script_base(args), class_name_line(args)) == "extends "@
                + script_base(args) + "\n"@ + "class_name "@ + c + "\n"@
                + "\nfunc _ready() -> void:\n\tpass\n"@,
            None => script_text(script_base(args), class_name_line(args)) == "extends "@
                + script_base(args) + "\n"@ + "\nfunc _ready() -> void:\n\tpass\n"@,
        },
{
    let text = script_text(script_base(args), class_name_line(args));
    match args.str_field("class_name"@) {
        Some(c) => {
            assert(text =~= "extends "@ + script_base(args) + "\n"@ + "class_name "@ + c + "\n"@
                + "\nfunc _ready() -> void:\n\tpass\n"@);
        },
        None => {
            assert(text =~= "extends "@ + script_base(args) + "\n"@
                + "\nfunc _ready() -> void:\n\tpass\n"@);
        },
    }
}

/// Every tool that `tools/list` offers is served by `tools/call`, and every name that
/// `tools/call` serves is offered by `tools/list`.
pub proof fn lemma_listed_tools_are_served(name: Seq<char>)
    ensures
        tool_names().contains(name) <==> !(tool_kind(name) is Unknown),
{
    if tool_names().contains(name) {
        let i = choose|i: int| 0 <= i < tool_names().len() && tool_names()[i] == name;
        assert(tool_names()[i] == tool_specs()[i].name);
    }
    if !(tool_kind(name) is Unknown) {
        if name == "godot_get_version"@ {
            assert(tool_names()[0] == name);
        } else if name == "godot_get_project_info"@ {
            assert(tool_names()[1] == name);
        } else if name == "godot_launch_editor"@ {
            assert(tool_names()[2] == name);
        } else if name == "godot_run_project"@ {
            assert(tool_names()[3] == name);
        } else if name == "godot_get_scene_tree"@ {
            assert(tool_names()[4] == name);
        } else if name == "godot_add_node"@ {
            assert(tool_names()[5] == name);
        } else if name == "godot_remove_node"@ {
            assert(tool_names()[6] == name);
        } else if name == "godot_get_node_properties"@ {
            assert(tool_names()[7] == name);
        } else if name == "godot_set_node_properties"@ {
            assert(tool_names()[8] == name);
        } else if name == "godot_capture_viewport"@ {
            assert(tool_names()[9] == name);
        } else if name == "godot_open_scene"@ {
            assert(tool_names()[10] == name);
        } else if name == "godot_save_scene"@ {
            assert(tool_names()[11] == name);
        } else if name == "godot_create_script"@ {
            assert(tool_names()[12] == name);
        } else if name == "godot_validate_script"@ {
            assert(tool_names()[13] == name);
        }
    }
}

/// Every argument that a tool requires is one it declares.
pub proof fn lemma_required_params_declared(i: int, k: int)
    requires
        0 <= i < tool_specs().len(),
        0 <= k < tool_specs()[i].required.len(),
    ensures
        exists|j: int|
            0 <= j < tool_specs()[i].params.len() && #[trigger] tool_specs()[i].params[j].name
                == tool_specs()[i].required[k],
{
    let t = tool_specs()[i];
    if i == 2 || i == 3 || i == 6 || i == 7 || i == 10 || i == 12 || i == 13 {
        assert(t.params[0].name == t.required[k]);
    } else if i == 5 {
        assert(t.params[1].name == t.required[k]);
    } else if i == 8 {
        assert(t.params[k].name == t.required[k]);
    }
}

/// Which handler serves a tool name.
pub enum ToolKind {
    Version,
    /// Passed to the editor bridge as this command, with the call's arguments.
    Forward(Seq<char>),
    LaunchEditor,
    RunProject,
    Capture,
    CreateScript,
    ValidateScript,
    Unknown,
}

/// The handler of each tool name.
pub open spec fn tool_kind(name: Seq<char>) -> ToolKind {
    if name == "godot_get_version"@ {
        ToolKind::Version
    } else if name == "godot_get_project_info"@ {
        ToolKind::Forward("get_project_info"@)
    } else if name == "godot_launch_editor"@ {
        ToolKind::LaunchEditor
    } else if name == "godot_run_project"@ {
        ToolKind::RunProject
    } else if name == "godot_get_scene_tree"@ {
        ToolKind::Forward("get_scene_tree"@)
    } else if name == "godot_add_node"@ {
        ToolKind::Forward("add_node"@)
    } else if name == "godot_remove_node"@ {
        ToolKind::Forward("remove_node"@)
    } else if name == "godot_get_node_properties"@ {
        ToolKind::Forward("get_node_properties"@)
    } else if name == "godot_set_node_properties"@ {
        ToolKind::Forward("set_node_properties"@)
    } else if name == "godot_capture_viewport"@ {
        ToolKind::Capture
    } else if name == "godot_open_scene"@ {
        ToolKind::Forward("open_scene"@)
    } else if name == "godot_save_scene"@ {
        ToolKind::Forward("save_scene"@)
    } else if name == "godot_create_script"@ {
        ToolKind::CreateScript
    } else if name == "godot_validate_script"@ {
        ToolKind::ValidateScript
    } else {
        ToolKind::Unknown
    }
}

/// What an editor bridge command gave back: the result, and its pretty-printed JSON text.
pub struct BridgeReply {
    pub value: Json,
    pub pretty: String,
}

/// Work a tool call asks of the host.
pub enum ToolAction {
    /// The call is over, with this result.
    Finish(ToolResult),
    /// Send this command to the editor bridge and report the reply.
    Bridge { command: String, params: Json },
    /// Report whether something exists at this path.
    CheckPath(String),
    /// Start this process without waiting for it, and report its id.
    Spawn(CommandLine),
    /// Run this process to its end, and report its output.
    Run(CommandLine),
    /// Create the folders above `path` (whatever that gives), then write `content` to it.
    WriteFile { path: String, content: String },
}

/// What the host reports of the work it was asked to do.
pub enum ToolEvent {
    Bridge(Result<BridgeReply, McpError>),
    PathExists(bool),
    Spawned(Result<Option<u32>, String>),
    Ran(Result<ProcessOutput, String>),
    Written(Result<(), String>),
}

/// Where a tool call stands.
pub enum ToolCall {
    /// Finished.
    Done,
    /// The version was asked of the editor.
    Version,
    /// The editor was not reachable; the version was asked of the executable.
    VersionCli,
    /// A command was forwarded to the editor.
    Forward,
    /// A viewport capture was asked of the editor.
    Capture,
    /// Checking that the project folder exists before launching the editor on it.
    CheckingProject { path: String },
    /// The editor is being started on the project.
    Launching { path: String },
    /// The project is being started.
    Starting { path: String },
    /// A script file is being written.
    Writing { path: String, extends: String },
    /// A script is being checked.
    Validating,
}

impl ToolCall {
    /// The kind of report the call waits for.
    pub open spec fn accepts(self, event: ToolEvent) -> bool {
        match self {
            ToolCall::Done => false,
            ToolCall::Version | ToolCall::Forward | ToolCall::Capture => event is Bridge,
            ToolCall::VersionCli | ToolCall::Validating => event is Ran,
            ToolCall::CheckingProject { .. } => event is PathExists,
            ToolCall::Launching { .. } | ToolCall::Starting { .. } => event is Spawned,
            ToolCall::Writing { .. } => event is Written,
        }
    }

    /// Whether the call waits for this kind of report.
    pub fn accepts_event(&self, event: &ToolEvent) -> (b: bool)
        ensures
            b == self.accepts(*event),
    {
        match self {
            ToolCall::Done => false,
            ToolCall::Version | ToolCall::Forward | ToolCall::Capture => match event {
                ToolEvent::Bridge(_) => true,
                _ => false,
            },
            ToolCall::VersionCli | ToolCall::Validating => match event {
                ToolEvent::Ran(_) => true,
                _ => false,
            },
            ToolCall::CheckingProject { .. } => match event {
                ToolEvent::PathExists(_) => true,
                _ => false,
            },
            ToolCall::Launching { .. } | ToolCall::Starting { .. } => match event {
                ToolEvent::Spawned(_) => true,
                _ => false,
            },
            ToolCall::Writing { .. } => match event {
                ToolEvent::Written(_) => true,
                _ => false,
            },
        }
    }
}

/// The action finishes the call with one text item, flagged as an error or not.
pub open spec fn finishes(a: ToolAction, text: Seq<char>, is_error: bool) -> bool {
    a matches ToolAction::Finish(r) && r.is_error == is_error && r.single_text(text)
}

/// The action finishes the call successfully with this text.
pub open spec fn reports(a: ToolAction, text: Seq<char>) -> bool {
    finishes(a, text, false)
}

/// The action finishes the call with this error message and these suggestions.
pub open spec fn fails(a: ToolAction, message: Seq<char>, suggestions: Seq<Seq<char>>) -> bool {
    finishes(a, error_text(message, suggestions), true)
}

/// The action asks the editor bridge to run `command` with `params`.
pub open spec fn asks_bridge(a: ToolAction, command: Seq<char>, params: Json) -> bool {
    a matches ToolAction::Bridge { command: c, params: p } && c@ == command && p == params
}

/// The action asks the editor bridge to run `command` with no arguments.
pub open spec fn asks_bridge_plain(a: ToolAction, command: Seq<char>) -> bool {
    a matches ToolAction::Bridge { command: c, params: Json::Object(m) } && c@ == command
        && m@.len() == 0
}

/// The command line runs the executable with these arguments.
pub open spec fn runs(c: CommandLine, binary: Seq<char>, args: Seq<Seq<char>>, detached: bool) -> bool {
    c.program@ == binary && string_views(c.args@) == args && c.detached_io == detached
}

/// The error for a missing required argument.
pub open spec fn missing_param(name: Seq<char>) -> Seq<char> {
    "Missing required parameter: "@ + name
}

/// The suggestions given when the editor bridge is not reachable.
pub open spec fn bridge_hints() -> Seq<Seq<char>> {
    seq![
        "Launch Godot Editor with your project"@,
        "Ensure 'Godot MCP Bridge' plugin is enabled in Project Settings -> Plugins"@,
        "Verify GODOT_DEBUG_PORT in .env matches Godot bridge port (default: 9333)"@,
    ]
}

/// The base class of a new script: `extends_class`, or `Node`.
pub open spec fn script_base(args: Json) -> Seq<char> {
    match args.str_field("extends_class"@) {
        Some(c) => c,
        None => "Node"@,
    }
}

/// The `class_name` line of a new script, if a class name is given.
pub open spec fn class_name_line(args: Json) -> Seq<char> {
    match args.str_field("class_name"@) {
        Some(c) => "class_name "@ + c + "\n"@,
        None => seq![],
    }
}

/// The text of a new script.
pub open spec fn script_text(base: Seq<char>, class_line: Seq<char>) -> Seq<char> {
    "extends "@ + base + "\n"@ + class_line + "\nfunc _ready() -> void:\n\tpass\n"@
}

/// The text reported when the editor gave the version.
pub open spec fn live_version_text(pretty: Seq<char>) -> Seq<char> {
    "Godot Engine (Live Editor Connected):\n"@ + pretty
}

/// The text reported when the executable gave the version.
pub open spec fn cli_version_text(version: Seq<char>) -> Seq<char> {
    "Godot Engine (Headless CLI):\nVersion: "@ + version
        + "\nNote: Editor bridge is offline. Launch Godot Editor and enable Godot MCP Bridge plugin for live manipulation."@
}

fn is_named(name: &String, literal: &str) -> (b: bool)
    ensures
        b == (name@ == literal@),
{
    *name == String::from_str(literal)
}

fn finish_text(text: &str) -> (a: ToolAction)
    ensures
        reports(a, text@),
{
    ToolAction::Finish(ToolResult::text(text))
}

fn finish_error(message: &str, suggestions: Vec<&str>) -> (a: ToolAction)
    ensures
        fails(a, message@, views(suggestions@)),
{
    ToolAction::Finish(ToolResult::error(message, suggestions.as_slice()))
}

fn finish_missing(name: &str) -> (a: ToolAction)
    ensures
        fails(a, missing_param(name@), seq![]),
{
    let mut m = String::from_str("Missing required parameter: ");
    m.append(name);
    let none: Vec<&str> = Vec::new();
    assert(views(none@) =~= seq![]);
    finish_error(m.as_str(), none)
}

fn ask_bridge_plain(command: &str) -> (a: ToolAction)
    ensures
        asks_bridge_plain(a, command@),
{
    ToolAction::Bridge { command: String::from_str(command), params: Json::empty_object() }
}

impl ToolManager {
    /// Starts a call of the tool `name` with `args`: the state of the call and the first
    /// work it asks of the host (or its result, when it needs none).
    pub fn call_tool(&self, name: &str, args: Json) -> (r: (ToolCall, ToolAction))
        ensures
            r.1 is Finish <==> r.0 is Done,
            r.0 is Forward ==> (r.1 matches ToolAction::Bridge { command, .. } && name@ == "godot_"@
                + command@),
            match tool_kind(name@) {
                ToolKind::Version => {
                    &&& r.0 is Version
                    &&& asks_bridge_plain(r.1, "get_version"@)
                },
                ToolKind::Forward(command) => {
                    &&& r.0 is Forward
                    &&& asks_bridge(r.1, command, args)
                },
                ToolKind::Capture => {
                    &&& r.0 is Capture
                    &&& asks_bridge_plain(r.1, "capture_viewport"@)
                },
                ToolKind::LaunchEditor => match args.str_field("project_path"@) {
                    None => fails(r.1, missing_param("project_path"@), seq![]),
                    Some(p) => {
                        &&& r.0 matches ToolCall::CheckingProject { path } && path@ == p
                        &&& r.1 matches ToolAction::CheckPath(q) && q@ == p
                    },
                },
                ToolKind::RunProject => match args.str_field("project_path"@) {
                    None => fails(r.1, missing_param("project_path"@), seq![]),
                    Some(p) => {
                        &&& r.0 matches ToolCall::Starting { path } && path@ == p
                        &&& r.1 matches ToolAction::Spawn(c) && runs(
                            c,
                            self.spec_cli().spec_binary(),
                            project_args(p, args.str_field("scene"@)),
                            true,
                        )
                    },
                },
                ToolKind::CreateScript => match args.str_field("file_path"@) {
                    None => fails(r.1, missing_param("file_path"@), seq![]),
                    Some(p) => if has_infix(p, ".."@) {
                        fails(
                            r.1,
                            "Invalid path: directory traversal with '..' is strictly forbidden"@,
                            seq!["Provide a path without relative parent references"@],
                        )
                    } else {
                        &&& r.0 matches ToolCall::Writing { path, extends } && path@ == p
                            && extends@ == script_base(args)
                        &&& r.1 matches ToolAction::WriteFile { path, content } && path@ == p
                            && content@ == script_text(script_base(args), class_name_line(args))
                    },
                },
                ToolKind::ValidateScript => match args.str_field("script_path"@) {
                    None => fails(r.1, missing_param("script_path"@), seq![]),
                    Some(s) => {
                        &&& r.0 is Validating
                        &&& r.1 matches ToolAction::Run(c) && runs(
                            c,
                            self.spec_cli().spec_binary(),
                            validate_args(args.str_field("project_path"@), s),
                            false,
                        )
                    },
                },
                ToolKind::Unknown => fails(
                    r.1,
                    "Tool '"@ + name@ + "' is not recognized"@,
                    seq!["Check tool name spelling against tools/list"@],
                ),
            },
    {
        proof {
            lemma_forwarded_command_is_tool_name(name@);
        }
        let n = String::from_str(name);
        if is_named(&n, "godot_get_version") {
            (ToolCall::Version, ask_bridge_plain("get_version"))
        } else if is_named(&n, "godot_get_project_info") {
            Self::forward("get_project_info", args)
        } else if is_named(&n, "godot_launch_editor") {
            Self::begin_launch_editor(args)
        } else if is_named(&n, "godot_run_project") {
            self.begin_run_project(args)
        } else if is_named(&n, "godot_get_scene_tree") {
            Self::forward("get_scene_tree", args)
        } else if is_named(&n, "godot_add_node") {
            Self::forward("add_node", args)
        } else if is_named(&n, "godot_remove_node") {
            Self::forward("remove_node", args)
        } else if is_named(&n, "godot_get_node_properties") {
            Self::forward("get_node_properties", args)
        } else if is_named(&n, "godot_set_node_properties") {
            Self::forward("set_node_properties", args)
        } else if is_named(&n, "godot_capture_viewport") {
            (ToolCall::Capture, ask_bridge_plain("capture_viewport"))
        } else if is_named(&n, "godot_open_scene") {
            Self::forward("open_scene", args)
        } else if is_named(&n, "godot_save_scene") {
            Self::forward("save_scene", args)
        } else if is_named(&n, "godot_create_script") {
            Self::begin_create_script(args)
        } else if is_named(&n, "godot_validate_script") {
            self.begin_validate_script(args)
        } else {
            let mut m = String::from_str("Tool '");
            m.append(name);
            m.append("' is not recognized");
            let mut hints: Vec<&str> = Vec::new();
            hints.push("Check tool name spelling against tools/list");
            assert(views(hints@) =~= seq!["Check tool name spelling against tools/list"@]);
            (ToolCall::Done, finish_error(m.as_str(), hints))
        }
    }

    fn forward(command: &str, args: Json) -> (r: (ToolCall, ToolAction))
        ensures
            r.0 is Forward,
            asks_bridge(r.1, command@, args),
    {
        (ToolCall::Forward, ToolAction::Bridge { command: String::from_str(command), params: args })
    }

    fn begin_launch_editor(args: Json) -> (r: (ToolCall, ToolAction))
        ensures
            r.1 is Finish <==> r.0 is Done,
            match args.str_field("project_path"@) {
                None => fails(r.1, missing_param("project_path"@), seq![]),
                Some(p) => {
                    &&& r.0 matches ToolCall::CheckingProject { path } && path@ == p
                    &&& r.1 matches ToolAction::CheckPath(q) && q@ == p
                },
            },
    {
        match args.get_str("project_path") {
            None => (ToolCall::Done, finish_missing("project_path")),
            Some(p) => {
                let q = p.clone();
                (ToolCall::CheckingProject { path: p }, ToolAction::CheckPath(q))
            },
        }
    }

    fn begin_run_project(&self, args: Json) -> (r: (ToolCall, ToolAction))
        ensures
            r.1 is Finish <==> r.0 is Done,
            match args.str_field("project_path"@) {
                None => fails(r.1, missing_param("project_path"@), seq![]),
                Some(p) => {
                    &&& r.0 matches ToolCall::Starting { path } && path@ == p
                    &&& r.1 matches ToolAction::Spawn(c) && runs(
                        c,
                        self.spec_cli().spec_binary(),
                        project_args(p, args.str_field("scene"@)),
                        true,
                    )
                },
            },
    {
        match args.get_str("project_path") {
            None => (ToolCall::Done, finish_missing("project_path")),
            Some(p) => {
                let scene = args.get_str("scene");
                let c = match &scene {
                    Some(s) => self.cli.project_command(p.as_str(), Some(s.as_str())),
                    None => self.cli.project_command(p.as_str(), None),
                };
                (ToolCall::Starting { path: p }, ToolAction::Spawn(c))
            },
        }
    }

    fn begin_create_script(args: Json) -> (r: (ToolCall, ToolAction))
        ensures
            r.1 is Finish <==> r.0 is Done,
            match args.str_field("file_path"@) {
                None => fails(r.1, missing_param("file_path"@), seq![]),
                Some(p) => if has_infix(p, ".."@) {
                    fails(
                        r.1,
                        "Invalid path: directory traversal with '..' is strictly forbidden"@,
                        seq!["Provide a path without relative parent references"@],
                    )
                } else {
                    &&& r.0 matches ToolCall::Writing { path, extends } && path@ == p
                        && extends@ == script_base(args)
                    &&& r.1 matches ToolAction::WriteFile { path, content } && path@ == p
                        && content@ == script_text(script_base(args), class_name_line(args))
                },
            },
    {
        match args.get_str("file_path") {
            None => (ToolCall::Done, finish_missing("file_path")),
            Some(p) => {
                let pc = chars_of(p.as_str());
                let dots = chars_of("..");
                if contains(pc.as_slice(), dots.as_slice()) {
                    let mut hints: Vec<&str> = Vec::new();
                    hints.push("Provide a path without relative parent references");
                    assert(views(hints@) =~= seq!["Provide a path without relative parent references"@]);
                    return (
                        ToolCall::Done,
                        finish_error(
                            "Invalid path: directory traversal with '..' is strictly forbidden",
                            hints,
                        ),
                    );
                }
                let base = match args.get_str("extends_class") {
                    Some(c) => c,
                    None => String::from_str("Node"),
                };
                let mut content = String::from_str("extends ");
                content.append(base.as_str());
                content.append("\n");
                match args.get_str("class_name") {
                    Some(c) => {
                        content.append("class_name ");
                        content.append(c.as_str());
                        content.append("\n");
                    },
                    None => {},
                }
                content.append("\nfunc _ready() -> void:\n\tpass\n");
                proof {
                    assert(content@ =~= script_text(script_base(args), class_name_line(args)));
                }
                let path = p.clone();
                (ToolCall::Writing { path: p, extends: base }, ToolAction::WriteFile { path, content })
            },
        }
    }

    fn begin_validate_script(&self, args: Json) -> (r: (ToolCall, ToolAction))
        ensures
            r.1 is Finish <==> r.0 is Done,
            match args.str_field("script_path"@) {
                None => fails(r.1, missing_param("script_path"@), seq![]),
                Some(s) => {
                    &&& r.0 is Validating
                    &&& r.1 matches ToolAction::Run(c) && runs(
                        c,
                        self.spec_cli().spec_binary(),
                        validate_args(args.str_field("project_path"@), s),
                        false,
                    )
                },
            },
    {
        match args.get_str("script_path") {
            None => (ToolCall::Done, finish_missing("script_path")),
            Some(s) => {
                let project = args.get_str("project_path");
                let c = match &project {
                    Some(p) => self.cli.validate_command(Some(p.as_str()), s.as_str()),
                    None => self.cli.validate_command(None, s.as_str()),
                };
                (ToolCall::Validating, ToolAction::Run(c))
            },
        }
    }
}

impl ToolManager {
    /// Continues a tool call with the host's report of the work it asked for: the next
    /// state of the call and the next work (or its result).
    pub fn resume(&self, call: ToolCall, event: ToolEvent) -> (r: (ToolCall, ToolAction))
        requires
            call.accepts(event),
        ensures
            r.1 is Finish <==> r.0 is Done,
            match (call, event) {
                (ToolCall::Version, ToolEvent::Bridge(Ok(reply))) => reports(
                    r.1,
                    live_version_text(reply.pretty@),
                ),
                (ToolCall::Version, ToolEvent::Bridge(Err(_))) => {
                    &&& r.0 is VersionCli
                    &&& r.1 matches ToolAction::Run(c) && runs(
                        c,
                        self.spec_cli().spec_binary(),
                        version_args(),
                        false,
                    )
                },
                (ToolCall::VersionCli, ToolEvent::Ran(run)) => match version_report(
                    self.spec_cli().spec_binary(),
                    run,
                ) {
                    Ok(v) => reports(r.1, cli_version_text(v)),
                    Err(m) => fails(
                        r.1,
                        "Failed to retrieve Godot version: "@ + m,
                        seq![
                            "Verify GODOT_PATH in .env"@,
                            "Ensure Godot executable is installed and reachable"@,
                        ],
                    ),
                },
                (ToolCall::Forward, ToolEvent::Bridge(Ok(reply))) => reports(r.1, reply.pretty@),
                (ToolCall::Forward, ToolEvent::Bridge(Err(e))) => fails(
                    r.1,
                    e.message(),
                    bridge_hints(),
                ),
                (ToolCall::Capture, ToolEvent::Bridge(Ok(reply))) => match (
                    reply.value.str_field("data"@),
                    reply.value.str_field("mime_type"@),
                ) {
                    (Some(d), Some(m)) => shows_image(r.1, d, m),
                    _ => fails(r.1, "Invalid image response received from Godot viewport"@, seq![]),
                },
                (ToolCall::Capture, ToolEvent::Bridge(Err(e))) => fails(
                    r.1,
                    "Failed to capture viewport: "@ + e.message(),
                    seq!["Ensure Godot Editor has a scene open in 2D or 3D view"@],
                ),
                (ToolCall::CheckingProject { path }, ToolEvent::PathExists(exists)) => if exists {
                    &&& r.0 matches ToolCall::Launching { path: p } && p@ == path@
                    &&& r.1 matches ToolAction::Spawn(c) && runs(
                        c,
                        self.spec_cli().spec_binary(),
                        editor_args(path@),
                        true,
                    )
                } else {
                    fails(
                        r.1,
                        "Project directory does not exist: "@ + path@,
                        seq!["Verify path spelling and ensure project.godot exists"@],
                    )
                },
                (ToolCall::Launching { path }, ToolEvent::Spawned(spawn)) => match spawn_report(
                    spawn,
                    "Failed to spawn Godot Editor process: "@,
                    "Failed to obtain Godot process ID"@,
                ) {
                    Ok(pid) => reports(
                        r.1,
                        "Godot Editor launched successfully for '"@ + path@ + "' (PID: "@ + decimal(
                            pid as nat,
                        ) + ")."@,
                    ),
                    Err(m) => fails(r.1, "Failed to launch Godot Editor: "@ + m, seq![]),
                },
                (ToolCall::Starting { path }, ToolEvent::Spawned(spawn)) => match spawn_report(
                    spawn,
                    "Failed to spawn Godot project: "@,
                    "Failed to obtain project process ID"@,
                ) {
                    Ok(pid) => reports(
                        r.1,
                        "Godot project instance spawned (PID: "@ + decimal(pid as nat) + ") for '"@
                            + path@ + "'."@,
                    ),
                    Err(m) => fails(r.1, "Failed to run project: "@ + m, seq![]),
                },
                (ToolCall::Writing { path, extends }, ToolEvent::Written(written)) => match written {
                    Ok(_) => reports(
                        r.1,
                        "Successfully created GDScript file at '"@ + path@ + "' extending '"@
                            + extends@ + "'."@,
                    ),
                    Err(e) => fails(r.1, "Failed to write script file: "@ + e@, seq![]),
                },
                (ToolCall::Validating, ToolEvent::Ran(run)) => match validation_report(run) {
                    Ok(m) => reports(r.1, m),
                    Err(m) => fails(
                        r.1,
                        "Script validation failed: "@ + m,
                        seq![
                            "Check GDScript syntax line numbers"@,
                            "Ensure base class and node types exist in the engine"@,
                        ],
                    ),
                },
                _ => true,
            },
    {
        match call {
            ToolCall::Version => match event {
                ToolEvent::Bridge(Ok(reply)) => {
                    let mut t = String::from_str("Godot Engine (Live Editor Connected):\n");
                    t.append(reply.pretty.as_str());
                    (ToolCall::Done, finish_text(t.as_str()))
                },
                _ => (ToolCall::VersionCli, ToolAction::Run(self.cli.version_command())),
            },
            ToolCall::VersionCli => match event {
                ToolEvent::Ran(run) => {
                    match self.cli.version_outcome(run) {
                        Ok(v) => {
                            let mut t = String::from_str("Godot Engine (Headless CLI):\nVersion: ");
                            t.append(v.as_str());
                            t.append(
                                "\nNote: Editor bridge is offline. Launch Godot Editor and enable Godot MCP Bridge plugin for live manipulation.",
                            );
                            (ToolCall::Done, finish_text(t.as_str()))
                        },
                        Err(e) => {
                            let mut m = String::from_str("Failed to retrieve Godot version: ");
                            m.append(e.to_string().as_str());
                            let mut hints: Vec<&str> = Vec::new();
                            hints.push("Verify GODOT_PATH in .env");
                            hints.push("Ensure Godot executable is installed and reachable");
                            assert(views(hints@) =~= seq![
                                "Verify GODOT_PATH in .env"@,
                                "Ensure Godot executable is installed and reachable"@,
                            ]);
                            (ToolCall::Done, finish_error(m.as_str(), hints))
                        },
                    }
                },
                _ => unreached(),
            },
            ToolCall::Forward => match event {
                ToolEvent::Bridge(Ok(reply)) => (ToolCall::Done, finish_text(reply.pretty.as_str())),
                ToolEvent::Bridge(Err(e)) => {
                    let mut hints: Vec<&str> = Vec::new();
                    hints.push("Launch Godot Editor with your project");
                    hints.push(
                        "Ensure 'Godot MCP Bridge' plugin is enabled in Project Settings -> Plugins",
                    );
                    hints.push(
                        "Verify GODOT_DEBUG_PORT in .env matches Godot bridge port (default: 9333)",
                    );
                    assert(views(hints@) =~= bridge_hints());
                    (ToolCall::Done, finish_error(e.to_string().as_str(), hints))
                },
                _ => unreached(),
            },
            ToolCall::Capture => match event {
                ToolEvent::Bridge(Ok(reply)) => {
                    let data = reply.value.get_str("data");
                    let mime = reply.value.get_str("mime_type");
                    match (data, mime) {
                        (Some(d), Some(m)) => (
                            ToolCall::Done,
                            ToolAction::Finish(ToolResult::image(d.as_str(), m.as_str())),
                        ),
                        _ => {
                            let none: Vec<&str> = Vec::new();
                            assert(views(none@) =~= seq![]);
                            (
                                ToolCall::Done,
                                finish_error(
                                    "Invalid image response received from Godot viewport",
                                    none,
                                ),
                            )
                        },
                    }
                },
                ToolEvent::Bridge(Err(e)) => {
                    let mut m = String::from_str("Failed to capture viewport: ");
                    m.append(e.to_string().as_str());
                    let mut hints: Vec<&str> = Vec::new();
                    hints.push("Ensure Godot Editor has a scene open in 2D or 3D view");
                    assert(views(hints@) =~= seq![
                        "Ensure Godot Editor has a scene open in 2D or 3D view"@,
                    ]);
                    (ToolCall::Done, finish_error(m.as_str(), hints))
                },
                _ => unreached(),
            },
            ToolCall::CheckingProject { path } => match event {
                ToolEvent::PathExists(true) => {
                    let c = self.cli.editor_command(path.as_str());
                    (ToolCall::Launching { path }, ToolAction::Spawn(c))
                },
                _ => {
                    let mut m = String::from_str("Project directory does not exist: ");
                    m.append(path.as_str());
                    let mut hints: Vec<&str> = Vec::new();
                    hints.push("Verify path spelling and ensure project.godot exists");
                    assert(views(hints@) =~= seq![
                        "Verify path spelling and ensure project.godot exists"@,
                    ]);
                    (ToolCall::Done, finish_error(m.as_str(), hints))
                },
            },
            ToolCall::Launching { path } => match event {
                ToolEvent::Spawned(spawn) => match CliRunner::editor_spawned(spawn) {
                    Ok(pid) => {
                        let mut t = String::from_str("Godot Editor launched successfully for '");
                        t.append(path.as_str());
                        t.append("' (PID: ");
                        push_decimal(&mut t, pid as u64);
                        t.append(").");
                        (ToolCall::Done, finish_text(t.as_str()))
                    },
                    Err(e) => {
                        let mut m = String::from_str("Failed to launch Godot Editor: ");
                        m.append(e.to_string().as_str());
                        (ToolCall::Done, finish_error(m.as_str(), no_hints()))
                    },
                },
                _ => unreached(),
            },
            ToolCall::Starting { path } => match event {
                ToolEvent::Spawned(spawn) => match CliRunner::project_spawned(spawn) {
                    Ok(pid) => {
                        let mut t = String::from_str("Godot project instance spawned (PID: ");
                        push_decimal(&mut t, pid as u64);
                        t.append(") for '");
                        t.append(path.as_str());
                        t.append("'.");
                        (ToolCall::Done, finish_text(t.as_str()))
                    },
                    Err(e) => {
                        let mut m = String::from_str("Failed to run project: ");
                        m.append(e.to_string().as_str());
                        (ToolCall::Done, finish_error(m.as_str(), no_hints()))
                    },
                },
                _ => unreached(),
            },
            ToolCall::Writing { path, extends } => match event {
                ToolEvent::Written(Ok(_)) => {
                    let mut t = String::from_str("Successfully created GDScript file at '");
                    t.append(path.as_str());
                    t.append("' extending '");
                    t.append(extends.as_str());
                    t.append("'.");
                    (ToolCall::Done, finish_text(t.as_str()))
                },
                ToolEvent::Written(Err(e)) => {
                    let mut m = String::from_str("Failed to write script file: ");
                    m.append(e.as_str());
                    (ToolCall::Done, finish_error(m.as_str(), no_hints()))
                },
                _ => unreached(),
            },
            ToolCall::Validating => match event {
                ToolEvent::Ran(run) => {
                    match CliRunner::validation_outcome(run) {
                        Ok(m) => (ToolCall::Done, finish_text(m.as_str())),
                        Err(e) => {
                            let mut m = String::from_str("Script validation failed: ");
                            m.append(e.to_string().as_str());
                            let mut hints: Vec<&str> = Vec::new();
                            hints.push("Check GDScript syntax line numbers");
                            hints.push("Ensure base class and node types exist in the engine");
                            assert(views(hints@) =~= seq![
                                "Check GDScript syntax line numbers"@,
                                "Ensure base class and node types exist in the engine"@,
                            ]);
                            (ToolCall::Done, finish_error(m.as_str(), hints))
                        },
                    }
                },
                _ => unreached(),
            },
            ToolCall::Done => unreached(),
        }
    }
}

/// The action shows one image: the result is not an error and holds just that image.
pub open spec fn shows_image(a: ToolAction, data: Seq<char>, mime_type: Seq<char>) -> bool {
    a matches ToolAction::Finish(r) && !r.is_error && r.content@.len() == 1 && (
    r.content@[0] matches ToolContent::Image { data: d, mime_type: m } && d@ == data && m@
        == mime_type)
}

fn no_hints() -> (v: Vec<&'static str>)
    ensures
        views(v@) == Seq::<Seq<char>>::empty(),
{
    let v: Vec<&'static str> = Vec::new();
    assert(views(v@) =~= Seq::<Seq<char>>::empty());
    v
}

} // verus!
