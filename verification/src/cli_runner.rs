//! Headless invocations of the Godot executable: the command lines to run, and how their
//! outcomes read.
use vstd::prelude::*;
use crate::error::McpError;
use crate::text::{trim, trimmed};

verus! {

/// The views of a list of strings.
pub open spec fn string_views(v: Seq<String>) -> Seq<Seq<char>> {
    v.map_values(|s: String| s@)
}

/// The arguments of `godot --version`.
pub open spec fn version_args() -> Seq<Seq<char>> {
    seq!["--version"@]
}

/// The arguments that open the editor on a project.
pub open spec fn editor_args(project_path: Seq<char>) -> Seq<Seq<char>> {
    seq!["--editor"@, "--path"@, project_path]
}

/// The arguments that run a project, or one scene of it.
pub open spec fn project_args(project_path: Seq<char>, scene: Option<Seq<char>>) -> Seq<Seq<char>> {
    match scene {
        Some(s) => seq!["--path"@, project_path, s],
        None => seq!["--path"@, project_path],
    }
}

/// The arguments that check a script, in the context of a project if one is given.
pub open spec fn validate_args(project_path: Option<Seq<char>>, script_path: Seq<char>) -> Seq<
    Seq<char>,
> {
    match project_path {
        Some(p) => seq!["--headless"@, "--check-only"@, "--path"@, p, "--script"@, script_path],
        None => seq!["--headless"@, "--check-only"@, "--script"@, script_path],
    }
}

/// The view of an outcome: the text of the value, or the message of the error.
pub open spec fn outcome_view(r: Result<String, McpError>) -> Result<Seq<char>, Seq<char>> {
    match r {
        Ok(s) => Ok(s@),
        Err(e) => Err(e.message()),
    }
}

/// The view of an optional string slice.
pub open spec fn opt_str_view(s: Option<&str>) -> Option<Seq<char>> {
    match s {
        Some(v) => Some(v@),
        None => None,
    }
}

/// How a `godot --version` run reads: the trimmed output when it succeeded, else the
/// message of the process error.
pub open spec fn version_report(binary: Seq<char>, run: Result<ProcessOutput, String>) -> Result<
    Seq<char>,
    Seq<char>,
> {
    match run {
        Err(e) => Err(
            "Engine process error: "@ + "Failed to invoke Godot executable at '"@ + binary + "': "@
                + e@,
        ),
        Ok(out) => if out.success {
            Ok(trimmed(utf8_lossy(out.stdout@)))
        } else {
            Err(
                "Engine process error: "@ + "Godot --version exited with error: "@ + utf8_lossy(
                    out.stderr@,
                ),
            )
        },
    }
}

/// How a script check reads: its verdict, or the message of the process error when it
/// could not run.
pub open spec fn validation_report(run: Result<ProcessOutput, String>) -> Result<
    Seq<char>,
    Seq<char>,
> {
    match run {
        Err(e) => Err("Engine process error: "@ + "Failed to run Godot script validation: "@ + e@),
        Ok(out) => match validation_verdict(
            out.success,
            utf8_lossy(out.stdout@),
            utf8_lossy(out.stderr@),
        ) {
            Ok(m) => Ok(m),
            Err(m) => Err("Validation error: "@ + m),
        },
    }
}

/// How a spawn reads: the process id, or the message of the process error.
pub open spec fn spawn_report(
    spawn: Result<Option<u32>, String>,
    spawn_failed: Seq<char>,
    no_pid: Seq<char>,
) -> Result<u32, Seq<char>> {
    match spawn {
        Ok(Some(pid)) => Ok(pid),
        Ok(None) => Err("Engine process error: "@ + no_pid),
        Err(e) => Err("Engine process error: "@ + spawn_failed + e@),
    }
}

/// The view of a spawn outcome: the process id, or the message of the error.
pub open spec fn pid_view(r: Result<u32, McpError>) -> Result<u32, Seq<char>> {
    match r {
        Ok(pid) => Ok(pid),
        Err(e) => Err(e.message()),
    }
}

/// A process to start: the program, its arguments, and whether its standard streams are
/// detached (connected to nothing) instead of inherited.
pub struct CommandLine {
    pub program: String,
    pub args: Vec<String>,
    pub detached_io: bool,
}

/// What a finished process left: whether it exited successfully, and its captured output.
pub struct ProcessOutput {
    pub success: bool,
    pub stdout: Vec<u8>,
    pub stderr: Vec<u8>,
}

/// What `String::from_utf8_lossy` gives for a byte sequence.
pub uninterp spec fn utf8_lossy(bytes: Seq<u8>) -> Seq<char>;

/// `String::from_utf8_lossy`: decodes UTF-8, putting U+FFFD in place of invalid sequences.
/// Its result is named `utf8_lossy`; beyond that, only that valid UTF-8 is decoded
/// unchanged is stated.
#[verifier::external_body]
fn lossy_text(bytes: &[u8]) -> (s: String)
    ensures
        s@ == utf8_lossy(bytes@),
        vstd::utf8::valid_utf8(bytes@) ==> s@ == vstd::utf8::decode_utf8(bytes@),
{
    String::from_utf8_lossy(bytes).into_owned()
}

/// The message of a successful script check.
pub open spec fn validation_passed_text() -> Seq<char> {
    "GDScript validation passed successfully with no errors."@
}

/// How a script check reads, from whether the process succeeded and the text of its
/// standard output and error: it passed when the process succeeded and wrote nothing but
/// white space to standard error.
pub open spec fn validation_verdict(success: bool, stdout: Seq<char>, stderr: Seq<char>) -> Result<
    Seq<char>,
    Seq<char>,
> {
    if success && trimmed(stderr).len() == 0 {
        Ok(validation_passed_text())
    } else {
        Err(trimmed("Stdout: "@ + stdout + "\nStderr: "@ + stderr))
    }
}

/// Runs the Godot executable in headless mode for version checks, script validation,
/// and to launch the editor or a project.
#[derive(Clone, Debug)]
pub struct CliRunner {
    godot_binary: String,
}

impl CliRunner {
    /// The path of the Godot executable.
    pub closed spec fn spec_binary(&self) -> Seq<char> {
        self.godot_binary@
    }

    /// A runner for the Godot executable at `godot_binary`.
    pub fn new(godot_binary: String) -> (r: Self)
        ensures
            r.spec_binary() == godot_binary@,
    {
        Self { godot_binary }
    }

    /// The path of the Godot executable.
    pub fn binary(&self) -> (b: String)
        ensures
            b@ == self.spec_binary(),
    {
        self.godot_binary.clone()
    }

    fn command(&self, args: Vec<String>, detached_io: bool) -> (c: CommandLine)
        ensures
            c.program@ == self.spec_binary(),
            c.args == args,
            c.detached_io == detached_io,
    {
        CommandLine { program: self.godot_binary.clone(), args, detached_io }
    }

    /// `godot --version`, with its output captured.
    pub fn version_command(&self) -> (c: CommandLine)
        ensures
            c.program@ == self.spec_binary(),
            string_views(c.args@) == version_args(),
            !c.detached_io,
    {
        let mut args: Vec<String> = Vec::new();
        args.push(String::from_str("--version"));
        let c = self.command(args, false);
        assert(string_views(c.args@) =~= seq!["--version"@]);
        c
    }

    /// The version reported by `godot --version`, from the process's success and the text
    /// of its output: the trimmed standard output, or an error quoting standard error.
    pub fn version_from_text(success: bool, stdout: &str, stderr: &str) -> (r: Result<
        String,
        McpError,
    >)
        ensures
            success ==> (r matches Ok(v) && v@ == trimmed(stdout@)),
            !success ==> (r matches Err(McpError::Process(m)) && m@
                == "Godot --version exited with error: "@ + stderr@),
    {
        if success {
            Ok(trim(stdout))
        } else {
            let mut m = String::from_str("Godot --version exited with error: ");
            m.append(stderr);
            Err(McpError::Process(m))
        }
    }

    /// The outcome of `godot --version`, from what running it gave: the process's output,
    /// or the text of the error that kept it from running.
    pub fn version_outcome(&self, run: Result<ProcessOutput, String>) -> (r: Result<
        String,
        McpError,
    >)
        ensures
            match run {
                Err(e) => r matches Err(McpError::Process(m)) && m@
                    == "Failed to invoke Godot executable at '"@ + self.spec_binary() + "': "@
                    + e@,
                Ok(out) => if out.success {
                    r matches Ok(v) && v@ == trimmed(utf8_lossy(out.stdout@))
                } else {
                    r matches Err(McpError::Process(m)) && m@
                        == "Godot --version exited with error: "@ + utf8_lossy(out.stderr@)
                },
            },
            outcome_view(r) == version_report(self.spec_binary(), run),
    {
        match run {
            Err(e) => {
                let mut m = String::from_str("Failed to invoke Godot executable at '");
                m.append(self.godot_binary.as_str());
                m.append("': ");
                m.append(e.as_str());
                let err = McpError::Process(m);
                assert(err.message() =~= version_report(self.spec_binary(), run)->Err_0);
                Err(err)
            },
            Ok(out) => {
                let stdout = lossy_text(out.stdout.as_slice());
                let stderr = lossy_text(out.stderr.as_slice());
                let r = Self::version_from_text(out.success, stdout.as_str(), stderr.as_str());
                proof {
                    if !out.success {
                        assert(r->Err_0.message() =~= version_report(self.spec_binary(), run)->Err_0);
                    }
                }
                r
            },
        }
    }

    /// `godot --editor --path <project>`, detached from the server's streams.
    pub fn editor_command(&self, project_path: &str) -> (c: CommandLine)
        ensures
            c.program@ == self.spec_binary(),
            string_views(c.args@) == editor_args(project_path@),
            c.detached_io,
    {
        let mut args: Vec<String> = Vec::new();
        args.push(String::from_str("--editor"));
        args.push(String::from_str("--path"));
        args.push(String::from_str(project_path));
        let c = self.command(args, true);
        assert(string_views(c.args@) =~= seq!["--editor"@, "--path"@, project_path@]);
        c
    }

    /// The process id of the launched editor, from what spawning gave: the id if the
    /// process reported one, or the text of the spawn error.
    pub fn editor_spawned(spawn: Result<Option<u32>, String>) -> (r: Result<u32, McpError>)
        ensures
            pid_view(r) == spawn_report(
                spawn,
                "Failed to spawn Godot Editor process: "@,
                "Failed to obtain Godot process ID"@,
            ),
            match spawn {
                Ok(Some(pid)) => r == Ok::<u32, McpError>(pid),
                Ok(None) => r matches Err(McpError::Process(m)) && m@
                    == "Failed to obtain Godot process ID"@,
                Err(e) => r matches Err(McpError::Process(m)) && m@
                    == "Failed to spawn Godot Editor process: "@ + e@,
            },
    {
        match spawn {
            Ok(Some(pid)) => Ok(pid),
            Ok(None) => Err(McpError::Process(String::from_str("Failed to obtain Godot process ID"))),
            Err(e) => {
                let mut m = String::from_str("Failed to spawn Godot Editor process: ");
                m.append(e.as_str());
                let err = McpError::Process(m);
                assert(err.message() =~= "Engine process error: "@ + "Failed to spawn Godot Editor process: "@ + e@);
                Err(err)
            },
        }
    }

    /// `godot --path <project> [<scene>]`, detached from the server's streams, so that
    /// nothing the project prints reaches the JSON-RPC output.
    pub fn project_command(&self, project_path: &str, scene: Option<&str>) -> (c: CommandLine)
        ensures
            c.program@ == self.spec_binary(),
            string_views(c.args@) == project_args(project_path@, opt_str_view(scene)),
            c.detached_io,
    {
        let mut args: Vec<String> = Vec::new();
        args.push(String::from_str("--path"));
        args.push(String::from_str(project_path));
        if let Some(s) = scene {
            args.push(String::from_str(s));
        }
        let c = self.command(args, true);
        assert(string_views(c.args@) =~= match scene {
            Some(s) => seq!["--path"@, project_path@, s@],
            None => seq!["--path"@, project_path@],
        });
        c
    }

    /// The process id of the started project, from what spawning gave.
    pub fn project_spawned(spawn: Result<Option<u32>, String>) -> (r: Result<u32, McpError>)
        ensures
            pid_view(r) == spawn_report(
                spawn,
                "Failed to spawn Godot project: "@,
                "Failed to obtain project process ID"@,
            ),
            match spawn {
                Ok(Some(pid)) => r == Ok::<u32, McpError>(pid),
                Ok(None) => r matches Err(McpError::Process(m)) && m@
                    == "Failed to obtain project process ID"@,
                Err(e) => r matches Err(McpError::Process(m)) && m@
                    == "Failed to spawn Godot project: "@ + e@,
            },
    {
        match spawn {
            Ok(Some(pid)) => Ok(pid),
            Ok(None) => Err(McpError::Process(String::from_str("Failed to obtain project process ID"))),
            Err(e) => {
                let mut m = String::from_str("Failed to spawn Godot project: ");
                m.append(e.as_str());
                let err = McpError::Process(m);
                assert(err.message() =~= "Engine process error: "@ + "Failed to spawn Godot project: "@ + e@);
                Err(err)
            },
        }
    }

    /// `godot --headless --check-only [--path <project>] --script <script>`, with its
    /// output captured.
    pub fn validate_command(&self, project_path: Option<&str>, script_path: &str) -> (c:
        CommandLine)
        ensures
            c.program@ == self.spec_binary(),
            string_views(c.args@) == validate_args(opt_str_view(project_path), script_path@),
            !c.detached_io,
    {
        let mut args: Vec<String> = Vec::new();
        args.push(String::from_str("--headless"));
        args.push(String::from_str("--check-only"));
        if let Some(p) = project_path {
            args.push(String::from_str("--path"));
            args.push(String::from_str(p));
        }
        args.push(String::from_str("--script"));
        args.push(String::from_str(script_path));
        let c = self.command(args, false);
        assert(string_views(c.args@) =~= match project_path {
            Some(p) => seq![
                "--headless"@,
                "--check-only"@,
                "--path"@,
                p@,
                "--script"@,
                script_path@,
            ],
            None => seq!["--headless"@, "--check-only"@, "--script"@, script_path@],
        });
        c
    }

    /// The verdict of a script check from the process's success and the text of its
    /// standard output and error.
    pub fn validation_from_text(success: bool, stdout: &str, stderr: &str) -> (r: Result<
        String,
        McpError,
    >)
        ensures
            match validation_verdict(success, stdout@, stderr@) {
                Ok(m) => r matches Ok(v) && v@ == m,
                Err(m) => r matches Err(McpError::Validation(v)) && v@ == m,
            },
    {
        let quiet = trim(stderr);
        if success && quiet.as_str().unicode_len() == 0 {
            Ok(String::from_str("GDScript validation passed successfully with no errors."))
        } else {
            let mut combined = String::from_str("Stdout: ");
            combined.append(stdout);
            combined.append("\nStderr: ");
            combined.append(stderr);
            Err(McpError::Validation(trim(combined.as_str())))
        }
    }

    /// The verdict of a script check from what running it gave: the process's output, or
    /// the text of the error that kept it from running.
    pub fn validation_outcome(run: Result<ProcessOutput, String>) -> (r: Result<String, McpError>)
        ensures
            match run {
                Err(e) => r matches Err(McpError::Process(m)) && m@
                    == "Failed to run Godot script validation: "@ + e@,
                Ok(out) => match validation_verdict(
                    out.success,
                    utf8_lossy(out.stdout@),
                    utf8_lossy(out.stderr@),
                ) {
                    Ok(m) => r matches Ok(v) && v@ == m,
                    Err(m) => r matches Err(McpError::Validation(v)) && v@ == m,
                },
            },
            outcome_view(r) == validation_report(run),
    {
        match run {
            Err(e) => {
                let mut m = String::from_str("Failed to run Godot script validation: ");
                m.append(e.as_str());
                let err = McpError::Process(m);
                assert(err.message() =~= validation_report(run)->Err_0);
                Err(err)
            },
            Ok(out) => {
                let stdout = lossy_text(out.stdout.as_slice());
                let stderr = lossy_text(out.stderr.as_slice());
                Self::validation_from_text(out.success, stdout.as_str(), stderr.as_str())
            },
        }
    }
}

} // verus!
