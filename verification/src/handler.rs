use vstd::prelude::*;

verus! {

/// The platform conventions under which dispatch scripts are resolved and
/// invoked. Picked once at startup by the embedding program.
#[derive(Clone, Copy, Debug, PartialEq, Eq, Structural)]
pub enum Platform {
    Unix,
    Windows,
}

/// The five dispatch scripts, each known by a two-letter code.
#[derive(Clone, Copy, Debug, PartialEq, Eq, Structural)]
pub enum ScriptKind {
    AllowNetwork,
    BlockNetwork,
    LockScreen,
    LockUsb,
    UnlockUsb,
}

/// What a recognized command asks for: a dispatch script, or the
/// process-list query.
#[derive(Clone, Copy, Debug, PartialEq, Eq, Structural)]
pub enum CommandAction {
    RunScript(ScriptKind),
    CheckStatus,
}

/// Why a command was not carried out. A single failed command does not end
/// the session; the outcome is reported and the loop waits for the next.
#[derive(Clone, Debug, PartialEq, Eq)]
pub enum DispatchError {
    /// The command is not in the table. Nothing was resolved or spawned.
    UnknownCommand(String),
    /// The script ran and exited nonzero; its captured standard error is
    /// carried along.
    ScriptExecution { script: String, stderr: String },
    /// The process-list query failed; its captured standard error is
    /// carried along.
    StatusCheck { stderr: String },
}

/// What a finished external process reported: whether it exited zero, and
/// its captured output streams.
#[derive(Clone, Debug, PartialEq, Eq)]
pub struct ProcessOutcome {
    pub success: bool,
    pub stdout: String,
    pub stderr: String,
}

/// A fully resolved script invocation: the shell to spawn, the flag it
/// takes, and the script path handed to it.
#[derive(Clone, Debug, PartialEq, Eq)]
pub struct ScriptInvocation {
    pub shell: String,
    pub flag: String,
    pub path: String,
}

/// A fully resolved process-list query: the program to spawn and its
/// argument, if the platform's one takes any.
#[derive(Clone, Debug, PartialEq, Eq)]
pub struct StatusInvocation {
    pub program: String,
    pub arg: Option<String>,
}

/// The two-letter code of a dispatch script.
pub open spec fn script_code_spec(kind: ScriptKind) -> Seq<char> {
    match kind {
        ScriptKind::AllowNetwork => "an"@,
        ScriptKind::BlockNetwork => "bn"@,
        ScriptKind::LockScreen => "sl"@,
        ScriptKind::LockUsb => "lu"@,
        ScriptKind::UnlockUsb => "uu"@,
    }
}

/// The action mapped to a command string, if it is one of the six
/// recognized commands.
pub open spec fn command_action_spec(command: Seq<char>) -> Option<CommandAction> {
    if command == "ALLOW_NETWORK"@ {
        Some(CommandAction::RunScript(ScriptKind::AllowNetwork))
    } else if command == "BLOCK_NETWORK"@ {
        Some(CommandAction::RunScript(ScriptKind::BlockNetwork))
    } else if command == "LOCK_SCREEN"@ {
        Some(CommandAction::RunScript(ScriptKind::LockScreen))
    } else if command == "LOCK_USB"@ {
        Some(CommandAction::RunScript(ScriptKind::LockUsb))
    } else if command == "UNLOCK_USB"@ {
        Some(CommandAction::RunScript(ScriptKind::UnlockUsb))
    } else if command == "CHECK_STATUS"@ {
        Some(CommandAction::CheckStatus)
    } else {
        None
    }
}

/// The separator between the script directory and a script file name.
pub open spec fn path_separator_spec(platform: Platform) -> Seq<char> {
    match platform {
        Platform::Unix => "/"@,
        Platform::Windows => "\\"@,
    }
}

/// The executable-script extension of the platform.
pub open spec fn script_extension_spec(platform: Platform) -> Seq<char> {
    match platform {
        Platform::Unix => ".sh"@,
        Platform::Windows => ".bat"@,
    }
}

/// The shell that runs a dispatch script on the platform.
pub open spec fn shell_program_spec(platform: Platform) -> Seq<char> {
    match platform {
        Platform::Unix => "bash"@,
        Platform::Windows => "cmd"@,
    }
}

/// The flag under which that shell takes a script path.
pub open spec fn shell_flag_spec(platform: Platform) -> Seq<char> {
    match platform {
        Platform::Unix => "-c"@,
        Platform::Windows => "/C"@,
    }
}

/// The program of the platform's process-list query.
pub open spec fn status_program_spec(platform: Platform) -> Seq<char> {
    match platform {
        Platform::Unix => "ps"@,
        Platform::Windows => "tasklist"@,
    }
}

/// Whether two strings hold the same characters.
fn str_eq(a: &str, b: &str) -> (r: bool)
    ensures
        r == (a@ == b@),
{
    let owned_a: String = a.to_owned();
    let owned_b: String = b.to_owned();
    owned_a == owned_b
}

/// The two-letter code of a dispatch script.
pub fn script_code(kind: ScriptKind) -> (r: &'static str)
    ensures
        r@ == script_code_spec(kind),
{
    match kind {
        ScriptKind::AllowNetwork => "an",
        ScriptKind::BlockNetwork => "bn",
        ScriptKind::LockScreen => "sl",
        ScriptKind::LockUsb => "lu",
        ScriptKind::UnlockUsb => "uu",
    }
}

/// Maps a symbolic command to an OS-specific external action and judges
/// the outcome. It holds the configured script-directory root, is
/// stateless, and resolves a fresh script path on every call.
pub struct CommandHandler {
    script_directory: String,
    platform: Platform,
}

impl CommandHandler {
    /// The configured script-directory root.
    pub closed spec fn directory(&self) -> Seq<char> {
        self.script_directory@
    }

    /// The platform conventions this handler resolves under.
    pub closed spec fn platform(&self) -> Platform {
        self.platform
    }

    /// The path a script name resolves to: directory, separator, name,
    /// extension.
    pub open spec fn resolved_path_spec(&self, name: Seq<char>) -> Seq<char> {
        self.directory() + path_separator_spec(self.platform()) + name + script_extension_spec(
            self.platform(),
        )
    }

    /// A handler for the platform's native Unix conventions.
    pub fn new(script_directory: String) -> (r: Self)
        ensures
            r.directory() == script_directory@,
            r.platform() == Platform::Unix,
    {
        Self { script_directory, platform: Platform::Unix }
    }

    /// A handler for explicitly chosen platform conventions.
    pub fn for_platform(script_directory: String, platform: Platform) -> (r: Self)
        ensures
            r.directory() == script_directory@,
            r.platform() == platform,
    {
        Self { script_directory, platform }
    }

    /// Resolve the path of the script with the given name.
    pub fn script_path(&self, script_name: &str) -> (r: String)
        ensures
            r@ == self.resolved_path_spec(script_name@),
    {
        let mut path = self.script_directory.clone();
        match self.platform {
            Platform::Unix => {
                path.append("/");
                path.append(script_name);
                path.append(".sh");
            },
            Platform::Windows => {
                path.append("\\");
                path.append(script_name);
                path.append(".bat");
            },
        }
        path
    }

    /// Map a command string to its action. Exactly the six recognized
    /// commands produce a dispatch attempt; every other string fails with
    /// `UnknownCommand`, and nothing is resolved or spawned for it.
    pub fn handle_command(&self, command: &str) -> (r: Result<CommandAction, DispatchError>)
        ensures
            command_action_spec(command@) matches Some(action) ==> r == Ok::<
                CommandAction,
                DispatchError,
            >(action),
            command_action_spec(command@) is None ==> (r matches Err(
                DispatchError::UnknownCommand(c),
            ) && c@ == command@),
    {
        if str_eq(command, "ALLOW_NETWORK") {
            Ok(CommandAction::RunScript(ScriptKind::AllowNetwork))
        } else if str_eq(command, "BLOCK_NETWORK") {
            Ok(CommandAction::RunScript(ScriptKind::BlockNetwork))
        } else if str_eq(command, "LOCK_SCREEN") {
            Ok(CommandAction::RunScript(ScriptKind::LockScreen))
        } else if str_eq(command, "LOCK_USB") {
            Ok(CommandAction::RunScript(ScriptKind::LockUsb))
        } else if str_eq(command, "UNLOCK_USB") {
            Ok(CommandAction::RunScript(ScriptKind::UnlockUsb))
        } else if str_eq(command, "CHECK_STATUS") {
            Ok(CommandAction::CheckStatus)
        } else {
            Err(DispatchError::UnknownCommand(command.to_owned()))
        }
    }

    /// Resolve everything a script dispatch spawns: the platform's shell,
    /// its flag, and the script's path.
    pub fn script_invocation(&self, kind: ScriptKind) -> (r: ScriptInvocation)
        ensures
            r.shell@ == shell_program_spec(self.platform()),
            r.flag@ == shell_flag_spec(self.platform()),
            r.path@ == self.resolved_path_spec(script_code_spec(kind)),
    {
        let shell = match self.platform {
            Platform::Unix => "bash",
            Platform::Windows => "cmd",
        };
        let flag = match self.platform {
            Platform::Unix => "-c",
            Platform::Windows => "/C",
        };
        ScriptInvocation {
            shell: shell.to_owned(),
            flag: flag.to_owned(),
            path: self.script_path(script_code(kind)),
        }
    }

    /// Resolve the platform's process-list query.
    pub fn status_invocation(&self) -> (r: StatusInvocation)
        ensures
            r.program@ == status_program_spec(self.platform()),
            self.platform() == Platform::Unix ==> (r.arg matches Some(a) && a@ == "aux"@),
            self.platform() == Platform::Windows ==> r.arg is None,
    {
        match self.platform {
            Platform::Unix => StatusInvocation {
                program: "ps".to_owned(),
                arg: Some("aux".to_owned()),
            },
            Platform::Windows => StatusInvocation { program: "tasklist".to_owned(), arg: None },
        }
    }

    /// Judge a finished script: exit zero yields its captured standard
    /// output, anything else fails with `ScriptExecution` carrying the
    /// script's code and its captured standard error.
    pub fn script_result(&self, kind: ScriptKind, outcome: ProcessOutcome) -> (r: Result<
        String,
        DispatchError,
    >)
        ensures
            outcome.success ==> (r matches Ok(out) && out@ == outcome.stdout@),
            !outcome.success ==> (r matches Err(DispatchError::ScriptExecution { script, stderr })
                && script@ == script_code_spec(kind) && stderr@ == outcome.stderr@),
    {
        if outcome.success {
            Ok(outcome.stdout)
        } else {
            Err(
                DispatchError::ScriptExecution {
                    script: script_code(kind).to_owned(),
                    stderr: outcome.stderr,
                },
            )
        }
    }

    /// Judge a finished process-list query: exit zero yields its captured
    /// standard output, anything else fails with `StatusCheck` carrying its
    /// captured standard error.
    pub fn status_result(&self, outcome: ProcessOutcome) -> (r: Result<String, DispatchError>)
        ensures
            outcome.success ==> (r matches Ok(out) && out@ == outcome.stdout@),
            !outcome.success ==> (r matches Err(DispatchError::StatusCheck { stderr }) && stderr@
                == outcome.stderr@),
    {
        if outcome.success {
            Ok(outcome.stdout)
        } else {
            Err(DispatchError::StatusCheck { stderr: outcome.stderr })
        }
    }

    /// Judge a finished external process under the action that spawned it.
    pub fn dispatch_result(&self, action: CommandAction, outcome: ProcessOutcome) -> (r: Result<
        String,
        DispatchError,
    >)
        ensures
            outcome.success ==> (r matches Ok(out) && out@ == outcome.stdout@),
            action matches CommandAction::RunScript(kind) ==> (!outcome.success ==> (r matches Err(
                DispatchError::ScriptExecution { script, stderr },
            ) && script@ == script_code_spec(kind) && stderr@ == outcome.stderr@)),
            action is CheckStatus && !outcome.success ==> (r matches Err(
                DispatchError::StatusCheck { stderr },
            ) && stderr@ == outcome.stderr@),
    {
        match action {
            CommandAction::RunScript(kind) => self.script_result(kind, outcome),
            CommandAction::CheckStatus => self.status_result(outcome),
        }
    }

    /// Relies on std::path::Path::exists: whether the path names an entry
    /// on disk at this moment. The answer depends on the filesystem, so
    /// nothing is promised of it.
    #[verifier::external_body]
    fn path_exists(path: &str) -> bool {
        std::path::Path::new(path).exists()
    }

    /// Pre-flight diagnostic: whether the script with the given name is
    /// present on disk under the configured root.
    pub fn is_script_exists(&self, script_name: &str) -> bool {
        let path = self.script_path(script_name);
        Self::path_exists(path.as_str())
    }
}

} // verus!
