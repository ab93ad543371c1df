//! What a new terminal is started with, and the command line that says so.
use vstd::prelude::*;
use vstd::utf8::*;

use crate::bytes;
use crate::text;

pub mod laws;

verus! {

/// What a terminal session is started with. Paths and arguments are raw bytes.
#[derive(Debug, PartialEq, Eq)]
pub struct TerminalLaunchSpec {
    /// The directory to start in; the launcher's own when absent.
    pub working_directory: Option<Vec<u8>>,
    /// The program and its arguments; the user's shell when empty.
    pub command: Vec<Vec<u8>>,
    /// Whether the terminal stays open when the program has ended.
    pub hold: bool,
}

/// The contents of a launch specification.
pub struct LaunchModel {
    pub working_directory: Option<Seq<u8>>,
    pub command: Seq<Seq<u8>>,
    pub hold: bool,
}

impl View for TerminalLaunchSpec {
    type V = LaunchModel;

    open spec fn view(&self) -> LaunchModel {
        LaunchModel {
            working_directory: match self.working_directory {
                Some(path) => Some(path@),
                None => None,
            },
            command: bytes::views(self.command@),
            hold: self.hold,
        }
    }
}

/// The launch specification of a plain session: the user's shell in the launcher's directory.
pub open spec fn default_launch() -> LaunchModel {
    LaunchModel { working_directory: None, command: Seq::empty(), hold: false }
}

impl Default for TerminalLaunchSpec {
    fn default() -> (launch: Self)
        ensures
            launch@ == default_launch(),
    {
        let launch = TerminalLaunchSpec {
            working_directory: None,
            command: Vec::new(),
            hold: false,
        };
        assert(launch@.command =~= Seq::empty());
        launch
    }
}

impl Clone for TerminalLaunchSpec {
    fn clone(&self) -> (copy: Self)
        ensures
            copy@ == self@,
    {
        TerminalLaunchSpec {
            working_directory: match &self.working_directory {
                Some(path) => Some(bytes::copy(path.as_slice())),
                None => None,
            },
            command: bytes::copy_list(&self.command),
            hold: self.hold,
        }
    }
}

/// How the process was asked to start.
#[derive(Debug, PartialEq, Eq)]
pub enum StartupMode {
    /// An ordinary terminal session.
    Normal(TerminalLaunchSpec),
    /// The scripted run that profiles the program.
    PgoAutomation,
}

/// The contents of a startup mode.
pub enum StartupModel {
    Normal(LaunchModel),
    PgoAutomation,
}

impl View for StartupMode {
    type V = StartupModel;

    open spec fn view(&self) -> StartupModel {
        match self {
            StartupMode::Normal(launch) => StartupModel::Normal(launch@),
            StartupMode::PgoAutomation => StartupModel::PgoAutomation,
        }
    }
}

/// One option of the command line, with the arguments that belong to it.
pub enum NormalCliToken<'a> {
    WorkingDirectory { option: &'a Vec<u8>, value: Option<&'a Vec<u8>> },
    Hold,
    Execute(&'a [Vec<u8>]),
    Other(&'a Vec<u8>),
}

/// The contents of a command-line token.
pub enum TokenModel {
    WorkingDirectory { option: Seq<u8>, value: Option<Seq<u8>> },
    Hold,
    Execute(Seq<Seq<u8>>),
    Other(Seq<u8>),
}

impl<'a> View for NormalCliToken<'a> {
    type V = TokenModel;

    open spec fn view(&self) -> TokenModel {
        match self {
            NormalCliToken::WorkingDirectory { option, value } => TokenModel::WorkingDirectory {
                option: option@,
                value: match value {
                    Some(value) => Some(value@),
                    None => None,
                },
            },
            NormalCliToken::Hold => TokenModel::Hold,
            NormalCliToken::Execute(command) => TokenModel::Execute(bytes::views(command@)),
            NormalCliToken::Other(arg) => TokenModel::Other(arg@),
        }
    }
}

/// The token that starts at `index`, and the index of the next one.
pub open spec fn cli_token(args: Seq<Seq<u8>>, index: int) -> (TokenModel, int) {
    let arg = args[index];
    if arg == encode_utf8("--workdir"@) || arg == encode_utf8("--working-directory"@) {
        let value = if index + 1 < args.len() {
            Some(args[index + 1])
        } else {
            None
        };
        (
            TokenModel::WorkingDirectory { option: arg, value },
            if index + 2 <= args.len() { index + 2 } else { args.len() as int },
        )
    } else if arg == encode_utf8("--hold"@) || arg == encode_utf8("--noclose"@) {
        (TokenModel::Hold, index + 1)
    } else if arg == encode_utf8("-e"@) {
        (TokenModel::Execute(args.skip(index + 1)), args.len() as int)
    } else {
        (TokenModel::Other(arg), index + 1)
    }
}

/// Reads the token that starts at `index`.
pub fn normal_cli_token<'a>(args: &'a [Vec<u8>], index: usize) -> (token: (NormalCliToken<'a>, usize))
    requires
        index < args@.len(),
    ensures
        (token.0@, token.1 as int) == cli_token(bytes::views(args@), index as int),
        index < token.1 <= args@.len(),
{
    let arg = &args[index];
    if bytes::is_text(arg.as_slice(), "--workdir") || bytes::is_text(
        arg.as_slice(),
        "--working-directory",
    ) {
        if args.len() - index > 1 {
            return (
                NormalCliToken::WorkingDirectory { option: arg, value: Some(&args[index + 1]) },
                index + 2,
            );
        }
        return (NormalCliToken::WorkingDirectory { option: arg, value: None }, args.len());
    }
    if bytes::is_text(arg.as_slice(), "--hold") || bytes::is_text(arg.as_slice(), "--noclose") {
        return (NormalCliToken::Hold, index + 1);
    }
    if bytes::is_text(arg.as_slice(), "-e") {
        let command = vstd::slice::slice_subrange(args, index + 1, args.len());
        assert(bytes::views(command@) =~= bytes::views(args@).skip(index + 1));
        return (NormalCliToken::Execute(command), args.len());
    }
    (NormalCliToken::Other(arg), index + 1)
}

/// Whether the scripted profiling run is asked for by the arguments from `index` on: by the option
/// `--pgo-train` where it is neither the value of another option nor part of a command.
pub open spec fn pgo_requested(args: Seq<Seq<u8>>, index: int) -> bool
    decreases args.len() - index,
{
    if index < 0 || index >= args.len() {
        false
    } else {
        let (token, next) = cli_token(args, index);
        match token {
            TokenModel::Execute(_) => false,
            TokenModel::Other(arg) => arg == encode_utf8("--pgo-train"@) || pgo_requested(
                args,
                next,
            ),
            _ => pgo_requested(args, next),
        }
    }
}

/// Whether the scripted profiling run is asked for.
pub fn pgo_automation_requested(args: &[Vec<u8>]) -> (requested: bool)
    ensures
        requested == pgo_requested(bytes::views(args@), 1),
{
    let mut index: usize = 1;
    while index < args.len()
        invariant
            1 <= index,
            pgo_requested(bytes::views(args@), 1) == pgo_requested(
                bytes::views(args@),
                index as int,
            ),
        decreases args.len() - index,
    {
        let (token, next_index) = normal_cli_token(args, index);
        match token {
            NormalCliToken::Execute(_) => {
                return false;
            },
            NormalCliToken::Other(arg) => {
                if bytes::is_text(arg.as_slice(), "--pgo-train") {
                    return true;
                }
            },
            _ => {},
        }
        index = next_index;
    }
    false
}

/// Whether a path starts at the root.
pub open spec fn is_absolute(path: Seq<u8>) -> bool {
    path.len() > 0 && path[0] == 0x2f
}

/// A relative path below a directory, with one `/` between them where the directory does not end
/// in one.
pub open spec fn joined(directory: Seq<u8>, path: Seq<u8>) -> Seq<u8> {
    if directory.len() > 0 && directory.last() != 0x2f {
        directory.push(0x2f) + path
    } else {
        directory + path
    }
}

/// The path of `path` below `directory`.
pub fn join_path(directory: &[u8], path: &[u8]) -> (out: Vec<u8>)
    ensures
        out@ == joined(directory@, path@),
{
    let mut out = bytes::copy(directory);
    if directory.len() > 0 && directory[directory.len() - 1] != 0x2f {
        out.push(0x2f);
    }
    bytes::append(&mut out, path);
    out
}

/// Whether reading the arguments from `index` on comes to a relative working directory, given
/// whether one was read before.
pub open spec fn needs_current_dir(args: Seq<Seq<u8>>, index: int, has_directory: bool) -> bool
    decreases args.len() - index,
{
    if index < 0 || index >= args.len() {
        false
    } else {
        let (token, next) = cli_token(args, index);
        match token {
            TokenModel::WorkingDirectory { option, value } => {
                &&& !has_directory
                &&& value is Some
                &&& (!is_absolute(value->0) || needs_current_dir(args, next, true))
            },
            TokenModel::Hold => needs_current_dir(args, next, has_directory),
            _ => false,
        }
    }
}

/// The launch specification that the arguments from `index` on add to `launch`, or the message that
/// refuses them. `current_dir` is the launcher's directory, or why it is not known.
pub open spec fn launch_from(
    args: Seq<Seq<u8>>,
    index: int,
    launch: LaunchModel,
    current_dir: Result<Seq<u8>, Seq<char>>,
) -> Result<LaunchModel, Seq<char>>
    decreases args.len() - index,
{
    if index < 0 || index >= args.len() {
        Ok(launch)
    } else {
        let (token, next) = cli_token(args, index);
        match token {
            TokenModel::WorkingDirectory { option, value } => {
                if launch.working_directory is Some {
                    Err("duplicate --workdir/--working-directory"@)
                } else {
                    match value {
                        None => Err(text::lossy(option) + " requires a directory"@),
                        Some(path) => {
                            if is_absolute(path) {
                                launch_from(
                                    args,
                                    next,
                                    LaunchModel { working_directory: Some(path), ..launch },
                                    current_dir,
                                )
                            } else {
                                match current_dir {
                                    Err(error) => Err(
                                        "failed to resolve relative working directory: "@ + error,
                                    ),
                                    Ok(directory) => launch_from(
                                        args,
                                        next,
                                        LaunchModel {
                                            working_directory: Some(joined(directory, path)),
                                            ..launch
                                        },
                                        current_dir,
                                    ),
                                }
                            }
                        },
                    }
                }
            },
            TokenModel::Hold => launch_from(
                args,
                next,
                LaunchModel { hold: true, ..launch },
                current_dir,
            ),
            TokenModel::Execute(command) => {
                if command.len() == 0 {
                    Err("-e requires a command"@)
                } else {
                    Ok(LaunchModel { command, ..launch })
                }
            },
            TokenModel::Other(arg) => Err("unknown Ronsole argument: "@ + text::lossy(arg)),
        }
    }
}

/// The contents of a directory lookup.
pub open spec fn lookup_view(lookup: Result<Vec<u8>, String>) -> Result<Seq<u8>, Seq<char>> {
    match lookup {
        Ok(path) => Ok(path@),
        Err(error) => Err(error@),
    }
}

/// Whether `parsed` is what the arguments ask for. The launcher's directory is looked up only where
/// a relative working directory is given.
pub open spec fn launch_parsed<F: Fn() -> Result<Vec<u8>, String>>(
    args: Seq<Seq<u8>>,
    current_dir: F,
    parsed: Result<LaunchModel, Seq<char>>,
) -> bool {
    if needs_current_dir(args, 1, false) {
        exists|lookup: Result<Vec<u8>, String>|
            #![trigger lookup_view(lookup)]
            current_dir.ensures((), lookup) && parsed == launch_from(
                args,
                1,
                default_launch(),
                lookup_view(lookup),
            )
    } else {
        forall|any: Result<Seq<u8>, Seq<char>>|
            parsed == #[trigger] launch_from(args, 1, default_launch(), any)
    }
}

/// The contents of a parse result.
pub open spec fn launch_view(parsed: Result<TerminalLaunchSpec, String>) -> Result<
    LaunchModel,
    Seq<char>,
> {
    match parsed {
        Ok(launch) => Ok(launch@),
        Err(error) => Err(error@),
    }
}

/// The launch specification that a command line asks for. `current_dir` looks up the launcher's
/// directory.
pub fn parse_terminal_launch_args_with_current_dir<F: Fn() -> Result<Vec<u8>, String>>(
    args: &[Vec<u8>],
    current_dir: F,
) -> (parsed: Result<TerminalLaunchSpec, String>)
    requires
        needs_current_dir(bytes::views(args@), 1, false) ==> current_dir.requires(()),
    ensures
        launch_parsed(bytes::views(args@), current_dir, launch_view(parsed)),
{
    let ghost all = bytes::views(args@);
    let mut launch = TerminalLaunchSpec::default();
    let mut index: usize = 1;
    let ghost mut looked: Option<Result<Vec<u8>, String>> = None;
    while index < args.len()
        invariant
            all == bytes::views(args@),
            1 <= index,
            needs_current_dir(all, 1, false) ==> current_dir.requires(()),
            match looked {
                None => {
                    &&& needs_current_dir(all, 1, false) == needs_current_dir(
                        all,
                        index as int,
                        launch.working_directory is Some,
                    )
                    &&& forall|any: Result<Seq<u8>, Seq<char>>|
                        #[trigger] launch_from(all, 1, default_launch(), any) == launch_from(
                            all,
                            index as int,
                            launch@,
                            any,
                        )
                },
                Some(lookup) => {
                    &&& needs_current_dir(all, 1, false)
                    &&& launch.working_directory is Some
                    &&& current_dir.ensures((), lookup)
                    &&& launch_from(all, 1, default_launch(), lookup_view(lookup)) == launch_from(
                        all,
                        index as int,
                        launch@,
                        lookup_view(lookup),
                    )
                },
            },
        decreases args.len() - index,
    {
        let (token, next_index) = normal_cli_token(args, index);
        match token {
            NormalCliToken::WorkingDirectory { option, value } => {
                if launch.working_directory.is_some() {
                    return Err("duplicate --workdir/--working-directory".to_owned());
                }
                match value {
                    None => {
                        let mut message = text::lossy_text(option.as_slice());
                        message.push_str(" requires a directory");
                        return Err(message);
                    },
                    Some(value) => {
                        if value.len() > 0 && value[0] == 0x2f {
                            launch.working_directory = Some(bytes::copy(value.as_slice()));
                        } else {
                            let found = current_dir();
                            proof {
                                looked = Some(found);
                            }
                            match found {
                                Err(error) => {
                                    return Err(
                                        text::concat(
                                            "failed to resolve relative working directory: ",
                                            error.as_str(),
                                        ),
                                    );
                                },
                                Ok(directory) => {
                                    launch.working_directory = Some(
                                        join_path(directory.as_slice(), value.as_slice()),
                                    );
                                },
                            }
                        }
                    },
                }
            },
            NormalCliToken::Hold => {
                launch.hold = true;
            },
            NormalCliToken::Execute(command) => {
                if command.len() == 0 {
                    return Err("-e requires a command".to_owned());
                }
                launch.command = bytes::copy_slice(command);
                return Ok(launch);
            },
            NormalCliToken::Other(arg) => {
                let argument = text::lossy_text(arg.as_slice());
                return Err(text::concat("unknown Ronsole argument: ", argument.as_str()));
            },
        }
        index = next_index;
    }
    Ok(launch)
}

/// How the process is asked to start: the scripted profiling run where `--pgo-train` asks for it, an
/// ordinary session otherwise.
pub fn parse_startup_args_with_current_dir<F: Fn() -> Result<Vec<u8>, String>>(
    args: &[Vec<u8>],
    current_dir: F,
) -> (mode: Result<StartupMode, String>)
    requires
        !pgo_requested(bytes::views(args@), 1) && needs_current_dir(bytes::views(args@), 1, false)
            ==> current_dir.requires(()),
    ensures
        pgo_requested(bytes::views(args@), 1) ==> mode == Ok::<StartupMode, String>(
            StartupMode::PgoAutomation,
        ),
        !pgo_requested(bytes::views(args@), 1) ==> mode != Ok::<StartupMode, String>(
            StartupMode::PgoAutomation,
        ) && launch_parsed(
            bytes::views(args@),
            current_dir,
            match mode {
                Ok(StartupMode::Normal(launch)) => Ok(launch@),
                Ok(StartupMode::PgoAutomation) => Ok(default_launch()),
                Err(error) => Err(error@),
            },
        ),
{
    if pgo_automation_requested(args) {
        return Ok(StartupMode::PgoAutomation);
    }
    match parse_terminal_launch_args_with_current_dir(args, current_dir) {
        Ok(launch) => Ok(StartupMode::Normal(launch)),
        Err(error) => Err(error),
    }
}

} // verus!
