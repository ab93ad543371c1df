//! Raising the window under KDE by a script that KWin runs.
use vstd::prelude::*;
use vstd::utf8::*;

use crate::bytes;
use crate::launch;
use crate::text;

verus! {

/// The D-Bus service of KWin.
pub const KWIN_SERVICE: &'static str = "org.kde.KWin";

/// The D-Bus object that loads scripts.
pub const KWIN_SCRIPTING_PATH: &'static str = "/Scripting";

/// How long a command may take, in milliseconds.
pub const COMMAND_TIMEOUT_MS: u64 = 750;

/// How long to wait between two looks at a command, in milliseconds.
pub const COMMAND_POLL_INTERVAL_MS: u64 = 10;

/// What became of a request to raise the window.
#[derive(Clone, Copy, Debug, PartialEq, Eq, Structural)]
pub enum KdeActivationRequest {
    /// It waits for the worker.
    Enqueued,
    /// One waits or runs already, and stands for this one too.
    Coalesced,
    /// There is no worker.
    Unavailable,
}

/// What handing a request to the worker came to.
#[derive(Clone, Copy, Debug, PartialEq, Eq, Structural)]
pub enum SendOutcome {
    Sent,
    Full,
    Disconnected,
}

/// The state of the worker that the rest of the program sees.
#[derive(Clone, Copy, Debug, PartialEq, Eq, Structural)]
pub struct KdeActivationState {
    /// Whether there is a worker to send to.
    pub has_sender: bool,
    /// Whether a request waits or runs.
    pub queued_or_running: bool,
    /// Whether a failure was reported.
    pub diagnostic_emitted: bool,
}

impl KdeActivationState {
    /// The state of a worker that has just been started, or could not be.
    pub fn new(started: bool) -> (state: Self)
        ensures
            state == (KdeActivationState {
                has_sender: started,
                queued_or_running: false,
                diagnostic_emitted: false,
            }),
    {
        KdeActivationState {
            has_sender: started,
            queued_or_running: false,
            diagnostic_emitted: false,
        }
    }

    /// What becomes of a request where that is known before it is sent, and the state after it.
    pub open spec fn begun(self) -> (Option<KdeActivationRequest>, KdeActivationState) {
        if !self.has_sender {
            (Some(KdeActivationRequest::Unavailable), self)
        } else if self.queued_or_running {
            (Some(KdeActivationRequest::Coalesced), self)
        } else {
            (None, KdeActivationState { queued_or_running: true, ..self })
        }
    }

    /// What becomes of a request that was sent, and the state after it.
    pub open spec fn finished(self, sent: SendOutcome) -> (KdeActivationRequest, KdeActivationState) {
        match sent {
            SendOutcome::Sent => (KdeActivationRequest::Enqueued, self),
            SendOutcome::Full => (KdeActivationRequest::Coalesced, self),
            SendOutcome::Disconnected => (
                KdeActivationRequest::Unavailable,
                KdeActivationState { queued_or_running: false, ..self },
            ),
        }
    }

    /// Claims the worker for a request. Without an answer the request is to be sent, and
    /// `finish_request` told what that came to.
    pub fn begin_request(&mut self) -> (request: Option<KdeActivationRequest>)
        ensures
            (request, *final(self)) == old(self).begun(),
    {
        if !self.has_sender {
            return Some(KdeActivationRequest::Unavailable);
        }
        if self.queued_or_running {
            return Some(KdeActivationRequest::Coalesced);
        }
        self.queued_or_running = true;
        None
    }

    /// What became of a request that was sent.
    pub fn finish_request(&mut self, sent: SendOutcome) -> (request: KdeActivationRequest)
        ensures
            (request, *final(self)) == old(self).finished(sent),
    {
        match sent {
            SendOutcome::Sent => KdeActivationRequest::Enqueued,
            SendOutcome::Full => KdeActivationRequest::Coalesced,
            SendOutcome::Disconnected => {
                self.queued_or_running = false;
                KdeActivationRequest::Unavailable
            },
        }
    }

    /// Notes that the worker is done with a request. Whether a failure is to be reported now: only
    /// the first one is.
    pub fn job_done(&mut self, activated: bool) -> (report: bool)
        ensures
            report == (!activated && !old(self).diagnostic_emitted),
            *final(self) == (KdeActivationState {
                queued_or_running: false,
                diagnostic_emitted: old(self).diagnostic_emitted || !activated,
                ..*old(self)
            }),
    {
        self.queued_or_running = false;
        if activated {
            return false;
        }
        self.report_once()
    }

    /// Whether a failure is to be reported now: only the first one is.
    pub fn report_once(&mut self) -> (report: bool)
        ensures
            report == !old(self).diagnostic_emitted,
            *final(self) == (KdeActivationState { diagnostic_emitted: true, ..*old(self) }),
    {
        let report = !self.diagnostic_emitted;
        self.diagnostic_emitted = true;
        report
    }

    /// Lets the worker go.
    pub fn shutdown(&mut self)
        ensures
            *final(self) == (KdeActivationState {
                has_sender: false,
                queued_or_running: false,
                ..*old(self)
            }),
    {
        self.has_sender = false;
        self.queued_or_running = false;
    }
}

/// A request that comes after one that was sent, and before the worker is done with that one, is
/// taken together with it.
pub proof fn rapid_requests_coalesce(state: KdeActivationState)
    requires
        state.begun().0 is None,
    ensures
        ({
            let waiting = state.begun().1.finished(SendOutcome::Sent);
            &&& waiting.0 == KdeActivationRequest::Enqueued
            &&& waiting.1.begun() == (Some(KdeActivationRequest::Coalesced), waiting.1)
        }),
{
}

/// A command to be run.
#[derive(Debug, PartialEq, Eq)]
pub struct CommandSpec {
    pub program: Vec<u8>,
    pub args: Vec<Vec<u8>>,
    pub timeout_ms: u64,
}

impl CommandSpec {
    /// Whether this is the call of `qdbus` with the arguments given.
    pub open spec fn calls(self, qdbus: Seq<u8>, args: Seq<Seq<u8>>) -> bool {
        self.program@ == qdbus && bytes::views(self.args@) == args && self.timeout_ms
            == COMMAND_TIMEOUT_MS
    }
}

/// What a command came to.
#[derive(Debug, PartialEq, Eq)]
pub struct CommandOutput {
    pub success: bool,
    pub stdout: Vec<u8>,
}

/// The arguments of the call that loads a script.
pub open spec fn load_args(script_path: Seq<u8>, plugin_name: Seq<char>) -> Seq<Seq<u8>> {
    seq![
        encode_utf8(KWIN_SERVICE@),
        encode_utf8(KWIN_SCRIPTING_PATH@),
        encode_utf8("loadScript"@),
        script_path,
        encode_utf8(plugin_name),
    ]
}

/// The arguments of the call that runs a loaded script.
pub open spec fn run_args(script_id: int) -> Seq<Seq<u8>> {
    seq![
        encode_utf8(KWIN_SERVICE@),
        encode_utf8("/Scripting/Script"@ + text::signed_decimal(script_id)),
        encode_utf8("run"@),
    ]
}

/// The arguments of the call that unloads a script.
pub open spec fn unload_args(plugin_name: Seq<char>) -> Seq<Seq<u8>> {
    seq![
        encode_utf8(KWIN_SERVICE@),
        encode_utf8(KWIN_SCRIPTING_PATH@),
        encode_utf8("unloadScript"@),
        encode_utf8(plugin_name),
    ]
}

/// The call that loads a script under a name.
pub fn qdbus_load_script(qdbus: &[u8], script_path: &[u8], plugin_name: &str) -> (command:
    CommandSpec)
    ensures
        command.calls(qdbus@, load_args(script_path@, plugin_name@)),
{
    let mut args: Vec<Vec<u8>> = Vec::new();
    args.push(bytes::copy(KWIN_SERVICE.as_bytes()));
    args.push(bytes::copy(KWIN_SCRIPTING_PATH.as_bytes()));
    args.push(bytes::copy("loadScript".as_bytes()));
    args.push(bytes::copy(script_path));
    args.push(bytes::copy(plugin_name.as_bytes()));
    assert(bytes::views(args@) =~= load_args(script_path@, plugin_name@));
    CommandSpec { program: bytes::copy(qdbus), args, timeout_ms: COMMAND_TIMEOUT_MS }
}

/// The call that runs a loaded script.
pub fn qdbus_run_script(qdbus: &[u8], script_id: i32) -> (command: CommandSpec)
    ensures
        command.calls(qdbus@, run_args(script_id as int)),
{
    let mut path = "/Scripting/Script".to_owned();
    text::push_signed_decimal(&mut path, script_id);
    let mut args: Vec<Vec<u8>> = Vec::new();
    args.push(bytes::copy(KWIN_SERVICE.as_bytes()));
    args.push(bytes::copy(path.as_str().as_bytes()));
    args.push(bytes::copy("run".as_bytes()));
    assert(bytes::views(args@) =~= run_args(script_id as int));
    CommandSpec { program: bytes::copy(qdbus), args, timeout_ms: COMMAND_TIMEOUT_MS }
}

/// The call that unloads the script of a name.
pub fn qdbus_unload_script(qdbus: &[u8], plugin_name: &str) -> (command: CommandSpec)
    ensures
        command.calls(qdbus@, unload_args(plugin_name@)),
{
    let mut args: Vec<Vec<u8>> = Vec::new();
    args.push(bytes::copy(KWIN_SERVICE.as_bytes()));
    args.push(bytes::copy(KWIN_SCRIPTING_PATH.as_bytes()));
    args.push(bytes::copy("unloadScript".as_bytes()));
    args.push(bytes::copy(plugin_name.as_bytes()));
    assert(bytes::views(args@) =~= unload_args(plugin_name@));
    CommandSpec { program: bytes::copy(qdbus), args, timeout_ms: COMMAND_TIMEOUT_MS }
}

/// The script number that a reply gives: a decimal number of 32 bits, not negative, with nothing but
/// white space around it.
pub open spec fn script_id(stdout: Seq<u8>) -> Option<int> {
    if !valid_utf8(stdout) {
        None
    } else {
        match text::parsed_signed(
            encode_utf8(text::trimmed(decode_utf8(stdout))),
            i32::MAX as int,
        ) {
            Some(value) => if value >= 0 {
                Some(value)
            } else {
                None
            },
            None => None,
        }
    }
}

/// The script number that a reply gives.
pub fn parse_script_id(stdout: &[u8]) -> (id: Option<i32>)
    ensures
        match script_id(stdout@) {
            Some(expected) => id is Some && id->0 == expected,
            None => id is None,
        },
        id is Some ==> id->0 >= 0,
{
    match text::utf8_text(bytes::copy(stdout)) {
        None => None,
        Some(reply) => {
            let chars = text::chars_of(reply.as_str());
            let number = text::text_of(text::trim(chars.as_slice()));
            match text::parse_i32(number.as_str().as_bytes()) {
                Some(value) => {
                    if value >= 0 {
                        Some(value)
                    } else {
                        None
                    }
                },
                None => None,
            }
        },
    }
}

/// The script before the process number.
pub const SCRIPT_HEAD: &'static str = "(function() {
    const targetPid = ";

/// The script after the process number.
pub const SCRIPT_TAIL: &'static str = ";
    const windows = workspace.stackingOrder;
    let target = null;

    for (let i = windows.length - 1; i >= 0; --i) {
        const candidate = windows[i];
        if (candidate && !candidate.deleted && candidate.pid === targetPid) {
            target = candidate;
            break;
        }
    }

    if (!target) {
        return;
    }

    if (target.minimized) {
        target.minimized = false;
    }

    if (target.desktops && target.desktops.length > 0) {
        const targetDesktop = target.desktops[0];
        if (target.output && typeof workspace.setCurrentDesktopForScreen === \"function\") {
            workspace.setCurrentDesktopForScreen(targetDesktop, target.output);
        } else {
            workspace.currentDesktop = targetDesktop;
        }
    }

    target.demandsAttention = false;
    workspace.activeWindow = target;
    workspace.raiseWindow(target);
})();
";

/// The script that raises the topmost window of a process.
pub fn activation_script(pid: u32) -> (script: String)
    ensures
        script@ == SCRIPT_HEAD@ + text::decimal(pid as nat) + SCRIPT_TAIL@,
{
    let mut script = SCRIPT_HEAD.to_owned();
    text::push_decimal(&mut script, pid as u64);
    script.push_str(SCRIPT_TAIL);
    script
}

/// The file name of the script of a request.
pub fn script_file_name(pid: u32, sequence: u64) -> (name: String)
    ensures
        name@ == "ronsole-kwin-activate-"@ + text::decimal(pid as nat) + "-"@ + text::decimal(
            sequence as nat,
        ) + ".js"@,
{
    let mut name = "ronsole-kwin-activate-".to_owned();
    text::push_decimal(&mut name, pid as u64);
    name.push_str("-");
    text::push_decimal(&mut name, sequence);
    name.push_str(".js");
    name
}

/// The name that the script of a request is loaded under.
pub fn plugin_name(pid: u32, sequence: u64) -> (name: String)
    ensures
        name@ == "ronsole-activate-"@ + text::decimal(pid as nat) + "-"@ + text::decimal(
            sequence as nat,
        ),
{
    let mut name = "ronsole-activate-".to_owned();
    text::push_decimal(&mut name, pid as u64);
    name.push_str("-");
    text::push_decimal(&mut name, sequence);
    name
}

/// Where a request to raise the window stands.
#[derive(Clone, Copy, Debug, PartialEq, Eq, Structural)]
pub enum ActivationStep {
    /// The script is being loaded.
    Load,
    /// The script is loaded and being run.
    Run { script_id: i32 },
    /// The script is being unloaded; whether it ran.
    Unload { activated: bool },
    /// The request is over; whether the window was raised.
    Done { activated: bool },
}

impl ActivationStep {
    /// Whether the script number, where there is one, is a number of a script.
    pub open spec fn wf(self) -> bool {
        self matches ActivationStep::Run { script_id } ==> script_id >= 0
    }

    /// The step after this one's command came to `output`, or could not be run.
    pub open spec fn spec_next(self, output: Option<(bool, Seq<u8>)>) -> ActivationStep {
        match self {
            ActivationStep::Load => match output {
                Some((true, stdout)) => match script_id(stdout) {
                    Some(script_id) => ActivationStep::Run { script_id: script_id as i32 },
                    None => ActivationStep::Unload { activated: false },
                },
                _ => ActivationStep::Done { activated: false },
            },
            ActivationStep::Run { script_id } => ActivationStep::Unload {
                activated: output matches Some((success, _)) && success,
            },
            ActivationStep::Unload { activated } => ActivationStep::Done { activated },
            ActivationStep::Done { activated } => ActivationStep::Done { activated },
        }
    }

    /// The step after this one's command came to `output`, or could not be run.
    pub fn next(self, output: &Option<CommandOutput>) -> (step: Self)
        requires
            self.wf(),
        ensures
            step.wf(),
            step == self.spec_next(
                match output {
                    Some(output) => Some((output.success, output.stdout@)),
                    None => None,
                },
            ),
    {
        match self {
            ActivationStep::Load => match output {
                Some(output) => {
                    if output.success {
                        match parse_script_id(output.stdout.as_slice()) {
                            Some(script_id) => ActivationStep::Run { script_id },
                            None => ActivationStep::Unload { activated: false },
                        }
                    } else {
                        ActivationStep::Done { activated: false }
                    }
                },
                None => ActivationStep::Done { activated: false },
            },
            ActivationStep::Run { script_id } => {
                let activated = match output {
                    Some(output) => output.success,
                    None => false,
                };
                ActivationStep::Unload { activated }
            },
            ActivationStep::Unload { activated } => ActivationStep::Done { activated },
            ActivationStep::Done { activated } => ActivationStep::Done { activated },
        }
    }

    /// The command of the step; none where the request is over.
    pub fn command(self, qdbus: &[u8], script_path: &[u8], plugin_name: &str) -> (command: Option<
        CommandSpec,
    >)
        ensures
            match self {
                ActivationStep::Load => command is Some && command->0.calls(
                    qdbus@,
                    load_args(script_path@, plugin_name@),
                ),
                ActivationStep::Run { script_id } => command is Some && command->0.calls(
                    qdbus@,
                    run_args(script_id as int),
                ),
                ActivationStep::Unload { activated } => command is Some && command->0.calls(
                    qdbus@,
                    unload_args(plugin_name@),
                ),
                ActivationStep::Done { activated } => command is None,
            },
    {
        match self {
            ActivationStep::Load => Some(qdbus_load_script(qdbus, script_path, plugin_name)),
            ActivationStep::Run { script_id } => Some(qdbus_run_script(qdbus, script_id)),
            ActivationStep::Unload { activated } => Some(qdbus_unload_script(qdbus, plugin_name)),
            ActivationStep::Done { activated } => None,
        }
    }
}

/// A script that was loaded is unloaded before the request is over, whatever the commands came to,
/// and the window counts as raised only where the script ran.
pub proof fn loaded_script_is_unloaded(
    load: Option<(bool, Seq<u8>)>,
    run: Option<(bool, Seq<u8>)>,
    unload: Option<(bool, Seq<u8>)>,
)
    ensures
        ({
            let loaded = ActivationStep::Load.spec_next(load);
            let ran = loaded.spec_next(run);
            &&& load matches Some((true, _)) ==> loaded is Run || loaded is Unload
            &&& !(load matches Some((true, _))) ==> loaded == ActivationStep::Done {
                activated: false,
            }
            &&& loaded is Run ==> ran is Unload
            &&& loaded is Run ==> ran.spec_next(unload) == ActivationStep::Done {
                activated: run matches Some((true, _)),
            }
            &&& loaded is Unload ==> ran == ActivationStep::Done { activated: false }
        }),
{
}

/// Whether a desktop is named among those that the environment lists.
pub open spec fn lists_kde(desktops: Seq<u8>) -> bool {
    exists|i: int|
        0 <= i < text::pieces(desktops, 0x3a).len() && names_kde(
            #[trigger] text::pieces(desktops, 0x3a)[i],
        )
}

/// Whether a desktop's name is that of KDE, in any case.
pub open spec fn names_kde(name: Seq<u8>) -> bool {
    &&& name.len() == 3
    &&& name[0] == 0x4b || name[0] == 0x6b
    &&& name[1] == 0x44 || name[1] == 0x64
    &&& name[2] == 0x45 || name[2] == 0x65
}

/// Whether the session is one of KDE, from the values of `KDE_FULL_SESSION` and
/// `XDG_CURRENT_DESKTOP`.
pub fn is_kde_session_with(full_session: Option<Vec<u8>>, current_desktop: Option<Vec<u8>>) -> (kde:
    bool)
    ensures
        kde == ((full_session is Some && full_session->0@.len() > 0) || (current_desktop is Some
            && valid_utf8(current_desktop->0@) && lists_kde(current_desktop->0@))),
{
    if let Some(value) = full_session {
        if value.len() > 0 {
            return true;
        }
    }
    match current_desktop {
        None => false,
        Some(value) => {
            if text::utf8_text(bytes::copy(value.as_slice())).is_none() {
                return false;
            }
            let desktops = text::split(value.as_slice(), 0x3a);
            let ghost all = text::pieces(value@, 0x3a);
            let mut i: usize = 0;
            while i < desktops.len()
                invariant
                    i <= desktops@.len(),
                    all == bytes::views(desktops@),
                    all == text::pieces(value@, 0x3a),
                    valid_utf8(value@),
                    current_desktop == Some(value),
                    forall|j: int| 0 <= j < i ==> !names_kde(#[trigger] all[j]),
                decreases desktops@.len() - i,
            {
                let name = &desktops[i];
                assert(all[i as int] == name@);
                if name.len() == 3 && (name[0] == 0x4b || name[0] == 0x6b) && (name[1] == 0x44
                    || name[1] == 0x64) && (name[2] == 0x45 || name[2] == 0x65) {
                    assert(names_kde(all[i as int]));
                    return true;
                }
                i += 1;
            }
            false
        },
    }
}

/// A name below each directory of a list that is not empty.
pub open spec fn below_each(directories: Seq<Seq<u8>>, name: Seq<u8>) -> Seq<Seq<u8>>
    decreases directories.len(),
{
    if directories.len() == 0 {
        Seq::empty()
    } else if directories.last().len() == 0 {
        below_each(directories.drop_last(), name)
    } else {
        below_each(directories.drop_last(), name).push(launch::joined(directories.last(), name))
    }
}

/// Where an executable is looked for in a search path, in order.
pub fn find_executable_in_path(name: &str, path: &[u8]) -> (candidates: Vec<Vec<u8>>)
    ensures
        bytes::views(candidates@) == below_each(text::pieces(path@, 0x3a), encode_utf8(name@)),
{
    let directories = text::split(path, 0x3a);
    let ghost all = bytes::views(directories@);
    let mut candidates: Vec<Vec<u8>> = Vec::new();
    let mut i: usize = 0;
    assert(bytes::views(candidates@) =~= below_each(all.take(0), encode_utf8(name@)));
    while i < directories.len()
        invariant
            i <= directories@.len(),
            all == bytes::views(directories@),
            bytes::views(candidates@) == below_each(all.take(i as int), encode_utf8(name@)),
        decreases directories@.len() - i,
    {
        let ghost before = bytes::views(candidates@);
        proof {
            assert(all.take(i + 1).drop_last() =~= all.take(i as int));
            assert(all.take(i + 1).last() == directories@[i as int]@);
        }
        if directories[i].len() > 0 {
            candidates.push(launch::join_path(directories[i].as_slice(), name.as_bytes()));
            assert(bytes::views(candidates@) =~= before.push(
                launch::joined(all[i as int], encode_utf8(name@)),
            ));
        }
        i += 1;
    }
    assert(all.take(i as int) =~= all);
    candidates
}

/// Where `qdbus` is looked for, in order: under the name of the later version first.
pub fn find_qdbus_with(path: Option<Vec<u8>>) -> (candidates: Vec<Vec<u8>>)
    ensures
        bytes::views(candidates@) == match path {
            None => Seq::empty(),
            Some(path) => below_each(text::pieces(path@, 0x3a), encode_utf8("qdbus6"@))
                + below_each(text::pieces(path@, 0x3a), encode_utf8("qdbus"@)),
        },
{
    match path {
        None => {
            let candidates: Vec<Vec<u8>> = Vec::new();
            assert(bytes::views(candidates@) =~= Seq::empty());
            candidates
        },
        Some(path) => {
            let mut candidates = find_executable_in_path("qdbus6", path.as_slice());
            let ghost first = bytes::views(candidates@);
            let mut others = find_executable_in_path("qdbus", path.as_slice());
            let ghost second = bytes::views(others@);
            candidates.append(&mut others);
            assert(bytes::views(candidates@) =~= first + second);
            candidates
        },
    }
}

/// Whether a directory can hold a script: it is a directory of the user's own that no one else has
/// any access to.
pub fn private_runtime_dir(is_dir: bool, owner: u32, uid: u32, mode: u32) -> (private: bool)
    ensures
        private == (is_dir && owner == uid && mode & 0o077 == 0),
{
    is_dir && owner == uid && mode & 0o077 == 0
}

} // verus!
