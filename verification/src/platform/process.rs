//! The processes of a terminal session, as `/proc` shows them.
use vstd::prelude::*;
use vstd::utf8::*;

use crate::bytes;
use crate::launch;
use crate::text;

verus! {

/// How long the rest of a session is hunted when its owner has ended, in milliseconds.
pub const PROCESS_TREE_FORCE_CLEANUP_TIMEOUT_MS: u64 = 500;

/// How long to wait between two looks at a session, in milliseconds.
pub const PROCESS_TREE_CLEANUP_POLL_MS: u64 = 10;

/// The signal that asks a process to end.
pub const SIGTERM: i32 = 15;

/// The signal that ends a process.
pub const SIGKILL: i32 = 9;

/// The error number of a signal to processes that are gone.
pub const ESRCH: i32 = 3;

/// What a process runs, and where.
#[derive(Debug, PartialEq, Eq)]
pub struct ProcessSnapshot {
    pub process_id: u32,
    pub executable: Option<Vec<u8>>,
    pub cwd: Option<Vec<u8>>,
    pub args: Vec<Vec<u8>>,
}

/// The pieces that are not empty.
pub open spec fn nonempty_pieces(list: Seq<Seq<u8>>) -> Seq<Seq<u8>>
    decreases list.len(),
{
    if list.len() == 0 {
        Seq::empty()
    } else if list.last().len() > 0 {
        nonempty_pieces(list.drop_last()).push(list.last())
    } else {
        nonempty_pieces(list.drop_last())
    }
}

/// The arguments in the bytes of a command line, where each ends in a zero byte.
pub fn command_line_args(cmdline: &[u8]) -> (args: Vec<Vec<u8>>)
    ensures
        bytes::views(args@) == nonempty_pieces(text::pieces(cmdline@, 0)),
{
    let list = text::split(cmdline, 0);
    let ghost all = bytes::views(list@);
    let mut args: Vec<Vec<u8>> = Vec::new();
    let mut i: usize = 0;
    assert(bytes::views(args@) =~= nonempty_pieces(all.take(0)));
    while i < list.len()
        invariant
            i <= list@.len(),
            all == bytes::views(list@),
            bytes::views(args@) == nonempty_pieces(all.take(i as int)),
        decreases list@.len() - i,
    {
        assert(all.take(i + 1).drop_last() =~= all.take(i as int));
        if list[i].len() > 0 {
            let ghost before = bytes::views(args@);
            args.push(bytes::copy(list[i].as_slice()));
            assert(bytes::views(args@) =~= before.push(all[i as int]));
        }
        i += 1;
    }
    assert(all.take(i as int) =~= all);
    args
}

/// What is known of a process, from its links `exe` and `cwd` and its file `cmdline`, as far as
/// they could be read. A process of which neither program nor arguments are known is not shown.
pub fn process_snapshot(
    process_id: u32,
    executable: Option<Vec<u8>>,
    cwd: Option<Vec<u8>>,
    cmdline: Option<Vec<u8>>,
) -> (snapshot: Option<ProcessSnapshot>)
    ensures
        ({
            let args = match cmdline {
                Some(cmdline) => nonempty_pieces(text::pieces(cmdline@, 0)),
                None => Seq::empty(),
            };
            match snapshot {
                None => executable is None && args.len() == 0,
                Some(snapshot) => {
                    &&& executable is Some || args.len() > 0
                    &&& snapshot.process_id == process_id
                    &&& snapshot.executable == executable
                    &&& snapshot.cwd == cwd
                    &&& bytes::views(snapshot.args@) == args
                },
            }
        }),
{
    let args: Vec<Vec<u8>> = match cmdline {
        Some(cmdline) => command_line_args(cmdline.as_slice()),
        None => Vec::new(),
    };
    assert(cmdline is None ==> bytes::views(args@) =~= Seq::empty());
    assert(bytes::views(args@).len() == args@.len());
    if executable.is_none() && args.len() == 0 {
        return None;
    }
    Some(ProcessSnapshot { process_id, executable, cwd, args })
}

/// What the session rules read of a process.
#[derive(Clone, Copy, Debug, PartialEq, Eq, Structural)]
pub struct LinuxProcessStat {
    pub process_group: i32,
    pub session_id: i32,
    pub state: u8,
}

/// The number of bytes of `stat` up to the last closing parenthesis, with it; 0 where there is none.
pub open spec fn command_end(stat: Seq<u8>) -> int
    decreases stat.len(),
{
    if stat.len() == 0 || stat.last() == 0x29 {
        stat.len() as int
    } else {
        command_end(stat.drop_last())
    }
}

/// What the bytes of a file `stat` say: the fields after the command, which stands in parentheses and
/// may hold any byte, are the state, the parent, the process group and the session.
pub open spec fn stat_parsed(stat: Seq<u8>) -> Option<LinuxProcessStat> {
    let rest = stat.skip(command_end(stat));
    let fields = text::words(rest);
    if command_end(stat) == 0 || !valid_utf8(rest) || fields.len() < 4 {
        None
    } else {
        match (
            text::parsed_signed(fields[2], i32::MAX as int),
            text::parsed_signed(fields[3], i32::MAX as int),
        ) {
            (Some(process_group), Some(session_id)) => Some(
                LinuxProcessStat {
                    process_group: process_group as i32,
                    session_id: session_id as i32,
                    state: fields[0][0],
                },
            ),
            _ => None,
        }
    }
}

proof fn words_are_nonempty(bytes: Seq<u8>)
    ensures
        forall|i: int| 0 <= i < text::words(bytes).len() ==> (#[trigger] text::words(bytes)[i]).len()
            > 0,
        bytes.len() > 0 && !text::is_ascii_space(bytes.last()) ==> text::words(bytes).len() > 0,
    decreases bytes.len(),
{
    if bytes.len() > 0 {
        let shorter = bytes.drop_last();
        words_are_nonempty(shorter);
        let before = text::words(shorter);
        assert forall|i: int| 0 <= i < text::words(bytes).len() implies (#[trigger] text::words(
            bytes,
        )[i]).len() > 0 by {
            if i < before.len() {
                assert(before[i].len() > 0);
            }
        }
    }
}

/// Reads the bytes of a file `stat`.
pub fn linux_process_stat(stat: &[u8]) -> (parsed: Option<LinuxProcessStat>)
    ensures
        parsed == stat_parsed(stat@),
{
    let mut end: usize = stat.len();
    assert(stat@.take(end as int) =~= stat@);
    while end > 0 && stat[end - 1] != 0x29
        invariant
            end <= stat@.len(),
            command_end(stat@) == command_end(stat@.take(end as int)),
        decreases end,
    {
        assert(stat@.take(end as int).drop_last() =~= stat@.take(end - 1));
        end -= 1;
    }
    assert(command_end(stat@) == end);
    if end == 0 {
        return None;
    }
    let rest = vstd::slice::slice_subrange(stat, end, stat.len());
    assert(rest@ =~= stat@.skip(end as int));
    if text::utf8_text(bytes::copy(rest)).is_none() {
        return None;
    }
    let fields = text::split_words(rest);
    assert(fields@.len() == bytes::views(fields@).len());
    if fields.len() < 4 {
        return None;
    }
    proof {
        words_are_nonempty(rest@);
        assert(bytes::views(fields@)[0] == fields@[0]@);
        assert(bytes::views(fields@)[2] == fields@[2]@);
        assert(bytes::views(fields@)[3] == fields@[3]@);
    }
    let state: u8 = fields[0][0];
    match (text::parse_i32(fields[2].as_slice()), text::parse_i32(fields[3].as_slice())) {
        (Some(process_group), Some(session_id)) => Some(
            LinuxProcessStat { process_group, session_id, state },
        ),
        _ => None,
    }
}

/// The process group of a process, where it is known and not negative.
pub fn linux_process_group(stat: Option<LinuxProcessStat>) -> (group: Option<u32>)
    ensures
        match stat {
            Some(stat) => if stat.process_group >= 0 {
                group is Some && group->0 == stat.process_group
            } else {
                group is None
            },
            None => group is None,
        },
{
    match stat {
        Some(stat) => {
            if stat.process_group >= 0 {
                Some(stat.process_group as u32)
            } else {
                None
            }
        },
        None => None,
    }
}

/// The numbers among the words of a list.
pub open spec fn numbers(words: Seq<Seq<u8>>) -> Seq<u32>
    decreases words.len(),
{
    if words.len() == 0 {
        Seq::empty()
    } else {
        match text::parsed_unsigned(words.last(), u32::MAX as int) {
            Some(number) => numbers(words.drop_last()).push(number as u32),
            None => numbers(words.drop_last()),
        }
    }
}

/// The children of a process, from the bytes of its file `children`.
pub fn linux_process_children(children: &[u8]) -> (ids: Vec<u32>)
    ensures
        ids@ == if valid_utf8(children@) {
            numbers(text::words(children@))
        } else {
            Seq::empty()
        },
{
    let mut ids: Vec<u32> = Vec::new();
    if text::utf8_text(bytes::copy(children)).is_none() {
        assert(ids@ =~= Seq::empty());
        return ids;
    }
    let words = text::split_words(children);
    let ghost all = bytes::views(words@);
    let mut i: usize = 0;
    assert(ids@ =~= numbers(all.take(0)));
    while i < words.len()
        invariant
            i <= words@.len(),
            all == bytes::views(words@),
            ids@ == numbers(all.take(i as int)),
        decreases words@.len() - i,
    {
        proof {
            assert(all.take(i + 1).drop_last() =~= all.take(i as int));
            assert(all.take(i + 1).last() == words@[i as int]@);
        }
        if let Some(id) = text::parse_unsigned(words[i].as_slice(), 0xffff_ffff) {
            ids.push(id as u32);
        }
        i += 1;
    }
    assert(all.take(i as int) =~= all);
    ids
}

/// A process of the foreground group, and how far below the group's leader it stands.
#[derive(Clone, Copy, Debug, PartialEq, Eq, Structural)]
pub struct ForegroundProcessCandidate {
    pub process_id: u32,
    pub depth: usize,
}

impl ForegroundProcessCandidate {
    /// Whether this process comes no later than `other`: by depth, then by number.
    pub open spec fn at_most(self, other: ForegroundProcessCandidate) -> bool {
        self.depth < other.depth || (self.depth == other.depth && self.process_id
            <= other.process_id)
    }
}

/// The process that a group shows: the deepest, and of several the one started last.
pub fn select_effective_foreground_process(candidates: &[ForegroundProcessCandidate]) -> (selected:
    Option<u32>)
    ensures
        selected is None <==> candidates@.len() == 0,
        selected is Some ==> exists|i: int|
            0 <= i < candidates@.len() && (#[trigger] candidates@[i]).process_id == selected->0
                && forall|j: int|
                0 <= j < candidates@.len() ==> (#[trigger] candidates@[j]).at_most(candidates@[i]),
{
    if candidates.len() == 0 {
        return None;
    }
    let mut best: usize = 0;
    let mut i: usize = 1;
    while i < candidates.len()
        invariant
            best < i <= candidates@.len(),
            forall|j: int|
                0 <= j < i ==> (#[trigger] candidates@[j]).at_most(candidates@[best as int]),
        decreases candidates@.len() - i,
    {
        let kept = candidates[best];
        let other = candidates[i];
        if kept.depth < other.depth || (kept.depth == other.depth && kept.process_id
            <= other.process_id) {
            best = i;
        }
        i += 1;
    }
    Some(candidates[best].process_id)
}

/// A walk over the processes of a foreground group, from its leader down.
pub struct ForegroundSearch {
    /// The group.
    pub process_group: u32,
    /// The processes whose children are still to be looked at, the next one last.
    pub stack: Vec<ForegroundProcessCandidate>,
    /// The processes that were looked at.
    pub candidates: Vec<ForegroundProcessCandidate>,
}

/// The children that belong to the group, one step below `depth`.
pub open spec fn group_children(
    children: Seq<(u32, Option<u32>)>,
    process_group: u32,
    depth: usize,
) -> Seq<ForegroundProcessCandidate>
    decreases children.len(),
{
    if children.len() == 0 {
        Seq::empty()
    } else {
        let before = group_children(children.drop_last(), process_group, depth);
        let (child, group) = children.last();
        if group == Some(process_group) {
            before.push(
                ForegroundProcessCandidate {
                    process_id: child,
                    depth: if depth < usize::MAX {
                        (depth + 1) as usize
                    } else {
                        depth
                    },
                },
            )
        } else {
            before
        }
    }
}

impl ForegroundSearch {
    /// A walk that starts at the leader of the group.
    pub fn start(process_group: u32) -> (search: Self)
        ensures
            search.process_group == process_group,
            search.stack@ == seq![ForegroundProcessCandidate { process_id: process_group, depth: 0 }],
            search.candidates@ == Seq::<ForegroundProcessCandidate>::empty(),
    {
        let mut stack: Vec<ForegroundProcessCandidate> = Vec::new();
        stack.push(ForegroundProcessCandidate { process_id: process_group, depth: 0 });
        assert(stack@ =~= seq![
            ForegroundProcessCandidate { process_id: process_group, depth: 0 },
        ]);
        ForegroundSearch { process_group, stack, candidates: Vec::new() }
    }

    /// The process whose children are to be looked at next; none where the walk is over.
    pub fn next(&self) -> (process_id: Option<u32>)
        ensures
            process_id is Some <==> self.stack@.len() > 0,
            process_id is Some ==> process_id->0 == self.stack@.last().process_id,
    {
        if self.stack.len() > 0 {
            Some(self.stack[self.stack.len() - 1].process_id)
        } else {
            None
        }
    }

    /// Takes the children of the next process, each with its group, into the walk.
    pub fn visit(&mut self, children: &[(u32, Option<u32>)])
        requires
            old(self).stack@.len() > 0,
        ensures
            final(self).process_group == old(self).process_group,
            final(self).candidates@ == old(self).candidates@.push(old(self).stack@.last()),
            final(self).stack@ == old(self).stack@.drop_last() + group_children(
                children@,
                old(self).process_group,
                old(self).stack@.last().depth,
            ),
    {
        let ghost rest = self.stack@.drop_last();
        let process_group = self.process_group;
        match self.stack.pop() {
            Some(candidate) => {
                let depth: usize = candidate.depth.saturating_add(1);
                let mut i: usize = 0;
                assert(self.stack@ =~= rest + group_children(
                    children@.take(0),
                    process_group,
                    candidate.depth,
                ));
                while i < children.len()
                    invariant
                        i <= children@.len(),
                        process_group == self.process_group,
                        process_group == old(self).process_group,
                        self.candidates@ == old(self).candidates@,
                        depth == if candidate.depth < usize::MAX {
                            (candidate.depth + 1) as usize
                        } else {
                            candidate.depth
                        },
                        self.stack@ == rest + group_children(
                            children@.take(i as int),
                            process_group,
                            candidate.depth,
                        ),
                    decreases children@.len() - i,
                {
                    assert(children@.take(i + 1).drop_last() =~= children@.take(i as int));
                    let (child, group) = children[i];
                    if let Some(group) = group {
                        if group == process_group {
                            self.stack.push(ForegroundProcessCandidate { process_id: child, depth });
                        }
                    }
                    assert(self.stack@ =~= rest + group_children(
                        children@.take(i + 1),
                        process_group,
                        candidate.depth,
                    ));
                    i += 1;
                }
                assert(children@.take(i as int) =~= children@);
                self.candidates.push(candidate);
            },
            None => {},
        }
    }

    /// The processes to show, the first that can be shown: the one that the group shows, then the
    /// leader of the group.
    pub fn shown(&self) -> (ids: Vec<u32>)
        ensures
            self.candidates@.len() == 0 ==> ids@.len() == 0,
            self.candidates@.len() > 0 ==> exists|i: int|
                0 <= i < self.candidates@.len() && (forall|j: int|
                    0 <= j < self.candidates@.len() ==> (#[trigger] self.candidates@[j]).at_most(
                        self.candidates@[i],
                    )) && ids@ == (if (#[trigger] self.candidates@[i]).process_id
                    == self.process_group {
                    seq![self.process_group]
                } else {
                    seq![self.candidates@[i].process_id, self.process_group]
                }),
    {
        let mut ids: Vec<u32> = Vec::new();
        if let Some(effective) = select_effective_foreground_process(self.candidates.as_slice()) {
            ids.push(effective);
            if effective != self.process_group {
                ids.push(self.process_group);
            }
            proof {
                let i = choose|i: int|
                    0 <= i < self.candidates@.len() && (#[trigger] self.candidates@[i]).process_id
                        == effective && forall|j: int|
                        0 <= j < self.candidates@.len() ==> (#[trigger] self.candidates@[j]).at_most(
                            self.candidates@[i],
                        );
                assert(ids@ =~= (if self.candidates@[i].process_id == self.process_group {
                    seq![self.process_group]
                } else {
                    seq![self.candidates@[i].process_id, self.process_group]
                }));
            }
        }
        ids
    }
}

/// Whether a process takes a signal to the session: it belongs to it, is no zombie and has a group
/// that can be signalled.
pub open spec fn takes_signal(stat: LinuxProcessStat, session_id: i32) -> bool {
    stat.session_id == session_id && stat.state != 0x5a && stat.process_group > 0
}

/// Whether numbers stand in ascending order, none twice.
pub open spec fn ascending(list: Seq<i32>) -> bool {
    forall|i: int, j: int| 0 <= i < j < list.len() ==> list[i] < list[j]
}

/// Puts `value` into an ascending list, where it is not in it.
fn insert_ascending(list: &mut Vec<i32>, value: i32)
    requires
        ascending(old(list)@),
    ensures
        ascending(final(list)@),
        forall|x: i32| #[trigger]
            final(list)@.contains(x) <==> (old(list)@.contains(x) || x == value),
{
    let ghost before = list@;
    let mut at: usize = 0;
    while at < list.len() && list[at] < value
        invariant
            at <= list@.len(),
            list@ == before,
            forall|j: int| 0 <= j < at ==> list@[j] < value,
        decreases list@.len() - at,
    {
        at += 1;
    }
    if at < list.len() && list[at] == value {
        assert(before[at as int] == value);
        return ;
    }
    list.insert(at, value);
    proof {
        assert forall|x: i32| #[trigger]
            list@.contains(x) <==> (before.contains(x) || x == value) by {
            if list@.contains(x) {
                let i = choose|i: int| 0 <= i < list@.len() && list@[i] == x;
                if i < at {
                    assert(before[i] == x);
                } else if i > at {
                    assert(before[i - 1] == x);
                }
            }
            if before.contains(x) {
                let i = choose|i: int| 0 <= i < before.len() && before[i] == x;
                if i < at {
                    assert(list@[i] == x);
                } else {
                    assert(list@[i + 1] == x);
                }
            }
            assert(list@[at as int] == value);
        }
    }
}

/// The process groups of a session that take a signal, in ascending order, none twice.
pub fn linux_session_process_groups(session_id: i32, processes: &[LinuxProcessStat]) -> (groups: Vec<
    i32,
>)
    ensures
        ascending(groups@),
        forall|group: i32| #[trigger]
            groups@.contains(group) <==> exists|i: int|
                0 <= i < processes@.len() && takes_signal(#[trigger] processes@[i], session_id)
                    && processes@[i].process_group == group,
{
    let mut groups: Vec<i32> = Vec::new();
    let mut i: usize = 0;
    while i < processes.len()
        invariant
            i <= processes@.len(),
            ascending(groups@),
            forall|group: i32| #[trigger]
                groups@.contains(group) <==> exists|j: int|
                    0 <= j < i && takes_signal(#[trigger] processes@[j], session_id)
                        && processes@[j].process_group == group,
        decreases processes@.len() - i,
    {
        let stat = processes[i];
        let ghost before = groups@;
        if stat.session_id == session_id && stat.state != 0x5a && stat.process_group > 0 {
            insert_ascending(&mut groups, stat.process_group);
        }
        proof {
            assert forall|group: i32| #[trigger]
                groups@.contains(group) <==> exists|j: int|
                    0 <= j < i + 1 && takes_signal(#[trigger] processes@[j], session_id)
                        && processes@[j].process_group == group by {
                if before.contains(group) {
                    let j = choose|j: int|
                        0 <= j < i && takes_signal(#[trigger] processes@[j], session_id)
                            && processes@[j].process_group == group;
                    assert(takes_signal(processes@[j], session_id));
                }
                assert(processes@[i as int] == stat);
                if exists|j: int|
                    0 <= j < i + 1 && takes_signal(#[trigger] processes@[j], session_id)
                        && processes@[j].process_group == group {
                    let j = choose|j: int|
                        0 <= j < i + 1 && takes_signal(#[trigger] processes@[j], session_id)
                            && processes@[j].process_group == group;
                    if j < i {
                        assert(before.contains(group));
                    }
                }
            }
        }
        i += 1;
    }
    groups
}

/// The error number that a signal is reported with, given what the system call returned: a group
/// that is gone is no error.
pub fn signal_process_group(result: i32, error_number: i32) -> (error: Option<i32>)
    ensures
        error == if result == 0 || error_number == ESRCH {
            None::<i32>
        } else {
            Some(error_number)
        },
{
    if result == 0 {
        return None;
    }
    if error_number == ESRCH {
        None
    } else {
        Some(error_number)
    }
}

/// The error of a signal to several groups, given that of each: the first one. Every group is
/// signalled all the same.
pub fn signal_process_groups(errors: &[Option<i32>]) -> (first: Option<i32>)
    ensures
        match first {
            None => forall|i: int| 0 <= i < errors@.len() ==> (#[trigger] errors@[i]) is None,
            Some(_) => exists|i: int|
                0 <= i < errors@.len() && #[trigger] errors@[i] == first && forall|j: int|
                    0 <= j < i ==> (#[trigger] errors@[j]) is None,
        },
{
    let mut i: usize = 0;
    while i < errors.len()
        invariant
            i <= errors@.len(),
            forall|j: int| 0 <= j < i ==> (#[trigger] errors@[j]) is None,
        decreases errors@.len() - i,
    {
        if errors[i].is_some() {
            return errors[i];
        }
        i += 1;
    }
    None
}

/// Why a process cannot be taken for the owner of a session.
#[derive(Clone, Copy, Debug, PartialEq, Eq, Structural)]
pub enum AttachError {
    /// Its number is no process number.
    ProcessIdTooLarge,
    /// It is gone.
    Disappeared,
    /// It does not lead a session of its own.
    NotSessionLeader,
}

impl AttachError {
    /// The message of the error.
    pub fn message(self) -> (message: &'static str)
        ensures
            message@ == match self {
                AttachError::ProcessIdTooLarge => "process id does not fit in pid_t"@,
                AttachError::Disappeared =>
                    "terminal process disappeared before session ownership was established"@,
                AttachError::NotSessionLeader =>
                    "terminal child is not the expected portable-pty session leader"@,
            },
    {
        match self {
            AttachError::ProcessIdTooLarge => "process id does not fit in pid_t",
            AttachError::Disappeared =>
                "terminal process disappeared before session ownership was established",
            AttachError::NotSessionLeader =>
                "terminal child is not the expected portable-pty session leader",
        }
    }
}

/// A signal to be sent to process groups.
#[derive(Debug, PartialEq, Eq)]
pub struct GroupSignal {
    pub signal: i32,
    pub groups: Vec<i32>,
}

/// What follows a look at a session whose owner has ended.
#[derive(Debug, PartialEq, Eq)]
pub enum CleanupStep {
    /// Nothing more is done.
    Stop,
    /// The groups that are left are killed; whether to look again is for the deadline to say.
    Kill(GroupSignal),
}

/// The session of a terminal's child.
pub struct ProcessTree {
    /// The session, and the process that leads it.
    pub session_id: i32,
    /// Whether processes of the session may be left.
    pub active: bool,
}

/// Whether `plan` is the signal `signal` to the groups of the session that take one.
pub open spec fn signals_session(
    plan: GroupSignal,
    signal: i32,
    session_id: i32,
    processes: Seq<LinuxProcessStat>,
) -> bool {
    &&& plan.signal == signal
    &&& ascending(plan.groups@)
    &&& forall|group: i32| #[trigger]
        plan.groups@.contains(group) <==> exists|i: int|
            0 <= i < processes.len() && takes_signal(#[trigger] processes[i], session_id)
                && processes[i].process_group == group
}

impl ProcessTree {
    /// Takes over the session that a process leads, given what `/proc` says of the process.
    pub fn attach_process_id(process_id: u32, stat: Option<LinuxProcessStat>) -> (tree: Result<
        Self,
        AttachError,
    >)
        ensures
            process_id > i32::MAX ==> tree == Err::<ProcessTree, AttachError>(
                AttachError::ProcessIdTooLarge,
            ),
            process_id <= i32::MAX && stat is None ==> tree == Err::<ProcessTree, AttachError>(
                AttachError::Disappeared,
            ),
            process_id <= i32::MAX && stat is Some ==> tree == if stat->0.session_id == process_id
                && stat->0.process_group == process_id {
                Ok::<ProcessTree, AttachError>(
                    ProcessTree { session_id: process_id as i32, active: true },
                )
            } else {
                Err(AttachError::NotSessionLeader)
            },
    {
        if process_id > 0x7fff_ffff {
            return Err(AttachError::ProcessIdTooLarge);
        }
        let session_id: i32 = process_id as i32;
        match stat {
            None => Err(AttachError::Disappeared),
            Some(stat) => {
                if stat.session_id != session_id || stat.process_group != session_id {
                    return Err(AttachError::NotSessionLeader);
                }
                Ok(ProcessTree { session_id, active: true })
            },
        }
    }

    /// The signal that ends the session's processes, given all processes; none where the session is
    /// known to be over.
    pub fn terminate(&self, force: bool, processes: &[LinuxProcessStat]) -> (plan: Option<
        GroupSignal,
    >)
        ensures
            plan is Some <==> self.active,
            plan is Some ==> signals_session(
                plan->0,
                if force {
                    SIGKILL
                } else {
                    SIGTERM
                },
                self.session_id,
                processes@,
            ),
    {
        if !self.active {
            return None;
        }
        let signal: i32 = if force {
            SIGKILL
        } else {
            SIGTERM
        };
        let groups = linux_session_process_groups(self.session_id, processes);
        Some(GroupSignal { signal, groups })
    }

    /// The signal that asks the session's processes to end.
    pub fn terminate_gracefully(&self, processes: &[LinuxProcessStat]) -> (plan: Option<GroupSignal>)
        ensures
            plan is Some <==> self.active,
            plan is Some ==> signals_session(plan->0, SIGTERM, self.session_id, processes@),
    {
        self.terminate(false, processes)
    }

    /// The signal that ends the session's processes.
    pub fn terminate_forcefully(&self, processes: &[LinuxProcessStat]) -> (plan: Option<GroupSignal>)
        ensures
            plan is Some <==> self.active,
            plan is Some ==> signals_session(plan->0, SIGKILL, self.session_id, processes@),
    {
        self.terminate(true, processes)
    }

    /// One look at a session whose owner has ended, given all processes, where they could be read.
    /// The session is over when a look finds none of its processes.
    pub fn finish_after_owner_exit(&mut self, processes: Option<&[LinuxProcessStat]>) -> (step:
        CleanupStep)
        ensures
            final(self).session_id == old(self).session_id,
            ({
                let left = old(self).active && processes is Some && exists|i: int|
                    0 <= i < processes->0@.len() && takes_signal(
                        #[trigger] processes->0@[i],
                        old(self).session_id,
                    );
                &&& step is Kill <==> left
                &&& step matches CleanupStep::Kill(plan) ==> signals_session(
                    plan,
                    SIGKILL,
                    old(self).session_id,
                    processes->0@,
                )
                &&& final(self).active <==> old(self).active && (processes is None || left)
            }),
    {
        if !self.active {
            return CleanupStep::Stop;
        }
        match processes {
            None => CleanupStep::Stop,
            Some(processes) => {
                let groups = linux_session_process_groups(self.session_id, processes);
                if groups.len() == 0 {
                    self.active = false;
                    proof {
                        assert forall|i: int| 0 <= i < processes@.len() implies !takes_signal(
                            #[trigger] processes@[i],
                            self.session_id,
                        ) by {
                            let group = processes@[i].process_group;
                            assert(!groups@.contains(group));
                        }
                    }
                    return CleanupStep::Stop;
                }
                proof {
                    let group = groups@[0];
                    assert(groups@.contains(group));
                }
                CleanupStep::Kill(GroupSignal { signal: SIGKILL, groups })
            },
        }
    }
}

/// Whether a look at a session is the last one, by the time in milliseconds.
pub fn cleanup_deadline_passed(now_ms: u64, deadline_ms: u64) -> (passed: bool)
    ensures
        passed == (now_ms >= deadline_ms),
{
    now_ms >= deadline_ms
}

/// Whether a file can be run, given whether it is one and its permission bits.
pub fn is_executable_file(is_file: bool, mode: u32) -> (executable: bool)
    ensures
        executable == (is_file && mode & 0o111 != 0),
{
    is_file && mode & 0o111 != 0
}

/// The components of a relative path: its pieces between separators that are neither empty nor `.`,
/// and a `.` at its start.
pub open spec fn relative_components(list: Seq<Seq<u8>>) -> nat
    decreases list.len(),
{
    if list.len() == 0 {
        0
    } else {
        let piece = list.last();
        relative_components(list.drop_last()) + if piece.len() == 0 || (piece == seq![0x2eu8]
            && list.len() > 1) {
            0nat
        } else {
            1nat
        }
    }
}

/// Whether a program is given by a path and not by a name to search for.
pub open spec fn is_program_path(program: Seq<u8>) -> bool {
    launch::is_absolute(program) || relative_components(text::pieces(program, 0x2f)) > 1
}

fn program_path(program: &[u8]) -> (path: bool)
    ensures
        path == is_program_path(program@),
{
    if program.len() > 0 && program[0] == 0x2f {
        return true;
    }
    let list = text::split(program, 0x2f);
    let ghost all = bytes::views(list@);
    let mut count: usize = 0;
    let mut i: usize = 0;
    while i < list.len()
        invariant
            i <= list@.len(),
            all == bytes::views(list@),
            count <= i,
            count == relative_components(all.take(i as int)),
        decreases list@.len() - i,
    {
        proof {
            assert(all.take(i + 1).drop_last() =~= all.take(i as int));
            assert(all.take(i + 1).last() == list@[i as int]@);
            if list@[i as int]@.len() == 1 && list@[i as int]@[0] == 0x2e {
                assert(list@[i as int]@ =~= seq![0x2eu8]);
            }
        }
        let dot = list[i].len() == 1 && list[i][0] == 0x2e;
        if list[i].len() > 0 && !(dot && i > 0) {
            count += 1;
        }
        i += 1;
    }
    assert(all.take(i as int) =~= all);
    count > 1
}

/// Where a program is looked for, in order: at its path where it is given by one, otherwise in each
/// directory of the search path.
pub fn executable_candidates(program: &[u8], path: Option<&[u8]>) -> (candidates: Vec<Vec<u8>>)
    ensures
        bytes::views(candidates@) == if is_program_path(program@) {
            seq![program@]
        } else {
            match path {
                None => Seq::empty(),
                Some(path) => Seq::new(
                    text::pieces(path@, 0x3a).len(),
                    |i: int| launch::joined(text::pieces(path@, 0x3a)[i], program@),
                ),
            }
        },
{
    let mut candidates: Vec<Vec<u8>> = Vec::new();
    if program_path(program) {
        candidates.push(bytes::copy(program));
        assert(bytes::views(candidates@) =~= seq![program@]);
        return candidates;
    }
    match path {
        None => {
            assert(bytes::views(candidates@) =~= Seq::empty());
        },
        Some(path) => {
            let directories = text::split(path, 0x3a);
            let mut i: usize = 0;
            while i < directories.len()
                invariant
                    i <= directories@.len(),
                    candidates@.len() == i,
                    forall|j: int|
                        0 <= j < i ==> #[trigger] candidates@[j]@ == launch::joined(
                            directories@[j]@,
                            program@,
                        ),
                decreases directories@.len() - i,
            {
                candidates.push(launch::join_path(directories[i].as_slice(), program));
                i += 1;
            }
            assert(forall|j: int|
                0 <= j < directories@.len() ==> bytes::views(directories@)[j] == directories@[j]@);
            assert(bytes::views(candidates@) =~= Seq::new(
                text::pieces(path@, 0x3a).len(),
                |i: int| launch::joined(text::pieces(path@, 0x3a)[i], program@),
            ));
        },
    }
    candidates
}

} // verus!
