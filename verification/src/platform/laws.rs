//! What holds of all that the desktop and the processes hand over.
use vstd::prelude::*;
use vstd::utf8::*;

use crate::bytes;
use crate::input;
use crate::launch;
use crate::platform;
use crate::platform::kde_activation;
use crate::platform::kde_activation::{
    ActivationStep, KdeActivationRequest, KdeActivationState, SendOutcome,
};
use crate::platform::process;
use crate::platform::process::{ForegroundProcessCandidate, LinuxProcessStat};
use crate::text;

verus! {

/// The bytes of a number stand with the most significant one first, and are read in this order.
pub proof fn numbers_stand_big_end_first(small: u16, large: u32, two: Seq<u8>, four: Seq<u8>)
    requires
        two.len() == 2,
        four.len() == 4,
    ensures
        bytes::be16(small)[0] * 256 + bytes::be16(small)[1] == small,
        bytes::be32(large)[0] * 16_777_216 + bytes::be32(large)[1] * 65_536 + bytes::be32(large)[2]
            * 256 + bytes::be32(large)[3] == large,
        bytes::from_be16(two) == two[0] * 256 + two[1],
        bytes::from_be32(four) == four[0] * 16_777_216 + four[1] * 65_536 + four[2] * 256 + four[3],
{
    reveal(bytes::be16);
    reveal(bytes::be32);
    reveal(bytes::from_be16);
    reveal(bytes::from_be32);
}

/// One carriage return at the end of a path is left out, and nothing else of it.
pub proof fn one_carriage_return_goes(path: Seq<u8>)
    ensures
        platform::without_transport_cr(path.push(0x0d)) == path,
        path.len() == 0 || path.last() != 0x0d ==> platform::without_transport_cr(path) == path,
{
    assert(path.push(0x0d).drop_last() =~= path);
}

/// A request is refused without a worker, joins one that waits or runs, and is sent otherwise; one that
/// was sent waits, joins those of a full queue, and is refused by a worker that is gone.
pub proof fn one_request_is_sent_at_a_time(state: KdeActivationState)
    ensures
        !state.has_sender ==> state.begun() == (Some(KdeActivationRequest::Unavailable), state),
        state.has_sender && state.queued_or_running ==> state.begun() == (
            Some(KdeActivationRequest::Coalesced),
            state,
        ),
        state.has_sender && !state.queued_or_running ==> state.begun().0 is None
            && state.begun().1.queued_or_running && state.begun().1.has_sender
            && state.begun().1.diagnostic_emitted == state.diagnostic_emitted,
        state.finished(SendOutcome::Sent) == (KdeActivationRequest::Enqueued, state),
        state.finished(SendOutcome::Full) == (KdeActivationRequest::Coalesced, state),
        state.finished(SendOutcome::Disconnected).0 == KdeActivationRequest::Unavailable,
        !state.finished(SendOutcome::Disconnected).1.queued_or_running,
        state.finished(SendOutcome::Disconnected).1.has_sender == state.has_sender,
{
}

/// The calls go to the scripting object of KWin: a script is loaded by its path under a name, run by its
/// number and unloaded by its name.
pub proof fn calls_go_to_kwin(path: Seq<u8>, name: Seq<char>, id: int)
    ensures
        kde_activation::load_args(path, name) == seq![
            encode_utf8("org.kde.KWin"@),
            encode_utf8("/Scripting"@),
            encode_utf8("loadScript"@),
            path,
            encode_utf8(name),
        ],
        kde_activation::run_args(id) == seq![
            encode_utf8("org.kde.KWin"@),
            encode_utf8("/Scripting/Script"@ + text::signed_decimal(id)),
            encode_utf8("run"@),
        ],
        kde_activation::unload_args(name) == seq![
            encode_utf8("org.kde.KWin"@),
            encode_utf8("/Scripting"@),
            encode_utf8("unloadScript"@),
            encode_utf8(name),
        ],
        kde_activation::COMMAND_TIMEOUT_MS == 750,
        kde_activation::COMMAND_POLL_INTERVAL_MS == 10,
{
}

/// A text of digits with white space after it is trimmed to the digits.
proof fn digits_are_trimmed(digits: Seq<char>, space: Seq<char>)
    requires
        digits.len() > 0,
        forall|i: int|
            0 <= i < digits.len() ==> '0' <= #[trigger] digits[i] <= '9' || digits[i] == '-',
        forall|i: int|
            0 <= i < space.len() ==> text::laws::unicode_space().contains(#[trigger] space[i]),
    ensures
        text::trimmed(digits + space) == digits,
{
    let chars = digits + space;
    let from = text::laws::trimming_takes_the_space_around(chars);
    let left = text::trimmed(chars);
    digit_is_no_space(digits[0]);
    digit_is_no_space(digits.last());
    assert(from == 0) by {
        if from > 0 {
            assert(text::laws::unicode_space().contains(chars[0]));
        }
    }
    let end = from + left.len();
    assert(end >= digits.len()) by {
        if end < digits.len() {
            assert(text::laws::unicode_space().contains(chars[digits.len() - 1]));
        }
    }
    assert(end <= digits.len()) by {
        if end > digits.len() {
            assert(left.last() == space[end - 1 - digits.len()]);
            assert(text::laws::unicode_space().contains(space[end - 1 - digits.len()]));
        }
    }
    assert(left =~= digits);
}

proof fn digit_is_no_space(c: char)
    requires
        '0' <= c <= '9' || c == '-',
    ensures
        !text::laws::unicode_space().contains(c),
{
    let all = text::laws::unicode_space();
    if all.contains(c) {
        let i = choose|i: int| 0 <= i < all.len() && all[i] == c;
        assert(0 <= i < 25);
    }
}

/// A reply that writes a number up to the largest of 32 bits, with white space after it, gives that
/// number; a negative one gives none. The script of that number is then run.
pub proof fn script_number_is_read(n: nat, space: Seq<char>)
    requires
        0 <= n <= 2_147_483_647,
        forall|i: int|
            0 <= i < space.len() ==> text::laws::unicode_space().contains(#[trigger] space[i]),
    ensures
        kde_activation::script_id(encode_utf8(text::decimal(n) + space)) == Some(n as int),
        n > 0 ==> kde_activation::script_id(
            encode_utf8(text::signed_decimal(-(n as int)) + space),
        ) is None,
        ActivationStep::Load.spec_next(Some((true, encode_utf8(text::decimal(n) + space))))
            == (ActivationStep::Run { script_id: n as i32 }),
{
    let digits = text::decimal(n);
    text::laws::decimal_is_digits(n);
    digits_are_trimmed(digits, space);
    encode_utf8_valid_utf8(digits + space);
    encode_utf8_decode_utf8(digits + space);
    text::laws::signed_decimal_is_read_back(n as int, 2_147_483_647);
    if n > 0 {
        let written = text::signed_decimal(-(n as int));
        digits_are_trimmed(written, space);
        encode_utf8_valid_utf8(written + space);
        encode_utf8_decode_utf8(written + space);
        text::laws::signed_decimal_is_read_back(-(n as int), 2_147_483_647);
    }
}

/// KDE is named by its three letters in either case, and listed where one of the names between colons is
/// one of these.
pub proof fn kde_is_named_in_any_case(name: Seq<u8>, list: Seq<u8>, i: int)
    ensures
        kde_activation::names_kde(name) == (name.len() == 3 && (name[0] == 0x4b || name[0] == 0x6b)
            && (name[1] == 0x44 || name[1] == 0x64) && (name[2] == 0x45 || name[2] == 0x65)),
        0 <= i < text::pieces(list, 0x3a).len() && kde_activation::names_kde(
            text::pieces(list, 0x3a)[i],
        ) ==> kde_activation::lists_kde(list),
        kde_activation::lists_kde(list) ==> exists|k: int|
            0 <= k < text::pieces(list, 0x3a).len() && (#[trigger] text::pieces(list, 0x3a)[k]).len()
                == 3,
{
    if kde_activation::lists_kde(list) {
        let k = choose|k: int|
            0 <= k < text::pieces(list, 0x3a).len() && kde_activation::names_kde(
                #[trigger] text::pieces(list, 0x3a)[k],
            );
        assert(text::pieces(list, 0x3a)[k].len() == 3);
    }
}

/// A name is looked for below each directory that is not empty, in their order.
pub proof fn directories_are_searched_in_order(
    first: Seq<Seq<u8>>,
    second: Seq<Seq<u8>>,
    directory: Seq<u8>,
    name: Seq<u8>,
)
    ensures
        kde_activation::below_each(first + second, name) == kde_activation::below_each(first, name)
            + kde_activation::below_each(second, name),
        kde_activation::below_each(seq![directory], name) == if directory.len() == 0 {
            Seq::empty()
        } else {
            seq![launch::joined(directory, name)]
        },
    decreases second.len(),
{
    let one = seq![directory];
    assert(one.drop_last() =~= Seq::empty());
    assert(kde_activation::below_each(one.drop_last(), name) =~= Seq::empty());
    assert(kde_activation::below_each(one, name) =~= if directory.len() == 0 {
        Seq::empty()
    } else {
        seq![launch::joined(directory, name)]
    });
    if second.len() == 0 {
        assert(first + second =~= first);
        assert(kde_activation::below_each(first, name) + kde_activation::below_each(second, name)
            =~= kde_activation::below_each(first, name));
    } else {
        directories_are_searched_in_order(first, second.drop_last(), directory, name);
        assert((first + second).drop_last() =~= first + second.drop_last());
        assert(kde_activation::below_each(first + second, name) =~= kde_activation::below_each(
            first,
            name,
        ) + kde_activation::below_each(second, name));
    }
}

/// Of the pieces of a command line the empty ones are left out, and the others stay in their order.
pub proof fn empty_pieces_are_left_out(
    first: Seq<Seq<u8>>,
    second: Seq<Seq<u8>>,
    piece: Seq<u8>,
)
    ensures
        process::nonempty_pieces(first + second) == process::nonempty_pieces(first)
            + process::nonempty_pieces(second),
        process::nonempty_pieces(seq![piece]) == if piece.len() == 0 {
            Seq::empty()
        } else {
            seq![piece]
        },
    decreases second.len(),
{
    let one = seq![piece];
    assert(one.drop_last() =~= Seq::empty());
    assert(process::nonempty_pieces(one.drop_last()) =~= Seq::empty());
    assert(process::nonempty_pieces(one) =~= if piece.len() == 0 {
        Seq::empty()
    } else {
        seq![piece]
    });
    if second.len() == 0 {
        assert(first + second =~= first);
        assert(process::nonempty_pieces(first) + process::nonempty_pieces(second)
            =~= process::nonempty_pieces(first));
    } else {
        empty_pieces_are_left_out(first, second.drop_last(), piece);
        assert((first + second).drop_last() =~= first + second.drop_last());
        assert(process::nonempty_pieces(first + second) =~= process::nonempty_pieces(first)
            + process::nonempty_pieces(second));
    }
}

proof fn command_ends_at_the_last_bracket(command: Seq<u8>, rest: Seq<u8>)
    requires
        forall|i: int| 0 <= i < rest.len() ==> #[trigger] rest[i] != 0x29,
    ensures
        process::command_end(command.push(0x29) + rest) == command.len() + 1,
    decreases rest.len(),
{
    let stat = command.push(0x29) + rest;
    if rest.len() == 0 {
        assert(stat =~= command.push(0x29));
    } else {
        assert(stat.last() == rest[rest.len() - 1]);
        assert(stat.drop_last() =~= command.push(0x29) + rest.drop_last());
        command_ends_at_the_last_bracket(command, rest.drop_last());
    }
}

/// What a process is is read behind the last closing bracket, whatever stands before it: the first word
/// begins with the state, the third is the process group and the fourth the session.
pub proof fn fields_stand_behind_the_command(command: Seq<u8>, rest: Seq<u8>)
    requires
        forall|i: int| 0 <= i < rest.len() ==> #[trigger] rest[i] != 0x29,
        valid_utf8(rest),
    ensures
        ({
            let fields = text::words(rest);
            let read = process::stat_parsed(command.push(0x29) + rest);
            let group = text::parsed_signed(fields[2], 2_147_483_647);
            let session = text::parsed_signed(fields[3], 2_147_483_647);
            &&& fields.len() < 4 ==> read is None
            &&& fields.len() >= 4 && (group is None || session is None) ==> read is None
            &&& fields.len() >= 4 && group is Some && session is Some ==> read == Some(
                LinuxProcessStat {
                    process_group: group->0 as i32,
                    session_id: session->0 as i32,
                    state: fields[0][0],
                },
            )
        }),
{
    command_ends_at_the_last_bracket(command, rest);
    assert((command.push(0x29) + rest).skip(command.len() as int + 1) =~= rest);
}

/// The numbers among words stay in their order, and what is no number is left out.
pub proof fn numbers_stay_in_order(first: Seq<Seq<u8>>, second: Seq<Seq<u8>>, n: u32)
    ensures
        process::numbers(first + second) == process::numbers(first) + process::numbers(second),
        process::numbers(seq![encode_utf8(text::decimal(n as nat))]) == seq![n],
    decreases second.len(),
{
    let word = encode_utf8(text::decimal(n as nat));
    let one = seq![word];
    text::laws::decimal_is_read_back(n as nat, 4_294_967_295);
    assert(one.drop_last() =~= Seq::empty());
    assert(process::numbers(one.drop_last()) =~= Seq::empty());
    assert(process::numbers(one) =~= seq![n]);
    if second.len() == 0 {
        assert(first + second =~= first);
        assert(process::numbers(first) + process::numbers(second) =~= process::numbers(first));
    } else {
        numbers_stay_in_order(first, second.drop_last(), n);
        assert((first + second).drop_last() =~= first + second.drop_last());
        assert(process::numbers(first + second) =~= process::numbers(first) + process::numbers(
            second,
        ));
    }
}

/// A word that is no number of 32 bits is left out of the numbers.
pub proof fn other_words_are_left_out(words: Seq<Seq<u8>>, word: Seq<u8>)
    requires
        text::parsed_unsigned(word, 4_294_967_295) is None,
    ensures
        process::numbers(words.push(word)) == process::numbers(words),
{
    assert(words.push(word).drop_last() =~= words);
}

/// Of the children of a process those of the group are looked at, one step deeper and in their order.
pub proof fn children_of_the_group_are_deeper(
    first: Seq<(u32, Option<u32>)>,
    second: Seq<(u32, Option<u32>)>,
    child: u32,
    group: Option<u32>,
    wanted: u32,
    depth: usize,
)
    ensures
        process::group_children(first + second, wanted, depth) == process::group_children(
            first,
            wanted,
            depth,
        ) + process::group_children(second, wanted, depth),
        group == Some(wanted) && depth < usize::MAX ==> process::group_children(
            seq![(child, group)],
            wanted,
            depth,
        ) == seq![ForegroundProcessCandidate { process_id: child, depth: (depth + 1) as usize }],
        group != Some(wanted) ==> process::group_children(seq![(child, group)], wanted, depth).len()
            == 0,
    decreases second.len(),
{
    let one = seq![(child, group)];
    assert(one.drop_last() =~= Seq::empty());
    assert(process::group_children(one.drop_last(), wanted, depth) =~= Seq::empty());
    if group == Some(wanted) && depth < usize::MAX {
        assert(process::group_children(one, wanted, depth) =~= seq![
            ForegroundProcessCandidate { process_id: child, depth: (depth + 1) as usize },
        ]);
    }
    if second.len() == 0 {
        assert(first + second =~= first);
        assert(process::group_children(first, wanted, depth) + process::group_children(
            second,
            wanted,
            depth,
        ) =~= process::group_children(first, wanted, depth));
    } else {
        children_of_the_group_are_deeper(first, second.drop_last(), child, group, wanted, depth);
        assert((first + second).drop_last() =~= first + second.drop_last());
        assert(process::group_children(first + second, wanted, depth) =~= process::group_children(
            first,
            wanted,
            depth,
        ) + process::group_children(second, wanted, depth));
    }
}

/// A deeper process comes after one that is less deep, and of two as deep the one with the larger
/// number; each comes no later than itself.
pub proof fn deeper_processes_come_later(
    first: ForegroundProcessCandidate,
    second: ForegroundProcessCandidate,
)
    ensures
        first.depth < second.depth ==> first.at_most(second) && !second.at_most(first),
        first.depth == second.depth && first.process_id < second.process_id ==> first.at_most(second)
            && !second.at_most(first),
        first.at_most(first),
        first.at_most(second) && second.at_most(first) ==> first == second,
{
}

/// A signal to a session goes to every process of it that has a group and is no zombie, and to no other.
pub proof fn zombies_take_no_signal(stat: LinuxProcessStat, session: i32)
    ensures
        process::takes_signal(stat, session) ==> stat.session_id == session && stat.process_group > 0,
        stat.state == 0x5a ==> !process::takes_signal(stat, session),
        stat.session_id == session && stat.state != 0x5a && stat.process_group > 0
            ==> process::takes_signal(stat, session),
        process::SIGTERM == 15,
        process::SIGKILL == 9,
        process::ESRCH == 3,
        process::PROCESS_TREE_FORCE_CLEANUP_TIMEOUT_MS == 500,
        process::PROCESS_TREE_CLEANUP_POLL_MS == 10,
{
}

/// A program that is absolute or has a slash between two names is given by its path; one without a
/// slash is searched for.
pub proof fn programs_with_a_slash_are_paths(first: Seq<u8>, second: Seq<u8>)
    requires
        first.len() > 0,
        second.len() > 0,
        second != seq![0x2eu8],
        forall|i: int| 0 <= i < first.len() ==> #[trigger] first[i] != 0x2f,
        forall|i: int| 0 <= i < second.len() ==> #[trigger] second[i] != 0x2f,
    ensures
        process::is_program_path(first.push(0x2f) + second),
        process::is_program_path(seq![0x2fu8] + first),
        !process::is_program_path(first),
{
    let nothing = Seq::<u8>::empty();
    input::laws::piece_without_separator(nothing, first, 0x2f);
    assert(nothing + first =~= first);
    let one = text::pieces(first, 0x2f);
    assert(one =~= seq![first]);
    assert(one.drop_last() =~= Seq::empty());
    assert(process::relative_components(one.drop_last()) == 0);
    let slashed = first.push(0x2f);
    assert(slashed.drop_last() =~= first);
    assert(text::pieces(slashed, 0x2f) =~= seq![first, nothing]);
    input::laws::piece_without_separator(slashed, second, 0x2f);
    let two = text::pieces(slashed + second, 0x2f);
    assert(two =~= seq![first, second]);
    assert(two.drop_last() =~= one);
    assert(process::relative_components(one) == 1);
    assert(process::relative_components(two) == 2);
    assert(first[0] != 0x2f);
}

/// A slash at the end of a name, and a point behind one, make no path of it; a point before one does.
pub proof fn slashes_at_the_end_make_no_path(name: Seq<u8>)
    requires
        name.len() > 0,
        name != seq![0x2eu8],
        forall|i: int| 0 <= i < name.len() ==> #[trigger] name[i] != 0x2f,
    ensures
        !process::is_program_path(name.push(0x2f)),
        !process::is_program_path(name.push(0x2f).push(0x2e)),
        process::is_program_path(seq![0x2eu8, 0x2f] + name),
{
    let nothing = Seq::<u8>::empty();
    let point = seq![0x2eu8];
    input::laws::piece_without_separator(nothing, name, 0x2f);
    assert(nothing + name =~= name);
    let one = text::pieces(name, 0x2f);
    assert(one =~= seq![name]);
    assert(one.drop_last() =~= Seq::empty());
    assert(process::relative_components(one.drop_last()) == 0);
    assert(process::relative_components(one) == 1);
    let slashed = name.push(0x2f);
    assert(slashed.drop_last() =~= name);
    let ended = text::pieces(slashed, 0x2f);
    assert(ended =~= seq![name, nothing]);
    assert(ended.drop_last() =~= one);
    assert(process::relative_components(ended) == 1);
    assert(slashed[0] == name[0]);
    input::laws::piece_without_separator(slashed, point, 0x2f);
    assert(slashed + point =~= slashed.push(0x2e));
    let pointed = text::pieces(slashed.push(0x2e), 0x2f);
    assert(pointed =~= seq![name, point]);
    assert(pointed.drop_last() =~= one);
    assert(process::relative_components(pointed) == 1);
    assert(slashed.push(0x2e)[0] == name[0]);
    input::laws::piece_without_separator(nothing, point, 0x2f);
    assert(nothing + point =~= point);
    let first = text::pieces(point, 0x2f);
    assert(first =~= seq![point]);
    assert(first.drop_last() =~= Seq::empty());
    assert(process::relative_components(first.drop_last()) == 0);
    assert(process::relative_components(first) == 1);
    let here = seq![0x2eu8, 0x2f];
    assert(here.drop_last() =~= point);
    assert(text::pieces(here, 0x2f) =~= seq![point, nothing]);
    input::laws::piece_without_separator(here, name, 0x2f);
    let two = text::pieces(here + name, 0x2f);
    assert(two =~= seq![point, name]);
    assert(two.drop_last() =~= first);
    assert(process::relative_components(two) == 2);
}

/// A value of the environment counts where it has bytes, and then as it is.
pub proof fn empty_values_do_not_count(value: Vec<u8>)
    ensures
        value@.len() == 0 ==> platform::nonempty(Some(value)) is None,
        value@.len() > 0 ==> platform::nonempty(Some(value)) == Some(value@),
        platform::nonempty(None) is None,
        platform::path_view(Some(value)) == Some(value@),
        platform::path_view(None) is None,
{
}

/// A call runs the program with just these arguments, and may take 750 milliseconds.
pub proof fn calls_are_exact(
    command: kde_activation::CommandSpec,
    program: Seq<u8>,
    args: Seq<Seq<u8>>,
    i: int,
)
    requires
        command.calls(program, args),
    ensures
        command.program@ == program,
        command.args@.len() == args.len(),
        0 <= i < args.len() ==> command.args@[i]@ == args[i],
        command.timeout_ms == 750,
{
    assert(bytes::views(command.args@).len() == command.args@.len());
    if 0 <= i < args.len() {
        assert(bytes::views(command.args@)[i] == command.args@[i]@);
    }
}

/// The groups of a signal stand in ascending order, none twice, and each is the group of a process that
/// takes the signal; no such group is left out.
pub proof fn signals_reach_each_group_once(
    plan: process::GroupSignal,
    signal: i32,
    session: i32,
    processes: Seq<LinuxProcessStat>,
    i: int,
    j: int,
    k: int,
)
    requires
        process::signals_session(plan, signal, session, processes),
    ensures
        plan.signal == signal,
        0 <= i < j < plan.groups@.len() ==> plan.groups@[i] < plan.groups@[j],
        0 <= k < processes.len() && process::takes_signal(processes[k], session)
            ==> plan.groups@.contains(processes[k].process_group),
        0 <= i < plan.groups@.len() ==> exists|at: int|
            0 <= at < processes.len() && process::takes_signal(#[trigger] processes[at], session)
                && processes[at].process_group == plan.groups@[i],
{
    if 0 <= i < plan.groups@.len() {
        assert(plan.groups@.contains(plan.groups@[i]));
    }
}

} // verus!
