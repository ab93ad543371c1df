//! The report on the scripted run, and the commands that it types.
use vstd::prelude::*;
use vstd::utf8::*;

use crate::automation::scenario;
use crate::automation::scenario::{FixturePhase, SemanticBlock, PGO_AUTOMATION_SCENARIO_VERSION};
use crate::bytes;
use crate::text;

verus! {

/// A hexadecimal digit in lower case.
pub open spec fn hex_digit(n: int) -> char {
    if n < 10 {
        (n + '0' as int) as char
    } else {
        (n - 10 + 'a' as int) as char
    }
}

/// A character as it stands in a JSON string.
pub open spec fn escaped_char(c: char) -> Seq<char> {
    if c == '"' {
        seq!['\\', '"']
    } else if c == '\\' {
        seq!['\\', '\\']
    } else if c == '\n' {
        seq!['\\', 'n']
    } else if c == '\r' {
        seq!['\\', 'r']
    } else if c == '\t' {
        seq!['\\', 't']
    } else if c as int <= 0x1f {
        seq!['\\', 'u', '0', '0', hex_digit(c as int / 16), hex_digit(c as int % 16)]
    } else {
        seq![c]
    }
}

/// A text as it stands in a JSON string.
pub open spec fn escaped(chars: Seq<char>) -> Seq<char>
    decreases chars.len(),
{
    if chars.len() == 0 {
        Seq::empty()
    } else {
        escaped(chars.drop_last()) + escaped_char(chars.last())
    }
}

fn hex_char(n: u32) -> (c: char)
    requires
        n < 16,
    ensures
        c == hex_digit(n as int),
{
    let n: u8 = n as u8;
    if n < 10 {
        (n + 48) as char
    } else {
        (n - 10 + 97) as char
    }
}

fn push_escaped(out: &mut String, c: char)
    ensures
        final(out)@ == old(out)@ + escaped_char(c),
{
    let ghost before = out@;
    if c == '"' || c == '\\' {
        out.push('\\');
        out.push(c);
    } else if c == '\n' {
        out.push('\\');
        out.push('n');
    } else if c == '\r' {
        out.push('\\');
        out.push('r');
    } else if c == '\t' {
        out.push('\\');
        out.push('t');
    } else if c as u32 <= 0x1f {
        let code: u32 = c as u32;
        out.push('\\');
        out.push('u');
        out.push('0');
        out.push('0');
        out.push(hex_char(code / 16));
        out.push(hex_char(code % 16));
    } else {
        out.push(c);
    }
    assert(out@ =~= before + escaped_char(c));
}

/// A text as it stands in a JSON string.
pub fn json_escape(value: &str) -> (out: String)
    ensures
        out@ == escaped(value@),
{
    let chars = text::chars_of(value);
    let mut out = String::new();
    let mut i: usize = 0;
    assert(out@ =~= escaped(chars@.take(0)));
    while i < chars.len()
        invariant
            i <= chars@.len(),
            out@ == escaped(chars@.take(i as int)),
        decreases chars@.len() - i,
    {
        assert(chars@.take(i + 1).drop_last() =~= chars@.take(i as int));
        push_escaped(&mut out, chars[i]);
        i += 1;
    }
    assert(chars@.take(i as int) =~= chars@);
    out
}

/// The number of a hexadecimal digit in lower case.
pub open spec fn hex_value(c: char) -> Option<int> {
    if '0' <= c <= '9' {
        Some(c as int - '0' as int)
    } else if 'a' <= c <= 'f' {
        Some(c as int - 'a' as int + 10)
    } else {
        None
    }
}

/// The first character that the inside of a JSON string writes, and how many characters it takes.
pub open spec fn first_read(chars: Seq<char>) -> Option<(char, int)> {
    if chars.len() == 0 || chars[0] == '"' || chars[0] as int <= 0x1f {
        None
    } else if chars[0] != '\\' {
        Some((chars[0], 1))
    } else if chars.len() < 2 {
        None
    } else if chars[1] == '"' || chars[1] == '\\' {
        Some((chars[1], 2))
    } else if chars[1] == 'n' {
        Some(('\n', 2))
    } else if chars[1] == 'r' {
        Some(('\r', 2))
    } else if chars[1] == 't' {
        Some(('\t', 2))
    } else if chars[1] == 'u' && chars.len() >= 6 && chars[2] == '0' && chars[3] == '0' {
        match (hex_value(chars[4]), hex_value(chars[5])) {
            (Some(high), Some(low)) => Some(((high * 16 + low) as char, 6)),
            _ => None,
        }
    } else {
        None
    }
}

/// The text that the inside of a JSON string writes, as far as it holds no numbers of characters but
/// of the first 256.
pub open spec fn json_read(chars: Seq<char>) -> Option<Seq<char>>
    decreases chars.len(),
{
    if chars.len() == 0 {
        Some(Seq::empty())
    } else {
        match first_read(chars) {
            Some((c, taken)) => match json_read(chars.skip(taken)) {
                Some(rest) => Some(seq![c] + rest),
                None => None,
            },
            None => None,
        }
    }
}

proof fn escaped_char_is_read(c: char, rest: Seq<char>)
    ensures
        json_read(escaped_char(c) + rest) == match json_read(rest) {
            Some(read) => Some(seq![c] + read),
            None => None,
        },
{
    let all = escaped_char(c) + rest;
    let taken = escaped_char(c).len() as int;
    assert(all.skip(taken) =~= rest);
    assert(first_read(all) == Some((c, taken))) by {
        if c as int <= 0x1f && c != '\n' && c != '\r' && c != '\t' {
            let high = c as int / 16;
            let low = c as int % 16;
            assert(hex_value(hex_digit(high)) == Some(high));
            assert(hex_value(hex_digit(low)) == Some(low));
        }
    }
}

proof fn escaped_prefix_is_read(chars: Seq<char>, rest: Seq<char>)
    ensures
        json_read(escaped(chars) + rest) == match json_read(rest) {
            Some(read) => Some(chars + read),
            None => None,
        },
    decreases chars.len(),
{
    if chars.len() == 0 {
        assert(escaped(chars) + rest =~= rest);
        if json_read(rest) is Some {
            assert(chars + json_read(rest)->0 =~= json_read(rest)->0);
        }
    } else {
        let last = chars.last();
        assert(escaped(chars) + rest =~= escaped(chars.drop_last()) + (escaped_char(last) + rest));
        escaped_prefix_is_read(chars.drop_last(), escaped_char(last) + rest);
        escaped_char_is_read(last, rest);
        if json_read(rest) is Some {
            assert(chars.drop_last() + (seq![last] + json_read(rest)->0) =~= chars + json_read(
                rest,
            )->0);
        }
    }
}

/// Whatever the report quotes is read back as it was.
pub proof fn quoted_text_is_read_back(chars: Seq<char>)
    ensures
        json_read(escaped(chars)) == Some(chars),
{
    escaped_prefix_is_read(chars, Seq::empty());
    assert(escaped(chars) + Seq::<char>::empty() =~= escaped(chars));
    assert(chars + Seq::<char>::empty() =~= chars);
}

/// Texts in quotes, with commas between them.
pub open spec fn quoted_list(values: Seq<Seq<char>>) -> Seq<char>
    decreases values.len(),
{
    if values.len() == 0 {
        Seq::empty()
    } else if values.len() == 1 {
        seq!['"'] + escaped(values[0]) + seq!['"']
    } else {
        quoted_list(values.drop_last()) + seq![',', ' ', '"'] + escaped(values.last()) + seq!['"']
    }
}

/// The contents of texts.
pub open spec fn texts(values: Seq<&str>) -> Seq<Seq<char>> {
    values.map_values(|value: &str| value@)
}

fn push_quoted_list(out: &mut String, values: &[&str])
    ensures
        final(out)@ == old(out)@ + quoted_list(texts(values@)),
{
    let ghost before = out@;
    let ghost all = texts(values@);
    let mut i: usize = 0;
    assert(out@ =~= before + quoted_list(all.take(0)));
    while i < values.len()
        invariant
            i <= values@.len(),
            all == texts(values@),
            out@ == before + quoted_list(all.take(i as int)),
        decreases values@.len() - i,
    {
        assert(all.take(i + 1).drop_last() =~= all.take(i as int));
        if i > 0 {
            out.push(',');
            out.push(' ');
        }
        out.push('"');
        out.push_str(json_escape(values[i]).as_str());
        out.push('"');
        assert(out@ =~= before + quoted_list(all.take(i + 1)));
        i += 1;
    }
    assert(all.take(i as int) =~= all);
}

/// The report on a run.
pub open spec fn report_text(
    status: Seq<char>,
    completed: Seq<Seq<char>>,
    skipped: Seq<Seq<char>>,
    duration_ms: nat,
    failed_step: Option<Seq<char>>,
    error: Option<Seq<char>>,
) -> Seq<char> {
    "{\n  \"status\": \""@ + escaped(status) + "\",\n  \"scenario_version\": "@ + text::decimal(
        PGO_AUTOMATION_SCENARIO_VERSION as nat,
    ) + ",\n  \"completed_steps\": ["@ + quoted_list(completed) + "],\n  \"skipped_steps\": ["@
        + quoted_list(skipped) + "],\n  \"duration_ms\": "@ + text::decimal(duration_ms) + (
    match failed_step {
        Some(step) => ",\n  \"failed_step\": \""@ + escaped(step) + "\""@,
        None => Seq::empty(),
    }) + (match error {
        Some(error) => ",\n  \"error\": \""@ + escaped(error) + "\""@,
        None => Seq::empty(),
    }) + "\n}\n"@
}

/// The contents of an optional text.
pub open spec fn optional(value: Option<&str>) -> Option<Seq<char>> {
    match value {
        Some(value) => Some(value@),
        None => None,
    }
}

/// The report on a run.
pub fn serialize_report(
    status: &str,
    completed_steps: &[&str],
    skipped_steps: &[&str],
    duration_ms: u64,
    failed_step: Option<&str>,
    error: Option<&str>,
) -> (report: String)
    ensures
        report@ == report_text(
            status@,
            texts(completed_steps@),
            texts(skipped_steps@),
            duration_ms as nat,
            optional(failed_step),
            optional(error),
        ),
{
    let mut report = "{\n  \"status\": \"".to_owned();
    report.push_str(json_escape(status).as_str());
    report.push_str("\",\n  \"scenario_version\": ");
    text::push_decimal(&mut report, PGO_AUTOMATION_SCENARIO_VERSION as u64);
    report.push_str(",\n  \"completed_steps\": [");
    push_quoted_list(&mut report, completed_steps);
    report.push_str("],\n  \"skipped_steps\": [");
    push_quoted_list(&mut report, skipped_steps);
    report.push_str("],\n  \"duration_ms\": ");
    text::push_decimal(&mut report, duration_ms);
    let ghost head = report@;
    let ghost mut step_part: Seq<char> = Seq::empty();
    let ghost mut error_part: Seq<char> = Seq::empty();
    if let Some(step) = failed_step {
        report.push_str(",\n  \"failed_step\": \"");
        report.push_str(json_escape(step).as_str());
        report.push_str("\"");
        proof {
            step_part = ",\n  \"failed_step\": \""@ + escaped(step@) + "\""@;
        }
    }
    assert(report@ =~= head + step_part);
    if let Some(error) = error {
        report.push_str(",\n  \"error\": \"");
        report.push_str(json_escape(error).as_str());
        report.push_str("\"");
        proof {
            error_part = ",\n  \"error\": \""@ + escaped(error@) + "\""@;
        }
    }
    assert(report@ =~= head + step_part + error_part);
    report.push_str("\n}\n");
    report
}

/// A text inside the quotes of a shell: a quote ends them, stands in quotes of the other kind, and
/// starts them again.
pub open spec fn requoted(chars: Seq<char>) -> Seq<char>
    decreases chars.len(),
{
    if chars.len() == 0 {
        Seq::empty()
    } else if chars.last() == '\'' {
        requoted(chars.drop_last()) + seq!['\'', '"', '\'', '"', '\'']
    } else {
        requoted(chars.drop_last()).push(chars.last())
    }
}

/// A text in the quotes of a shell.
pub open spec fn shell_quoted(chars: Seq<char>) -> Seq<char> {
    seq!['\''] + requoted(chars) + seq!['\'']
}

/// A path in the quotes of a shell.
pub fn shell_quote_path(path: &[u8]) -> (quoted: Result<String, String>)
    ensures
        valid_utf8(path@) ==> (quoted matches Ok(quoted) && quoted@ == shell_quoted(
            decode_utf8(path@),
        )),
        !valid_utf8(path@) ==> (quoted matches Err(error) && error@
            == "PGO fixture path must be valid UTF-8"@),
{
    let value = match text::utf8_text(bytes::copy(path)) {
        Some(value) => value,
        None => {
            return Err("PGO fixture path must be valid UTF-8".to_owned());
        },
    };
    let chars = text::chars_of(value.as_str());
    let mut quoted = String::new();
    quoted.push('\'');
    let mut i: usize = 0;
    assert(quoted@ =~= seq!['\''] + requoted(chars@.take(0)));
    while i < chars.len()
        invariant
            i <= chars@.len(),
            quoted@ == seq!['\''] + requoted(chars@.take(i as int)),
        decreases chars@.len() - i,
    {
        assert(chars@.take(i + 1).drop_last() =~= chars@.take(i as int));
        let c = chars[i];
        if c == '\'' {
            quoted.push('\'');
            quoted.push('"');
            quoted.push('\'');
            quoted.push('"');
            quoted.push('\'');
        } else {
            quoted.push(c);
        }
        i += 1;
        assert(quoted@ =~= seq!['\''] + requoted(chars@.take(i as int)));
    }
    assert(chars@.take(i as int) =~= chars@);
    quoted.push('\'');
    assert(quoted@ =~= shell_quoted(chars@));
    Ok(quoted)
}

/// How a shell reads on in a word.
pub enum Quoting {
    Plain,
    Single,
    Double,
}

/// The word that a shell reads, made of nothing but quotes and what they hold.
pub open spec fn shell_read(chars: Seq<char>, quoting: Quoting) -> Option<Seq<char>>
    decreases chars.len(),
{
    if chars.len() == 0 {
        if quoting is Plain {
            Some(Seq::empty())
        } else {
            None
        }
    } else {
        let c = chars[0];
        let rest = chars.skip(1);
        match quoting {
            Quoting::Plain => if c == '\'' {
                shell_read(rest, Quoting::Single)
            } else if c == '"' {
                shell_read(rest, Quoting::Double)
            } else {
                None
            },
            Quoting::Single => if c == '\'' {
                shell_read(rest, Quoting::Plain)
            } else {
                with_first(c, shell_read(rest, Quoting::Single))
            },
            Quoting::Double => if c == '"' {
                shell_read(rest, Quoting::Plain)
            } else if c == '\\' || c == '$' || c == '`' {
                None
            } else {
                with_first(c, shell_read(rest, Quoting::Double))
            },
        }
    }
}

/// A text that was read, with a character before it.
pub open spec fn with_first(c: char, read: Option<Seq<char>>) -> Option<Seq<char>> {
    match read {
        Some(read) => Some(seq![c] + read),
        None => None,
    }
}

proof fn requoted_prefix_is_read(chars: Seq<char>, rest: Seq<char>)
    ensures
        shell_read(requoted(chars) + rest, Quoting::Single) == match shell_read(
            rest,
            Quoting::Single,
        ) {
            Some(read) => Some(chars + read),
            None => None,
        },
    decreases chars.len(),
{
    if chars.len() == 0 {
        assert(requoted(chars) + rest =~= rest);
        if shell_read(rest, Quoting::Single) is Some {
            assert(chars + shell_read(rest, Quoting::Single)->0 =~= shell_read(
                rest,
                Quoting::Single,
            )->0);
        }
    } else {
        let last = chars.last();
        let part = if last == '\'' {
            seq!['\'', '"', '\'', '"', '\'']
        } else {
            seq![last]
        };
        let tail = part + rest;
        assert(requoted(chars) + rest =~= requoted(chars.drop_last()) + tail);
        requoted_prefix_is_read(chars.drop_last(), tail);
        assert(shell_read(tail, Quoting::Single) == with_first(
            last,
            shell_read(rest, Quoting::Single),
        )) by {
            if last == '\'' {
                assert(tail.skip(1) =~= seq!['"', '\'', '"', '\''] + rest);
                assert(tail.skip(1).skip(1) =~= seq!['\'', '"', '\''] + rest);
                assert(tail.skip(1).skip(1).skip(1) =~= seq!['"', '\''] + rest);
                assert(tail.skip(1).skip(1).skip(1).skip(1) =~= seq!['\''] + rest);
                assert(tail.skip(1).skip(1).skip(1).skip(1).skip(1) =~= rest);
                reveal_with_fuel(shell_read, 6);
            } else {
                assert(tail.skip(1) =~= rest);
            }
        }
        if shell_read(rest, Quoting::Single) is Some {
            let read = shell_read(rest, Quoting::Single)->0;
            assert(chars.drop_last() + (seq![last] + read) =~= chars + read);
        }
    }
}

/// A shell reads a path in its quotes as one word, the path itself.
pub proof fn quoted_path_is_one_word(path: Seq<char>)
    ensures
        shell_read(shell_quoted(path), Quoting::Plain) == Some(path),
{
    let all = shell_quoted(path);
    let inside = requoted(path) + seq!['\''];
    assert(all.skip(1) =~= inside);
    requoted_prefix_is_read(path, seq!['\'']);
    assert(seq!['\''].skip(1) =~= Seq::<char>::empty());
    assert(shell_read(seq!['\''], Quoting::Single) == Some(Seq::<char>::empty())) by {
        reveal_with_fuel(shell_read, 2);
    }
    assert(path + Seq::<char>::empty() =~= path);
}

/// The command that tells the script in the terminal what to do. What it prints when it is done does
/// not stand in the command, so that the command itself is not taken for it.
pub open spec fn command_text(quoted_path: Seq<char>, phase: FixturePhase) -> Seq<char> {
    let word = scenario::phase_name(phase);
    let start = if phase is ProcessTree {
        "printf '%s%s\\n' '__RONSOLE_PGO_PROCESS_' 'TREE_STARTED'; "@
    } else {
        Seq::empty()
    };
    start + "/bin/sh "@ + quoted_path + " "@ + word
        + "; rc=$?; if [ \"$rc\" -eq 0 ]; then printf '%s%s\\n' '__RONSOLE_PGO_DONE_' '"@ + word
        + "'; else printf '%s%s:%s\\n' '__RONSOLE_PGO_FAIL_' '"@ + word + "' \"$rc\"; fi"@
}

/// The command that tells the script in the terminal what to do.
pub fn fixture_command(path: &[u8], phase: FixturePhase) -> (command: Result<String, String>)
    ensures
        valid_utf8(path@) ==> (command matches Ok(command) && command@ == command_text(
            shell_quoted(decode_utf8(path@)),
            phase,
        )),
        !valid_utf8(path@) ==> (command matches Err(error) && error@
            == "PGO fixture path must be valid UTF-8"@),
{
    let quoted = match shell_quote_path(path) {
        Ok(quoted) => quoted,
        Err(error) => {
            return Err(error);
        },
    };
    let word = phase.as_str();
    let mut command = String::new();
    if phase == FixturePhase::ProcessTree {
        command.push_str("printf '%s%s\\n' '__RONSOLE_PGO_PROCESS_' 'TREE_STARTED'; ");
        assert(command@ =~= "printf '%s%s\\n' '__RONSOLE_PGO_PROCESS_' 'TREE_STARTED'; "@);
    }
    command.push_str("/bin/sh ");
    command.push_str(quoted.as_str());
    command.push_str(" ");
    command.push_str(word);
    command.push_str(
        "; rc=$?; if [ \"$rc\" -eq 0 ]; then printf '%s%s\\n' '__RONSOLE_PGO_DONE_' '",
    );
    command.push_str(word);
    command.push_str("'; else printf '%s%s:%s\\n' '__RONSOLE_PGO_FAIL_' '");
    command.push_str(word);
    command.push_str("' \"$rc\"; fi");
    Ok(command)
}

/// Whether a time has come, in milliseconds.
pub fn deadline_expired(now: u64, deadline: u64) -> (expired: bool)
    ensures
        expired == (now >= deadline),
{
    now >= deadline
}

/// The index of the next step: the same while a condition does not hold.
pub fn next_step_index(current: usize, condition: bool) -> (next: usize)
    ensures
        next == if condition && current < usize::MAX {
            current + 1
        } else {
            current as int
        },
{
    if condition {
        current.saturating_add(1)
    } else {
        current
    }
}

/// The names of all parts, in their order.
pub open spec fn all_names() -> Seq<Seq<char>> {
    scenario::all_blocks().map_values(|block: SemanticBlock| scenario::block_name(block))
}

/// Whether every part was ended, in their order.
pub fn mandatory_completion_valid(completed_steps: &[&str]) -> (valid: bool)
    ensures
        valid == (texts(completed_steps@) == all_names()),
{
    let blocks = SemanticBlock::all();
    if completed_steps.len() != blocks.len() {
        assert(texts(completed_steps@).len() != all_names().len());
        return false;
    }
    let mut i: usize = 0;
    while i < blocks.len()
        invariant
            i <= blocks@.len() == completed_steps@.len(),
            blocks@ == scenario::all_blocks(),
            forall|j: int| 0 <= j < i ==> texts(completed_steps@)[j] == all_names()[j],
        decreases blocks@.len() - i,
    {
        if !text::same_text(completed_steps[i], blocks[i].report_name()) {
            assert(texts(completed_steps@)[i as int] != all_names()[i as int]);
            return false;
        }
        i += 1;
    }
    assert(texts(completed_steps@) =~= all_names());
    true
}

} // verus!
