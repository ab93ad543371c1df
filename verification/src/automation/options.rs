//! The command line of the scripted run.
use vstd::prelude::*;
use vstd::utf8::*;

use crate::bytes;
use crate::launch;
use crate::text;

verus! {

/// What the scripted run was asked to do.
#[derive(Debug, PartialEq, Eq)]
pub struct AutomationOptions {
    /// The directory that the run works in.
    pub workspace: Vec<u8>,
    /// The file that the report goes to.
    pub report: Vec<u8>,
    /// The seconds that the run may take.
    pub timeout_seconds: u64,
}

/// The contents of the options.
pub struct OptionsModel {
    pub workspace: Seq<u8>,
    pub report: Seq<u8>,
    pub timeout_seconds: u64,
}

impl View for AutomationOptions {
    type V = OptionsModel;

    open spec fn view(&self) -> OptionsModel {
        OptionsModel {
            workspace: self.workspace@,
            report: self.report@,
            timeout_seconds: self.timeout_seconds,
        }
    }
}

/// What was read of the command line so far.
pub struct OptionsRead {
    pub train: bool,
    pub workspace: Option<Seq<u8>>,
    pub report: Option<Seq<u8>>,
    pub timeout_seconds: Option<u64>,
}

/// The seconds that an argument writes, or what is wrong with it.
pub open spec fn seconds_of(value: Seq<u8>) -> Result<u64, Seq<char>> {
    if !valid_utf8(value) {
        Err("--pgo-timeout-seconds must be valid UTF-8"@)
    } else {
        match text::parsed_unsigned(value, u64::MAX as int) {
            None => Err("--pgo-timeout-seconds must be a positive integer"@),
            Some(seconds) => if seconds == 0 {
                Err("--pgo-timeout-seconds must be greater than zero"@)
            } else {
                Ok(seconds as u64)
            },
        }
    }
}

/// What the arguments from `index` on say, after what was read before, or what is wrong with them.
pub open spec fn read_from(args: Seq<Seq<u8>>, index: int, so_far: OptionsRead) -> Result<
    OptionsRead,
    Seq<char>,
>
    decreases args.len() - index,
{
    if index < 0 || index >= args.len() {
        Ok(so_far)
    } else {
        let arg = args[index];
        let missing = index + 1 >= args.len();
        if arg == encode_utf8("--pgo-train"@) {
            if so_far.train {
                Err("duplicate --pgo-train"@)
            } else {
                read_from(args, index + 1, OptionsRead { train: true, ..so_far })
            }
        } else if arg == encode_utf8("--pgo-workspace"@) {
            if missing {
                Err(text::lossy(arg) + " requires a value"@)
            } else if so_far.workspace is Some {
                Err("duplicate "@ + text::lossy(arg))
            } else {
                read_from(
                    args,
                    index + 2,
                    OptionsRead { workspace: Some(args[index + 1]), ..so_far },
                )
            }
        } else if arg == encode_utf8("--pgo-report"@) {
            if missing {
                Err(text::lossy(arg) + " requires a value"@)
            } else if so_far.report is Some {
                Err("duplicate "@ + text::lossy(arg))
            } else {
                read_from(args, index + 2, OptionsRead { report: Some(args[index + 1]), ..so_far })
            }
        } else if arg == encode_utf8("--pgo-timeout-seconds"@) {
            if missing {
                Err("--pgo-timeout-seconds requires a value"@)
            } else if so_far.timeout_seconds is Some {
                Err("duplicate --pgo-timeout-seconds"@)
            } else {
                match seconds_of(args[index + 1]) {
                    Err(error) => Err(error),
                    Ok(seconds) => read_from(
                        args,
                        index + 2,
                        OptionsRead { timeout_seconds: Some(seconds), ..so_far },
                    ),
                }
            }
        } else {
            Err("unknown PGO automation argument: "@ + text::lossy(arg))
        }
    }
}

/// Nothing read.
pub open spec fn nothing_read() -> OptionsRead {
    OptionsRead { train: false, workspace: None, report: None, timeout_seconds: None }
}

/// The options that were read, or which of them is missing or wrong.
pub open spec fn completed(read: OptionsRead) -> Result<OptionsModel, Seq<char>> {
    if read.workspace is None {
        Err("--pgo-workspace is required"@)
    } else if read.report is None {
        Err("--pgo-report is required"@)
    } else if read.timeout_seconds is None {
        Err("--pgo-timeout-seconds is required"@)
    } else if !launch::is_absolute(read.workspace->0) {
        Err("--pgo-workspace must be an absolute path"@)
    } else if !launch::is_absolute(read.report->0) {
        Err("--pgo-report must be an absolute path"@)
    } else {
        Ok(
            OptionsModel {
                workspace: read.workspace->0,
                report: read.report->0,
                timeout_seconds: read.timeout_seconds->0,
            },
        )
    }
}

/// Whether the scripted run is asked for: `--pgo-train` stands behind the name of the program.
pub open spec fn is_asked_for(args: Seq<Seq<u8>>) -> bool {
    exists|i: int| 1 <= i < args.len() && (#[trigger] args[i]) == encode_utf8("--pgo-train"@)
}

/// What the command line says of the scripted run: nothing where it is not asked for.
pub open spec fn parsed(args: Seq<Seq<u8>>) -> Result<Option<OptionsModel>, Seq<char>> {
    if !is_asked_for(args) {
        Ok(None)
    } else {
        match read_from(args, 1, nothing_read()) {
            Err(error) => Err(error),
            Ok(read) => match completed(read) {
                Err(error) => Err(error),
                Ok(options) => Ok(Some(options)),
            },
        }
    }
}

/// Whether the results of reading options are the same.
pub open spec fn reads_as(
    result: Result<Option<AutomationOptions>, String>,
    expected: Result<Option<OptionsModel>, Seq<char>>,
) -> bool {
    match expected {
        Err(error) => result matches Err(message) && message@ == error,
        Ok(None) => result matches Ok(None),
        Ok(Some(options)) => result matches Ok(Some(read)) && read@ == options,
    }
}

/// What was read of the command line so far.
struct Reading {
    train: bool,
    workspace: Option<Vec<u8>>,
    report: Option<Vec<u8>>,
    timeout_seconds: Option<u64>,
}

spec fn path_view(path: Option<Vec<u8>>) -> Option<Seq<u8>> {
    match path {
        Some(path) => Some(path@),
        None => None,
    }
}

impl View for Reading {
    type V = OptionsRead;

    closed spec fn view(&self) -> OptionsRead {
        OptionsRead {
            train: self.train,
            workspace: path_view(self.workspace),
            report: path_view(self.report),
            timeout_seconds: self.timeout_seconds,
        }
    }
}

fn parse_seconds(value: &[u8]) -> (seconds: Result<u64, String>)
    ensures
        match seconds_of(value@) {
            Ok(expected) => seconds matches Ok(seconds) && seconds == expected,
            Err(error) => seconds matches Err(message) && message@ == error,
        },
{
    if text::utf8_text(bytes::copy(value)).is_none() {
        return Err("--pgo-timeout-seconds must be valid UTF-8".to_owned());
    }
    match text::parse_unsigned(value, u64::MAX) {
        None => Err("--pgo-timeout-seconds must be a positive integer".to_owned()),
        Some(seconds) => if seconds == 0 {
            Err("--pgo-timeout-seconds must be greater than zero".to_owned())
        } else {
            Ok(seconds)
        },
    }
}

fn requires_value(arg: &[u8]) -> (message: String)
    ensures
        message@ == text::lossy(arg@) + " requires a value"@,
{
    text::concat(text::lossy_text(arg).as_str(), " requires a value")
}

fn duplicate(arg: &[u8]) -> (message: String)
    ensures
        message@ == "duplicate "@ + text::lossy(arg@),
{
    text::concat("duplicate ", text::lossy_text(arg).as_str())
}

fn read_args(args: &[Vec<u8>]) -> (result: Result<Reading, String>)
    ensures
        match read_from(bytes::views(args@), 1, nothing_read()) {
            Ok(expected) => result matches Ok(reading) && reading@ == expected,
            Err(error) => result matches Err(message) && message@ == error,
        },
{
    let ghost all = bytes::views(args@);
    let mut reading = Reading {
        train: false,
        workspace: None,
        report: None,
        timeout_seconds: None,
    };
    let mut index: usize = 1;
    while index < args.len()
        invariant
            1 <= index,
            all == bytes::views(args@),
            read_from(all, 1, nothing_read()) == read_from(all, index as int, reading@),
        decreases args.len() - index,
    {
        let arg = args[index].as_slice();
        assert(arg@ == all[index as int]);
        if bytes::is_text(arg, "--pgo-train") {
            if reading.train {
                return Err("duplicate --pgo-train".to_owned());
            }
            reading.train = true;
            index += 1;
            continue ;
        }
        let missing = args.len() - index < 2;
        if bytes::is_text(arg, "--pgo-workspace") {
            if missing {
                return Err(requires_value(arg));
            }
            if reading.workspace.is_some() {
                return Err(duplicate(arg));
            }
            reading.workspace = Some(bytes::copy(args[index + 1].as_slice()));
        } else if bytes::is_text(arg, "--pgo-report") {
            if missing {
                return Err(requires_value(arg));
            }
            if reading.report.is_some() {
                return Err(duplicate(arg));
            }
            reading.report = Some(bytes::copy(args[index + 1].as_slice()));
        } else if bytes::is_text(arg, "--pgo-timeout-seconds") {
            if missing {
                return Err("--pgo-timeout-seconds requires a value".to_owned());
            }
            if reading.timeout_seconds.is_some() {
                return Err("duplicate --pgo-timeout-seconds".to_owned());
            }
            match parse_seconds(args[index + 1].as_slice()) {
                Ok(seconds) => {
                    reading.timeout_seconds = Some(seconds);
                },
                Err(error) => {
                    return Err(error);
                },
            }
        } else {
            return Err(
                text::concat(
                    "unknown PGO automation argument: ",
                    text::lossy_text(arg).as_str(),
                ),
            );
        }
        index += 2;
    }
    Ok(reading)
}

fn rooted(path: &[u8]) -> (rooted: bool)
    ensures
        rooted == launch::is_absolute(path@),
{
    path.len() > 0 && path[0] == 0x2f
}

fn asked_for(args: &[Vec<u8>]) -> (asked: bool)
    ensures
        asked == is_asked_for(bytes::views(args@)),
{
    let ghost all = bytes::views(args@);
    let mut i: usize = 1;
    while i < args.len()
        invariant
            1 <= i,
            all == bytes::views(args@),
            forall|j: int|
                1 <= j < i && j < all.len() ==> (#[trigger] all[j]) != encode_utf8("--pgo-train"@),
        decreases args.len() - i,
    {
        if bytes::is_text(args[i].as_slice(), "--pgo-train") {
            assert(all[i as int] == encode_utf8("--pgo-train"@));
            return true;
        }
        i += 1;
    }
    false
}

/// What the command line says of the scripted run: nothing where it is not asked for.
pub fn parse_automation_args(args: &[Vec<u8>]) -> (result: Result<Option<AutomationOptions>, String>)
    ensures
        reads_as(result, parsed(bytes::views(args@))),
{
    if !asked_for(args) {
        return Ok(None);
    }
    let reading = match read_args(args) {
        Ok(reading) => reading,
        Err(error) => {
            return Err(error);
        },
    };
    let workspace = match reading.workspace {
        Some(workspace) => workspace,
        None => {
            return Err("--pgo-workspace is required".to_owned());
        },
    };
    let report = match reading.report {
        Some(report) => report,
        None => {
            return Err("--pgo-report is required".to_owned());
        },
    };
    let timeout_seconds: u64 = match reading.timeout_seconds {
        Some(seconds) => seconds,
        None => {
            return Err("--pgo-timeout-seconds is required".to_owned());
        },
    };
    if !rooted(workspace.as_slice()) {
        return Err("--pgo-workspace must be an absolute path".to_owned());
    }
    if !rooted(report.as_slice()) {
        return Err("--pgo-report must be an absolute path".to_owned());
    }
    Ok(Some(AutomationOptions { workspace, report, timeout_seconds }))
}

/// The options of the scripted run, which has to be asked for.
pub fn automation_options_from_args(args: &[Vec<u8>]) -> (result: Result<AutomationOptions, String>)
    ensures
        match parsed(bytes::views(args@)) {
            Err(error) => result matches Err(message) && message@ == error,
            Ok(None) => result matches Err(message) && message@ == "--pgo-train is required"@,
            Ok(Some(options)) => result matches Ok(read) && read@ == options,
        },
{
    match parse_automation_args(args) {
        Err(error) => Err(error),
        Ok(None) => Err("--pgo-train is required".to_owned()),
        Ok(Some(options)) => Ok(options),
    }
}

} // verus!
