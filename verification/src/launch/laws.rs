//! What holds of every command line.
use vstd::prelude::*;
use vstd::utf8::*;

use crate::launch;
use crate::launch::LaunchModel;
use crate::text;

verus! {

proof fn options_differ()
    ensures
        encode_utf8("--workdir"@) != encode_utf8("--hold"@),
        encode_utf8("--workdir"@) != encode_utf8("--noclose"@),
        encode_utf8("--workdir"@) != encode_utf8("-e"@),
        encode_utf8("--workdir"@) != encode_utf8("--pgo-train"@),
        encode_utf8("--working-directory"@) != encode_utf8("--hold"@),
        encode_utf8("--working-directory"@) != encode_utf8("--noclose"@),
        encode_utf8("--working-directory"@) != encode_utf8("-e"@),
        encode_utf8("--working-directory"@) != encode_utf8("--pgo-train"@),
        encode_utf8("--hold"@) != encode_utf8("-e"@),
        encode_utf8("--hold"@) != encode_utf8("--pgo-train"@),
        encode_utf8("--noclose"@) != encode_utf8("-e"@),
        encode_utf8("--noclose"@) != encode_utf8("--pgo-train"@),
        encode_utf8("-e"@) != encode_utf8("--pgo-train"@),
{
    reveal_strlit("--workdir");
    reveal_strlit("--working-directory");
    reveal_strlit("--hold");
    reveal_strlit("--noclose");
    reveal_strlit("-e");
    reveal_strlit("--pgo-train");
    encode_utf8_decode_utf8("--workdir"@);
    encode_utf8_decode_utf8("--working-directory"@);
    encode_utf8_decode_utf8("--hold"@);
    encode_utf8_decode_utf8("--noclose"@);
    encode_utf8_decode_utf8("-e"@);
    encode_utf8_decode_utf8("--pgo-train"@);
    assert("--workdir"@.len() == 9 && "--noclose"@.len() == 9);
    assert("--workdir"@[2] == 'w' && "--noclose"@[2] == 'n');
}

/// Whether an argument names the working directory.
pub open spec fn names_directory(arg: Seq<u8>) -> bool {
    arg == encode_utf8("--workdir"@) || arg == encode_utf8("--working-directory"@)
}

/// Whether an argument keeps the terminal open.
pub open spec fn keeps_open(arg: Seq<u8>) -> bool {
    arg == encode_utf8("--hold"@) || arg == encode_utf8("--noclose"@)
}

/// Whether an argument starts the command.
pub open spec fn starts_command(arg: Seq<u8>) -> bool {
    arg == encode_utf8("-e"@)
}

/// `--hold` and `--noclose` keep the terminal open, and the arguments after them are read on.
pub proof fn hold_is_read(
    args: Seq<Seq<u8>>,
    index: int,
    launch: LaunchModel,
    directory: Result<Seq<u8>, Seq<char>>,
)
    requires
        0 <= index < args.len(),
        keeps_open(args[index]),
    ensures
        launch::launch_from(args, index, launch, directory) == launch::launch_from(
            args,
            index + 1,
            LaunchModel { hold: true, ..launch },
            directory,
        ),
        launch::pgo_requested(args, index) == launch::pgo_requested(args, index + 1),
        forall|given: bool| #[trigger]
            launch::needs_current_dir(args, index, given) == launch::needs_current_dir(
                args,
                index + 1,
                given,
            ),
{
    options_differ();
}

/// `--workdir` and `--working-directory` take the next argument for the directory: as it is where it is
/// absolute, and below the current one otherwise. The arguments after it are read on.
pub proof fn directory_is_read(
    args: Seq<Seq<u8>>,
    index: int,
    launch: LaunchModel,
    directory: Result<Seq<u8>, Seq<char>>,
)
    requires
        0 <= index,
        index + 1 < args.len(),
        names_directory(args[index]),
    ensures
        ({
            let path = args[index + 1];
            let absolute = path.len() > 0 && path[0] == 0x2f;
            let read = launch::launch_from(args, index, launch, directory);
            &&& launch.working_directory is Some ==> read == Err::<LaunchModel, Seq<char>>(
                "duplicate --workdir/--working-directory"@,
            )
            &&& launch.working_directory is None && absolute ==> read == launch::launch_from(
                args,
                index + 2,
                LaunchModel { working_directory: Some(path), ..launch },
                directory,
            )
            &&& launch.working_directory is None && !absolute ==> match directory {
                Ok(base) => read == launch::launch_from(
                    args,
                    index + 2,
                    LaunchModel { working_directory: Some(launch::joined(base, path)), ..launch },
                    directory,
                ),
                Err(error) => read == Err::<LaunchModel, Seq<char>>(
                    "failed to resolve relative working directory: "@ + error,
                ),
            }
            &&& launch::pgo_requested(args, index) == launch::pgo_requested(args, index + 2)
            &&& !launch::needs_current_dir(args, index, true)
            &&& launch::needs_current_dir(args, index, false) == (!absolute
                || launch::needs_current_dir(args, index + 2, true))
        }),
{
    options_differ();
}

/// Without an argument after it, an option that names the directory is refused by its name, and a
/// second directory is refused before that.
pub proof fn directory_is_required(
    args: Seq<Seq<u8>>,
    launch: LaunchModel,
    directory: Result<Seq<u8>, Seq<char>>,
)
    requires
        args.len() > 0,
        names_directory(args.last()),
    ensures
        launch.working_directory is None ==> launch::launch_from(
            args,
            args.len() - 1,
            launch,
            directory,
        ) == Err::<LaunchModel, Seq<char>>(text::lossy(args.last()) + " requires a directory"@),
        launch.working_directory is Some ==> launch::launch_from(
            args,
            args.len() - 1,
            launch,
            directory,
        ) == Err::<LaunchModel, Seq<char>>("duplicate --workdir/--working-directory"@),
        !launch::pgo_requested(args, args.len() - 1),
        !launch::needs_current_dir(args, args.len() - 1, false),
{
    options_differ();
    assert(!launch::pgo_requested(args, args.len() as int));
}

/// `-e` takes all arguments after it for the command, whatever they are, and is refused without any.
pub proof fn command_is_the_rest(
    args: Seq<Seq<u8>>,
    index: int,
    launch: LaunchModel,
    directory: Result<Seq<u8>, Seq<char>>,
)
    requires
        0 <= index < args.len(),
        starts_command(args[index]),
    ensures
        index + 1 < args.len() ==> launch::launch_from(args, index, launch, directory) == Ok::<
            LaunchModel,
            Seq<char>,
        >(LaunchModel { command: args.skip(index + 1), ..launch }),
        index + 1 == args.len() ==> launch::launch_from(args, index, launch, directory) == Err::<
            LaunchModel,
            Seq<char>,
        >("-e requires a command"@),
        !launch::pgo_requested(args, index),
        !launch::needs_current_dir(args, index, false),
{
    options_differ();
}

/// Any other argument is refused by its name; the end of the arguments is the end of the reading.
pub proof fn other_arguments_are_refused(
    args: Seq<Seq<u8>>,
    index: int,
    launch: LaunchModel,
    directory: Result<Seq<u8>, Seq<char>>,
)
    requires
        0 <= index <= args.len(),
        index < args.len() ==> !names_directory(args[index]) && !keeps_open(args[index])
            && !starts_command(args[index]),
    ensures
        index < args.len() ==> launch::launch_from(args, index, launch, directory) == Err::<
            LaunchModel,
            Seq<char>,
        >("unknown Ronsole argument: "@ + text::lossy(args[index])),
        index == args.len() ==> launch::launch_from(args, index, launch, directory) == Ok::<
            LaunchModel,
            Seq<char>,
        >(launch),
        index < args.len() ==> launch::pgo_requested(args, index) == (args[index] == encode_utf8(
            "--pgo-train"@,
        ) || launch::pgo_requested(args, index + 1)),
        index == args.len() ==> !launch::pgo_requested(args, index),
        !launch::needs_current_dir(args, index, false),
{
}

/// Where nothing is asked for, the user's shell starts in the launcher's directory and its terminal
/// closes with it.
pub proof fn nothing_is_asked_for(directory: Result<Seq<u8>, Seq<char>>)
    ensures
        launch::launch_from(Seq::empty(), 1, launch::default_launch(), directory) == Ok::<
            LaunchModel,
            Seq<char>,
        >(LaunchModel { working_directory: None, command: Seq::empty(), hold: false }),
{
}

/// A path below a directory stands behind it, with one slash between them where the directory has none
/// at its end and is not empty.
pub proof fn one_slash_joins(directory: Seq<u8>, path: Seq<u8>)
    ensures
        directory.len() == 0 ==> launch::joined(directory, path) == path,
        launch::joined(directory.push(0x2f), path) == directory.push(0x2f) + path,
        directory.len() > 0 && directory.last() != 0x2f ==> launch::joined(directory, path)
            == launch::joined(directory.push(0x2f), path),
        launch::is_absolute(seq![0x2fu8] + path),
        !launch::is_absolute(Seq::empty()),
        path.len() > 0 && path[0] != 0x2f ==> !launch::is_absolute(path),
{
    if directory.len() == 0 {
        assert(directory + path =~= path);
    }
}

/// What is started is what the specification holds, field by field.
pub proof fn specifications_hold_their_fields(launch: launch::TerminalLaunchSpec, i: int)
    ensures
        launch@.hold == launch.hold,
        launch@.command.len() == launch.command@.len(),
        0 <= i < launch.command@.len() ==> launch@.command[i] == launch.command@[i]@,
        launch.working_directory is None ==> launch@.working_directory is None,
        launch.working_directory matches Some(path) ==> launch@.working_directory == Some(path@),
{
}

/// What was parsed of a command line is what its arguments say, with the directory that was looked up
/// where a relative one needs it.
pub proof fn parsing_is_exact<F: Fn() -> Result<Vec<u8>, String>>(
    args: Seq<Seq<u8>>,
    current_dir: F,
    parsed: Result<LaunchModel, Seq<char>>,
    any: Result<Seq<u8>, Seq<char>>,
)
    requires
        launch::launch_parsed(args, current_dir, parsed),
    ensures
        !launch::needs_current_dir(args, 1, false) ==> parsed == launch::launch_from(
            args,
            1,
            LaunchModel { working_directory: None, command: Seq::empty(), hold: false },
            any,
        ),
        launch::needs_current_dir(args, 1, false) ==> exists|lookup: Result<Vec<u8>, String>|
            #![trigger launch::lookup_view(lookup)]
            current_dir.ensures((), lookup) && parsed == launch::launch_from(
                args,
                1,
                LaunchModel { working_directory: None, command: Seq::empty(), hold: false },
                launch::lookup_view(lookup),
            ),
{
    nothing_is_asked_for(any);
    if launch::needs_current_dir(args, 1, false) {
        let lookup = choose|lookup: Result<Vec<u8>, String>|
            #![trigger launch::lookup_view(lookup)]
            current_dir.ensures((), lookup) && parsed == launch::launch_from(
                args,
                1,
                launch::default_launch(),
                launch::lookup_view(lookup),
            );
        assert(launch::lookup_view(lookup) == launch::lookup_view(lookup));
    }
}

} // verus!
