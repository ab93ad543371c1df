//! What holds of every message between instances and of every claim of the socket.
use vstd::prelude::*;
use vstd::utf8::*;

use crate::bytes;
use crate::launch;
use crate::platform;
use crate::platform::single_instance;
use crate::platform::single_instance::{
    Claim, ClaimOutcome, ClaimStep, ErrorKind, ProtocolError, RequestModel,
};

verus! {

/// A number of two bytes, the most significant first.
pub open spec fn number16(bytes: Seq<u8>, at: int) -> int {
    bytes[at] * 256 + bytes[at + 1]
}

/// A number of four bytes, the most significant first.
pub open spec fn number32(bytes: Seq<u8>, at: int) -> int {
    bytes[at] * 16_777_216 + bytes[at + 1] * 65_536 + bytes[at + 2] * 256 + bytes[at + 3]
}

proof fn numbers_are_read(payload: Seq<u8>, at: int)
    ensures
        0 <= at && at + 2 <= payload.len() ==> bytes::from_be16(payload.subrange(at, at + 2))
            == number16(payload, at),
        0 <= at && at + 4 <= payload.len() ==> bytes::from_be32(payload.subrange(at, at + 4))
            == number32(payload, at),
{
    reveal(bytes::from_be16);
    reveal(bytes::from_be32);
}

/// A payload holds, in this order: the flags, of which the lowest is to keep the terminal open and the
/// next that there is a directory; the lengths of the token and of the directory in two and four bytes;
/// the number of arguments in two; the token, the directory and the arguments.
pub proof fn payload_has_its_parts_in_order(request: RequestModel)
    requires
        single_instance::payload_size(request) is Ok,
    ensures
        ({
            let payload = single_instance::encoded_payload(request);
            let token = match request.activation_token {
                Some(token) => encode_utf8(token),
                None => Seq::empty(),
            };
            let directory = match request.launch.working_directory {
                Some(path) => path,
                None => Seq::empty(),
            };
            let t = token.len() as int;
            let d = directory.len() as int;
            &&& payload.len() == 9 + t + d + single_instance::framed(request.launch.command).len()
            &&& payload[0] < 4
            &&& payload[0] % 2 == 1 <==> request.launch.hold
            &&& payload[0] >= 2 <==> request.launch.working_directory is Some
            &&& number16(payload, 1) == t
            &&& number32(payload, 3) == d
            &&& number16(payload, 7) == request.launch.command.len()
            &&& payload.subrange(9, 9 + t) == token
            &&& payload.subrange(9 + t, 9 + t + d) == directory
            &&& payload.skip(9 + t + d) == single_instance::framed(request.launch.command)
        }),
{
    let payload = single_instance::encoded_payload(request);
    let token = single_instance::token_bytes(request);
    let directory = single_instance::directory_bytes(request);
    let command = request.launch.command;
    let t = token.len() as int;
    let d = directory.len() as int;
    reveal(bytes::be16);
    reveal(bytes::be32);
    assert(payload.subrange(9, 9 + t) =~= token);
    assert(payload.subrange(9 + t, 9 + t + d) =~= directory);
    assert(payload.skip(9 + t + d) =~= single_instance::framed(command));
    assert(payload[1] == (t as u16 / 256) as u8 && payload[2] == (t as u16 % 256) as u8);
    assert(payload.subrange(3, 7) =~= bytes::be32(d as u32));
    assert(payload[3] == bytes::be32(d as u32)[0] && payload[4] == bytes::be32(d as u32)[1]
        && payload[5] == bytes::be32(d as u32)[2] && payload[6] == bytes::be32(d as u32)[3]) by {
        assert(payload.subrange(3, 7)[0] == payload[3]);
        assert(payload.subrange(3, 7)[1] == payload[4]);
        assert(payload.subrange(3, 7)[2] == payload[5]);
        assert(payload.subrange(3, 7)[3] == payload[6]);
    }
    assert(payload.subrange(7, 9) =~= bytes::be16(command.len() as u16));
    assert(payload[7] == payload.subrange(7, 9)[0] && payload[8] == payload.subrange(7, 9)[1]);
    platform::laws::numbers_stand_big_end_first(
        command.len() as u16,
        d as u32,
        bytes::be16(t as u16),
        bytes::be32(d as u32),
    );
}

/// An argument stands behind its length in four bytes, and the arguments after it behind it.
pub proof fn arguments_stand_behind_their_lengths(first: Seq<u8>, command: Seq<Seq<u8>>)
    requires
        first.len() <= u32::MAX,
    ensures
        ({
            let framed = single_instance::framed(seq![first] + command);
            &&& framed.len() == 4 + first.len() + single_instance::framed(command).len()
            &&& number32(framed, 0) == first.len()
            &&& framed.subrange(4, 4 + first.len() as int) == first
            &&& framed.skip(4 + first.len() as int) == single_instance::framed(command)
        }),
        single_instance::framed(Seq::empty()).len() == 0,
{
    let all = seq![first] + command;
    assert(all.skip(1) =~= command);
    let framed = single_instance::framed(all);
    let len = first.len() as u32;
    reveal(bytes::be32);
    assert(framed.take(4) =~= bytes::be32(len));
    assert(framed.take(4)[0] == framed[0] && framed.take(4)[1] == framed[1] && framed.take(4)[2]
        == framed[2] && framed.take(4)[3] == framed[3]);
    platform::laws::numbers_stand_big_end_first(0, len, seq![0u8, 0], bytes::be32(len));
    assert(framed.subrange(4, 4 + first.len() as int) =~= first);
    assert(framed.skip(4 + first.len() as int) =~= single_instance::framed(command));
}

/// A message begins with the version 2, the type 1 and the length of its payload in four bytes, and an
/// acknowledgement is the version 2 and the type 2.
pub proof fn messages_begin_with_their_kind(request: RequestModel, input: Seq<u8>)
    requires
        single_instance::payload_size(request) is Ok,
    ensures
        ({
            let message = single_instance::encoded_request(request);
            let payload = single_instance::encoded_payload(request);
            &&& message.len() == 6 + payload.len()
            &&& message[0] == 2 && message[1] == 1
            &&& number32(message, 2) == payload.len()
            &&& message.skip(6) == payload
            &&& payload.len() <= 1_048_576
        }),
        single_instance::ack_read(input) is Ok <==> input.len() >= 2 && input[0] == 2 && input[1] == 2,
        input.len() < 2 ==> single_instance::ack_read(input) == Err::<(), ProtocolError>(
            ProtocolError::ShortInput,
        ),
        input.len() >= 2 && (input[0] != 2 || input[1] != 2) ==> single_instance::ack_read(input)
            == Err::<(), ProtocolError>(ProtocolError::InvalidAck),
{
    let message = single_instance::encoded_request(request);
    let payload = single_instance::encoded_payload(request);
    single_instance::payload_size_is_length(request);
    let len = payload.len() as u32;
    reveal(bytes::be32);
    assert(message.subrange(2, 6) =~= bytes::be32(len));
    assert(message.subrange(2, 6)[0] == message[2] && message.subrange(2, 6)[1] == message[3]
        && message.subrange(2, 6)[2] == message[4] && message.subrange(2, 6)[3] == message[5]);
    platform::laws::numbers_stand_big_end_first(0, len, seq![0u8, 0], bytes::be32(len));
    assert(message.skip(6) =~= payload);
    if input.len() >= 2 {
        let start = input.take(2);
        assert(start[0] == input[0] && start[1] == input[1]);
        assert(start =~= seq![input[0], input[1]]);
        if input[0] == 2 && input[1] == 2 {
            assert(start =~= seq![2u8, 2u8]);
        } else {
            assert(seq![2u8, 2u8][0] == 2 && seq![2u8, 2u8][1] == 2);
        }
    }
}

/// A request cannot be sent with a token over 4096 bytes, a directory whose length has no four bytes,
/// more arguments than two bytes count, or a payload over one mebibyte; these are looked at in this
/// order. Any other request can be.
pub proof fn requests_have_limits(request: RequestModel)
    requires
        request.launch.command.len() == 0,
    ensures
        ({
            let t = single_instance::token_bytes(request).len() as int;
            let d = single_instance::directory_bytes(request).len() as int;
            let size = single_instance::payload_size(request);
            &&& t > 4096 ==> size == Err::<int, ProtocolError>(ProtocolError::OutgoingTokenTooLong)
            &&& t <= 4096 && d > 4_294_967_295 ==> size == Err::<int, ProtocolError>(
                ProtocolError::OutgoingWorkingDirectoryTooLong,
            )
            &&& t <= 4096 && 9 + t + d <= 1_048_576 ==> size == Ok::<int, ProtocolError>(9 + t + d)
            &&& t <= 4096 && d <= 4_294_967_295 && 1_048_576 < 9 + t + d <= usize::MAX ==> size
                == Err::<int, ProtocolError>(ProtocolError::OutgoingRequestTooLong)
            &&& t <= 4096 && d <= 4_294_967_295 && 9 + t + d > usize::MAX ==> size == Err::<
                int,
                ProtocolError,
            >(ProtocolError::OutgoingSizeOverflow)
        }),
{
}

/// More arguments than two bytes count are refused where the token and the directory are not; arguments
/// are otherwise counted one after the other, four bytes more than each is long, and the first that
/// cannot be framed is refused.
pub proof fn arguments_are_counted(request: RequestModel, first: Seq<u8>, rest: Seq<Seq<u8>>, total: int)
    requires
        single_instance::token_bytes(request).len() <= 4096,
        single_instance::directory_bytes(request).len() <= 1000,
    ensures
        request.launch.command.len() > 65_535 ==> single_instance::payload_size(request) == Err::<
            int,
            ProtocolError,
        >(ProtocolError::OutgoingTooManyArguments),
        first.len() > 4_294_967_295 ==> single_instance::with_arguments(seq![first] + rest, total)
            == Err::<int, ProtocolError>(ProtocolError::OutgoingArgumentTooLong),
        first.len() <= 4_294_967_295 && total + 4 + first.len() <= usize::MAX
            ==> single_instance::with_arguments(seq![first] + rest, total)
            == single_instance::with_arguments(rest, total + 4 + first.len()),
        first.len() <= 4_294_967_295 && total + 4 + first.len() > usize::MAX
            ==> single_instance::with_arguments(seq![first] + rest, total) == Err::<
            int,
            ProtocolError,
        >(ProtocolError::OutgoingSizeOverflow),
        single_instance::with_arguments(Seq::empty(), total) == Ok::<int, ProtocolError>(total),
{
    assert((seq![first] + rest).skip(1) =~= rest);
}

/// A header is refused, in this order, where it is short of six bytes, of another version than 2, of
/// another type than 1, or announces over one mebibyte; otherwise its payload is read, once it is there.
pub proof fn headers_are_refused_in_order(input: Seq<u8>)
    ensures
        ({
            let read = single_instance::decoded_request(input);
            let len = number32(input, 2);
            &&& input.len() < 6 ==> read == Err::<RequestModel, ProtocolError>(
                ProtocolError::ShortInput,
            )
            &&& input.len() >= 6 && input[0] != 2 ==> read == Err::<RequestModel, ProtocolError>(
                ProtocolError::UnsupportedVersion,
            )
            &&& input.len() >= 6 && input[0] == 2 && input[1] != 1 ==> read == Err::<
                RequestModel,
                ProtocolError,
            >(ProtocolError::UnsupportedMessage)
            &&& input.len() >= 6 && input[0] == 2 && input[1] == 1 && len > 1_048_576 ==> read
                == Err::<RequestModel, ProtocolError>(ProtocolError::RequestTooLong)
            &&& input.len() >= 6 && input[0] == 2 && input[1] == 1 && len <= 1_048_576
                && input.len() < 6 + len ==> read == Err::<RequestModel, ProtocolError>(
                ProtocolError::ShortInput,
            )
            &&& input.len() >= 6 && input[0] == 2 && input[1] == 1 && len <= 1_048_576
                && input.len() >= 6 + len ==> read == single_instance::decoded_payload(
                input.subrange(6, 6 + len),
            )
        }),
{
    numbers_are_read(input, 2);
}

/// A payload is refused, in this order, where it has flags over 3, a token over 4096 bytes, fewer bytes
/// than it announces, a directory without its flag, fewer bytes than the lengths of its arguments take,
/// a token that is not text, an argument that is cut off, or bytes left over.
pub proof fn payloads_are_refused_in_order(payload: Seq<u8>)
    requires
        payload.len() >= 9,
    ensures
        ({
            let read = single_instance::decoded_payload(payload);
            let t = number16(payload, 1);
            let d = number32(payload, 3);
            let count = number16(payload, 7);
            let flagged = payload[0] >= 2;
            let rest = payload.skip(9 + t + d);
            let known = payload[0] <= 3;
            let whole = known && t <= 4096 && payload.len() >= 9 + t + d;
            let fits = whole && (flagged || d == 0);
            let framed = fits && rest.len() >= 4 * count;
            let is_text = t == 0 || valid_utf8(payload.subrange(9, 9 + t));
            &&& !known ==> read == Err::<RequestModel, ProtocolError>(ProtocolError::UnknownFlags)
            &&& known && t > 4096 ==> read == Err::<RequestModel, ProtocolError>(
                ProtocolError::TokenTooLong,
            )
            &&& known && t <= 4096 && payload.len() < 9 + t + d ==> read == Err::<
                RequestModel,
                ProtocolError,
            >(ProtocolError::TruncatedPayload)
            &&& whole && !flagged && d > 0 ==> read == Err::<RequestModel, ProtocolError>(
                ProtocolError::UnflaggedWorkingDirectory,
            )
            &&& fits && rest.len() < 4 * count ==> read == Err::<RequestModel, ProtocolError>(
                ProtocolError::TruncatedCommand,
            )
            &&& framed && !is_text ==> read == Err::<RequestModel, ProtocolError>(
                ProtocolError::TokenNotUtf8,
            )
            &&& framed && is_text ==> match single_instance::unframed(rest, count as nat) {
                Err(error) => read == Err::<RequestModel, ProtocolError>(error),
                Ok((command, left)) => if left.len() > 0 {
                    read == Err::<RequestModel, ProtocolError>(ProtocolError::TrailingBytes)
                } else {
                    read == Ok::<RequestModel, ProtocolError>(
                        RequestModel {
                            activation_token: if t > 0 {
                                Some(decode_utf8(payload.subrange(9, 9 + t)))
                            } else {
                                None
                            },
                            launch: launch::LaunchModel {
                                working_directory: if flagged {
                                    Some(payload.subrange(9 + t, 9 + t + d))
                                } else {
                                    None
                                },
                                command,
                                hold: payload[0] % 2 == 1,
                            },
                        },
                    )
                },
            }
        }),
{
    numbers_are_read(payload, 1);
    numbers_are_read(payload, 3);
    numbers_are_read(payload, 7);
    let flags = payload[0];
    assert(flags <= 3 ==> (flags & 2 != 0) == (flags >= 2) && (flags & 1 != 0) == (flags % 2 == 1))
        by (bit_vector);
}

/// A payload that is cut off before its lengths end is refused for that, unless its flags or the length
/// of its token are refused before.
pub proof fn short_payloads_are_cut_off(payload: Seq<u8>)
    requires
        payload.len() < 9,
    ensures
        ({
            let read = single_instance::decoded_payload(payload);
            let cut = Err::<RequestModel, ProtocolError>(ProtocolError::TruncatedPayload);
            &&& payload.len() == 0 ==> read == cut
            &&& payload.len() > 0 && payload[0] > 3 ==> read == Err::<RequestModel, ProtocolError>(
                ProtocolError::UnknownFlags,
            )
            &&& 0 < payload.len() < 3 && payload[0] <= 3 ==> read == cut
            &&& payload.len() >= 3 && payload[0] <= 3 && number16(payload, 1) > 4096 ==> read
                == Err::<RequestModel, ProtocolError>(ProtocolError::TokenTooLong)
            &&& payload.len() >= 3 && payload[0] <= 3 && number16(payload, 1) <= 4096 ==> read == cut
        }),
{
    numbers_are_read(payload, 1);
}

/// Arguments that are cut off in their lengths or in themselves are refused for that.
pub proof fn arguments_are_read_in_order(payload: Seq<u8>, count: nat)
    requires
        count > 0,
    ensures
        ({
            let read = single_instance::unframed(payload, count);
            let len = number32(payload, 0);
            let cut = Err::<(Seq<Seq<u8>>, Seq<u8>), ProtocolError>(ProtocolError::TruncatedPayload);
            &&& payload.len() < 4 ==> read == cut
            &&& payload.len() >= 4 && payload.len() < 4 + len ==> read == cut
            &&& payload.len() >= 4 + len && payload.len() >= 4 ==> match single_instance::unframed(
                payload.skip(4 + len),
                (count - 1) as nat,
            ) {
                Ok((command, rest)) => read == Ok::<(Seq<Seq<u8>>, Seq<u8>), ProtocolError>(
                    (seq![payload.subrange(4, 4 + len)] + command, rest),
                ),
                Err(error) => read == Err::<(Seq<Seq<u8>>, Seq<u8>), ProtocolError>(error),
            }
        }),
        single_instance::unframed(payload, 0) == Ok::<(Seq<Seq<u8>>, Seq<u8>), ProtocolError>(
            (Seq::empty(), payload),
        ),
{
    numbers_are_read(payload, 0);
    if payload.len() >= 4 {
        assert(payload.subrange(0, 4) =~= payload.take(4));
    }
}

/// What is cut off is an end of input, what cannot be sent is invalid input, and all else invalid data.
pub proof fn errors_have_their_kinds(error: ProtocolError)
    ensures
        error.spec_kind() == match error {
            ProtocolError::ShortInput
            | ProtocolError::TruncatedPayload
            | ProtocolError::TruncatedCommand => ErrorKind::UnexpectedEof,
            ProtocolError::UnsupportedVersion
            | ProtocolError::UnsupportedMessage
            | ProtocolError::RequestTooLong
            | ProtocolError::UnknownFlags
            | ProtocolError::TokenTooLong
            | ProtocolError::UnflaggedWorkingDirectory
            | ProtocolError::TokenNotUtf8
            | ProtocolError::TrailingBytes
            | ProtocolError::InvalidAck => ErrorKind::InvalidData,
            _ => ErrorKind::InvalidInput,
        },
{
}

/// Each error has its message.
pub proof fn errors_have_their_messages()
    ensures
        ProtocolError::ShortInput.spec_message() == "failed to fill whole buffer"@,
        ProtocolError::UnsupportedVersion.spec_message() == "unsupported single-instance protocol version"@,
        ProtocolError::UnsupportedMessage.spec_message() == "unsupported single-instance message type"@,
        ProtocolError::RequestTooLong.spec_message() == "single-instance request exceeds protocol limit"@,
        ProtocolError::TruncatedPayload.spec_message() == "truncated single-instance request payload"@,
        ProtocolError::UnknownFlags.spec_message() == "single-instance request contains unknown flags"@,
        ProtocolError::TokenTooLong.spec_message() == "single-instance activation token exceeds protocol limit"@,
        ProtocolError::UnflaggedWorkingDirectory.spec_message() == "single-instance request has unflagged working directory bytes"@,
        ProtocolError::TruncatedCommand.spec_message() == "truncated single-instance command framing"@,
        ProtocolError::TokenNotUtf8.spec_message() == "single-instance activation token is not valid UTF-8"@,
        ProtocolError::TrailingBytes.spec_message() == "single-instance request contains trailing payload bytes"@,
        ProtocolError::OutgoingTokenTooLong.spec_message() == "single-instance activation token exceeds protocol limit"@,
        ProtocolError::OutgoingWorkingDirectoryTooLong.spec_message() == "single-instance working directory exceeds protocol framing limit"@,
        ProtocolError::OutgoingTooManyArguments.spec_message() == "single-instance command has too many arguments"@,
        ProtocolError::OutgoingArgumentTooLong.spec_message() == "single-instance command argument exceeds protocol framing limit"@,
        ProtocolError::OutgoingSizeOverflow.spec_message() == "single-instance request size overflow"@,
        ProtocolError::OutgoingRequestTooLong.spec_message() == "single-instance request exceeds protocol limit"@,
        ProtocolError::InvalidAck.spec_message() == "invalid single-instance delivery acknowledgement"@,
{
}

/// A token that is not empty is read back, and an empty one as none; nothing else of a request changes.
pub proof fn empty_tokens_are_none(request: RequestModel, token: Seq<char>)
    ensures
        single_instance::normalized(request).launch == request.launch,
        request.activation_token is None ==> single_instance::normalized(
            request,
        ).activation_token is None,
        request.activation_token == Some(token) && token.len() > 0 ==> single_instance::normalized(
            request,
        ) == request,
        request.activation_token == Some(token) && token.len() == 0 ==> single_instance::normalized(
            request,
        ).activation_token is None,
{
}

proof fn directory_ends_at_the_last_slash(directory: Seq<u8>, file: Seq<u8>)
    requires
        forall|i: int| 0 <= i < file.len() ==> #[trigger] file[i] != 0x2f,
    ensures
        single_instance::directory_part(directory.push(0x2f) + file) == directory.len() + 1,
    decreases file.len(),
{
    let path = directory.push(0x2f) + file;
    if file.len() == 0 {
        assert(path =~= directory.push(0x2f));
    } else {
        assert(path.last() == file[file.len() - 1]);
        assert(path.drop_last() =~= directory.push(0x2f) + file.drop_last());
        directory_ends_at_the_last_slash(directory, file.drop_last());
    }
}

/// Beside a file another one stands in the same directory.
pub proof fn file_beside_a_file(directory: Seq<u8>, file: Seq<u8>, name: Seq<u8>)
    requires
        file.len() > 0,
        forall|i: int| 0 <= i < file.len() ==> #[trigger] file[i] != 0x2f,
        file != seq![0x2eu8],
        file != seq![0x2eu8, 0x2e],
    ensures
        single_instance::with_file_name(directory.push(0x2f) + file, name) == directory.push(0x2f)
            + name,
        single_instance::with_file_name(directory.push(0x2f) + file.push(0x2f), name)
            == directory.push(0x2f) + name,
{
    let path = directory.push(0x2f) + file;
    directory_ends_at_the_last_slash(directory, file);
    assert(path.last() == file[file.len() - 1]);
    if path[path.len() - 2] == 0x2f {
        if file.len() > 1 {
            assert(path[path.len() - 2] == file[file.len() - 2]);
        }
        assert(file.len() == 1);
        assert(file[0] != 0x2e) by {
            if file[0] == 0x2e {
                assert(file =~= seq![0x2eu8]);
            }
        }
    }
    assert(single_instance::trimmed_path(path) == path);
    assert(path.skip(directory.len() as int + 1) =~= file);
    assert(path.take(directory.len() as int + 1) =~= directory.push(0x2f));
    let slashed = directory.push(0x2f) + file.push(0x2f);
    assert(slashed.drop_last() =~= path);
    assert(single_instance::trimmed_path(slashed) == path);
}

/// A claim asks whoever owns the socket first. Without a socket it binds it, and one that no one answers
/// it removes before; a socket that was bound meanwhile is asked again, up to eight attempts. Any other
/// error ends it.
pub proof fn claim_goes_on_as_it_finds_the_socket(attempts: usize, kind: ErrorKind)
    requires
        attempts < 8,
    ensures
        ({
            let ask = Claim { step: ClaimStep::Notify, attempts };
            let remove = Claim { step: ClaimStep::RemoveStale, attempts };
            let bind = Claim { step: ClaimStep::Bind, attempts };
            let failed = Claim { step: ClaimStep::Done(ClaimOutcome::Failed(kind)), attempts };
            &&& ask.spec_next(Ok(())) == (Claim {
                step: ClaimStep::Done(ClaimOutcome::Secondary),
                attempts,
            })
            &&& ask.spec_next(Err(ErrorKind::NotFound)) == bind
            &&& ask.spec_next(Err(ErrorKind::ConnectionRefused)) == remove
            &&& !(kind is NotFound || kind is ConnectionRefused) ==> ask.spec_next(Err(kind))
                == failed
            &&& remove.spec_next(Ok(())) == bind
            &&& remove.spec_next(Err(kind)) == failed
            &&& bind.spec_next(Ok(())) == (Claim {
                step: ClaimStep::Done(ClaimOutcome::Primary),
                attempts,
            })
            &&& attempts < 7 ==> bind.spec_next(Err(ErrorKind::AddrInUse)) == (Claim {
                step: ClaimStep::Notify,
                attempts: (attempts + 1) as usize,
            })
            &&& attempts == 7 ==> bind.spec_next(Err(ErrorKind::AddrInUse)) == (Claim {
                step: ClaimStep::Done(ClaimOutcome::GaveUp),
                attempts,
            })
            &&& !(kind is AddrInUse) ==> bind.spec_next(Err(kind)) == failed
            &&& failed.spec_next(Ok(())) == failed
            &&& failed.spec_next(Err(ErrorKind::NotFound)) == failed
        }),
        single_instance::SERVER_CLIENT_IO_TIMEOUT_MS == 250,
        single_instance::SECONDARY_HANDOFF_TIMEOUT_MS == 5000,
        single_instance::SOCKET_FILE_NAME@ == "instance.sock"@,
{
}

/// A request holds its token and what is to be started.
pub proof fn requests_hold_their_fields(request: single_instance::ExternalLaunchRequest)
    ensures
        request@.launch == request.launch@,
        request.activation_token is None ==> request@.activation_token is None,
        request.activation_token matches Some(token) ==> request@.activation_token == Some(token@),
        single_instance::request_view(Ok(request)) == Ok::<RequestModel, ProtocolError>(request@),
{
}

} // verus!
