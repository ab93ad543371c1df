//! One running instance: the second one hands its launch request to the first over a socket.
use vstd::prelude::*;
use vstd::utf8::*;

use crate::bytes;
use crate::launch;
use crate::launch::TerminalLaunchSpec;
use crate::text;

pub mod laws;

verus! {

broadcast use {bytes::be16_round_trip, bytes::be32_round_trip};

/// The version byte that starts every message.
pub const PROTOCOL_VERSION: u8 = 2;

/// The message type of a launch request.
pub const EXTERNAL_LAUNCH_MESSAGE: u8 = 1;

/// The message type of an acknowledgement.
pub const DELIVERY_ACK_MESSAGE: u8 = 2;

/// The bytes before the payload: version, type and payload length.
pub const REQUEST_HEADER_LEN: usize = 6;

/// The bytes of an acknowledgement.
pub const DELIVERY_ACK_LEN: usize = 2;

/// The bytes of a payload before its first variable part.
pub const REQUEST_PAYLOAD_PREFIX_LEN: usize = 9;

/// The flag of a request to keep the terminal open.
pub const REQUEST_FLAG_HOLD: u8 = 1;

/// The flag of a request that gives a working directory.
pub const REQUEST_FLAG_WORKING_DIRECTORY: u8 = 2;

/// The flags that exist.
pub const REQUEST_KNOWN_FLAGS: u8 = 3;

/// The longest payload.
pub const MAX_REQUEST_PAYLOAD_BYTES: usize = 1_048_576;

/// The longest activation token.
pub const MAX_ACTIVATION_TOKEN_BYTES: usize = 4096;

/// How often a claim of the socket is tried.
pub const CLAIM_RETRIES: usize = 8;

/// The file name of the socket.
pub const SOCKET_FILE_NAME: &'static str = "instance.sock";

/// How long the primary waits for a client, in milliseconds.
pub const SERVER_CLIENT_IO_TIMEOUT_MS: u64 = 250;

/// How long a secondary waits for the primary, in milliseconds.
pub const SECONDARY_HANDOFF_TIMEOUT_MS: u64 = 5000;

/// A launch handed over by another instance.
#[derive(PartialEq, Eq)]
pub struct ExternalLaunchRequest {
    /// The token that lets the window take the focus.
    pub activation_token: Option<String>,
    /// What to start.
    pub launch: TerminalLaunchSpec,
}

/// The contents of a launch request.
pub struct RequestModel {
    pub activation_token: Option<Seq<char>>,
    pub launch: launch::LaunchModel,
}

impl View for ExternalLaunchRequest {
    type V = RequestModel;

    open spec fn view(&self) -> RequestModel {
        RequestModel {
            activation_token: match self.activation_token {
                Some(token) => Some(token@),
                None => None,
            },
            launch: self.launch@,
        }
    }
}

impl Default for ExternalLaunchRequest {
    fn default() -> (request: Self)
        ensures
            request@ == (RequestModel { activation_token: None, launch: launch::default_launch() }),
    {
        ExternalLaunchRequest { activation_token: None, launch: TerminalLaunchSpec::default() }
    }
}

impl Clone for ExternalLaunchRequest {
    fn clone(&self) -> (copy: Self)
        ensures
            copy@ == self@,
    {
        ExternalLaunchRequest {
            activation_token: match &self.activation_token {
                Some(token) => Some(token.clone()),
                None => None,
            },
            launch: self.launch.clone(),
        }
    }
}

/// Why a message is refused.
#[derive(Clone, Copy, Debug, PartialEq, Eq, Structural)]
pub enum ProtocolError {
    /// The input ends before the bytes that were announced.
    ShortInput,
    UnsupportedVersion,
    UnsupportedMessage,
    RequestTooLong,
    TruncatedPayload,
    UnknownFlags,
    TokenTooLong,
    UnflaggedWorkingDirectory,
    TruncatedCommand,
    TokenNotUtf8,
    TrailingBytes,
    /// A request to be sent holds a token over the limit.
    OutgoingTokenTooLong,
    /// A request to be sent holds a working directory whose length has no frame.
    OutgoingWorkingDirectoryTooLong,
    /// A request to be sent holds more arguments than can be framed.
    OutgoingTooManyArguments,
    /// A request to be sent holds an argument whose length has no frame.
    OutgoingArgumentTooLong,
    /// The size of a request to be sent cannot be computed.
    OutgoingSizeOverflow,
    /// A request to be sent is over the limit.
    OutgoingRequestTooLong,
    /// An acknowledgement holds other bytes.
    InvalidAck,
}

/// The class of an input/output error.
#[derive(Clone, Copy, Debug, PartialEq, Eq, Structural)]
pub enum ErrorKind {
    UnexpectedEof,
    InvalidData,
    InvalidInput,
    NotFound,
    ConnectionRefused,
    AddrInUse,
    AlreadyExists,
    PermissionDenied,
    WouldBlock,
    NotConnected,
    Other,
}

impl ProtocolError {
    /// The class of the error.
    pub open spec fn spec_kind(self) -> ErrorKind {
        match self {
            ProtocolError::ShortInput => ErrorKind::UnexpectedEof,
            ProtocolError::TruncatedPayload => ErrorKind::UnexpectedEof,
            ProtocolError::TruncatedCommand => ErrorKind::UnexpectedEof,
            ProtocolError::OutgoingTokenTooLong => ErrorKind::InvalidInput,
            ProtocolError::OutgoingWorkingDirectoryTooLong => ErrorKind::InvalidInput,
            ProtocolError::OutgoingTooManyArguments => ErrorKind::InvalidInput,
            ProtocolError::OutgoingArgumentTooLong => ErrorKind::InvalidInput,
            ProtocolError::OutgoingSizeOverflow => ErrorKind::InvalidInput,
            ProtocolError::OutgoingRequestTooLong => ErrorKind::InvalidInput,
            _ => ErrorKind::InvalidData,
        }
    }

    /// The message of the error.
    pub open spec fn spec_message(self) -> Seq<char> {
        match self {
            ProtocolError::ShortInput => "failed to fill whole buffer"@,
            ProtocolError::UnsupportedVersion => "unsupported single-instance protocol version"@,
            ProtocolError::UnsupportedMessage => "unsupported single-instance message type"@,
            ProtocolError::RequestTooLong => "single-instance request exceeds protocol limit"@,
            ProtocolError::TruncatedPayload => "truncated single-instance request payload"@,
            ProtocolError::UnknownFlags => "single-instance request contains unknown flags"@,
            ProtocolError::TokenTooLong =>
                "single-instance activation token exceeds protocol limit"@,
            ProtocolError::UnflaggedWorkingDirectory =>
                "single-instance request has unflagged working directory bytes"@,
            ProtocolError::TruncatedCommand => "truncated single-instance command framing"@,
            ProtocolError::TokenNotUtf8 => "single-instance activation token is not valid UTF-8"@,
            ProtocolError::TrailingBytes =>
                "single-instance request contains trailing payload bytes"@,
            ProtocolError::OutgoingTokenTooLong =>
                "single-instance activation token exceeds protocol limit"@,
            ProtocolError::OutgoingWorkingDirectoryTooLong =>
                "single-instance working directory exceeds protocol framing limit"@,
            ProtocolError::OutgoingTooManyArguments =>
                "single-instance command has too many arguments"@,
            ProtocolError::OutgoingArgumentTooLong =>
                "single-instance command argument exceeds protocol framing limit"@,
            ProtocolError::OutgoingSizeOverflow => "single-instance request size overflow"@,
            ProtocolError::OutgoingRequestTooLong =>
                "single-instance request exceeds protocol limit"@,
            ProtocolError::InvalidAck => "invalid single-instance delivery acknowledgement"@,
        }
    }

    /// The class of the error.
    pub fn kind(self) -> (kind: ErrorKind)
        ensures
            kind == self.spec_kind(),
    {
        match self {
            ProtocolError::ShortInput => ErrorKind::UnexpectedEof,
            ProtocolError::TruncatedPayload => ErrorKind::UnexpectedEof,
            ProtocolError::TruncatedCommand => ErrorKind::UnexpectedEof,
            ProtocolError::OutgoingTokenTooLong => ErrorKind::InvalidInput,
            ProtocolError::OutgoingWorkingDirectoryTooLong => ErrorKind::InvalidInput,
            ProtocolError::OutgoingTooManyArguments => ErrorKind::InvalidInput,
            ProtocolError::OutgoingArgumentTooLong => ErrorKind::InvalidInput,
            ProtocolError::OutgoingSizeOverflow => ErrorKind::InvalidInput,
            ProtocolError::OutgoingRequestTooLong => ErrorKind::InvalidInput,
            _ => ErrorKind::InvalidData,
        }
    }

    /// The message of the error.
    pub fn message(self) -> (message: &'static str)
        ensures
            message@ == self.spec_message(),
    {
        match self {
            ProtocolError::ShortInput => "failed to fill whole buffer",
            ProtocolError::UnsupportedVersion => "unsupported single-instance protocol version",
            ProtocolError::UnsupportedMessage => "unsupported single-instance message type",
            ProtocolError::RequestTooLong => "single-instance request exceeds protocol limit",
            ProtocolError::TruncatedPayload => "truncated single-instance request payload",
            ProtocolError::UnknownFlags => "single-instance request contains unknown flags",
            ProtocolError::TokenTooLong =>
                "single-instance activation token exceeds protocol limit",
            ProtocolError::UnflaggedWorkingDirectory =>
                "single-instance request has unflagged working directory bytes",
            ProtocolError::TruncatedCommand => "truncated single-instance command framing",
            ProtocolError::TokenNotUtf8 => "single-instance activation token is not valid UTF-8",
            ProtocolError::TrailingBytes =>
                "single-instance request contains trailing payload bytes",
            ProtocolError::OutgoingTokenTooLong =>
                "single-instance activation token exceeds protocol limit",
            ProtocolError::OutgoingWorkingDirectoryTooLong =>
                "single-instance working directory exceeds protocol framing limit",
            ProtocolError::OutgoingTooManyArguments =>
                "single-instance command has too many arguments",
            ProtocolError::OutgoingArgumentTooLong =>
                "single-instance command argument exceeds protocol framing limit",
            ProtocolError::OutgoingSizeOverflow => "single-instance request size overflow",
            ProtocolError::OutgoingRequestTooLong =>
                "single-instance request exceeds protocol limit",
            ProtocolError::InvalidAck => "invalid single-instance delivery acknowledgement",
        }
    }
}

/// The bytes of the activation token; none where there is no token.
pub open spec fn token_bytes(request: RequestModel) -> Seq<u8> {
    match request.activation_token {
        Some(token) => encode_utf8(token),
        None => Seq::empty(),
    }
}

/// The bytes of the working directory; none where there is none.
pub open spec fn directory_bytes(request: RequestModel) -> Seq<u8> {
    match request.launch.working_directory {
        Some(path) => path,
        None => Seq::empty(),
    }
}

/// The flag byte of a request.
pub open spec fn request_flags(request: RequestModel) -> u8 {
    match (request.launch.hold, request.launch.working_directory is Some) {
        (false, false) => 0,
        (true, false) => REQUEST_FLAG_HOLD,
        (false, true) => REQUEST_FLAG_WORKING_DIRECTORY,
        (true, true) => REQUEST_KNOWN_FLAGS,
    }
}

/// The arguments of a command, each after its length.
pub open spec fn framed(command: Seq<Seq<u8>>) -> Seq<u8>
    decreases command.len(),
{
    if command.len() == 0 {
        Seq::empty()
    } else {
        bytes::be32(command[0].len() as u32) + command[0] + framed(command.skip(1))
    }
}

/// The payload of a request.
pub open spec fn encoded_payload(request: RequestModel) -> Seq<u8> {
    seq![request_flags(request)] + bytes::be16(token_bytes(request).len() as u16) + bytes::be32(
        directory_bytes(request).len() as u32,
    ) + bytes::be16(request.launch.command.len() as u16) + token_bytes(request) + directory_bytes(
        request,
    ) + framed(request.launch.command)
}

/// A whole launch request message.
pub open spec fn encoded_request(request: RequestModel) -> Seq<u8> {
    seq![PROTOCOL_VERSION, EXTERNAL_LAUNCH_MESSAGE] + bytes::be32(
        encoded_payload(request).len() as u32,
    ) + encoded_payload(request)
}

/// The size of a payload after the arguments of `command`, where `total` bytes come before them, or
/// what is wrong with the first argument that cannot be framed.
pub open spec fn with_arguments(command: Seq<Seq<u8>>, total: int) -> Result<int, ProtocolError>
    decreases command.len(),
{
    if command.len() == 0 {
        Ok(total)
    } else if command[0].len() > u32::MAX {
        Err(ProtocolError::OutgoingArgumentTooLong)
    } else if total + 4 + command[0].len() > usize::MAX {
        Err(ProtocolError::OutgoingSizeOverflow)
    } else {
        with_arguments(command.skip(1), total + 4 + command[0].len())
    }
}

/// The size of a request's payload, or why it cannot be sent.
pub open spec fn payload_size(request: RequestModel) -> Result<int, ProtocolError> {
    let fixed = REQUEST_PAYLOAD_PREFIX_LEN + token_bytes(request).len() + directory_bytes(
        request,
    ).len();
    if token_bytes(request).len() > MAX_ACTIVATION_TOKEN_BYTES {
        Err(ProtocolError::OutgoingTokenTooLong)
    } else if directory_bytes(request).len() > u32::MAX {
        Err(ProtocolError::OutgoingWorkingDirectoryTooLong)
    } else if request.launch.command.len() > u16::MAX {
        Err(ProtocolError::OutgoingTooManyArguments)
    } else if fixed > usize::MAX {
        Err(ProtocolError::OutgoingSizeOverflow)
    } else {
        match with_arguments(request.launch.command, fixed) {
            Err(error) => Err(error),
            Ok(size) => if size > MAX_REQUEST_PAYLOAD_BYTES {
                Err(ProtocolError::OutgoingRequestTooLong)
            } else {
                Ok(size)
            },
        }
    }
}

/// The arguments of a command that can be framed fit their frames, and its size counts the bytes
/// that are framed.
pub proof fn with_arguments_counts(command: Seq<Seq<u8>>, total: int)
    ensures
        with_arguments(command, total) is Ok ==> with_arguments(command, total) == Ok::<
            int,
            ProtocolError,
        >(total + framed(command).len()) && forall|i: int|
            0 <= i < command.len() ==> (#[trigger] command[i]).len() <= u32::MAX,
    decreases command.len(),
{
    if command.len() > 0 && with_arguments(command, total) is Ok {
        let next = total + 4 + command[0].len();
        with_arguments_counts(command.skip(1), next);
        assert forall|i: int| 0 <= i < command.len() implies (#[trigger] command[i]).len()
            <= u32::MAX by {
            if i > 0 {
                assert(command[i] == command.skip(1)[i - 1]);
            }
        }
    }
}

/// The size that is announced is the length of the payload that is sent.
pub proof fn payload_size_is_length(request: RequestModel)
    ensures
        payload_size(request) is Ok ==> payload_size(request)->Ok_0 == encoded_payload(
            request,
        ).len(),
{
    with_arguments_counts(
        request.launch.command,
        REQUEST_PAYLOAD_PREFIX_LEN + token_bytes(request).len() + directory_bytes(request).len(),
    );
}

/// The size of the payload of `request`, or why it cannot be sent.
pub fn request_payload_len(request: &ExternalLaunchRequest) -> (size: Result<usize, ProtocolError>)
    ensures
        match payload_size(request@) {
            Ok(expected) => size is Ok && size->Ok_0 == expected,
            Err(error) => size == Err::<usize, ProtocolError>(error),
        },
{
    let token_len: usize = match &request.activation_token {
        Some(token) => token.as_str().as_bytes().len(),
        None => 0,
    };
    if token_len > MAX_ACTIVATION_TOKEN_BYTES {
        return Err(ProtocolError::OutgoingTokenTooLong);
    }
    let directory_len: usize = match &request.launch.working_directory {
        Some(path) => path.len(),
        None => 0,
    };
    if directory_len > u32::MAX as usize {
        return Err(ProtocolError::OutgoingWorkingDirectoryTooLong);
    }
    if request.launch.command.len() > u16::MAX as usize {
        return Err(ProtocolError::OutgoingTooManyArguments);
    }
    let fixed: Option<usize> = (REQUEST_PAYLOAD_PREFIX_LEN + token_len).checked_add(directory_len);
    let mut payload_len: usize = match fixed {
        Some(len) => len,
        None => {
            return Err(ProtocolError::OutgoingSizeOverflow);
        },
    };
    let ghost command = bytes::views(request.launch.command@);
    let ghost whole = with_arguments(command, payload_len as int);
    let mut i: usize = 0;
    assert(command.skip(0) =~= command);
    while i < request.launch.command.len()
        invariant
            i <= request.launch.command@.len(),
            command == bytes::views(request.launch.command@),
            whole == with_arguments(command.skip(i as int), payload_len as int),
            payload_size(request@) == match whole {
                Err(error) => Err(error),
                Ok(size) => if size > MAX_REQUEST_PAYLOAD_BYTES {
                    Err(ProtocolError::OutgoingRequestTooLong)
                } else {
                    Ok(size)
                },
            },
        decreases request.launch.command@.len() - i,
    {
        let argument_len: usize = request.launch.command[i].len();
        assert(command.skip(i as int)[0].len() == argument_len);
        assert(command.skip(i as int).skip(1) =~= command.skip(i + 1));
        if argument_len > u32::MAX as usize {
            return Err(ProtocolError::OutgoingArgumentTooLong);
        }
        let framed_len: Option<usize> = match payload_len.checked_add(4) {
            Some(len) => len.checked_add(argument_len),
            None => None,
        };
        match framed_len {
            Some(len) => {
                payload_len = len;
            },
            None => {
                return Err(ProtocolError::OutgoingSizeOverflow);
            },
        }
        i += 1;
    }
    if payload_len > MAX_REQUEST_PAYLOAD_BYTES {
        return Err(ProtocolError::OutgoingRequestTooLong);
    }
    Ok(payload_len)
}

/// The message that hands `request` over, or why it cannot be sent.
pub fn write_external_launch_request(request: &ExternalLaunchRequest) -> (message: Result<
    Vec<u8>,
    ProtocolError,
>)
    ensures
        match payload_size(request@) {
            Ok(_) => message is Ok && message->Ok_0@ == encoded_request(request@),
            Err(error) => message == Err::<Vec<u8>, ProtocolError>(error),
        },
{
    let payload_len: usize = match request_payload_len(request) {
        Ok(len) => len,
        Err(error) => {
            return Err(error);
        },
    };
    proof {
        payload_size_is_length(request@);
    }
    let mut flags: u8 = if request.launch.hold {
        REQUEST_FLAG_HOLD
    } else {
        0
    };
    if request.launch.working_directory.is_some() {
        flags = flags + REQUEST_FLAG_WORKING_DIRECTORY;
    }
    let mut out: Vec<u8> = Vec::new();
    out.push(PROTOCOL_VERSION);
    out.push(EXTERNAL_LAUNCH_MESSAGE);
    bytes::append_be32(&mut out, payload_len as u32);
    out.push(flags);
    let token_len: usize = match &request.activation_token {
        Some(token) => token.as_str().as_bytes().len(),
        None => 0,
    };
    bytes::append_be16(&mut out, token_len as u16);
    let directory_len: usize = match &request.launch.working_directory {
        Some(path) => path.len(),
        None => 0,
    };
    bytes::append_be32(&mut out, directory_len as u32);
    bytes::append_be16(&mut out, request.launch.command.len() as u16);
    if let Some(token) = &request.activation_token {
        bytes::append_text(&mut out, token.as_str());
    }
    if let Some(path) = &request.launch.working_directory {
        bytes::append(&mut out, path.as_slice());
    }
    let ghost command = bytes::views(request.launch.command@);
    let ghost whole = out@ + framed(command);
    assert(whole =~= encoded_request(request@));
    assert(command.skip(0) =~= command);
    let mut i: usize = 0;
    while i < request.launch.command.len()
        invariant
            i <= request.launch.command@.len(),
            command == bytes::views(request.launch.command@),
            whole == out@ + framed(command.skip(i as int)),
        decreases request.launch.command@.len() - i,
    {
        let ghost before = out@;
        bytes::append_be32(&mut out, request.launch.command[i].len() as u32);
        bytes::append(&mut out, request.launch.command[i].as_slice());
        proof {
            assert(command.skip(i as int)[0] == command[i as int]);
            assert(command.skip(i as int).skip(1) =~= command.skip(i + 1));
            assert(out@ + framed(command.skip(i + 1)) =~= before + framed(command.skip(i as int)));
        }
        i += 1;
    }
    assert(out@ =~= whole);
    Ok(out)
}

/// The first `count` framed arguments of `payload` and the bytes after them, or what is wrong.
pub open spec fn unframed(payload: Seq<u8>, count: nat) -> Result<
    (Seq<Seq<u8>>, Seq<u8>),
    ProtocolError,
>
    decreases count,
{
    if count == 0 {
        Ok((Seq::empty(), payload))
    } else if payload.len() < 4 {
        Err(ProtocolError::TruncatedPayload)
    } else {
        let len = bytes::from_be32(payload.take(4)) as int;
        if payload.len() < 4 + len {
            Err(ProtocolError::TruncatedPayload)
        } else {
            match unframed(payload.skip(4 + len), (count - 1) as nat) {
                Err(error) => Err(error),
                Ok((command, rest)) => Ok(
                    (seq![payload.subrange(4, 4 + len)] + command, rest),
                ),
            }
        }
    }
}

/// The request that a payload holds, or why it is refused.
pub open spec fn decoded_payload(payload: Seq<u8>) -> Result<RequestModel, ProtocolError> {
    let token_len = bytes::from_be16(payload.subrange(1, 3)) as int;
    let directory_len = bytes::from_be32(payload.subrange(3, 7)) as int;
    let command_len = bytes::from_be16(payload.subrange(7, 9)) as nat;
    let token = payload.subrange(9, 9 + token_len);
    let directory = payload.subrange(9 + token_len, 9 + token_len + directory_len);
    let arguments = payload.skip(9 + token_len + directory_len);
    let has_directory = payload[0] & REQUEST_FLAG_WORKING_DIRECTORY != 0;
    if payload.len() < 1 {
        Err(ProtocolError::TruncatedPayload)
    } else if payload[0] > REQUEST_KNOWN_FLAGS {
        Err(ProtocolError::UnknownFlags)
    } else if payload.len() < 3 {
        Err(ProtocolError::TruncatedPayload)
    } else if token_len > MAX_ACTIVATION_TOKEN_BYTES {
        Err(ProtocolError::TokenTooLong)
    } else if payload.len() < 9 + token_len + directory_len || payload.len() < 9 {
        Err(ProtocolError::TruncatedPayload)
    } else if !has_directory && directory_len > 0 {
        Err(ProtocolError::UnflaggedWorkingDirectory)
    } else if arguments.len() < 4 * command_len {
        Err(ProtocolError::TruncatedCommand)
    } else if token_len > 0 && !valid_utf8(token) {
        Err(ProtocolError::TokenNotUtf8)
    } else {
        match unframed(arguments, command_len) {
            Err(error) => Err(error),
            Ok((command, rest)) => if rest.len() > 0 {
                Err(ProtocolError::TrailingBytes)
            } else {
                Ok(
                    RequestModel {
                        activation_token: if token_len > 0 {
                            Some(decode_utf8(token))
                        } else {
                            None
                        },
                        launch: launch::LaunchModel {
                            working_directory: if has_directory {
                                Some(directory)
                            } else {
                                None
                            },
                            command,
                            hold: payload[0] & REQUEST_FLAG_HOLD != 0,
                        },
                    },
                )
            },
        }
    }
}

/// The length of the payload that a header announces, or why it is refused.
pub open spec fn announced_len(header: Seq<u8>) -> Result<int, ProtocolError> {
    if header.len() < REQUEST_HEADER_LEN {
        Err(ProtocolError::ShortInput)
    } else if header[0] != PROTOCOL_VERSION {
        Err(ProtocolError::UnsupportedVersion)
    } else if header[1] != EXTERNAL_LAUNCH_MESSAGE {
        Err(ProtocolError::UnsupportedMessage)
    } else if bytes::from_be32(header.subrange(2, 6)) > MAX_REQUEST_PAYLOAD_BYTES {
        Err(ProtocolError::RequestTooLong)
    } else {
        Ok(bytes::from_be32(header.subrange(2, 6)) as int)
    }
}

/// The request at the start of `input`, or why it is refused.
pub open spec fn decoded_request(input: Seq<u8>) -> Result<RequestModel, ProtocolError> {
    match announced_len(input) {
        Err(error) => Err(error),
        Ok(len) => if input.len() < REQUEST_HEADER_LEN + len {
            Err(ProtocolError::ShortInput)
        } else {
            decoded_payload(input.subrange(REQUEST_HEADER_LEN as int, REQUEST_HEADER_LEN + len))
        },
    }
}

/// The contents of a read result.
pub open spec fn request_view(read: Result<ExternalLaunchRequest, ProtocolError>) -> Result<
    RequestModel,
    ProtocolError,
> {
    match read {
        Ok(request) => Ok(request@),
        Err(error) => Err(error),
    }
}

/// Takes `len` bytes off the front of `payload`.
pub fn take_payload_bytes<'a>(payload: &mut &'a [u8], len: usize) -> (taken: Result<
    &'a [u8],
    ProtocolError,
>)
    ensures
        old(payload)@.len() < len ==> taken == Err::<&[u8], ProtocolError>(
            ProtocolError::TruncatedPayload,
        ) && final(payload)@ == old(payload)@,
        old(payload)@.len() >= len ==> taken is Ok && taken->Ok_0@ == old(payload)@.take(
            len as int,
        ) && final(payload)@ == old(payload)@.skip(len as int),
{
    if payload.len() < len {
        return Err(ProtocolError::TruncatedPayload);
    }
    let (value, remaining) = payload.split_at(len);
    *payload = remaining;
    Ok(value)
}

/// Takes one byte off the front of `payload`.
pub fn take_payload_u8(payload: &mut &[u8]) -> (taken: Result<u8, ProtocolError>)
    ensures
        old(payload)@.len() < 1 ==> taken == Err::<u8, ProtocolError>(
            ProtocolError::TruncatedPayload,
        ) && final(payload)@ == old(payload)@,
        old(payload)@.len() >= 1 ==> taken == Ok::<u8, ProtocolError>(old(payload)@[0])
            && final(payload)@ == old(payload)@.skip(1),
{
    match take_payload_bytes(payload, 1) {
        Ok(taken) => Ok(taken[0]),
        Err(error) => Err(error),
    }
}

/// Takes a big-endian number of two bytes off the front of `payload`.
pub fn take_payload_u16(payload: &mut &[u8]) -> (taken: Result<u16, ProtocolError>)
    ensures
        old(payload)@.len() < 2 ==> taken == Err::<u16, ProtocolError>(
            ProtocolError::TruncatedPayload,
        ) && final(payload)@ == old(payload)@,
        old(payload)@.len() >= 2 ==> taken == Ok::<u16, ProtocolError>(
            bytes::from_be16(old(payload)@.take(2)),
        ) && final(payload)@ == old(payload)@.skip(2),
{
    match take_payload_bytes(payload, 2) {
        Ok(taken) => Ok(bytes::read_be16(taken)),
        Err(error) => Err(error),
    }
}

/// Takes a big-endian number of four bytes off the front of `payload`.
pub fn take_payload_u32(payload: &mut &[u8]) -> (taken: Result<u32, ProtocolError>)
    ensures
        old(payload)@.len() < 4 ==> taken == Err::<u32, ProtocolError>(
            ProtocolError::TruncatedPayload,
        ) && final(payload)@ == old(payload)@,
        old(payload)@.len() >= 4 ==> taken == Ok::<u32, ProtocolError>(
            bytes::from_be32(old(payload)@.take(4)),
        ) && final(payload)@ == old(payload)@.skip(4),
{
    match take_payload_bytes(payload, 4) {
        Ok(taken) => Ok(bytes::read_be32(taken)),
        Err(error) => Err(error),
    }
}

/// The arguments that start `payload`, and the bytes after them.
fn read_arguments<'a>(payload: &'a [u8], count: usize) -> (read: Result<
    (Vec<Vec<u8>>, &'a [u8]),
    ProtocolError,
>)
    ensures
        match unframed(payload@, count as nat) {
            Ok((command, rest)) => read is Ok && bytes::views(read->Ok_0.0@) == command
                && read->Ok_0.1@ == rest,
            Err(error) => read == Err::<(Vec<Vec<u8>>, &[u8]), ProtocolError>(error),
        },
{
    let mut rest: &'a [u8] = payload;
    let mut command: Vec<Vec<u8>> = Vec::new();
    let mut i: usize = 0;
    assert(bytes::views(command@) =~= Seq::empty());
    while i < count
        invariant
            i <= count,
            match unframed(rest@, (count - i) as nat) {
                Ok((more, end)) => unframed(payload@, count as nat) == Ok::<
                    (Seq<Seq<u8>>, Seq<u8>),
                    ProtocolError,
                >((bytes::views(command@) + more, end)),
                Err(error) => unframed(payload@, count as nat) == Err::<
                    (Seq<Seq<u8>>, Seq<u8>),
                    ProtocolError,
                >(error),
            },
        decreases count - i,
    {
        let ghost start = rest@;
        let ghost so_far = bytes::views(command@);
        let len: usize = match take_payload_u32(&mut rest) {
            Ok(len) => len as usize,
            Err(error) => {
                return Err(error);
            },
        };
        let argument = match take_payload_bytes(&mut rest, len) {
            Ok(argument) => argument,
            Err(error) => {
                return Err(error);
            },
        };
        command.push(bytes::copy(argument));
        proof {
            assert(rest@ =~= start.skip(4 + len));
            assert(argument@ =~= start.subrange(4, 4 + len));
            assert(bytes::views(command@) =~= so_far.push(argument@));
            if let Ok((more, end)) = unframed(rest@, (count - i - 1) as nat) {
                assert(so_far + (seq![argument@] + more) =~= bytes::views(command@) + more);
            }
        }
        i += 1;
    }
    assert(bytes::views(command@) + Seq::empty() =~= bytes::views(command@));
    Ok((command, rest))
}

/// The request that a payload holds, or why it is refused.
pub fn parse_request_payload(input: &[u8]) -> (read: Result<ExternalLaunchRequest, ProtocolError>)
    ensures
        request_view(read) == decoded_payload(input@),
{
    let mut payload: &[u8] = input;
    let flags: u8 = match take_payload_u8(&mut payload) {
        Ok(flags) => flags,
        Err(error) => {
            return Err(error);
        },
    };
    if flags > REQUEST_KNOWN_FLAGS {
        return Err(ProtocolError::UnknownFlags);
    }
    let token_len: usize = match take_payload_u16(&mut payload) {
        Ok(len) => len as usize,
        Err(error) => {
            return Err(error);
        },
    };
    assert(input@.skip(1).take(2) =~= input@.subrange(1, 3));
    if token_len > MAX_ACTIVATION_TOKEN_BYTES {
        return Err(ProtocolError::TokenTooLong);
    }
    assert(payload@ =~= input@.skip(3));
    let directory_len: usize = match take_payload_u32(&mut payload) {
        Ok(len) => len as usize,
        Err(error) => {
            return Err(error);
        },
    };
    assert(input@.skip(3).take(4) =~= input@.subrange(3, 7));
    assert(payload@ =~= input@.skip(7));
    let command_len: usize = match take_payload_u16(&mut payload) {
        Ok(len) => len as usize,
        Err(error) => {
            return Err(error);
        },
    };
    assert(input@.skip(7).take(2) =~= input@.subrange(7, 9));
    assert(payload@ =~= input@.skip(9));
    let token = match take_payload_bytes(&mut payload, token_len) {
        Ok(token) => token,
        Err(error) => {
            return Err(error);
        },
    };
    assert(token@ =~= input@.subrange(9, 9 + token_len));
    assert(payload@ =~= input@.skip(9 + token_len));
    let directory = match take_payload_bytes(&mut payload, directory_len) {
        Ok(directory) => directory,
        Err(error) => {
            return Err(error);
        },
    };
    assert(directory@ =~= input@.subrange(9 + token_len, 9 + token_len + directory_len));
    assert(payload@ =~= input@.skip(9 + token_len + directory_len));
    let has_directory = flags & REQUEST_FLAG_WORKING_DIRECTORY != 0;
    if !has_directory && directory.len() > 0 {
        return Err(ProtocolError::UnflaggedWorkingDirectory);
    }
    if command_len * 4 > payload.len() {
        return Err(ProtocolError::TruncatedCommand);
    }
    let activation_token: Option<String> = if token.len() == 0 {
        None
    } else {
        match text::utf8_text(bytes::copy(token)) {
            Some(token) => Some(token),
            None => {
                return Err(ProtocolError::TokenNotUtf8);
            },
        }
    };
    let (command, rest) = match read_arguments(payload, command_len) {
        Ok(read) => read,
        Err(error) => {
            return Err(error);
        },
    };
    if rest.len() > 0 {
        return Err(ProtocolError::TrailingBytes);
    }
    let working_directory: Option<Vec<u8>> = if has_directory {
        Some(bytes::copy(directory))
    } else {
        None
    };
    Ok(
        ExternalLaunchRequest {
            activation_token,
            launch: TerminalLaunchSpec {
                working_directory,
                command,
                hold: flags & REQUEST_FLAG_HOLD != 0,
            },
        },
    )
}

/// The length of the payload that a header announces, or why it is refused.
pub fn parse_request_header(header: &[u8]) -> (len: Result<usize, ProtocolError>)
    ensures
        match announced_len(header@) {
            Ok(expected) => len is Ok && len->Ok_0 == expected,
            Err(error) => len == Err::<usize, ProtocolError>(error),
        },
{
    if header.len() < REQUEST_HEADER_LEN {
        return Err(ProtocolError::ShortInput);
    }
    if header[0] != PROTOCOL_VERSION {
        return Err(ProtocolError::UnsupportedVersion);
    }
    if header[1] != EXTERNAL_LAUNCH_MESSAGE {
        return Err(ProtocolError::UnsupportedMessage);
    }
    let len: u32 = bytes::read_be32(vstd::slice::slice_subrange(header, 2, 6));
    if len as usize > MAX_REQUEST_PAYLOAD_BYTES {
        return Err(ProtocolError::RequestTooLong);
    }
    Ok(len as usize)
}

/// The request at the start of `input`, or why it is refused. Bytes after it stay unread.
pub fn read_external_launch_request(input: &[u8]) -> (read: Result<
    ExternalLaunchRequest,
    ProtocolError,
>)
    ensures
        request_view(read) == decoded_request(input@),
{
    let len: usize = match parse_request_header(input) {
        Ok(len) => len,
        Err(error) => {
            return Err(error);
        },
    };
    if input.len() < REQUEST_HEADER_LEN + len {
        return Err(ProtocolError::ShortInput);
    }
    parse_request_payload(
        vstd::slice::slice_subrange(input, REQUEST_HEADER_LEN, REQUEST_HEADER_LEN + len),
    )
}

/// What a request is read back as: an empty token is no token.
pub open spec fn normalized(request: RequestModel) -> RequestModel {
    RequestModel {
        activation_token: match request.activation_token {
            Some(token) => if token.len() == 0 {
                None
            } else {
                Some(token)
            },
            None => None,
        },
        launch: request.launch,
    }
}

/// Framed arguments are read back, and what follows them is left.
proof fn unframed_framed(command: Seq<Seq<u8>>, tail: Seq<u8>)
    requires
        forall|i: int| 0 <= i < command.len() ==> (#[trigger] command[i]).len() <= u32::MAX,
    ensures
        unframed(framed(command) + tail, command.len()) == Ok::<
            (Seq<Seq<u8>>, Seq<u8>),
            ProtocolError,
        >((command, tail)),
        framed(command).len() >= 4 * command.len(),
    decreases command.len(),
{
    if command.len() == 0 {
        assert(framed(command) + tail =~= tail);
        assert(command =~= Seq::empty());
    } else {
        let first = command[0];
        let others = command.skip(1);
        let payload = framed(command) + tail;
        assert forall|i: int| 0 <= i < others.len() implies (#[trigger] others[i]).len()
            <= u32::MAX by {
            assert(others[i] == command[i + 1]);
        }
        unframed_framed(others, tail);
        bytes::be32_round_trip(first.len() as u32);
        assert(payload.take(4) =~= bytes::be32(first.len() as u32));
        assert(payload.subrange(4, 4 + first.len() as int) =~= first);
        assert(payload.skip(4 + first.len() as int) =~= framed(others) + tail);
        assert(seq![first] + others =~= command);
    }
}

/// Arguments that were read are framed as they were read.
proof fn framed_unframed(payload: Seq<u8>, count: nat)
    requires
        unframed(payload, count) is Ok,
    ensures
        framed(unframed(payload, count)->Ok_0.0) + unframed(payload, count)->Ok_0.1 == payload,
        unframed(payload, count)->Ok_0.0.len() == count,
        forall|i: int|
            0 <= i < count ==> (#[trigger] unframed(payload, count)->Ok_0.0[i]).len() <= u32::MAX,
    decreases count,
{
    let (command, rest) = unframed(payload, count)->Ok_0;
    if count == 0 {
        assert(framed(command) + rest =~= payload);
    } else {
        let len = bytes::from_be32(payload.take(4)) as int;
        let first = payload.subrange(4, 4 + len);
        let after = payload.skip(4 + len);
        framed_unframed(after, (count - 1) as nat);
        let others = unframed(after, (count - 1) as nat)->Ok_0.0;
        assert(command =~= seq![first] + others);
        assert(command.skip(1) =~= others);
        bytes::from_be32_round_trip(payload.take(4));
        assert(command[0] == first && first.len() == len);
        assert(framed(command) == payload.take(4) + first + framed(others));
        assert(after == framed(others) + rest);
        assert(payload =~= payload.take(4) + first + after);
        assert(framed(command) + rest =~= payload.take(4) + first + (framed(others) + rest));
        assert forall|i: int| 0 <= i < count implies (#[trigger] command[i]).len()
            <= u32::MAX by {
            if i > 0 {
                assert(command[i] == others[i - 1]);
            }
        }
    }
}

proof fn flag_bits()
    ensures
        0u8 & REQUEST_FLAG_HOLD == 0,
        0u8 & REQUEST_FLAG_WORKING_DIRECTORY == 0,
        REQUEST_FLAG_HOLD & REQUEST_FLAG_HOLD != 0,
        REQUEST_FLAG_HOLD & REQUEST_FLAG_WORKING_DIRECTORY == 0,
        REQUEST_FLAG_WORKING_DIRECTORY & REQUEST_FLAG_HOLD == 0,
        REQUEST_FLAG_WORKING_DIRECTORY & REQUEST_FLAG_WORKING_DIRECTORY != 0,
        REQUEST_KNOWN_FLAGS & REQUEST_FLAG_HOLD != 0,
        REQUEST_KNOWN_FLAGS & REQUEST_FLAG_WORKING_DIRECTORY != 0,
{
    assert(0u8 & 1 == 0 && 0u8 & 2 == 0 && 1u8 & 1 == 1 && 1u8 & 2 == 0 && 2u8 & 1 == 0 && 2u8 & 2
        == 2 && 3u8 & 1 == 1 && 3u8 & 2 == 2) by (bit_vector);
}

/// Every known flag byte is one that a request has.
proof fn known_flags_are_bits(flags: u8)
    requires
        flags <= REQUEST_KNOWN_FLAGS,
    ensures
        flags == (if flags & REQUEST_FLAG_HOLD != 0 {
            REQUEST_FLAG_HOLD
        } else {
            0u8
        }) + (if flags & REQUEST_FLAG_WORKING_DIRECTORY != 0 {
            REQUEST_FLAG_WORKING_DIRECTORY
        } else {
            0u8
        }),
{
    assert(flags <= 3 ==> flags == (if flags & 1 != 0 {
        1u8
    } else {
        0u8
    }) + (if flags & 2 != 0 {
        2u8
    } else {
        0u8
    })) by (bit_vector);
}

/// The payload of a request that can be sent is read back as the request.
pub proof fn payload_round_trips(request: RequestModel)
    requires
        payload_size(request) is Ok,
    ensures
        decoded_payload(encoded_payload(request)) == Ok::<RequestModel, ProtocolError>(
            normalized(request),
        ),
{
    let payload = encoded_payload(request);
    let token = token_bytes(request);
    let directory = directory_bytes(request);
    let command = request.launch.command;
    with_arguments_counts(
        command,
        REQUEST_PAYLOAD_PREFIX_LEN + token.len() + directory.len(),
    );
    flag_bits();
    assert(payload[0] == request_flags(request));
    bytes::be16_round_trip(token.len() as u16);
    assert(payload.subrange(1, 3) =~= bytes::be16(token.len() as u16));
    bytes::be32_round_trip(directory.len() as u32);
    assert(payload.subrange(3, 7) =~= bytes::be32(directory.len() as u32));
    bytes::be16_round_trip(command.len() as u16);
    assert(payload.subrange(7, 9) =~= bytes::be16(command.len() as u16));
    assert(payload.subrange(9, 9 + token.len() as int) =~= token);
    assert(payload.subrange(9 + token.len() as int, 9 + token.len() as int + directory.len())
        =~= directory);
    assert(payload.skip(9 + token.len() as int + directory.len()) =~= framed(command) + Seq::empty());
    unframed_framed(command, Seq::empty());
    if let Some(chars) = request.activation_token {
        encode_utf8_valid_utf8(chars);
        encode_utf8_decode_utf8(chars);
        if token.len() == 0 {
            assert(token =~= Seq::empty());
            assert(decode_utf8(token) =~= Seq::empty());
        }
    }
}

/// What is written is read back: any request that can be sent, whatever follows it, up to an empty
/// token, which is no token.
pub proof fn request_round_trips(request: RequestModel, following: Seq<u8>)
    requires
        payload_size(request) is Ok,
    ensures
        decoded_request(encoded_request(request) + following) == Ok::<RequestModel, ProtocolError>(
            normalized(request),
        ),
{
    let payload = encoded_payload(request);
    let input = encoded_request(request) + following;
    payload_size_is_length(request);
    payload_round_trips(request);
    bytes::be32_round_trip(payload.len() as u32);
    assert(input.subrange(2, 6) =~= bytes::be32(payload.len() as u32));
    assert(input.subrange(6, 6 + payload.len() as int) =~= payload);
}

/// No two payloads are read as the same request: what was read is written as it was read.
pub proof fn payload_reading_is_exact(payload: Seq<u8>)
    requires
        decoded_payload(payload) is Ok,
    ensures
        encoded_payload(decoded_payload(payload)->Ok_0) == payload,
{
    let request = decoded_payload(payload)->Ok_0;
    let token_len = bytes::from_be16(payload.subrange(1, 3)) as int;
    let directory_len = bytes::from_be32(payload.subrange(3, 7)) as int;
    let command_len = bytes::from_be16(payload.subrange(7, 9)) as nat;
    let arguments = payload.skip(9 + token_len + directory_len);
    bytes::from_be16_round_trip(payload.subrange(1, 3));
    bytes::from_be32_round_trip(payload.subrange(3, 7));
    bytes::from_be16_round_trip(payload.subrange(7, 9));
    framed_unframed(arguments, command_len);
    known_flags_are_bits(payload[0]);
    let token = payload.subrange(9, 9 + token_len);
    if token_len > 0 {
        decode_utf8_encode_utf8(token);
    }
    assert(token_bytes(request) =~= token);
    assert(directory_bytes(request) =~= payload.subrange(
        9 + token_len,
        9 + token_len + directory_len,
    ));
    assert(framed(request.launch.command) =~= arguments);
    assert(encoded_payload(request) =~= payload);
}

/// The acknowledgement of a delivered request.
pub fn write_delivery_ack() -> (ack: Vec<u8>)
    ensures
        ack@ == seq![PROTOCOL_VERSION, DELIVERY_ACK_MESSAGE],
{
    let mut ack: Vec<u8> = Vec::new();
    ack.push(PROTOCOL_VERSION);
    ack.push(DELIVERY_ACK_MESSAGE);
    assert(ack@ =~= seq![PROTOCOL_VERSION, DELIVERY_ACK_MESSAGE]);
    ack
}

/// Whether `input` starts with an acknowledgement.
pub open spec fn ack_read(input: Seq<u8>) -> Result<(), ProtocolError> {
    if input.len() < DELIVERY_ACK_LEN {
        Err(ProtocolError::ShortInput)
    } else if input.take(2) != seq![PROTOCOL_VERSION, DELIVERY_ACK_MESSAGE] {
        Err(ProtocolError::InvalidAck)
    } else {
        Ok(())
    }
}

/// Reads an acknowledgement: a delivery counts only where one has arrived.
pub fn read_delivery_ack(input: &[u8]) -> (read: Result<(), ProtocolError>)
    ensures
        read == ack_read(input@),
{
    if input.len() < DELIVERY_ACK_LEN {
        return Err(ProtocolError::ShortInput);
    }
    if input[0] != PROTOCOL_VERSION || input[1] != DELIVERY_ACK_MESSAGE {
        assert(input@.take(2)[0] == input@[0] && input@.take(2)[1] == input@[1]);
        return Err(ProtocolError::InvalidAck);
    }
    assert(input@.take(2) =~= seq![PROTOCOL_VERSION, DELIVERY_ACK_MESSAGE]);
    Ok(())
}

/// The acknowledgement that is written is accepted where it is read, whatever follows it.
pub proof fn ack_round_trips(following: Seq<u8>)
    ensures
        ack_read(seq![PROTOCOL_VERSION, DELIVERY_ACK_MESSAGE] + following) == Ok::<
            (),
            ProtocolError,
        >(()),
{
    assert((seq![PROTOCOL_VERSION, DELIVERY_ACK_MESSAGE] + following).take(2)
        =~= seq![PROTOCOL_VERSION, DELIVERY_ACK_MESSAGE]);
}

/// The bytes that answer a client: an acknowledgement where its request was read and taken, nothing
/// otherwise.
pub fn answer_client(read: &Result<ExternalLaunchRequest, ProtocolError>, taken: bool) -> (answer:
    Option<Vec<u8>>)
    ensures
        answer is Some <==> read is Ok && taken,
        answer is Some ==> answer->0@ == seq![PROTOCOL_VERSION, DELIVERY_ACK_MESSAGE],
{
    if read.is_ok() && taken {
        Some(write_delivery_ack())
    } else {
        None
    }
}

impl ExternalLaunchRequest {
    /// A description of the request for logs, which shows neither the token nor the launch.
    pub fn debug_text(&self) -> (description: String)
        ensures
            description@ == match self.activation_token {
                Some(_) => "ExternalLaunchRequest { activation_token: Some(\"<redacted>\") }"@,
                None => "ExternalLaunchRequest { activation_token: None }"@,
            },
    {
        match &self.activation_token {
            Some(_) => "ExternalLaunchRequest { activation_token: Some(\"<redacted>\") }".to_owned(),
            None => "ExternalLaunchRequest { activation_token: None }".to_owned(),
        }
    }
}

/// The activation token that the environment gives, and whether the variable is to be cleared. A
/// token that is empty or not text is no token; the variable is cleared whenever it is set.
pub fn take_activation_token_with(value: Option<Vec<u8>>) -> (taken: (Option<String>, bool))
    ensures
        taken.1 == (value is Some),
        taken.0 is Some <==> value is Some && value->0@.len() > 0 && valid_utf8(value->0@),
        taken.0 is Some ==> taken.0->0@ == decode_utf8(value->0@),
{
    match value {
        Some(value) => {
            if value.len() == 0 {
                (None, true)
            } else {
                (text::utf8_text(value), true)
            }
        },
        None => (None, false),
    }
}

/// The runtime directory below the one that the environment gives, where it gives one.
pub fn preferred_runtime_dir(value: Option<Vec<u8>>) -> (directory: Option<Vec<u8>>)
    ensures
        directory is Some <==> value is Some && value->0@.len() > 0,
        directory is Some ==> directory->0@ == launch::joined(value->0@, encode_utf8("ronsole"@)),
{
    match value {
        Some(value) => {
            if value.len() == 0 {
                None
            } else {
                Some(launch::join_path(value.as_slice(), "ronsole".as_bytes()))
            }
        },
        None => None,
    }
}

/// The runtime directory of a user where the environment gives none.
pub fn fallback_runtime_dir(uid: u32) -> (directory: String)
    ensures
        directory@ == "/tmp/ronsole-runtime-"@ + text::decimal(uid as nat),
{
    let mut directory = "/tmp/ronsole-runtime-".to_owned();
    text::push_decimal(&mut directory, uid as u64);
    directory
}

/// `path` without the separators and `.` components at its end.
pub open spec fn trimmed_path(path: Seq<u8>) -> Seq<u8>
    decreases path.len(),
{
    if path.len() > 1 && path.last() == 0x2f {
        trimmed_path(path.drop_last())
    } else if path.len() > 1 && path.last() == 0x2e && path[path.len() - 2] == 0x2f {
        trimmed_path(path.drop_last())
    } else {
        path
    }
}

/// The number of bytes of `path` up to the last separator, with it.
pub open spec fn directory_part(path: Seq<u8>) -> int
    decreases path.len(),
{
    if path.len() == 0 || path.last() == 0x2f {
        path.len() as int
    } else {
        directory_part(path.drop_last())
    }
}

/// Whether a path component names a file: it is neither empty, nor `.`, nor `..`.
pub open spec fn names_file(component: Seq<u8>) -> bool {
    component.len() > 0 && component != seq![0x2eu8] && component != seq![0x2eu8, 0x2eu8]
}

/// `path` with its file name replaced by `name`; where it has no file name, `name` below it.
pub open spec fn with_file_name(path: Seq<u8>, name: Seq<u8>) -> Seq<u8> {
    let trimmed = trimmed_path(path);
    let start = directory_part(trimmed);
    if names_file(trimmed.skip(start)) {
        trimmed.take(start) + name
    } else {
        launch::joined(path, name)
    }
}

/// The path of the lock that guards the claim of a socket: a file beside it.
pub fn startup_lock_path(socket_path: &[u8]) -> (path: Vec<u8>)
    ensures
        path@ == with_file_name(socket_path@, encode_utf8("instance.lock"@)),
{
    let mut end: usize = socket_path.len();
    assert(socket_path@.take(end as int) =~= socket_path@);
    while end > 1 && (socket_path[end - 1] == 0x2f || (socket_path[end - 1] == 0x2e
        && socket_path[end - 2] == 0x2f))
        invariant
            end <= socket_path@.len(),
            trimmed_path(socket_path@) == trimmed_path(socket_path@.take(end as int)),
        decreases end,
    {
        assert(socket_path@.take(end as int).drop_last() =~= socket_path@.take(end - 1));
        end -= 1;
    }
    let ghost trimmed = socket_path@.take(end as int);
    assert(trimmed_path(socket_path@) == trimmed);
    let mut start: usize = end;
    assert(trimmed.take(start as int) =~= trimmed);
    while start > 0 && socket_path[start - 1] != 0x2f
        invariant
            start <= end <= socket_path@.len(),
            trimmed == socket_path@.take(end as int),
            directory_part(trimmed) == directory_part(trimmed.take(start as int)),
        decreases start,
    {
        assert(trimmed.take(start as int).drop_last() =~= trimmed.take(start - 1));
        start -= 1;
    }
    assert(directory_part(trimmed) == start);
    let name = vstd::slice::slice_subrange(socket_path, start, end);
    assert(name@ =~= trimmed.skip(start as int));
    let dots = (name.len() == 1 && name[0] == 0x2e) || (name.len() == 2 && name[0] == 0x2e
        && name[1] == 0x2e);
    proof {
        if dots {
            assert(name@ =~= seq![0x2eu8] || name@ =~= seq![0x2eu8, 0x2eu8]);
        } else {
            assert(name@ == seq![0x2eu8] ==> name@.len() == 1 && name@[0] == 0x2e);
            assert(name@ == seq![0x2eu8, 0x2eu8] ==> name@.len() == 2 && name@[0] == 0x2e && name@[1]
                == 0x2e);
        }
    }
    if name.len() > 0 && !dots {
        let mut path = bytes::copy(vstd::slice::slice_subrange(socket_path, 0, start));
        assert(path@ =~= trimmed.take(start as int));
        bytes::append_text(&mut path, "instance.lock");
        path
    } else {
        launch::join_path(socket_path, "instance.lock".as_bytes())
    }
}

/// Why a path cannot be the runtime directory, given what it is and who owns it.
pub fn runtime_dir_refusal(path: &[u8], is_dir: bool, owner: u32, uid: u32) -> (refusal: Option<
    (ErrorKind, String),
>)
    ensures
        refusal is None <==> is_dir && owner == uid,
        !is_dir ==> (refusal matches Some((kind, message)) && kind == ErrorKind::InvalidInput
            && message@ == "runtime path is not a directory: "@ + text::lossy(path@)),
        is_dir && owner != uid ==> (refusal matches Some((kind, message)) && kind
            == ErrorKind::PermissionDenied && message@
            == "runtime directory is not owned by the current user: "@ + text::lossy(path@)),
{
    let shown = text::lossy_text(path);
    if !is_dir {
        return Some(
            (
                ErrorKind::InvalidInput,
                text::concat("runtime path is not a directory: ", shown.as_str()),
            ),
        );
    }
    if owner != uid {
        return Some(
            (
                ErrorKind::PermissionDenied,
                text::concat(
                    "runtime directory is not owned by the current user: ",
                    shown.as_str(),
                ),
            ),
        );
    }
    None
}

/// What was found at the path of a socket that no one answers.
#[derive(Clone, Copy, Debug, PartialEq, Eq, Structural)]
pub enum SocketLookup {
    /// Nothing.
    Missing,
    /// The path could not be looked up.
    Failed(ErrorKind),
    /// Something, with its owner.
    Found { is_socket: bool, owner: u32 },
}

/// What to do about a socket that no one answers.
#[derive(Debug, PartialEq, Eq)]
pub enum StaleSocketAction {
    /// Nothing is in the way.
    Proceed,
    /// The socket is removed.
    Remove,
    /// The lookup's own error is reported.
    Fail(ErrorKind),
    /// The path is left alone, for the reason given.
    Refuse(ErrorKind, String),
}

/// What to do about a socket that no one answers. Only a socket of the user's own is ever removed.
pub fn stale_socket_action(path: &[u8], lookup: SocketLookup, uid: u32) -> (action:
    StaleSocketAction)
    ensures
        match lookup {
            SocketLookup::Missing => action is Proceed,
            SocketLookup::Failed(kind) => action == StaleSocketAction::Fail(kind),
            SocketLookup::Found { is_socket, owner } => if !is_socket {
                action matches StaleSocketAction::Refuse(kind, message) && kind
                    == ErrorKind::AlreadyExists && message@
                    == "single-instance path is not a socket: "@ + text::lossy(path@)
            } else if owner != uid {
                action matches StaleSocketAction::Refuse(kind, message) && kind
                    == ErrorKind::PermissionDenied && message@
                    == "single-instance socket is not owned by the current user: "@ + text::lossy(
                    path@,
                )
            } else {
                action is Remove
            },
        },
{
    match lookup {
        SocketLookup::Missing => StaleSocketAction::Proceed,
        SocketLookup::Failed(kind) => StaleSocketAction::Fail(kind),
        SocketLookup::Found { is_socket, owner } => {
            let shown = text::lossy_text(path);
            if !is_socket {
                StaleSocketAction::Refuse(
                    ErrorKind::AlreadyExists,
                    text::concat("single-instance path is not a socket: ", shown.as_str()),
                )
            } else if owner != uid {
                StaleSocketAction::Refuse(
                    ErrorKind::PermissionDenied,
                    text::concat(
                        "single-instance socket is not owned by the current user: ",
                        shown.as_str(),
                    ),
                )
            } else {
                StaleSocketAction::Remove
            }
        },
    }
}

/// Which file on disk a socket is.
#[derive(Clone, Copy, Debug, PartialEq, Eq, Structural)]
pub struct SocketIdentity {
    pub device: u64,
    pub inode: u64,
}

/// Whether the file found at the socket's path on the way out is still the socket that this
/// instance made, and so is to be removed.
pub fn owns_socket(is_socket: bool, found: SocketIdentity, identity: SocketIdentity) -> (owns: bool)
    ensures
        owns == (is_socket && found == identity),
{
    is_socket && found.device == identity.device && found.inode == identity.inode
}

/// Why the listener cannot be started, given whether one runs and whether there is a socket to
/// listen on.
pub fn listener_refusal(running: bool, available: bool) -> (refusal: Option<
    (ErrorKind, &'static str),
>)
    ensures
        running ==> (refusal matches Some((kind, message)) && kind == ErrorKind::AlreadyExists
            && message@ == "single-instance listener is already running"@),
        !running && !available ==> (refusal matches Some((kind, message)) && kind
            == ErrorKind::NotConnected && message@ == "single-instance listener is unavailable"@),
        !running && available ==> refusal is None,
{
    if running {
        return Some((ErrorKind::AlreadyExists, "single-instance listener is already running"));
    }
    if !available {
        return Some((ErrorKind::NotConnected, "single-instance listener is unavailable"));
    }
    None
}

/// How a claim of the socket ended.
#[derive(Clone, Copy, Debug, PartialEq, Eq, Structural)]
pub enum ClaimOutcome {
    /// Another instance has taken the request.
    Secondary,
    /// This instance owns the socket.
    Primary,
    /// A step failed.
    Failed(ErrorKind),
    /// The owner changed at every attempt.
    GaveUp,
}

/// What a claim of the socket does next.
#[derive(Clone, Copy, Debug, PartialEq, Eq, Structural)]
pub enum ClaimStep {
    /// Hand the request to whoever owns the socket.
    Notify,
    /// Remove the socket that no one answers.
    RemoveStale,
    /// Bind the socket.
    Bind,
    /// Nothing more.
    Done(ClaimOutcome),
}

/// A claim of the socket: what comes next, and the attempts that were made before this one.
#[derive(Clone, Copy, Debug, PartialEq, Eq, Structural)]
pub struct Claim {
    pub step: ClaimStep,
    pub attempts: usize,
}

impl Claim {
    /// Whether the attempts stay below the limit.
    pub open spec fn wf(self) -> bool {
        self.attempts < CLAIM_RETRIES
    }

    /// The claim after its step ended with `result`.
    pub open spec fn spec_next(self, result: Result<(), ErrorKind>) -> Claim {
        let step = match (self.step, result) {
            (ClaimStep::Notify, Ok(())) => ClaimStep::Done(ClaimOutcome::Secondary),
            (ClaimStep::Notify, Err(kind)) => if kind == ErrorKind::NotFound {
                ClaimStep::Bind
            } else if kind == ErrorKind::ConnectionRefused {
                ClaimStep::RemoveStale
            } else {
                ClaimStep::Done(ClaimOutcome::Failed(kind))
            },
            (ClaimStep::RemoveStale, Ok(())) => ClaimStep::Bind,
            (ClaimStep::RemoveStale, Err(kind)) => ClaimStep::Done(ClaimOutcome::Failed(kind)),
            (ClaimStep::Bind, Ok(())) => ClaimStep::Done(ClaimOutcome::Primary),
            (ClaimStep::Bind, Err(kind)) => if kind != ErrorKind::AddrInUse {
                ClaimStep::Done(ClaimOutcome::Failed(kind))
            } else if self.attempts + 1 < CLAIM_RETRIES {
                ClaimStep::Notify
            } else {
                ClaimStep::Done(ClaimOutcome::GaveUp)
            },
            (ClaimStep::Done(outcome), _) => ClaimStep::Done(outcome),
        };
        Claim {
            step,
            attempts: if self.step is Bind && step is Notify {
                (self.attempts + 1) as usize
            } else {
                self.attempts
            },
        }
    }

    /// A claim that has not started.
    pub fn start() -> (claim: Self)
        ensures
            claim == (Claim { step: ClaimStep::Notify, attempts: 0 }),
            claim.wf(),
    {
        Claim { step: ClaimStep::Notify, attempts: 0 }
    }

    /// The claim after its step ended with `result`.
    pub fn next(self, result: Result<(), ErrorKind>) -> (claim: Self)
        requires
            self.wf(),
        ensures
            claim == self.spec_next(result),
            claim.wf(),
    {
        let (step, attempts): (ClaimStep, usize) = match self.step {
            ClaimStep::Notify => match result {
                Ok(()) => (ClaimStep::Done(ClaimOutcome::Secondary), self.attempts),
                Err(ErrorKind::NotFound) => (ClaimStep::Bind, self.attempts),
                Err(ErrorKind::ConnectionRefused) => (ClaimStep::RemoveStale, self.attempts),
                Err(kind) => (ClaimStep::Done(ClaimOutcome::Failed(kind)), self.attempts),
            },
            ClaimStep::RemoveStale => match result {
                Ok(()) => (ClaimStep::Bind, self.attempts),
                Err(kind) => (ClaimStep::Done(ClaimOutcome::Failed(kind)), self.attempts),
            },
            ClaimStep::Bind => match result {
                Ok(()) => (ClaimStep::Done(ClaimOutcome::Primary), self.attempts),
                Err(ErrorKind::AddrInUse) => {
                    if self.attempts + 1 < CLAIM_RETRIES {
                        (ClaimStep::Notify, self.attempts + 1)
                    } else {
                        (ClaimStep::Done(ClaimOutcome::GaveUp), self.attempts)
                    }
                },
                Err(kind) => (ClaimStep::Done(ClaimOutcome::Failed(kind)), self.attempts),
            },
            ClaimStep::Done(outcome) => (ClaimStep::Done(outcome), self.attempts),
        };
        Claim { step, attempts }
    }

    /// How many steps a claim can still take.
    pub open spec fn remaining(self) -> int {
        3 * (CLAIM_RETRIES - 1 - self.attempts) + match self.step {
            ClaimStep::Notify => 3int,
            ClaimStep::RemoveStale => 2,
            ClaimStep::Bind => 1,
            ClaimStep::Done(_) => -3 * (CLAIM_RETRIES - 1 - self.attempts),
        }
    }
}

/// A claim ends: each step leaves fewer to take, whatever its result.
pub proof fn claim_ends(claim: Claim, result: Result<(), ErrorKind>)
    requires
        claim.wf(),
    ensures
        claim.spec_next(result).wf(),
        claim.remaining() >= 0,
        !(claim.step is Done) ==> claim.spec_next(result).remaining() < claim.remaining(),
{
}

/// An instance becomes the primary only by binding the socket, and the secondary only by a delivery
/// that was acknowledged.
pub proof fn claim_roles_are_earned(claim: Claim, result: Result<(), ErrorKind>)
    requires
        claim.wf(),
        !(claim.step is Done),
    ensures
        claim.spec_next(result).step == ClaimStep::Done(ClaimOutcome::Primary) <==> claim.step is Bind
            && result is Ok,
        claim.spec_next(result).step == ClaimStep::Done(ClaimOutcome::Secondary) <==> claim.step
            is Notify && result is Ok,
{
}

/// The error of a claim that was given up. A step that failed has an error of its own.
pub fn claim_refusal(outcome: ClaimOutcome) -> (error: Option<(ErrorKind, &'static str)>)
    ensures
        error is Some <==> outcome is GaveUp,
        error matches Some((kind, message)) ==> kind == ErrorKind::WouldBlock && message@
            == "single-instance ownership changed repeatedly during startup"@,
{
    match outcome {
        ClaimOutcome::GaveUp => Some(
            (
                ErrorKind::WouldBlock,
                "single-instance ownership changed repeatedly during startup",
            ),
        ),
        _ => None,
    }
}

} // verus!
