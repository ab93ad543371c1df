//! One program for all windows.
use ronsole::app::state::PENDING_EXTERNAL_LAUNCH_CAPACITY;
use ronsole::launch::TerminalLaunchSpec;
use ronsole::platform::single_instance::{
    answer_client, claim_refusal, fallback_runtime_dir, listener_refusal, owns_socket,
    parse_request_header, parse_request_payload, preferred_runtime_dir, read_delivery_ack,
    read_external_launch_request, request_payload_len, runtime_dir_refusal, stale_socket_action,
    startup_lock_path, take_activation_token_with, take_payload_bytes, take_payload_u16,
    take_payload_u32, take_payload_u8, write_delivery_ack, write_external_launch_request, Claim,
    ClaimOutcome, ClaimStep, ErrorKind, ExternalLaunchRequest, ProtocolError, SocketIdentity,
    SocketLookup, StaleSocketAction, CLAIM_RETRIES, DELIVERY_ACK_MESSAGE, EXTERNAL_LAUNCH_MESSAGE,
    MAX_ACTIVATION_TOKEN_BYTES, MAX_REQUEST_PAYLOAD_BYTES, PROTOCOL_VERSION,
    REQUEST_PAYLOAD_PREFIX_LEN,
};
use std::sync::mpsc::{sync_channel, TrySendError};

fn round_trip_request(
    request: &ExternalLaunchRequest,
) -> Result<ExternalLaunchRequest, ProtocolError> {
    let encoded = write_external_launch_request(request)?;
    read_external_launch_request(&encoded)
}

fn request_header(version: u8, message: u8, payload_len: u32) -> Vec<u8> {
    let mut header = vec![version, message];
    header.extend_from_slice(&payload_len.to_be_bytes());
    header
}

fn framed(payload: &[u8]) -> Vec<u8> {
    let mut input = request_header(
        PROTOCOL_VERSION,
        EXTERNAL_LAUNCH_MESSAGE,
        u32::try_from(payload.len()).unwrap(),
    );
    input.extend_from_slice(payload);
    input
}

fn payload(flags: u8, token: u16, directory: u32, arguments: u16) -> Vec<u8> {
    let mut payload = vec![flags];
    payload.extend_from_slice(&token.to_be_bytes());
    payload.extend_from_slice(&directory.to_be_bytes());
    payload.extend_from_slice(&arguments.to_be_bytes());
    payload
}

fn refusal(input: &[u8]) -> ProtocolError {
    match read_external_launch_request(input) {
        Ok(_) => panic!("expected a refusal"),
        Err(error) => error,
    }
}

#[test]
fn runtime_directory_prefers_nonempty_xdg_and_has_per_user_fallback() {
    assert_eq!(
        preferred_runtime_dir(Some(b"/run/user/1000".to_vec())),
        Some(b"/run/user/1000/ronsole".to_vec())
    );
    assert_eq!(preferred_runtime_dir(Some(Vec::new())), None);
    assert_eq!(fallback_runtime_dir(42), "/tmp/ronsole-runtime-42");
}

#[test]
fn external_launch_request_round_trips_default_request() {
    let request = ExternalLaunchRequest::default();
    assert!(round_trip_request(&request).unwrap_or_else(|_| panic!("refused")) == request);
}

#[test]
fn external_launch_request_round_trips_token() {
    let request = ExternalLaunchRequest {
        activation_token: Some("wayland-token-123".to_owned()),
        launch: TerminalLaunchSpec::default(),
    };
    assert!(round_trip_request(&request).unwrap_or_else(|_| panic!("refused")) == request);
}

#[test]
fn external_launch_request_round_trips_full_launch_spec() {
    let request = ExternalLaunchRequest {
        activation_token: Some("wayland-token-123".to_owned()),
        launch: TerminalLaunchSpec {
            working_directory: Some(b"/tmp/ronsole session".to_vec()),
            command: vec![
                b"program".to_vec(),
                b"arg one".to_vec(),
                b"--leading-dash".to_vec(),
                "русский/utf8".as_bytes().to_vec(),
            ],
            hold: true,
        },
    };
    assert!(round_trip_request(&request).unwrap_or_else(|_| panic!("refused")) == request);
}

#[test]
fn external_launch_request_round_trips_non_utf8_workdir_and_argv() {
    let raw_workdir = vec![b'/', b't', b'm', b'p', b'/', 0xff];
    let raw_program = vec![b'f', b'o', b'o', 0xfe];
    let raw_arg = vec![b'a', b'r', b'g', 0xfd];
    let request = ExternalLaunchRequest {
        activation_token: None,
        launch: TerminalLaunchSpec {
            working_directory: Some(raw_workdir.clone()),
            command: vec![raw_program.clone(), raw_arg.clone()],
            hold: false,
        },
    };
    let decoded = round_trip_request(&request).unwrap_or_else(|_| panic!("refused"));
    assert!(decoded == request);
    assert_eq!(decoded.launch.working_directory.as_deref().unwrap(), &raw_workdir[..]);
    assert_eq!(decoded.launch.command[0], raw_program);
    assert_eq!(decoded.launch.command[1], raw_arg);
}

#[test]
fn external_launch_request_debug_redacts_activation_token() {
    let request = ExternalLaunchRequest {
        activation_token: Some("secret-activation-token".to_owned()),
        launch: TerminalLaunchSpec {
            working_directory: Some(b"/secret/cwd".to_vec()),
            command: vec![b"secret-command".to_vec()],
            hold: true,
        },
    };
    let debug = request.debug_text();
    assert!(debug.contains("<redacted>"));
    assert!(!debug.contains("secret-activation-token"));
    assert!(!debug.contains("secret-command"));
}

#[test]
fn activation_token_capture_clears_environment_and_normalizes_empty_value() {
    let (token, clear) = take_activation_token_with(Some(b"wayland-token-123".to_vec()));
    assert_eq!(token.as_deref(), Some("wayland-token-123"));
    assert!(clear);

    let (token, clear) = take_activation_token_with(Some(Vec::new()));
    assert!(token.is_none());
    assert!(clear);

    let (token, clear) = take_activation_token_with(None);
    assert!(token.is_none());
    assert!(!clear);
}

#[test]
fn token_that_is_no_text_is_dropped() {
    let (token, clear) = take_activation_token_with(Some(vec![0xff]));
    assert!(token.is_none());
    assert!(clear);
}

#[test]
fn truncated_external_launch_requests_are_rejected() {
    assert_eq!(
        refusal(&[PROTOCOL_VERSION, EXTERNAL_LAUNCH_MESSAGE, 0]).kind(),
        ErrorKind::UnexpectedEof
    );

    let mut short_payload = request_header(
        PROTOCOL_VERSION,
        EXTERNAL_LAUNCH_MESSAGE,
        u32::try_from(REQUEST_PAYLOAD_PREFIX_LEN).unwrap(),
    );
    short_payload.extend_from_slice(&[0, 0]);
    assert_eq!(refusal(&short_payload).kind(), ErrorKind::UnexpectedEof);
}

#[test]
fn oversized_request_is_rejected_before_payload_read() {
    let oversized = u32::try_from(MAX_REQUEST_PAYLOAD_BYTES + 1).unwrap();
    let input = request_header(PROTOCOL_VERSION, EXTERNAL_LAUNCH_MESSAGE, oversized);
    assert_eq!(refusal(&input).kind(), ErrorKind::InvalidData);

    let request = ExternalLaunchRequest {
        activation_token: None,
        launch: TerminalLaunchSpec {
            working_directory: None,
            command: vec![vec![b'x'; MAX_REQUEST_PAYLOAD_BYTES]],
            hold: false,
        },
    };
    assert_eq!(
        write_external_launch_request(&request).unwrap_err().kind(),
        ErrorKind::InvalidInput
    );
}

#[test]
fn oversized_activation_token_is_rejected() {
    let input = framed(&payload(0, u16::try_from(MAX_ACTIVATION_TOKEN_BYTES + 1).unwrap(), 0, 0));
    assert_eq!(refusal(&input).kind(), ErrorKind::InvalidData);

    let request = ExternalLaunchRequest {
        activation_token: Some("x".repeat(MAX_ACTIVATION_TOKEN_BYTES + 1)),
        launch: TerminalLaunchSpec::default(),
    };
    assert_eq!(
        write_external_launch_request(&request).unwrap_err().kind(),
        ErrorKind::InvalidInput
    );
}

#[test]
fn unknown_protocol_version_and_message_type_are_rejected() {
    let unknown_version = request_header(PROTOCOL_VERSION + 1, EXTERNAL_LAUNCH_MESSAGE, 0);
    assert_eq!(refusal(&unknown_version).kind(), ErrorKind::InvalidData);

    let unknown_type = request_header(PROTOCOL_VERSION, 0x7f, 0);
    assert_eq!(refusal(&unknown_type).kind(), ErrorKind::InvalidData);
}

#[test]
fn delivery_ack_round_trips_and_rejects_invalid_frames() {
    let encoded = write_delivery_ack();
    read_delivery_ack(&encoded).unwrap();

    assert_eq!(
        read_delivery_ack(&[PROTOCOL_VERSION + 1, DELIVERY_ACK_MESSAGE]).unwrap_err().kind(),
        ErrorKind::InvalidData
    );
    assert_eq!(
        read_delivery_ack(&[PROTOCOL_VERSION, EXTERNAL_LAUNCH_MESSAGE]).unwrap_err().kind(),
        ErrorKind::InvalidData
    );
    assert_eq!(read_delivery_ack(&[PROTOCOL_VERSION]).unwrap_err().kind(), ErrorKind::UnexpectedEof);
}

#[test]
fn request_is_laid_out_as_the_protocol_says() {
    let request = ExternalLaunchRequest {
        activation_token: Some("t".to_owned()),
        launch: TerminalLaunchSpec {
            working_directory: Some(b"/d".to_vec()),
            command: vec![b"ls".to_vec()],
            hold: true,
        },
    };
    let expected = [
        &[2u8, 1, 0, 0, 0, 18][..],
        &[3, 0, 1, 0, 0, 0, 2, 0, 1][..],
        b"t/d",
        &[0, 0, 0, 2][..],
        b"ls",
    ]
    .concat();
    assert_eq!(write_external_launch_request(&request).unwrap(), expected);
    assert_eq!(request_payload_len(&request).unwrap(), 18);
    assert_eq!(parse_request_header(&expected[..6]).unwrap(), 18);
    assert!(parse_request_payload(&expected[6..]).unwrap_or_else(|_| panic!("refused")) == request);
}

#[test]
fn each_flaw_of_a_request_has_its_error() {
    assert_eq!(refusal(&[1, 1, 0, 0, 0, 0]), ProtocolError::UnsupportedVersion);
    assert_eq!(refusal(&[2, 9, 0, 0, 0, 0]), ProtocolError::UnsupportedMessage);
    assert_eq!(refusal(&[2, 1, 0, 0x20, 0, 0]), ProtocolError::RequestTooLong);
    assert_eq!(refusal(&[2, 1]), ProtocolError::ShortInput);
    assert_eq!(refusal(&framed(&[0, 0])), ProtocolError::TruncatedPayload);
    assert_eq!(refusal(&framed(&payload(4, 0, 0, 0))), ProtocolError::UnknownFlags);
    assert_eq!(refusal(&framed(&payload(0, 5000, 0, 0))), ProtocolError::TokenTooLong);
    assert_eq!(refusal(&framed(&payload(2, 0, 1, 0))), ProtocolError::TruncatedPayload);
    let mut unflagged = payload(0, 0, 1, 0);
    unflagged.push(b'd');
    assert_eq!(refusal(&framed(&unflagged)), ProtocolError::UnflaggedWorkingDirectory);
    assert_eq!(refusal(&framed(&payload(0, 0, 0, 3))), ProtocolError::TruncatedCommand);
    let mut bad_token = payload(0, 1, 0, 0);
    bad_token.push(0xff);
    assert_eq!(refusal(&framed(&bad_token)), ProtocolError::TokenNotUtf8);
    let mut trailing = payload(0, 0, 0, 0);
    trailing.push(7);
    assert_eq!(refusal(&framed(&trailing)), ProtocolError::TrailingBytes);
    assert_eq!(ProtocolError::InvalidAck.kind(), ErrorKind::InvalidData);
    assert!(!ProtocolError::InvalidAck.message().is_empty());
    let many = ExternalLaunchRequest {
        activation_token: None,
        launch: TerminalLaunchSpec {
            working_directory: None,
            command: vec![Vec::new(); 70_000],
            hold: false,
        },
    };
    assert_eq!(
        write_external_launch_request(&many).unwrap_err(),
        ProtocolError::OutgoingTooManyArguments
    );
}

#[test]
fn payload_is_taken_from_its_start() {
    let bytes = [1u8, 2, 3, 4, 5, 6, 7, 8, 9];
    let mut rest = &bytes[..];
    assert_eq!(take_payload_u8(&mut rest), Ok(1));
    assert_eq!(take_payload_u16(&mut rest), Ok(0x0203));
    assert_eq!(take_payload_u32(&mut rest), Ok(0x0405_0607));
    assert_eq!(take_payload_bytes(&mut rest, 2), Ok(&[8u8, 9][..]));
    assert!(take_payload_u8(&mut rest).is_err());
}

#[test]
fn client_is_answered_only_when_the_request_was_taken() {
    let read = Ok(ExternalLaunchRequest::default());
    assert_eq!(answer_client(&read, true), Some(write_delivery_ack()));
    assert_eq!(answer_client(&read, false), None);
    assert_eq!(answer_client(&Err(ProtocolError::ShortInput), true), None);
}

#[test]
fn foreign_paths_are_left_alone() {
    assert_eq!(stale_socket_action(b"/s", SocketLookup::Missing, 1), StaleSocketAction::Proceed);
    assert_eq!(
        stale_socket_action(b"/s", SocketLookup::Found { is_socket: true, owner: 1 }, 1),
        StaleSocketAction::Remove
    );
    assert_eq!(
        stale_socket_action(b"/s", SocketLookup::Found { is_socket: false, owner: 1 }, 1),
        StaleSocketAction::Refuse(
            ErrorKind::AlreadyExists,
            "single-instance path is not a socket: /s".to_owned()
        )
    );
    assert_eq!(
        stale_socket_action(b"/s", SocketLookup::Found { is_socket: true, owner: 2 }, 1),
        StaleSocketAction::Refuse(
            ErrorKind::PermissionDenied,
            "single-instance socket is not owned by the current user: /s".to_owned()
        )
    );
    assert_eq!(
        stale_socket_action(b"/s", SocketLookup::Failed(ErrorKind::Other), 1),
        StaleSocketAction::Fail(ErrorKind::Other)
    );
    assert_eq!(runtime_dir_refusal(b"/r", true, 1, 1), None);
    assert_eq!(
        runtime_dir_refusal(b"/r", false, 1, 1),
        Some((ErrorKind::InvalidInput, "runtime path is not a directory: /r".to_owned()))
    );
    assert_eq!(
        runtime_dir_refusal(b"/r\xff", true, 2, 1),
        Some((
            ErrorKind::PermissionDenied,
            "runtime directory is not owned by the current user: /r\u{fffd}".to_owned()
        ))
    );
    assert_eq!(startup_lock_path(b"/run/x/instance.sock"), b"/run/x/instance.lock".to_vec());
}

#[test]
fn socket_is_known_by_device_and_inode() {
    let identity = SocketIdentity { device: 1, inode: 2 };
    assert!(owns_socket(true, identity, identity));
    assert!(!owns_socket(false, identity, identity));
    assert!(!owns_socket(true, SocketIdentity { device: 1, inode: 3 }, identity));
    assert_eq!(listener_refusal(false, true), None);
    let running = (ErrorKind::AlreadyExists, "single-instance listener is already running");
    assert_eq!(listener_refusal(true, true), Some(running));
    assert_eq!(listener_refusal(true, false), Some(running));
    let unavailable = (ErrorKind::NotConnected, "single-instance listener is unavailable");
    assert_eq!(listener_refusal(false, false), Some(unavailable));
}

#[test]
fn claim_becomes_primary_behind_a_stale_socket() {
    let claim = Claim::start();
    assert_eq!(claim.step, ClaimStep::Notify);
    assert_eq!(claim.next(Ok(())).step, ClaimStep::Done(ClaimOutcome::Secondary));
    let stale = claim.next(Err(ErrorKind::ConnectionRefused));
    assert_eq!(stale.step, ClaimStep::RemoveStale);
    let bind = stale.next(Ok(()));
    assert_eq!(bind.step, ClaimStep::Bind);
    assert_eq!(bind.next(Ok(())).step, ClaimStep::Done(ClaimOutcome::Primary));
    assert_eq!(
        bind.next(Err(ErrorKind::PermissionDenied)).step,
        ClaimStep::Done(ClaimOutcome::Failed(ErrorKind::PermissionDenied))
    );
    assert_eq!(claim_refusal(ClaimOutcome::Primary), None);
    assert!(claim_refusal(ClaimOutcome::GaveUp).is_some());
}

#[test]
fn claim_gives_up_after_its_retries() {
    let mut claim = Claim::start();
    let mut binds = 0;
    loop {
        claim = match claim.step {
            ClaimStep::Notify => claim.next(Err(ErrorKind::NotFound)),
            ClaimStep::RemoveStale => claim.next(Ok(())),
            ClaimStep::Bind => {
                binds += 1;
                claim.next(Err(ErrorKind::AddrInUse))
            },
            ClaimStep::Done(outcome) => {
                assert_eq!(outcome, ClaimOutcome::GaveUp);
                break;
            },
        };
    }
    assert_eq!(binds, CLAIM_RETRIES);
}

#[test]
fn rapid_external_launch_burst_preserves_requests_within_bound() {
    let (sender, receiver) =
        sync_channel::<ExternalLaunchRequest>(PENDING_EXTERNAL_LAUNCH_CAPACITY);
    for index in 0..PENDING_EXTERNAL_LAUNCH_CAPACITY {
        sender
            .try_send(ExternalLaunchRequest {
                activation_token: Some(format!("token-{index}")),
                launch: TerminalLaunchSpec::default(),
            })
            .unwrap();
    }
    for index in 0..PENDING_EXTERNAL_LAUNCH_CAPACITY {
        let request = receiver.try_recv().unwrap();
        let expected = format!("token-{index}");
        assert_eq!(request.activation_token.as_deref(), Some(expected.as_str()));
    }
}

#[test]
fn external_launch_handoff_is_explicitly_bounded() {
    let (sender, _receiver) = sync_channel::<ExternalLaunchRequest>(2);
    assert!(sender.try_send(ExternalLaunchRequest::default()).is_ok());
    assert!(sender.try_send(ExternalLaunchRequest::default()).is_ok());
    assert!(matches!(
        sender.try_send(ExternalLaunchRequest::default()),
        Err(TrySendError::Full(_))
    ));
}
