use upload::engine::Command;
use upload::engine::FailureReason;
use upload::engine::ProtocolState;
use upload::engine::READ_CHUNK_LEN;
use upload::engine::READ_TIMEOUT_MS;
use upload::engine::SYMBOL_RATE;
use upload::engine::Session;
use upload::engine::SessionResult;
use upload::search::find_substring;

fn session_with(payload: &[u8]) -> Session {
    Session::new(Some(payload.to_vec())).expect("payload accepted")
}

/// The writes a command list performs, in order.
fn writes(cmds: &[Command]) -> Vec<Vec<u8>> {
    cmds.iter()
        .filter_map(|c| match c {
            Command::Write { bytes } => Some(bytes.clone()),
            Command::Sleep { .. } => None,
        })
        .collect()
}

#[test]
fn substring_found_and_missed() {
    assert!(find_substring(b"xxAuto-bootyy", b"Auto-boot"));
    assert!(find_substring(b"Auto-boot", b"Auto-boot"));
    assert!(!find_substring(b"Auto-bo ot", b"Auto-boot"));
    assert!(!find_substring(b"Auto-boo", b"Auto-boot"));
    assert!(!find_substring(b"", b"OK"));
    assert!(find_substring(b"anything", b""));
    assert!(find_substring(b"", b""));
}

#[test]
fn missing_payload_is_rejected() {
    let r = Session::new(None);
    assert!(matches!(r, Err(FailureReason::PayloadUnavailable)));
}

#[test]
fn empty_payload_is_rejected() {
    let r = Session::new(Some(Vec::new()));
    assert!(matches!(r, Err(FailureReason::PayloadUnavailable)));
}

#[test]
fn fresh_session_awaits_banner() {
    let s = session_with(b"image");
    assert_eq!(s.state, ProtocolState::AwaitingBanner);
    assert!(s.buffer.is_empty());
    assert_eq!(s.payload, b"image".to_vec());
}

#[test]
fn quiet_chunk_only_accumulates() {
    let mut s = session_with(b"image");
    let cmds = s.on_chunk(b"NEORV32 bootloader\r\n");
    assert!(cmds.is_empty());
    assert_eq!(s.state, ProtocolState::AwaitingBanner);
    assert_eq!(s.buffer, b"NEORV32 bootloader\r\n".to_vec());
}

#[test]
fn banner_fires_interrupt_sequence() {
    let mut s = session_with(b"image");
    let cmds = s.on_chunk(b"...Auto-boot in 8s. Press any key to abort.\n");
    assert_eq!(
        cmds,
        vec![
            Command::Sleep { ms: 250 },
            Command::Write { bytes: b"a".to_vec() },
            Command::Sleep { ms: 250 },
            Command::Write { bytes: b"u".to_vec() },
        ]
    );
    assert_eq!(s.state, ProtocolState::AutobootInterruptSent);
    assert!(s.buffer.is_empty());
}

#[test]
fn banner_spanning_two_chunks_fires_once() {
    let mut s = session_with(b"image");
    let first = s.on_chunk(b"...Auto-bo");
    assert!(first.is_empty());
    assert_eq!(s.state, ProtocolState::AwaitingBanner);
    let second = s.on_chunk(b"ot in 8s...");
    assert_eq!(second.len(), 4);
    assert_eq!(writes(&second), vec![b"a".to_vec(), b"u".to_vec()]);
    assert_eq!(s.state, ProtocolState::AutobootInterruptSent);
    assert!(s.buffer.is_empty());
}

#[test]
fn prompt_writes_payload_byte_for_byte() {
    let payload: Vec<u8> = (0u8..=255).chain(vec![0u8, 255u8, 10u8, 13u8]).collect();
    let mut s = session_with(&payload);
    let cmds = s.on_chunk(b"Awaiting neorv32_exe.bin... ");
    assert_eq!(
        cmds,
        vec![
            Command::Sleep { ms: 200 },
            Command::Write { bytes: payload.clone() },
            Command::Sleep { ms: 1000 },
        ]
    );
    assert_eq!(s.state, ProtocolState::PayloadSent);
    assert!(s.buffer.is_empty());
}

#[test]
fn acknowledgement_fires_execute() {
    let mut s = session_with(b"image");
    let cmds = s.on_chunk(b"OK\r\n");
    assert_eq!(
        cmds,
        vec![
            Command::Sleep { ms: 200 },
            Command::Write { bytes: b"e".to_vec() },
        ]
    );
    assert_eq!(s.state, ProtocolState::Completed);
    assert!(s.is_done());
    assert_eq!(s.result(), SessionResult::Completed);
}

#[test]
fn first_trigger_in_priority_order_wins_within_one_chunk() {
    let mut s = session_with(b"image");
    let cmds = s.on_chunk(b"Auto-boot ... OK");
    // The banner trigger clears the buffer before the acknowledgement
    // check runs, so only the interrupt sequence is issued.
    assert_eq!(cmds.len(), 4);
    assert_eq!(writes(&cmds), vec![b"a".to_vec(), b"u".to_vec()]);
    assert_eq!(s.state, ProtocolState::AutobootInterruptSent);
    assert!(s.buffer.is_empty());
}

#[test]
fn cleared_buffer_does_not_refire() {
    let mut s = session_with(b"image");
    let first = s.on_chunk(b"Auto-boot");
    assert_eq!(first.len(), 4);
    assert!(s.buffer.is_empty());
    let second = s.on_chunk(b"");
    assert!(second.is_empty());
    assert_eq!(s.state, ProtocolState::AutobootInterruptSent);
}

#[test]
fn non_text_bytes_do_not_derail_the_loop() {
    let mut s = session_with(b"image");
    let mut chunk: Vec<u8> = vec![0xFF, 0xFE, 0x00, 0x80];
    chunk.extend_from_slice(b"Auto-boot");
    chunk.push(0xC3);
    let cmds = s.on_chunk(&chunk);
    assert_eq!(cmds.len(), 4);
    assert_eq!(s.state, ProtocolState::AutobootInterruptSent);
}

#[test]
fn full_handshake_reaches_completed() {
    let payload = b"\x00\x01firmware image\xFF".to_vec();
    let mut s = session_with(&payload);
    let mut all_writes: Vec<Vec<u8>> = Vec::new();
    let chunks: Vec<&[u8]> = vec![
        b"NEORV32 Bootloader\r\nAuto-boot in 8s. Press any key to abort.\n",
        b"Abort.\r\nCMD:> u\r\nAwaiting neorv32_exe.bin... ",
        b"OK\r\nCMD:> ",
    ];
    for chunk in chunks {
        assert!(!s.is_done());
        let cmds = s.on_chunk(chunk);
        all_writes.extend(writes(&cmds));
    }
    assert!(s.is_done());
    assert_eq!(s.state, ProtocolState::Completed);
    assert_eq!(s.result(), SessionResult::Completed);
    assert_eq!(
        all_writes,
        vec![b"a".to_vec(), b"u".to_vec(), payload.clone(), b"e".to_vec()]
    );
}

#[test]
fn read_failure_is_terminal() {
    let mut s = session_with(b"image");
    s.read_failed();
    assert!(s.is_done());
    assert_eq!(
        s.result(),
        SessionResult::Failed { reason: FailureReason::ReadError }
    );
}

#[test]
fn write_failure_is_terminal_even_after_acknowledgement() {
    let mut s = session_with(b"image");
    let cmds = s.on_chunk(b"OK");
    assert_eq!(cmds.len(), 2);
    assert_eq!(s.state, ProtocolState::Completed);
    // The execute byte never reached the device: the attempt failed.
    s.write_failed();
    assert_eq!(
        s.result(),
        SessionResult::Failed { reason: FailureReason::WriteError }
    );
}

#[test]
fn open_failure_is_terminal() {
    let mut s = session_with(b"image");
    s.open_failed();
    assert!(s.is_done());
    assert_eq!(
        s.result(),
        SessionResult::Failed { reason: FailureReason::TransportOpenError }
    );
}

#[test]
fn transport_parameters_match_the_device() {
    assert_eq!(SYMBOL_RATE, 19_200);
    assert_eq!(READ_TIMEOUT_MS, 10_000);
    assert_eq!(READ_CHUNK_LEN, 100);
}
