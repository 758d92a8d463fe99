use base64::Engine;
use updater_core::codec::{save_parent_check, save_success_message, ChunkedSaver, SaveStep, SAVE_CHUNK_SIZE};
use updater_core::errors::SaveError;

const CHUNK: usize = 8;

fn encode(bytes: &[u8]) -> String {
    base64::engine::general_purpose::STANDARD.encode(bytes)
}

/// Drives a saver to its end, collecting what it hands out.
fn run(payload: &str, chunk_size: usize) -> (Vec<u8>, Result<u64, SaveError>) {
    let mut saver = ChunkedSaver::new(payload.to_string(), chunk_size);
    let mut written = Vec::new();
    loop {
        match saver.next() {
            SaveStep::Write(bytes) => written.extend_from_slice(&bytes),
            SaveStep::Done(total) => return (written, Ok(total)),
            SaveStep::Fail(err) => return (written, Err(err)),
        }
    }
}

fn assert_round_trip(bytes: &[u8]) {
    let payload = encode(bytes);
    let single_pass = base64::engine::general_purpose::STANDARD
        .decode(&payload)
        .unwrap();
    let (written, result) = run(&payload, CHUNK);
    assert_eq!(written, single_pass);
    assert_eq!(written, bytes);
    assert_eq!(result, Ok(bytes.len() as u64));
}

#[test]
fn round_trip_of_exactly_one_chunk() {
    // Six bytes encode to exactly one eight-character chunk.
    assert_round_trip(&[10, 20, 30, 40, 50, 60]);
}

#[test]
fn round_trip_of_one_chunk_plus_one_unit() {
    // Nine bytes encode to one chunk and one more four-character unit.
    assert_round_trip(&[1, 2, 3, 4, 5, 6, 7, 8, 9]);
}

#[test]
fn round_trip_of_ten_chunks() {
    // Sixty bytes encode to exactly ten chunks.
    let bytes: Vec<u8> = (0..60).collect();
    assert_round_trip(&bytes);
}

#[test]
fn round_trip_with_padding_in_the_last_unit() {
    // Five bytes encode to one chunk whose last unit is padded.
    assert_round_trip(&[200, 201, 202, 203, 204]);
}

#[test]
fn empty_payload_writes_nothing() {
    let (written, result) = run("", CHUNK);
    assert!(written.is_empty());
    assert_eq!(result, Ok(0));
}

#[test]
fn invalid_last_chunk_fails_with_its_index_and_keeps_prior_bytes() {
    let good: Vec<u8> = (100..106).collect();
    let mut payload = encode(&good);
    assert_eq!(payload.len(), CHUNK);
    payload.push_str("!!!!");
    let (written, result) = run(&payload, CHUNK);
    assert_eq!(written, good);
    match result {
        Err(SaveError::ChunkDecode { index, .. }) => assert_eq!(index, 1),
        other => panic!("expected a chunk decode failure, got {:?}", other),
    }
}

#[test]
fn invalid_middle_chunk_fails_before_later_chunks_are_touched() {
    let first: Vec<u8> = vec![9, 8, 7, 6, 5, 4];
    let mut payload = encode(&first);
    payload.push_str("####");
    payload.push_str(&encode(&[1, 2, 3]));
    let (written, result) = run(&payload, CHUNK);
    assert_eq!(written, first);
    match result {
        Err(SaveError::ChunkDecode { index, .. }) => assert_eq!(index, 1),
        other => panic!("expected a chunk decode failure, got {:?}", other),
    }
}

#[test]
fn decode_failure_message_names_the_chunk() {
    let (_, result) = run("!!!!", 4);
    let err = result.unwrap_err();
    assert!(err
        .message()
        .starts_with("Failed to decode base64 chunk 0: "));
}

#[test]
fn parent_check_requires_an_existing_or_created_directory() {
    assert!(save_parent_check(true, false, String::new()).is_ok());
    assert!(save_parent_check(false, true, String::new()).is_ok());
    let err = save_parent_check(false, false, "read-only".to_string()).unwrap_err();
    assert_eq!(err, SaveError::DirectoryCreateFailed("read-only".to_string()));
}

#[test]
fn default_chunk_size_is_whole_units() {
    assert_eq!(SAVE_CHUNK_SIZE, 4 * 1024 * 1024);
    assert_eq!(SAVE_CHUNK_SIZE % 4, 0);
}

#[test]
fn success_message_names_path_and_byte_count() {
    assert_eq!(
        save_success_message("/tmp/app.pkg", 42),
        "File saved successfully to: /tmp/app.pkg (42 bytes)"
    );
    assert_eq!(
        save_success_message("/x", 0),
        "File saved successfully to: /x (0 bytes)"
    );
}
