use commander::commander::common::{absorb, read_from, ReadOutcome, CHUNK_SIZE};
use commander::commander::errors::{IoError, IoErrorKind};

fn chunk(text: &str) -> ReadOutcome {
    Ok(text.as_bytes().to_vec())
}

#[test]
fn drain_of_nothing_is_empty() {
    let mut screen = String::new();
    assert_eq!(read_from(vec![], true, &mut screen), Some(String::new()));
    assert_eq!(read_from(vec![Ok(vec![])], true, &mut screen), Some(String::new()));
    assert_eq!(screen, "");
}

#[test]
fn drain_joins_the_chunks_in_order() {
    let mut screen = String::new();
    let reads = vec![chunk("hello "), chunk("wor"), chunk("ld\n"), Ok(vec![])];
    assert_eq!(read_from(reads, false, &mut screen), Some(String::from("hello world\n")));
    assert_eq!(screen, "");
}

#[test]
fn drain_shows_what_it_collects() {
    let mut screen = String::from("$ ");
    let reads = vec![chunk("a"), chunk("b"), Ok(vec![])];
    assert_eq!(read_from(reads, true, &mut screen), Some(String::from("ab")));
    assert_eq!(screen, "$ ab");
}

#[test]
fn drain_stops_at_the_first_empty_read() {
    let mut screen = String::new();
    let reads = vec![chunk("first"), Ok(vec![]), chunk("second")];
    assert_eq!(read_from(reads, true, &mut screen), Some(String::from("first")));
    assert_eq!(screen, "first");
}

#[test]
fn drain_stops_at_a_failed_read() {
    let mut screen = String::new();
    let reads = vec![chunk("first"), Err(IoError::new(IoErrorKind::Os, "bad fd")), chunk("second")];
    assert_eq!(read_from(reads, false, &mut screen), Some(String::from("first")));
}

#[test]
fn drain_without_an_ending_read_takes_every_chunk() {
    let mut screen = String::new();
    let reads = vec![chunk("a"), chunk("b")];
    assert_eq!(read_from(reads, false, &mut screen), Some(String::from("ab")));
}

#[test]
fn drain_decodes_text_of_several_bytes() {
    let mut screen = String::new();
    let reads: Vec<ReadOutcome> = vec![Ok(vec![0xC3, 0xA9]), Ok(vec![0xE2, 0x82, 0xAC]), Ok(vec![])];
    assert_eq!(read_from(reads, true, &mut screen), Some(String::from("\u{e9}\u{20ac}")));
    assert_eq!(screen, "\u{e9}\u{20ac}");
}

#[test]
fn drain_drops_a_chunk_that_is_not_text() {
    let mut screen = String::new();
    let reads: Vec<ReadOutcome> = vec![chunk("ok "), Ok(vec![0xFF, 0xFE]), chunk("still"), Ok(vec![])];
    assert_eq!(read_from(reads, true, &mut screen), Some(String::from("ok still")));
    assert_eq!(screen, "ok still");
}

#[test]
fn drain_loses_a_character_split_between_two_chunks() {
    // 511 bytes of 'a' and a two-byte character: the first read of 512 bytes ends in
    // the middle of the character, and both chunks are dropped.
    let mut bytes = vec![b'a'; CHUNK_SIZE - 1];
    bytes.extend_from_slice(&[0xC3, 0xA9]);
    bytes.extend_from_slice(b"tail");
    let first = bytes[..CHUNK_SIZE].to_vec();
    let second = bytes[CHUNK_SIZE..].to_vec();
    let mut screen = String::new();
    let reads: Vec<ReadOutcome> = vec![Ok(first), Ok(second), Ok(vec![])];
    assert_eq!(read_from(reads, false, &mut screen), Some(String::new()));
}

#[test]
fn drain_keeps_a_full_chunk_of_text() {
    let full = vec![b'x'; CHUNK_SIZE];
    let mut screen = String::new();
    let reads: Vec<ReadOutcome> = vec![Ok(full), chunk("y"), Ok(vec![])];
    let text = read_from(reads, false, &mut screen).expect("a drain always returns text");
    assert_eq!(text.len(), 513);
    assert!(text.ends_with("xy"));
}

#[test]
fn chunk_size_is_512() {
    assert_eq!(CHUNK_SIZE, 512);
}

#[test]
fn absorb_appends_and_asks_for_more() {
    let mut out = String::from("so far: ");
    let mut screen = String::new();
    assert!(absorb(&mut out, chunk("more"), true, &mut screen));
    assert_eq!(out, "so far: more");
    assert_eq!(screen, "more");
}

#[test]
fn absorb_of_an_invalid_chunk_goes_on_without_it() {
    let mut out = String::from("kept");
    let mut screen = String::new();
    assert!(absorb(&mut out, Ok(vec![0x80]), true, &mut screen));
    assert_eq!(out, "kept");
    assert_eq!(screen, "");
}

#[test]
fn absorb_ends_on_an_empty_or_failed_read() {
    let mut out = String::from("kept");
    let mut screen = String::new();
    assert!(!absorb(&mut out, Ok(vec![]), true, &mut screen));
    assert!(!absorb(&mut out, Err(IoError::new(IoErrorKind::Os, "bad fd")), true, &mut screen));
    assert_eq!(out, "kept");
    assert_eq!(screen, "");
}
