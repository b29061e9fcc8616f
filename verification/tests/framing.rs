use rust_connect::error::Error;
use rust_connect::protocol::connection::framing::{
    read_line_bounded, read_steady_line, SteadyLine, MAX_PACKET_SIZE, MAX_STEADY_PACKET_SIZE,
};

/// Reads one bounded line from a stream that arrives in pieces and then ends.
fn read_all(pieces: &[&[u8]], max: usize) -> (Vec<u8>, Result<usize, Error>) {
    let mut buf: Vec<u8> = Vec::new();
    for piece in pieces {
        let mut rest = *piece;
        while !rest.is_empty() {
            let fed = read_line_bounded(&mut buf, 0, rest, max);
            rest = &rest[fed.consume..];
            if let Some(outcome) = fed.outcome {
                return (buf, outcome);
            }
        }
    }
    let fed = read_line_bounded(&mut buf, 0, &[], max);
    let outcome = fed.outcome.expect("the end of the stream is an outcome");
    (buf, outcome)
}

/// Reads steady lines from a stream that arrives in pieces and then ends.
fn steady_lines(pieces: &[&[u8]], max: usize) -> Vec<(SteadyLine, Vec<u8>)> {
    let mut out = Vec::new();
    let mut buf: Vec<u8> = Vec::new();
    let mut discarding = false;
    for piece in pieces {
        let mut rest = *piece;
        while !rest.is_empty() {
            let fed = read_steady_line(&mut buf, 0, &mut discarding, rest, max);
            rest = &rest[fed.consume..];
            if let Some(outcome) = fed.outcome {
                out.push((outcome, std::mem::take(&mut buf)));
                discarding = false;
            }
        }
    }
    let fed = read_steady_line(&mut buf, 0, &mut discarding, &[], max);
    out.push((
        fed.outcome.expect("the end of the stream is an outcome"),
        buf,
    ));
    out
}

#[test]
fn test_bounded_read_over_cap_without_newline_errors_promptly() {
    let mut buf: Vec<u8> = Vec::new();
    let data = vec![b'a'; MAX_PACKET_SIZE + 1];
    let fed = read_line_bounded(&mut buf, 0, &data, MAX_PACKET_SIZE);
    assert!(
        matches!(fed.outcome, Some(Err(Error::PacketTooLarge { .. }))),
        "expected PacketTooLarge, got {:?}",
        fed.outcome
    );
}

#[test]
fn test_bounded_read_at_cap_with_newline_succeeds() {
    let mut data = vec![b'a'; MAX_PACKET_SIZE - 1];
    data.push(b'\n');
    let (buf, result) = read_all(&[&data], MAX_PACKET_SIZE);
    assert_eq!(
        result.expect("Value expected to be present"),
        MAX_PACKET_SIZE
    );
    assert_eq!(buf.len(), MAX_PACKET_SIZE);
}

#[test]
fn test_bounded_read_one_byte_over_cap_with_newline_errors() {
    let mut data = vec![b'a'; MAX_PACKET_SIZE];
    data.push(b'\n');
    let (_, result) = read_all(&[&data], MAX_PACKET_SIZE);
    assert!(
        matches!(result, Err(Error::PacketTooLarge { .. })),
        "expected PacketTooLarge, got {:?}",
        result
    );
}

#[test]
fn test_bounded_read_matches_read_until_semantics() {
    let (buf, n) = read_all(&[b"hello\n"], MAX_PACKET_SIZE);
    assert_eq!(n.expect("Value expected to be present"), 6);
    assert_eq!(&buf, b"hello\n");

    let (_, n) = read_all(&[], MAX_PACKET_SIZE);
    assert_eq!(n.expect("Value expected to be present"), 0);

    let (buf, n) = read_all(&[b"partial"], MAX_PACKET_SIZE);
    assert_eq!(n.expect("Value expected to be present"), 7);
    assert_eq!(&buf, b"partial");
}

#[test]
fn bounded_reads_do_not_depend_on_the_pieces() {
    let whole = read_all(&[b"one line\nanother"], 64);
    let parts = read_all(&[b"on", b"e li", b"ne\nanother"], 64);
    assert_eq!(whole.0, parts.0);
    assert_eq!(whole.1.unwrap(), parts.1.unwrap());
}

#[test]
fn test_steady_state_packet_up_to_32mib_is_received() {
    let mut data = vec![b'x'; 600 * 1024];
    data.push(b'\n');
    assert!(
        data.len() > MAX_PACKET_SIZE,
        "the test packet must exceed the identity-read cap"
    );
    let lines = steady_lines(&[&data], MAX_STEADY_PACKET_SIZE);
    assert_eq!(lines[0].0, SteadyLine::Line(600 * 1024 + 1));
    assert_eq!(lines[0].1, data);
    assert_eq!(lines[1].0, SteadyLine::Eof);
}

#[test]
fn test_oversize_steady_state_line_is_skipped_link_survives() {
    assert_eq!(MAX_STEADY_PACKET_SIZE, 32 * 1024 * 1024);
    let mut junk = vec![b'a'; 32 * 1024 * 1024 + 1];
    junk.push(b'\n');
    let pieces: Vec<&[u8]> = junk.chunks(8 * 1024 * 1024).chain([&b"ping\n"[..]]).collect();
    let lines = steady_lines(&pieces, MAX_STEADY_PACKET_SIZE);
    assert_eq!(lines[0].0, SteadyLine::OversizeSkipped);
    assert_eq!(lines[1], (SteadyLine::Line(5), b"ping\n".to_vec()));
}

#[test]
fn steady_reads_do_not_depend_on_the_pieces() {
    let whole = steady_lines(&[b"a\nmuch too long\nb\n"], 4);
    let parts = steady_lines(&[b"a\nmu", b"ch too", b" long", b"\nb", b"\n"], 4);
    assert_eq!(whole, parts);
    assert_eq!(
        whole,
        vec![
            (SteadyLine::Line(2), b"a\n".to_vec()),
            (SteadyLine::OversizeSkipped, Vec::new()),
            (SteadyLine::Line(2), b"b\n".to_vec()),
            (SteadyLine::Eof, Vec::new()),
        ]
    );
}

#[test]
fn a_stream_that_ends_in_a_line_hands_it_over() {
    let lines = steady_lines(&[b"{\"id\":1,"], 64);
    assert_eq!(lines, vec![(SteadyLine::Line(8), b"{\"id\":1,".to_vec())]);
    let dropped = steady_lines(&[b"much too long"], 4);
    assert_eq!(dropped[0].0, SteadyLine::Eof);
}
