use infermp10::transcript::Transcript;

#[test]
fn new_transcript_is_empty() {
    let transcript = Transcript::new();
    assert_eq!(transcript.as_str(), "");
    assert_eq!(transcript.report_count(), 0);
    assert_eq!(transcript.into_text(), "");
}

#[test]
fn push_appends_in_order_and_counts() {
    let mut transcript = Transcript::new();
    transcript.push("Hello");
    transcript.push(", ");
    transcript.push("world");
    assert_eq!(transcript.as_str(), "Hello, world");
    assert_eq!(transcript.report_count(), 3);
}

#[test]
fn on_token_appends_and_tells_the_engine_to_go_on() {
    let mut transcript = Transcript::new();
    assert!(transcript.on_token("The").is_ok());
    assert!(transcript.on_token(" end").is_ok());
    assert_eq!(transcript.as_str(), "The end");
    assert_eq!(transcript.report_count(), 2);
    assert_eq!(transcript.into_text(), "The end");
}

#[test]
fn empty_piece_counts_and_adds_no_text() {
    let mut transcript = Transcript::new();
    assert!(transcript.on_token("").is_ok());
    transcript.push("x");
    assert!(transcript.on_token("").is_ok());
    assert_eq!(transcript.as_str(), "x");
    assert_eq!(transcript.report_count(), 3);
}

#[test]
fn pieces_beyond_ascii_are_kept_as_they_are() {
    let mut transcript = Transcript::new();
    transcript.push("na\u{ef}ve ");
    transcript.push("\u{20ac}5");
    assert_eq!(transcript.as_str(), "na\u{ef}ve \u{20ac}5");
    assert_eq!(transcript.report_count(), 2);
}

#[test]
fn two_transcripts_keep_their_own_pieces() {
    let mut first = Transcript::new();
    let mut second = Transcript::new();
    first.push("a");
    second.push("x");
    first.push("b");
    second.push("y");
    second.push("z");
    assert_eq!(first.as_str(), "ab");
    assert_eq!(first.report_count(), 2);
    assert_eq!(second.as_str(), "xyz");
    assert_eq!(second.report_count(), 3);
}
