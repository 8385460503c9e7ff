use glyphcast::sequence::{delay_ms, lex_le_bytes, Frame, FrameSequencer, PlayState, SequenceError};

fn frame(name: &str, content: &str) -> Frame {
    Frame { name: name.as_bytes().to_vec(), content: content.to_string() }
}

#[test]
fn lex_order_on_names() {
    assert!(lex_le_bytes(&b"a.txt".to_vec(), &b"b.txt".to_vec()));
    assert!(!lex_le_bytes(&b"b.txt".to_vec(), &b"a.txt".to_vec()));
    assert!(lex_le_bytes(&b"a".to_vec(), &b"a".to_vec()));
    assert!(lex_le_bytes(&b"a".to_vec(), &b"ab".to_vec()));
    assert!(!lex_le_bytes(&b"ab".to_vec(), &b"a".to_vec()));
    assert!(lex_le_bytes(&Vec::new(), &b"x".to_vec()));
}

#[test]
fn frames_play_in_name_order_and_loop() {
    let mut seq = FrameSequencer::new();
    // handed out of order; playback must follow the names
    let r = seq.load(vec![frame("b.txt", "b"), frame("a.txt", "a")]);
    assert!(r.is_ok());
    assert_eq!(seq.state, PlayState::Loaded);
    seq.start();
    assert_eq!(seq.state, PlayState::Playing);
    assert_eq!(seq.current(), "a");
    seq.advance();
    assert_eq!(seq.current(), "b");
    seq.advance();
    assert_eq!(seq.current(), "a");
    seq.stop();
    assert_eq!(seq.state, PlayState::Stopped);
}

#[test]
fn empty_sequence_is_rejected() {
    let mut seq = FrameSequencer::new();
    let r = seq.load(Vec::new());
    assert!(matches!(r, Err(SequenceError::EmptySequence)));
    assert_eq!(seq.state, PlayState::Idle);
}

#[test]
fn duplicate_names_are_kept() {
    let mut seq = FrameSequencer::new();
    let r = seq.load(vec![frame("x", "1"), frame("x", "2"), frame("a", "0")]);
    assert!(r.is_ok());
    seq.start();
    assert_eq!(seq.current(), "0");
    seq.advance();
    let second = seq.current().clone();
    seq.advance();
    let third = seq.current().clone();
    assert!(
        (second == "1" && third == "2") || (second == "2" && third == "1")
    );
}

#[test]
fn delay_from_fps() {
    assert_eq!(delay_ms(2), 500);
    assert_eq!(delay_ms(24), 41);
    assert_eq!(delay_ms(1), 1000);
    assert_eq!(delay_ms(1000), 1);
}

#[test]
fn many_frames_sort_fully() {
    let mut seq = FrameSequencer::new();
    let names = ["frame_0004", "frame_0002", "frame_0010", "frame_0001", "frame_0003"];
    let frames: Vec<Frame> = names.iter().map(|n| frame(n, *n)).collect();
    let r = seq.load(frames);
    assert!(r.is_ok());
    seq.start();
    let expected = ["frame_0001", "frame_0002", "frame_0003", "frame_0004", "frame_0010"];
    for e in expected {
        assert_eq!(seq.current(), e);
        seq.advance();
    }
    // one full loop later the first frame comes round again
    assert_eq!(seq.current(), "frame_0001");
}
