use printk_bridge::printk::Printk;

fn sent_chunks(w: &Printk) -> Vec<Vec<u8>> {
    let mut out = Vec::new();
    for i in 0..w.chunk_count() {
        out.push(w.chunk(i).clone());
    }
    out
}

fn payload_concat(w: &Printk) -> Vec<u8> {
    let mut out = Vec::new();
    for chunk in sent_chunks(w) {
        assert!(!chunk.is_empty());
        out.extend_from_slice(&chunk[..chunk.len() - 1]);
    }
    out
}

#[test]
fn write_empty_transmits_nothing() {
    let mut w = Printk::new();
    w.write_str(b"");
    assert_eq!(w.chunk_count(), 0);
}

#[test]
fn write_short_input_is_one_chunk() {
    let mut w = Printk::new();
    w.write_str(b"hi");
    assert_eq!(w.chunk_count(), 1);
    assert_eq!(w.chunk(0).as_slice(), b"hi\0");
}

#[test]
fn write_produces_ceil_chunks() {
    // ceil(len / 63) chunks for a range of lengths around the boundaries.
    for len in [0usize, 1, 62, 63, 64, 125, 126, 127, 200, 630] {
        let text: Vec<u8> = (0..len).map(|i| (i % 251) as u8 + 1).collect();
        let mut w = Printk::new();
        w.write_str(&text);
        let expected = len.div_ceil(63);
        assert_eq!(w.chunk_count(), expected, "length {len}");
        for chunk in sent_chunks(&w) {
            assert!(chunk.len() >= 2, "no chunk has an empty payload");
            assert!(chunk.len() - 1 <= 63, "payload over capacity");
        }
        assert_eq!(payload_concat(&w), text, "length {len}");
    }
}

#[test]
fn exact_multiple_has_no_empty_tail_chunk() {
    let text = [7u8; 126];
    let mut w = Printk::new();
    w.write_str(&text);
    assert_eq!(w.chunk_count(), 2);
    assert_eq!(w.chunk(0).len(), 64);
    assert_eq!(w.chunk(1).len(), 64);
    assert_eq!(payload_concat(&w), text.to_vec());
}

#[test]
fn chunks_are_terminated_right_after_payload() {
    let text: Vec<u8> = (1..=200u8).collect();
    let mut w = Printk::new();
    w.write_str(&text);
    let mut offset = 0;
    for chunk in sent_chunks(&w) {
        let payload_len = chunk.len() - 1;
        assert_eq!(chunk[payload_len], 0, "terminator right after payload");
        assert_eq!(&chunk[..payload_len], &text[offset..offset + payload_len]);
        offset += payload_len;
    }
    assert_eq!(offset, text.len());
}

#[test]
fn write_line_empty_is_single_newline_chunk() {
    let mut w = Printk::new();
    w.write_line(b"");
    assert_eq!(w.chunk_count(), 1);
    assert_eq!(w.chunk(0).as_slice(), b"\n\0");
}

#[test]
fn write_line_hello_is_two_chunks() {
    let mut w = Printk::new();
    w.write_line(b"hello");
    assert_eq!(w.chunk_count(), 2);
    assert_eq!(w.chunk(0).as_slice(), b"hello\0");
    assert_eq!(w.chunk(1).as_slice(), b"\n\0");
    assert_eq!(payload_concat(&w), b"hello\n".to_vec());
}

#[test]
fn write_newline_alone() {
    let mut w = Printk::new();
    w.write_newline();
    assert_eq!(w.chunk_count(), 1);
    assert_eq!(w.chunk(0).as_slice(), b"\n\0");
}

#[test]
fn consecutive_writes_keep_order() {
    let mut w = Printk::new();
    w.write_str(b"one");
    w.write_str(b"two");
    assert_eq!(w.chunk_count(), 2);
    assert_eq!(w.chunk(0).as_slice(), b"one\0");
    assert_eq!(w.chunk(1).as_slice(), b"two\0");
}

#[test]
fn long_line_splits_before_newline() {
    let text = [b'a'; 64];
    let mut w = Printk::new();
    w.write_line(&text);
    assert_eq!(w.chunk_count(), 3);
    assert_eq!(w.chunk(0).as_slice().len(), 64);
    assert_eq!(w.chunk(1).as_slice(), b"a\0");
    assert_eq!(w.chunk(2).as_slice(), b"\n\0");
}
