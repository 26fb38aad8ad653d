//! The terminal of a session: its scrollback, the clipboard writes that it
//! relays and the queries that it answers.

use sshub::session::parser::{
    decoded_len, ClipboardDrops, ParserState, PtyCallbacks, CLIPBOARD_RELAY_MAX_BYTES,
    CLIPBOARD_RELAY_MAX_QUEUED, REPLY_QUEUE_MAX_BYTES, SCROLLBACK_ROWS,
};

fn drops(oversize: usize, queue_full: usize) -> ClipboardDrops {
    ClipboardDrops {
        oversize,
        queue_full,
    }
}

fn parser_with(rows: u16, cols: u16, stream: &[u8]) -> ParserState {
    let mut p = ParserState::new(rows, cols);
    p.process(stream);
    p
}

#[test]
fn scrollback_beyond_screen_height_does_not_panic() {
    let mut bytes = Vec::new();
    for i in 1..=100 {
        bytes.extend_from_slice(format!("line-{i:03}\r\n").as_bytes());
    }
    let mut p = parser_with(10, 80, &bytes);

    p.set_scrollback(60);
    assert_eq!(p.scrollback(), 60);

    let first_visible_text: String = (0..10)
        .filter_map(|col| p.screen().cell(0, col).map(|c| c.contents()))
        .collect();
    assert!(
        first_visible_text.starts_with("line-"),
        "top row should be a numbered line, got {first_visible_text:?}"
    );
}

#[test]
fn snap_returns_to_zero_offset() {
    let mut p = ParserState::new(10, 80);
    p.process(b"hello\r\n");
    p.set_scrollback(5);
    p.snap_to_bottom();
    assert_eq!(p.scrollback(), 0);
}


#[test]
fn osc52_copy_is_queued_for_relay() {
    let mut p = parser_with(10, 80, b"\x1b]52;c;R0VIRUlN\x07");
    assert_eq!(p.take_clipboard_writes(), vec!["R0VIRUlN".to_string()]);
}

#[test]
fn padded_base64_is_relayed() {
    let mut p = parser_with(10, 80, b"\x1b]52;c;aGVsbG8=\x07");
    assert_eq!(p.take_clipboard_writes(), vec!["aGVsbG8=".to_string()]);
}

#[test]
fn take_clipboard_writes_drains() {
    let mut p = parser_with(10, 80, b"\x1b]52;c;R0VIRUlN\x07");
    assert_eq!(p.take_clipboard_writes().len(), 1);
    assert!(p.take_clipboard_writes().is_empty());
}

#[test]
fn oversized_clipboard_write_is_dropped() {
    let mut p = parser_with(10, 80, &oversized_copy());
    assert!(p.take_clipboard_writes().is_empty());
    assert_eq!(p.take_clipboard_drops(), drops(1, 0));
}

#[test]
fn queue_is_capped() {
    let mut stream = Vec::new();
    for _ in 0..20 {
        stream.extend_from_slice(b"\x1b]52;c;R0VIRUlN\x07");
    }
    let mut p = parser_with(10, 80, &stream);
    assert_eq!(p.take_clipboard_writes().len(), CLIPBOARD_RELAY_MAX_QUEUED);
    assert_eq!(
        p.take_clipboard_drops(),
        drops(0, 20 - CLIPBOARD_RELAY_MAX_QUEUED)
    );
}

fn oversized_copy() -> Vec<u8> {
    let mut stream = b"\x1b]52;c;".to_vec();
    stream.extend(std::iter::repeat_n(b'A', 90_000));
    stream.push(0x07);
    stream
}

#[test]
fn empty_payload_is_ignored_entirely() {
    let mut p = parser_with(10, 80, b"\x1b]52;c;\x07");
    assert!(p.take_clipboard_writes().is_empty());
    assert_eq!(p.take_clipboard_drops(), ClipboardDrops::default());
}

#[test]
fn oversize_and_queue_full_are_counted_separately() {
    let mut stream = oversized_copy();
    for _ in 0..20 {
        stream.extend_from_slice(b"\x1b]52;c;R0VIRUlN\x07");
    }
    let mut p = parser_with(10, 80, &stream);
    assert_eq!(p.take_clipboard_writes().len(), CLIPBOARD_RELAY_MAX_QUEUED);
    assert_eq!(
        p.take_clipboard_drops(),
        drops(1, 20 - CLIPBOARD_RELAY_MAX_QUEUED)
    );
}

#[test]
fn taking_drops_resets_the_counters() {
    let mut p = parser_with(10, 80, &oversized_copy());
    assert_eq!(p.take_clipboard_drops(), drops(1, 0));
    assert_eq!(p.take_clipboard_drops(), ClipboardDrops::default());
}

#[test]
fn primary_selection_is_relayed_as_clipboard() {
    let mut p = parser_with(10, 80, b"\x1b]52;p;R0VIRUlN\x07");
    assert_eq!(p.take_clipboard_writes(), vec!["R0VIRUlN".to_string()]);
}

#[test]
fn paste_query_is_not_answered() {
    let mut p = parser_with(10, 80, b"\x1b]52;c;?\x07");
    assert!(p.take_clipboard_writes().is_empty());
}

#[test]
fn invalid_base64_is_ignored() {
    let mut p = parser_with(10, 80, b"\x1b]52;c;not base64!\x07");
    assert!(p.take_clipboard_writes().is_empty());
}

#[test]
fn osc52_does_not_reach_the_grid() {
    let mut p = parser_with(10, 80, b"before\x1b]52;c;R0VIRUlN\x07after");
    assert_eq!(p.screen().contents().trim(), "beforeafter");
    assert_eq!(p.take_clipboard_writes().len(), 1);
}


#[test]
fn cursor_position_report_answers_the_grid_cursor() {
    let mut p = parser_with(10, 80, b"hi\x1b[6n");
    assert_eq!(p.take_replies(), b"\x1b[1;3R".to_vec());
}

#[test]
fn cursor_position_report_follows_the_cursor() {
    let mut p = parser_with(10, 80, b"\x1b[5;7H\x1b[6n");
    assert_eq!(p.take_replies(), b"\x1b[5;7R".to_vec());
}

#[test]
fn cursor_position_report_is_clamped_at_the_right_margin() {
    let mut p = parser_with(3, 10, b"0123456789\x1b[6n");
    assert_eq!(p.screen().cursor_position(), (0, 10), "vt100 behaviour");
    assert_eq!(p.take_replies(), b"\x1b[1;10R".to_vec());
}

#[test]
fn device_status_report_answers_ok() {
    let mut p = parser_with(10, 80, b"\x1b[5n");
    assert_eq!(p.take_replies(), b"\x1b[0n".to_vec());
}

#[test]
fn device_attributes_are_answered_with_and_without_a_param() {
    for query in [&b"\x1b[c"[..], &b"\x1b[0c"[..]] {
        let mut p = parser_with(10, 80, query);
        assert_eq!(p.take_replies(), b"\x1b[?1;2c".to_vec(), "query {query:?}");
    }
}

#[test]
fn private_queries_stay_unanswered() {
    let mut p = parser_with(10, 80, b"\x1b[?u\x1b[>c\x1b[?6n");
    assert!(p.take_replies().is_empty());
}

#[test]
fn unknown_dsr_parameters_are_not_answered() {
    let mut p = parser_with(10, 80, b"\x1b[n\x1b[99n");
    assert!(p.take_replies().is_empty());
}

#[test]
fn take_replies_drains() {
    let mut p = parser_with(10, 80, b"\x1b[5n");
    assert_eq!(p.take_replies().len(), 4);
    assert!(p.take_replies().is_empty());
}

#[test]
fn reply_queue_is_capped() {
    let mut stream = Vec::new();
    for _ in 0..1000 {
        stream.extend_from_slice(b"\x1b[5n");
    }
    let mut p = parser_with(10, 80, &stream);
    let queued = p.take_replies().len();
    assert!(queued <= REPLY_QUEUE_MAX_BYTES, "over the cap: {queued}");
    assert!(
        queued > REPLY_QUEUE_MAX_BYTES - 4,
        "cap not actually reached: {queued}"
    );
}

#[test]
fn queries_do_not_reach_the_grid() {
    let mut p = parser_with(10, 80, b"before\x1b[6nafter");
    assert_eq!(p.screen().contents().trim(), "beforeafter");
    assert_eq!(p.take_replies(), b"\x1b[1;7R".to_vec());
}

#[test]
fn decoded_len_matches_real_decode() {
    assert_eq!(decoded_len(b""), 0);
    assert_eq!(decoded_len(b"R0VIRUlN"), 6); // "GEHEIM"
    assert_eq!(decoded_len(b"aGVsbG8="), 5); // "hello", 1 pad
    assert_eq!(decoded_len(b"aGk="), 2); // "hi",    1 pad
    assert_eq!(decoded_len(b"YQ=="), 1); // "a",     2 pads
    assert_eq!(decoded_len(b"YWJjZA=="), 4); // "abcd",  2 pads
}

#[test]
fn decoded_len_handles_unpadded_input() {
    assert_eq!(decoded_len(b"aGVsbG8"), 5); // "hello" unpadded
    assert_eq!(decoded_len(b"aGk"), 2); // "hi"    unpadded
    assert_eq!(decoded_len(b"YQ"), 1); // "a"     unpadded
}

#[test]
fn scrolling_moves_by_rows_and_stops_at_both_ends() {
    let mut bytes = Vec::new();
    for i in 1..=30 {
        bytes.extend_from_slice(format!("line-{i:03}\r\n").as_bytes());
    }
    let mut p = parser_with(10, 80, &bytes);
    p.scroll_up(4);
    assert_eq!(p.scrollback(), 4);
    p.scroll_down(1);
    assert_eq!(p.scrollback(), 3);
    p.scroll_down(100);
    assert_eq!(p.scrollback(), 0);
    // Thirty lines and the prompt line fill the screen and leave 21 rows above.
    p.scroll_up(usize::MAX);
    assert_eq!(p.scrollback(), 21);
}

#[test]
fn resizing_changes_the_size_and_keeps_what_waits() {
    let mut p = parser_with(10, 80, b"\x1b]52;c;R0VIRUlN\x07\x1b[5n");
    p.set_size(24, 100);
    assert_eq!(p.screen().size(), (24, 100));
    assert_eq!(p.take_clipboard_writes(), vec!["R0VIRUlN".to_string()]);
    assert_eq!(p.take_replies(), b"\x1b[0n".to_vec());
}

#[test]
fn copies_up_to_the_cap_are_queued() {
    let mut callbacks = PtyCallbacks::new();
    // Just within, and just past, the largest decoded payload.
    let within = vec![b'A'; CLIPBOARD_RELAY_MAX_BYTES / 3 * 4];
    assert!(decoded_len(&within) <= CLIPBOARD_RELAY_MAX_BYTES);
    callbacks.relay_copy(&within);
    assert_eq!(callbacks.pending.len(), 1);
    callbacks.relay_copy(&vec![b'A'; CLIPBOARD_RELAY_MAX_BYTES / 3 * 4 + 4]);
    assert_eq!(callbacks.pending.len(), 1);
    assert_eq!(callbacks.drops, drops(1, 0));
}

#[test]
fn payloads_that_are_no_text_are_not_queued() {
    let mut callbacks = PtyCallbacks::new();
    callbacks.relay_copy(&[0xff, 0xfe, 0xff, 0xfe]);
    assert!(callbacks.pending.is_empty());
}

#[test]
fn answers_are_fixed_by_the_query() {
    let mut callbacks = PtyCallbacks::new();
    callbacks.answer_query((4, 6), (10, 80), false, 6, 'n');
    assert_eq!(callbacks.replies, b"\x1b[5;7R".to_vec());
    callbacks.answer_query((4, 6), (10, 80), true, 6, 'n');
    assert_eq!(callbacks.replies.len(), 6);
}

#[test]
fn a_narrowed_screen_is_read_again_after_a_reset() {
    let mut p = ParserState::new(2, 6);
    assert!(p.read("ab\u{4f60}".as_bytes()));
    // The right half of the wide character goes.
    p.set_size(2, 3);
    assert!(!p.read(b"x"), "a character is cut in two");
    assert_eq!(p.screen().cell(0, 0).unwrap().contents(), "a");
    p.set_size(2, 6);
    assert!(!p.read(b"x"), "widening does not mend it");
    p.reset();
    assert_eq!(p.screen().size(), (2, 6));
    assert_eq!(p.screen().cursor_position(), (0, 0));
    assert_eq!(p.screen().contents(), "");
    assert!(p.read(b"x"));
    assert_eq!(p.screen().contents(), "x");
}

#[test]
fn a_reset_breaks_off_what_was_begun() {
    let mut p = ParserState::new(4, 10);
    for begun in [&b"\x1b[12;"[..], b"\x1b]52;c;R0VI", b"\x1bP1", b"\xe4\xbd", b"\x1b(", b"\x1b"] {
        assert!(p.read(b"text"));
        assert!(p.read(begun));
        p.reset();
        assert_eq!(p.screen().contents(), "");
        assert!(p.read(b"ok"));
        assert_eq!(p.screen().contents(), "ok");
    }
}

#[test]
fn the_widest_character_needs_three_columns() {
    let mut narrow = ParserState::new(2, 2);
    assert!(!narrow.read("\u{17d8}".as_bytes()));
    let mut low = ParserState::new(1, 10);
    assert!(!low.read(b"x"));
    let mut p = ParserState::new(2, 3);
    assert!(p.read("\u{17d8}\u{17d8}ab\u{17d8}".as_bytes()));
    assert_eq!(p.screen().size(), (2, 3));
}

#[test]
fn callbacks_leave_the_screen_alone() {
    let mut p = ParserState::new(4, 10);
    assert!(p.read(b"text"));
    let before = p.screen().contents_formatted();
    assert!(p.read(b"\x1b[6n\x1b[5n\x1b[c\x1b[99z\x1b]52;c;R0VI\x07"));
    assert_eq!(p.screen().contents_formatted(), before);
    assert_eq!(p.take_replies(), b"\x1b[1;5R\x1b[0n\x1b[?1;2c".to_vec());
}

#[test]
fn history_is_kept_up_to_its_limit() {
    let mut bytes = Vec::new();
    for i in 0..SCROLLBACK_ROWS + 100 {
        bytes.extend_from_slice(format!("{i}\r\n").as_bytes());
    }
    let mut p = parser_with(10, 80, &bytes);
    p.scroll_up(usize::MAX);
    assert_eq!(p.scrollback(), SCROLLBACK_ROWS);
    // Nine of the last lines are on the screen, with the line of the cursor.
    let oldest: String =
        (0..5).filter_map(|col| p.screen().cell(0, col).map(|c| c.contents())).collect();
    assert_eq!(oldest, format!("{}", 100 - 9));
    // A reset empties the history and keeps the room for it.
    p.reset();
    p.scroll_up(1);
    assert_eq!(p.scrollback(), 0);
    p.process(&bytes);
    p.scroll_up(usize::MAX);
    assert_eq!(p.scrollback(), SCROLLBACK_ROWS);
}

#[test]
fn a_resize_keeps_what_still_fits() {
    let mut p = parser_with(4, 10, b"one\r\ntwo\r\nthree");
    p.set_size(3, 20);
    assert_eq!(p.screen().contents(), "one\ntwo\nthree");
    assert_eq!(p.screen().cursor_position(), (2, 5));
    p.set_size(2, 4);
    assert_eq!(p.screen().contents(), "one\ntwo");
    assert_eq!(p.screen().cursor_position(), (1, 3));
}
