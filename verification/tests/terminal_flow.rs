use console_core::terminal::Terminal;
use console_core::terminal::LINE_CAPACITY;
use console_core::terminal::QUEUE_CAPACITY;

const CR: u32 = 13;
const BS: u32 = 8;

fn drained_lines(t: &mut Terminal) -> Vec<Vec<u8>> {
    t.process().lines
}

#[test]
fn scenario_simple_line() {
    // Input "hi\r": the dispatcher receives exactly the bytes "hi".
    let mut t = Terminal::new();
    t.wait_char();
    t.put_char('h' as u32);
    t.put_char('i' as u32);
    t.put_char(CR);
    let out = t.process();
    assert_eq!(out.lines, vec![b"hi".to_vec()]);
    assert_eq!(out.echo, vec!['h' as u32, 'i' as u32, 13, 10]);
    assert_eq!(t.line_len(), 0);
}

#[test]
fn scenario_backspaces() {
    // Input "abc\x08\x08\r": two backspaces leave only "a".
    let mut t = Terminal::new();
    t.wait_char();
    for c in [97u32, 98, 99, BS, BS, CR] {
        t.put_char(c);
    }
    let out = t.process();
    assert_eq!(out.lines, vec![b"a".to_vec()]);
    assert_eq!(
        out.echo,
        vec![97, 98, 99, 8, 32, 8, 8, 32, 8, 13, 10]
    );
}

#[test]
fn scenario_full_buffer_completes() {
    // 256 ordinary characters and no carriage return: the dispatcher
    // receives exactly those 256 bytes, and the buffer is empty again
    // right away.
    let mut t = Terminal::new();
    t.wait_char();
    for i in 0..LINE_CAPACITY {
        t.put_char(b'a' as u32 + (i % 26) as u32);
    }
    let out = t.process();
    assert_eq!(out.lines.len(), 1);
    assert_eq!(out.lines[0].len(), 256);
    for i in 0..LINE_CAPACITY {
        assert_eq!(out.lines[0][i], b'a' + (i % 26) as u8);
    }
    assert_eq!(t.line_len(), 0);
    // The completing character is echoed, then the line break.
    assert_eq!(out.echo.len(), 258);
    assert_eq!(out.echo[256], 13);
    assert_eq!(out.echo[257], 10);
}

#[test]
fn scenario_empty_line() {
    // Input "\r": the dispatcher receives an empty byte sequence.
    let mut t = Terminal::new();
    t.wait_char();
    t.put_char(CR);
    let out = t.process();
    assert_eq!(out.lines, vec![Vec::<u8>::new()]);
    assert_eq!(out.echo, vec![13, 10]);
}

#[test]
fn scenario_overflow_drops_newest() {
    // 300 characters offered before the drain runs, against a queue
    // capacity of 256: exactly the earliest 256 are observed, the rest
    // are dropped.
    let mut t = Terminal::new();
    t.wait_char();
    for i in 0u32..300 {
        t.put_char(1000 + i);
        assert!(t.pending_len() <= QUEUE_CAPACITY);
    }
    assert_eq!(t.pending_len(), 256);
    let out = t.process();
    // The 256 survivors are ordinary characters, so they fill the line
    // buffer exactly once and dispatch as one full line.
    assert_eq!(out.lines.len(), 1);
    assert_eq!(out.lines[0].len(), 256);
    for i in 0..256usize {
        assert_eq!(out.lines[0][i], ((1000 + i) % 256) as u8);
    }
}

#[test]
fn fifo_order_across_drain_cycles() {
    // Characters are observed in put order even when puts are split
    // across several drain cycles.
    let mut t = Terminal::new();
    t.wait_char();
    t.put_char('a' as u32);
    t.put_char('b' as u32);
    let first = t.process();
    assert!(first.lines.is_empty());
    t.put_char('c' as u32);
    t.put_char(CR);
    let second = t.process();
    assert_eq!(second.lines, vec![b"abc".to_vec()]);
}

#[test]
fn drain_on_empty_is_idempotent() {
    // Draining an empty queue performs no transition and re-arms at once.
    let mut t = Terminal::new();
    t.wait_char();
    t.put_char('x' as u32);
    let _ = t.process();
    assert_eq!(t.line_len(), 1);
    let out = t.process();
    assert!(out.lines.is_empty());
    assert!(out.echo.is_empty());
    assert_eq!(t.line_len(), 1);
    assert!(t.is_armed());
}

#[test]
fn backspace_on_empty_buffer_is_noop() {
    let mut t = Terminal::new();
    let out = t.process_char(BS);
    assert!(out.echo.is_empty());
    assert!(out.completed.is_none());
    assert_eq!(t.line_len(), 0);
}

#[test]
fn backspace_erases_and_echoes() {
    let mut t = Terminal::new();
    let _ = t.process_char('x' as u32);
    let out = t.process_char(BS);
    assert_eq!(out.echo, vec![8, 32, 8]);
    assert!(out.completed.is_none());
    assert_eq!(t.line_len(), 0);
}

#[test]
fn cursor_stays_within_capacity() {
    let mut t = Terminal::new();
    for i in 0..2 * LINE_CAPACITY {
        let out = t.process_char('y' as u32);
        assert!(t.line_len() < LINE_CAPACITY);
        if i % LINE_CAPACITY == LINE_CAPACITY - 1 {
            // The character that fills the buffer completes the line.
            let full = out.completed.expect("filling character must complete");
            assert_eq!(full.len(), LINE_CAPACITY);
            assert_eq!(t.line_len(), 0);
        } else {
            assert!(out.completed.is_none());
        }
    }
}

#[test]
fn rearm_protocol_keeps_one_task() {
    let mut t = Terminal::new();
    assert!(!t.is_armed());
    t.wait_char();
    assert!(t.is_armed());
    // Only the outstanding task runs the drain, and it re-arms itself.
    let _ = t.process();
    assert!(t.is_armed());
    let _ = drained_lines(&mut t);
    assert!(t.is_armed());
}

#[test]
fn put_char_does_not_touch_line_or_task() {
    let mut t = Terminal::new();
    t.wait_char();
    let _ = t.process_char('q' as u32);
    t.put_char('z' as u32);
    assert_eq!(t.line_len(), 1);
    assert_eq!(t.pending_len(), 1);
    assert!(t.is_armed());
}

#[test]
fn stores_low_byte_of_wide_character() {
    // The low byte of the character, not the character value, is stored.
    let mut t = Terminal::new();
    t.wait_char();
    t.put_char(0x1F600);
    t.put_char(CR);
    let out = t.process();
    assert_eq!(out.lines, vec![vec![0x1F600u32 as u8]]);
}
