use tickdash::app::{App, AppMode, InputKey};
use tickdash::logring::{page_info, LogRing, LOG_CAPACITY};

fn ring_with(n: usize, height: usize) -> LogRing {
    let mut ring = LogRing::new();
    for i in 1..=n {
        ring.append(format!("entry {}", i), height);
    }
    ring
}

#[test]
fn capacity_and_fifo_eviction() {
    // 300 appends into an empty ring: 256 survive, the oldest 44 are gone,
    // the last one appended is present.
    let ring = ring_with(300, 10);
    assert_eq!(ring.len(), LOG_CAPACITY);
    assert_eq!(ring.entries.len(), 256);
    assert_eq!(ring.entries[0], "entry 45");
    assert_eq!(ring.entries[255], "entry 300");
    for e in ring.entries.iter() {
        let n: usize = e["entry ".len()..].parse().unwrap();
        assert!(n > 44);
    }
}

#[test]
fn eviction_starts_at_the_257th_entry() {
    let mut ring = ring_with(256, 10);
    assert_eq!(ring.entries[0], "entry 1");
    ring.append("entry 257".to_string(), 10);
    assert_eq!(ring.len(), 256);
    assert_eq!(ring.entries[0], "entry 2");
    assert_eq!(ring.entries[255], "entry 257");
}

#[test]
fn auto_scroll_tracks_the_tail() {
    // With auto-scroll on, the cursor after each append is the new length
    // minus the viewport height, floored at zero.
    let mut ring = LogRing::new();
    assert!(ring.auto_scroll);
    for i in 1..=5 {
        ring.append(format!("entry {}", i), 5);
        assert_eq!(ring.scroll_offset, 0);
    }
    for i in 6..=12 {
        ring.append(format!("entry {}", i), 5);
        assert_eq!(ring.scroll_offset, i - 5);
    }
}

#[test]
fn frozen_cursor_ignores_appends() {
    let mut ring = ring_with(10, 3);
    ring.jump_top();
    assert!(!ring.auto_scroll);
    ring.append("more".to_string(), 3);
    assert_eq!(ring.scroll_offset, 0);
}

#[test]
fn scroll_down_past_bottom_clamps_and_resumes_auto_scroll() {
    let mut ring = ring_with(10, 4);
    // max offset is 6
    ring.jump_top();
    for expected in 1..=5 {
        ring.scroll_down(4);
        assert_eq!(ring.scroll_offset, expected);
        assert!(!ring.auto_scroll);
    }
    ring.scroll_down(4);
    assert_eq!(ring.scroll_offset, 6);
    assert!(ring.auto_scroll);
    // One more is clamped at the max.
    ring.scroll_down(4);
    assert_eq!(ring.scroll_offset, 6);
    assert!(ring.auto_scroll);

    // A subsequent append keeps the tail visible.
    ring.append("tail".to_string(), 4);
    assert_eq!(ring.scroll_offset, 7);
    assert_eq!(ring.entries[ring.len() - 1], "tail");
    assert!(ring.scroll_offset <= ring.len() - 1);
    assert!(ring.len() - 1 < ring.scroll_offset + 4);
}

#[test]
fn scroll_up_floors_at_zero() {
    let mut ring = ring_with(6, 2);
    ring.jump_bottom(2);
    assert_eq!(ring.scroll_offset, 4);
    assert!(ring.auto_scroll);
    ring.scroll_up(2);
    assert_eq!(ring.scroll_offset, 3);
    assert!(!ring.auto_scroll);
    ring.jump_top();
    ring.scroll_up(2);
    assert_eq!(ring.scroll_offset, 0);
}

#[test]
fn reclamp_follows_viewport_changes() {
    let mut ring = ring_with(10, 4);
    assert_eq!(ring.scroll_offset, 6);
    // A taller viewport moves an auto-scrolled cursor up.
    ring.reclamp(8);
    assert_eq!(ring.scroll_offset, 2);
    // A frozen cursor is only clamped into range.
    ring.jump_bottom(2);
    assert_eq!(ring.scroll_offset, 8);
    ring.auto_scroll = false;
    ring.reclamp(6);
    assert_eq!(ring.scroll_offset, 4);
    ring.reclamp(6);
    assert_eq!(ring.scroll_offset, 4);
}

#[test]
fn visible_window() {
    let ring = ring_with(4, 10);
    let mut ring = ring;
    ring.jump_top();
    ring.scroll_down(2);
    assert_eq!(ring.scroll_offset, 1);
    let v = ring.visible_lines(2);
    assert_eq!(v, vec!["entry 2".to_string(), "entry 3".to_string()]);

    let all = ring.visible_lines(100);
    assert_eq!(all.len(), 3);

    let none = ring.visible_lines(0);
    assert!(none.is_empty());
}

#[test]
fn page_numbers() {
    // An empty log still counts as page one of zero pages.
    assert_eq!(page_info(0, 0, 10), (1, 0));
    assert_eq!(page_info(11, 0, 10), (1, 2));
    assert_eq!(page_info(11, 10, 10), (2, 2));
    assert_eq!(page_info(20, 0, 10), (1, 2));
    // No visible rows: no pages at all.
    assert_eq!(page_info(5, 0, 0), (0, 0));
}

#[test]
fn input_keys_move_the_cursor() {
    let mut app = App::new(AppMode::ClockMode, 0, 0, 1, String::new());
    for i in 1..=10 {
        app.add_log(format!("line {}", i));
    }
    // Viewport height 4: max offset 6; the append rule with the initial
    // stored height 0 left the cursor at 10, so the first key re-clamps.
    app.handle_event(InputKey::JumpBottom, 4);
    assert_eq!(app.log.scroll_offset, 6);
    assert!(app.log.auto_scroll);
    assert_eq!(app.viewport_height, 4);

    app.handle_event(InputKey::ScrollUp, 4);
    assert_eq!(app.log.scroll_offset, 5);
    assert!(!app.log.auto_scroll);

    app.handle_event(InputKey::ScrollDown, 4);
    assert_eq!(app.log.scroll_offset, 6);
    assert!(app.log.auto_scroll);

    app.handle_event(InputKey::JumpTop, 4);
    assert_eq!(app.log.scroll_offset, 0);
    assert!(!app.log.auto_scroll);

    app.handle_event(InputKey::Other, 4);
    assert_eq!(app.log.scroll_offset, 0);
    assert!(!app.log.auto_scroll);
    assert!(app.running);

    app.handle_event(InputKey::Quit, 4);
    assert!(!app.running);
}
