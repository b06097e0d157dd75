use ghop::mux::{OutputEvent, StreamKind};
use ghop::view::{pane_title, App, LOG_CAP, LOG_EVICT, VISIBLE_CAP};

fn out(idx: usize, text: &str) -> OutputEvent {
    OutputEvent { index: idx, stream: StreamKind::Stdout, line: text.to_string() }
}

#[test]
fn new_app_has_one_empty_pane_per_command() {
    let app = App::new(3);
    assert_eq!(app.pane_count(), 3);
    assert_eq!(app.selected, 0);
    for pane in &app.logs {
        assert!(pane.is_empty());
    }
}

#[test]
fn push_appends_to_the_right_pane_only() {
    let mut app = App::new(2);
    app.push(out(0, "a"));
    app.push(out(1, "b"));
    app.push(out(0, "a2"));
    assert_eq!(app.logs[0], vec!["a", "a2"]);
    assert_eq!(app.logs[1], vec!["b"]);
}

#[test]
fn stderr_pane_lines_carry_err_marker() {
    let mut app = App::new(1);
    app.push(OutputEvent { index: 0, stream: StreamKind::Stderr, line: "oops".to_string() });
    app.push(out(0, "fine"));
    assert_eq!(app.logs[0], vec!["[err] oops", "fine"]);
}

#[test]
fn over_cap_pane_drops_oldest_half_keeps_newest() {
    let mut app = App::new(1);
    for i in 0..(LOG_CAP + 2) {
        app.push(out(0, &format!("line{}", i)));
    }
    // The push that found the pane over the cap dropped the oldest
    // LOG_EVICT lines before appending; the newest line is never dropped.
    assert_eq!(app.logs[0].len(), LOG_CAP + 1 - LOG_EVICT + 1);
    assert_eq!(app.logs[0][0], format!("line{}", LOG_EVICT));
    assert_eq!(app.logs[0].last().unwrap(), &format!("line{}", LOG_CAP + 1));
}

#[test]
fn selection_moves_and_saturates() {
    let mut app = App::new(3);
    app.select_prev();
    assert_eq!(app.selected, 0);
    app.select_next();
    assert_eq!(app.selected, 1);
    app.select_next();
    assert_eq!(app.selected, 2);
    app.select_next();
    assert_eq!(app.selected, 2);
    app.select_prev();
    assert_eq!(app.selected, 1);
}

#[test]
fn tab_selection_wraps_both_ways() {
    let mut app = App::new(3);
    app.select_tab_prev();
    assert_eq!(app.selected, 2);
    app.select_tab_next();
    assert_eq!(app.selected, 0);
    app.select_tab_next();
    assert_eq!(app.selected, 1);
    app.select_tab_next();
    app.select_tab_next();
    assert_eq!(app.selected, 0);
}

#[test]
fn pane_titles_are_numbered_one_based() {
    assert_eq!(pane_title(0, "npm run dev"), "1: npm run dev");
    assert_eq!(pane_title(11, "cargo watch -x run"), "12: cargo watch -x run");
}

#[test]
fn visible_tail_shows_newest_lines_of_selected_pane() {
    let mut app = App::new(2);
    app.push(out(1, "old"));
    app.push(out(1, "new"));
    app.select_next();
    let tail = app.visible_tail();
    assert_eq!(tail, vec!["old", "new"]);
}

#[test]
fn visible_tail_is_capped() {
    let mut app = App::new(1);
    for i in 0..(VISIBLE_CAP + 5) {
        app.push(out(0, &format!("l{}", i)));
    }
    let tail = app.visible_tail();
    assert_eq!(tail.len(), VISIBLE_CAP);
    assert_eq!(tail[0], format!("l{}", 5));
    assert_eq!(tail.last().unwrap(), &format!("l{}", VISIBLE_CAP + 4));
}
