use chat_client::app::{render_window, App};
use chat_client::mux::{Action, EditorEffect, Event, Multiplexer, Phase};
use chat_client::outbox::Outbox;
use chat_client::record::{blank, classify, DisplayRecord};

fn history(n: usize) -> Vec<String> {
    (1..=n).map(|i| format!("m{}", i)).collect()
}

fn records(lines: &[&str]) -> Vec<DisplayRecord> {
    lines.iter().map(|l| classify(l)).collect()
}

#[test]
fn new_session_is_in_room_zero_with_no_history() {
    let app = App::new();
    assert_eq!(app.room, "zero");
    assert!(app.messages.is_empty());
}

#[test]
fn window_over_empty_history_is_blank() {
    let rows = render_window(&Vec::new(), 5);
    assert_eq!(rows, vec![blank(), blank(), blank(), blank(), blank()]);
}

#[test]
fn window_pads_a_short_history_above() {
    let rows = render_window(&history(3), 5);
    let mut expected = vec![blank(), blank()];
    expected.extend(records(&["m1", "m2", "m3"]));
    assert_eq!(rows, expected);
}

#[test]
fn window_keeps_the_newest_of_a_long_history() {
    let rows = render_window(&history(10), 5);
    assert_eq!(rows, records(&["m6", "m7", "m8", "m9", "m10"]));
}

#[test]
fn window_of_exactly_the_history() {
    assert_eq!(render_window(&history(5), 5), records(&["m1", "m2", "m3", "m4", "m5"]));
}

#[test]
fn window_of_no_rows_is_empty() {
    assert_eq!(render_window(&history(3), 0), Vec::<DisplayRecord>::new());
    assert_eq!(render_window(&Vec::new(), 0), Vec::<DisplayRecord>::new());
}

#[test]
fn window_always_has_the_rows_asked_for() {
    for n in 0..8 {
        for rows in 0..8 {
            assert_eq!(render_window(&history(n), rows).len(), rows);
        }
    }
}

#[test]
fn window_classifies_each_message() {
    let lines = vec!["*** Welcome to lobby42 friend".to_string(), "alice: hi".to_string()];
    let rows = render_window(&lines, 3);
    assert_eq!(rows, vec![blank(), classify("*** Welcome to lobby42 friend"), classify("alice: hi")]);
}

#[test]
fn messages_to_list_is_the_window_over_the_history() {
    let mut app = App::new();
    for m in history(4) {
        app.add_msg(m);
    }
    assert_eq!(app.messages_to_list(3, 80), records(&["m2", "m3", "m4"]));
    assert_eq!(app.messages_to_list(3, 0), app.messages_to_list(3, 200));
    assert_eq!(app.messages_to_list(6, 80), render_window(&history(4), 6));
}

#[test]
fn add_msg_appends_in_order() {
    let mut app = App::new();
    app.add_msg("one".to_string());
    app.add_msg("two".to_string());
    app.add_msg("one".to_string());
    assert_eq!(app.messages, vec!["one", "two", "one"]);
    assert_eq!(app.room, "zero");
}

#[test]
fn update_room_name_overwrites() {
    let mut app = App::new();
    app.add_msg("kept".to_string());
    app.update_room_name("lobby");
    assert_eq!(app.room, "lobby");
    app.update_room_name("");
    assert_eq!(app.room, "");
    assert_eq!(app.messages, vec!["kept"]);
}

#[test]
fn welcome_banner_sets_the_room() {
    let mut app = App::new();
    app.receive("*** Welcome to lobby42 friend".to_string());
    assert_eq!(app.room, "lobby42");
    assert_eq!(app.messages, vec!["*** Welcome to lobby42 friend"]);
}

#[test]
fn room_is_that_of_the_latest_banner() {
    let mut app = App::new();
    app.receive("*** Welcome to first x".to_string());
    app.receive("alice: *** Welcome to nowhere".to_string());
    app.receive("*** Welcome to".to_string());
    assert_eq!(app.room, "first");
    app.receive("*** Welcome to second".to_string());
    app.receive("*** You are now known as bob".to_string());
    assert_eq!(app.room, "second");
    assert_eq!(app.messages.len(), 5);
}

#[test]
fn submission_stops_at_the_first_failed_send() {
    let mut mux = Multiplexer::new();
    let lines = vec!["first".to_string(), "second".to_string()];
    let action = mux.step(Event::Submit { buffer_empty: false, lines: lines.clone() });
    assert_eq!(action.editor_effect(), EditorEffect::Reset);
    let mut outbox = match action {
        Action::Submit(outbox) => outbox,
        other => panic!("unexpected action {:?}", other),
    };
    let mut sent: Vec<String> = Vec::new();
    let outcomes = [true, false];
    let mut attempts = 0;
    while let Some(line) = outbox.current().cloned() {
        let ok = outcomes[attempts];
        attempts += 1;
        if ok {
            sent.push(line);
        }
        outbox.record(ok);
    }
    assert_eq!(attempts, 2);
    assert_eq!(sent, vec!["first"]);
    assert_eq!(outbox.delivered(), 1);
    assert!(outbox.is_done());
    assert_eq!(mux.phase, Phase::Running);
    assert!(mux.is_running());
}

#[test]
fn failure_gives_up_the_lines_that_are_left() {
    let mut outbox = Outbox::new(vec!["a".to_string(), "b".to_string(), "c".to_string()]);
    assert_eq!(outbox.current(), Some(&"a".to_string()));
    outbox.record(false);
    assert_eq!(outbox.current(), None);
    assert!(outbox.is_done());
    assert_eq!(outbox.delivered(), 0);
    outbox.record(true);
    assert_eq!(outbox.delivered(), 0);
    assert_eq!(outbox.lines, vec!["a", "b", "c"]);
}

#[test]
fn all_lines_go_out_in_order_when_no_send_fails() {
    let mut outbox = Outbox::new(vec!["a".to_string(), "b".to_string(), "c".to_string()]);
    let mut sent = Vec::new();
    while let Some(line) = outbox.current().cloned() {
        sent.push(line);
        outbox.record(true);
    }
    assert_eq!(sent, vec!["a", "b", "c"]);
    assert_eq!(outbox.delivered(), 3);
    assert!(outbox.is_done());
}

#[test]
fn outbox_without_lines_is_done() {
    let outbox = Outbox::new(Vec::new());
    assert!(outbox.is_done());
    assert_eq!(outbox.current(), None);
    assert_eq!(outbox.delivered(), 0);
}

#[test]
fn submit_on_an_empty_buffer_does_nothing() {
    let mut mux = Multiplexer::new();
    let action = mux.step(Event::Submit { buffer_empty: true, lines: vec![String::new()] });
    assert_eq!(action, Action::Proceed);
    assert_eq!(mux, Multiplexer::new());
}

#[test]
fn submit_hands_out_the_lines_in_order() {
    let mut mux = Multiplexer::new();
    let lines = vec!["x".to_string(), "y".to_string()];
    let action = mux.step(Event::Submit { buffer_empty: false, lines: lines.clone() });
    assert_eq!(action, Action::Submit(Outbox { lines, next: 0, delivered: 0 }));
    assert_eq!(mux, Multiplexer::new());
}

#[test]
fn other_input_goes_to_the_editor() {
    let mut mux = Multiplexer::new();
    assert_eq!(mux.step(Event::Input), Action::Forward);
    assert_eq!(mux, Multiplexer::new());
}

#[test]
fn quit_and_terminal_end_close_the_loop() {
    for event in [Event::Quit, Event::TerminalClosed] {
        let mut mux = Multiplexer::new();
        assert_eq!(mux.step(event), Action::Stop);
        assert_eq!(mux.phase, Phase::Closing);
        assert!(!mux.is_running());
    }
}

#[test]
fn network_line_is_received_by_the_session() {
    let mut mux = Multiplexer::new();
    assert_eq!(mux.step(Event::Line("*** Welcome to lobby42 friend".to_string())), Action::Proceed);
    assert_eq!(mux.step(Event::Line("alice: hi".to_string())), Action::Proceed);
    assert_eq!(mux.phase, Phase::Running);
    assert_eq!(mux.app.room, "lobby42");
    assert_eq!(mux.app.messages, vec!["*** Welcome to lobby42 friend", "alice: hi"]);
}

#[test]
fn network_end_closes_and_the_terminal_is_released_once() {
    let mut mux = Multiplexer::new();
    mux.step(Event::Line("alice: hi".to_string()));
    assert_eq!(mux.step(Event::NetworkClosed), Action::Stop);
    assert_eq!(mux.phase, Phase::Closing);
    let mut releases = 0;
    for _ in 0..3 {
        if mux.close() {
            releases += 1;
        }
        assert_eq!(mux.phase, Phase::Closed);
    }
    assert_eq!(releases, 1);
    assert_eq!(mux.app.messages, vec!["alice: hi"]);
}

#[test]
fn events_after_the_end_are_not_taken() {
    let mut mux = Multiplexer::new();
    mux.step(Event::NetworkClosed);
    let before = mux.clone();
    assert_eq!(mux.step(Event::Line("late".to_string())), Action::Stop);
    assert_eq!(mux.step(Event::Input), Action::Stop);
    assert_eq!(mux, before);
    mux.close();
    assert_eq!(mux.step(Event::Quit), Action::Stop);
    assert_eq!(mux.phase, Phase::Closed);
}

#[test]
fn close_of_a_running_loop_releases_the_terminal() {
    let mut mux = Multiplexer::new();
    assert!(mux.close());
    assert!(!mux.close());
}

#[test]
fn rows_follow_the_height_of_the_area() {
    let mut mux = Multiplexer::new();
    for m in history(4) {
        mux.step(Event::Line(m));
    }
    assert_eq!(mux.view_rows(5), records(&["m2", "m3", "m4"]));
    assert_eq!(mux.view_rows(8).len(), 6);
    assert_eq!(mux.view_rows(8), render_window(&history(4), 6));
    assert_eq!(mux.view_rows(2), Vec::<DisplayRecord>::new());
    assert_eq!(mux.view_rows(1), Vec::<DisplayRecord>::new());
    assert_eq!(mux.view_rows(0), Vec::<DisplayRecord>::new());
}

#[test]
fn editor_effect_follows_the_action() {
    assert_eq!(Action::Proceed.editor_effect(), EditorEffect::Keep);
    assert_eq!(Action::Stop.editor_effect(), EditorEffect::Keep);
    assert_eq!(Action::Forward.editor_effect(), EditorEffect::Edit);
    assert_eq!(Action::Submit(Outbox::new(Vec::new())).editor_effect(), EditorEffect::Reset);
}
