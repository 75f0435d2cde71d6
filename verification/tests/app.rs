use ytplay::app::{App, TAB_COUNT};
use ytplay::effect::Effect;
use ytplay::keys::{Intent, Key, KeyPress, Mode, Screen};
use ytplay::lines::split_lines;
use ytplay::protocol::{player_args, search_args};
use ytplay::search::{finish_lookup, SearchPoll};
use ytplay::session::SessionState;
use ytplay::video::Video;

fn press(c: char) -> KeyPress {
    KeyPress { key: Key::Char(c), control: false }
}

fn key(key: Key) -> KeyPress {
    KeyPress { key, control: false }
}

fn video(id: &str) -> Video {
    Video::new(id.to_string(), format!("title of {id}"), "someone".to_string())
}

fn type_text(app: &mut App, text: &str) {
    for c in text.chars() {
        assert!(app.on_key_event(press(c)).is_empty());
    }
}

fn search_for(app: &mut App, text: &str) -> u64 {
    app.on_key_event(press('/'));
    type_text(app, text);
    let steps = app.on_key_event(key(Key::Enter));
    assert_eq!(steps, vec![Effect::Lookup { ticket: app.ticket(), args: search_args(text) }]);
    app.ticket()
}

fn app_with_results(ids: &[&str]) -> App {
    let mut app = App::new();
    let ticket = search_for(&mut app, "anything");
    let videos = ids.iter().map(|id| video(id)).collect();
    app.check_search_results(ticket, SearchPoll::Delivered(videos)).unwrap();
    app
}

fn playing_app() -> App {
    let mut app = app_with_results(&["a", "b", "c"]);
    assert_eq!(app.on_key_event(key(Key::Enter)), vec![Effect::Spawn { args: player_args("a") }]);
    app.spawn_finished(true);
    app
}

fn connected_app() -> App {
    let mut app = playing_app();
    assert!(app.needs_connect());
    app.try_connect_mpv(true);
    app
}

fn text_member(value: &serde_json::Value, name: &str) -> Option<String> {
    value.get(name).and_then(|member| member.as_str()).map(|text| text.to_string())
}

fn parse_line(line: &[u8]) -> Result<Video, String> {
    let text = String::from_utf8_lossy(line);
    let value: serde_json::Value = serde_json::from_str(&text).map_err(|e| e.to_string())?;
    let id = text_member(&value, "id").ok_or_else(|| "missing field `id`".to_string())?;
    let title = text_member(&value, "title").ok_or_else(|| "missing field `title`".to_string())?;
    let uploader = text_member(&value, "uploader").unwrap_or_default();
    Ok(Video::new(id, title, uploader))
}

#[test]
fn new_app_starts_on_the_empty_queue() {
    let app = App::new();
    assert!(app.is_running());
    assert_eq!(app.mode(), Mode::Normal);
    assert_eq!(app.screen(), Screen::Queue);
    assert_eq!(app.tab(), 0);
    assert_eq!(app.query(), "");
    assert!(app.results().is_empty());
    assert!(app.queue().is_empty());
    assert_eq!(app.results().selected(), None);
    assert_eq!(app.queue().selected(), None);
    assert_eq!(app.session().state(), SessionState::Idle);
    assert!(!app.is_nowplaying());
    assert!(!app.is_loading());
    assert!(!app.needs_connect());
    assert_eq!(app.now_playing(), &Video::empty());
}

#[test]
fn tabs_cycle_forward_and_backward() {
    let mut app = App::new();
    assert_eq!(TAB_COUNT, 2);
    app.on_key_event(press('H'));
    assert_eq!((app.screen(), app.tab()), (Screen::Results, 1));
    app.on_key_event(press('H'));
    assert_eq!((app.screen(), app.tab()), (Screen::Queue, 0));
    app.on_key_event(press('L'));
    assert_eq!((app.screen(), app.tab()), (Screen::Results, 1));
    app.on_key_event(press('L'));
    assert_eq!((app.screen(), app.tab()), (Screen::Queue, 0));
}

#[test]
fn tab_stays_with_screen_through_many_switches() {
    let mut app = App::new();
    for (i, c) in "HHLHLLLHHHLH".chars().enumerate() {
        app.on_key_event(press(c));
        let expected = if i % 2 == 0 { Screen::Results } else { Screen::Queue };
        assert_eq!(app.screen(), expected);
        assert_eq!(app.tab(), if expected == Screen::Queue { 0 } else { 1 });
    }
}

#[test]
fn tabs_methods_wrap_around() {
    let mut app = App::new();
    app.tabs_previous();
    assert_eq!((app.screen(), app.tab()), (Screen::Results, 1));
    app.tabs_next();
    assert_eq!((app.screen(), app.tab()), (Screen::Queue, 0));
    app.tabs_choose(Screen::Results);
    assert_eq!((app.screen(), app.tab()), (Screen::Results, 1));
    app.tabs_choose(Screen::Queue);
    assert_eq!((app.screen(), app.tab()), (Screen::Queue, 0));
}

#[test]
fn search_text_is_edited_by_character() {
    let mut app = App::new();
    app.on_key_event(press('/'));
    assert_eq!(app.mode(), Mode::SearchEntry);
    assert_eq!(app.query(), "");
    type_text(&mut app, "loq");
    assert_eq!(app.query(), "loq");
    app.on_key_event(key(Key::Backspace));
    assert_eq!(app.query(), "lo");
    type_text(&mut app, "fi");
    assert_eq!(app.query(), "lofi");
}

#[test]
fn backspace_on_empty_text_does_nothing() {
    let mut app = App::new();
    app.on_key_event(press('/'));
    app.on_key_event(key(Key::Backspace));
    assert_eq!(app.query(), "");
    assert_eq!(app.mode(), Mode::SearchEntry);
}

#[test]
fn command_keys_are_text_while_editing() {
    let mut app = App::new();
    app.on_key_event(press('/'));
    type_text(&mut app, "qjkHL/ s90");
    assert_eq!(app.query(), "qjkHL/ s90");
    assert!(app.is_running());
    assert_eq!(app.screen(), Screen::Queue);
}

#[test]
fn cancel_clears_text_and_keeps_screen() {
    let mut app = App::new();
    app.on_key_event(press('/'));
    type_text(&mut app, "abc");
    assert!(app.on_key_event(key(Key::Esc)).is_empty());
    assert_eq!(app.mode(), Mode::Normal);
    assert_eq!(app.query(), "");
    assert_eq!(app.screen(), Screen::Queue);
    assert!(!app.is_loading());
    app.on_key_event(press('/'));
    assert_eq!(app.query(), "");
}

#[test]
fn commit_submits_and_shows_results() {
    let mut app = App::new();
    app.on_key_event(press('/'));
    type_text(&mut app, "lofi");
    let steps = app.on_key_event(key(Key::Enter));
    assert_eq!(
        steps,
        vec![Effect::Lookup {
            ticket: 1,
            args: vec![
                "ytsearch25:lofi".to_string(),
                "--dump-json".to_string(),
                "--flat-playlist".to_string(),
                "--no-warnings".to_string(),
            ],
        }]
    );
    assert_eq!(app.mode(), Mode::Normal);
    assert_eq!(app.query(), "");
    assert_eq!((app.screen(), app.tab()), (Screen::Results, 1));
    assert!(app.is_loading());
    assert_eq!(app.ticket(), 1);
    assert!(app.results().is_empty());
}

#[test]
fn search_scenario_end_to_end() {
    let mut app = App::new();
    let ticket = search_for(&mut app, "lofi");
    assert!(app.is_loading());
    assert!(app.results().is_empty());
    let stdout = "{\"id\":\"x1\",\"title\":\"lofi one\",\"uploader\":\"chill\"}\n{\"id\":\nbroken\n{\"id\":\"x2\",\"title\":\"lofi two\"}\n";
    let lines = split_lines(stdout.as_bytes());
    assert_eq!(lines.len(), 4);
    let parsed: Vec<Result<Video, String>> = lines.iter().map(|line| parse_line(line)).collect();
    let batch = finish_lookup(true, "", &parsed).unwrap();
    assert_eq!(batch.warnings.len(), 2);
    assert_eq!(app.check_search_results(ticket, SearchPoll::Empty), Ok(()));
    assert!(app.is_loading());
    assert_eq!(app.check_search_results(ticket, SearchPoll::Delivered(batch.videos)), Ok(()));
    assert_eq!(
        app.results().items(),
        &vec![
            Video::new("x1".to_string(), "lofi one".to_string(), "chill".to_string()),
            Video::new("x2".to_string(), "lofi two".to_string(), String::new()),
        ]
    );
    assert!(!app.is_loading());
    assert_eq!(app.results().selected(), Some(0));
    assert_eq!(app.screen(), Screen::Results);
}

#[test]
fn search_failure_is_shown_and_ends_loading() {
    let mut app = app_with_results(&["a"]);
    let ticket = search_for(&mut app, "more");
    let failure = finish_lookup(false, "no network", &Vec::new()).unwrap_err();
    assert_eq!(
        app.check_search_results(ticket, SearchPoll::Failed(failure)),
        Err("Videos not recived. Error: yt-dlp error: no network \nCheck if yt-dlp is latest.".to_string())
    );
    assert!(!app.is_loading());
    assert!(app.results().is_empty());
    assert!(app.is_running());
}

#[test]
fn stale_results_are_never_shown() {
    let mut app = App::new();
    let first = search_for(&mut app, "one");
    let second = search_for(&mut app, "two");
    assert_ne!(first, second);
    assert_eq!(app.check_search_results(first, SearchPoll::Delivered(vec![video("stale")])), Ok(()));
    assert!(app.results().is_empty());
    assert!(app.is_loading());
    assert_eq!(app.check_search_results(second, SearchPoll::Delivered(vec![video("fresh")])), Ok(()));
    assert_eq!(app.results().items(), &vec![video("fresh")]);
    assert!(!app.is_loading());
    assert_eq!(app.check_search_results(first, SearchPoll::Delivered(vec![video("late")])), Ok(()));
    assert_eq!(app.results().items(), &vec![video("fresh")]);
}

#[test]
fn cursor_moves_in_the_shown_list_only() {
    let mut app = app_with_results(&["a", "b", "c"]);
    app.on_key_event(press('j'));
    assert_eq!(app.results().selected(), Some(1));
    assert_eq!(app.queue().selected(), None);
    app.on_key_event(press('j'));
    app.on_key_event(press('j'));
    assert_eq!(app.results().selected(), Some(2));
    app.on_key_event(press('k'));
    assert_eq!(app.results().selected(), Some(1));
    app.on_key_event(press('H'));
    assert_eq!(app.screen(), Screen::Queue);
    app.on_key_event(press('j'));
    assert_eq!(app.queue().selected(), None);
    assert_eq!(app.results().selected(), Some(1));
}

#[test]
fn activating_a_result_plays_and_queues_it() {
    let mut app = app_with_results(&["a", "b", "c"]);
    app.on_key_event(press('j'));
    assert_eq!(app.results().selected(), Some(1));
    let steps = app.on_key_event(key(Key::Enter));
    assert_eq!(steps, vec![Effect::Spawn { args: player_args("b") }]);
    assert_eq!(app.screen(), Screen::Results);
    assert!(app.queue().is_empty());
    app.spawn_finished(true);
    assert_eq!(app.queue().items(), &vec![video("b")]);
    assert_eq!(app.queue().selected(), Some(0));
    assert_eq!((app.screen(), app.tab()), (Screen::Queue, 0));
    assert_eq!(app.now_playing(), &video("b"));
    assert!(app.is_nowplaying());
    assert_eq!(app.session().state(), SessionState::ConnectingControl { attempts_remaining: 10 });
    assert_eq!(app.results().len(), 3);
    assert_eq!(app.results().selected(), Some(1));
}

#[test]
fn activated_results_join_the_end_of_the_queue() {
    let mut app = playing_app();
    app.on_key_event(press('L'));
    app.on_key_event(press('j'));
    app.on_key_event(press('j'));
    let steps = app.on_key_event(key(Key::Enter));
    assert_eq!(
        steps,
        vec![Effect::Kill, Effect::Reap, Effect::RemoveSocketFile, Effect::Spawn { args: player_args("c") }]
    );
    app.spawn_finished(true);
    assert_eq!(app.queue().items(), &vec![video("a"), video("c")]);
    assert_eq!(app.queue().selected(), Some(0));
    assert_eq!(app.now_playing(), &video("c"));
}

#[test]
fn activating_a_queue_item_does_not_queue_it_again() {
    let mut app = connected_app();
    assert_eq!(app.screen(), Screen::Queue);
    let steps = app.on_key_event(key(Key::Enter));
    assert_eq!(
        steps,
        vec![
            Effect::CloseControl,
            Effect::Kill,
            Effect::Reap,
            Effect::RemoveSocketFile,
            Effect::Spawn { args: player_args("a") },
        ]
    );
    assert!(!app.is_nowplaying());
    app.spawn_finished(true);
    assert_eq!(app.queue().len(), 1);
    assert_eq!(app.screen(), Screen::Queue);
    assert!(app.is_nowplaying());
}

#[test]
fn activating_without_selection_does_nothing() {
    let mut app = App::new();
    assert!(app.on_key_event(key(Key::Enter)).is_empty());
    app.spawn_finished(true);
    assert!(!app.is_nowplaying());
    assert!(app.queue().is_empty());
    app.on_key_event(press('H'));
    assert!(app.on_key_event(key(Key::Enter)).is_empty());
    assert_eq!(app.session().state(), SessionState::Idle);
}

#[test]
fn failed_spawn_queues_nothing() {
    let mut app = app_with_results(&["a", "b"]);
    app.on_key_event(key(Key::Enter));
    app.spawn_finished(false);
    assert!(app.queue().is_empty());
    assert_eq!(app.screen(), Screen::Results);
    assert!(!app.is_nowplaying());
    assert_eq!(app.session().state(), SessionState::Idle);
    assert_eq!(app.now_playing(), &Video::empty());
    app.spawn_finished(true);
    assert!(app.queue().is_empty());
}

#[test]
fn spawn_report_without_request_does_nothing() {
    let mut app = app_with_results(&["a"]);
    app.spawn_finished(true);
    assert!(!app.is_nowplaying());
    assert!(app.queue().is_empty());
    assert_eq!(app.screen(), Screen::Results);
}

#[test]
fn connection_is_attempted_until_it_succeeds() {
    let mut app = playing_app();
    assert!(app.needs_connect());
    app.try_connect_mpv(false);
    assert_eq!(app.session().state(), SessionState::ConnectingControl { attempts_remaining: 9 });
    app.try_connect_mpv(true);
    assert_eq!(app.session().state(), SessionState::Connected);
    assert!(!app.needs_connect());
}

#[test]
fn connection_attempts_are_bounded() {
    let mut app = playing_app();
    let mut attempts = 0;
    while app.needs_connect() {
        app.try_connect_mpv(false);
        attempts += 1;
    }
    assert_eq!(attempts, 10);
    assert_eq!(app.session().state(), SessionState::Starting);
    assert!(app.is_nowplaying());
    assert!(app.on_key_event(press(' ')).is_empty());
    assert_eq!(
        app.on_key_event(press('s')),
        vec![Effect::Kill, Effect::Reap, Effect::RemoveSocketFile]
    );
}

#[test]
fn playback_keys_send_commands_when_connected() {
    let mut app = connected_app();
    let send = |text: &str| Effect::Send { line: text.to_string() };
    assert_eq!(app.on_key_event(press(' ')), vec![send("{\"command\": [\"cycle\",\"pause\"]}\n")]);
    assert_eq!(app.on_key_event(press('0')), vec![send("{\"command\": [\"add\",\"volume\",\"5\"]}\n")]);
    assert_eq!(
        app.on_key_event(press('9')),
        vec![
            send("{\"command\": [\"add\",\"volume\",\"-5\"]}\n"),
            send("{\"command\": [\"get_property\",\"volume\"]}\n"),
        ]
    );
    assert_eq!(app.session().state(), SessionState::Connected);
}

#[test]
fn playback_keys_do_nothing_without_session() {
    let mut app = App::new();
    assert!(app.on_key_event(press(' ')).is_empty());
    assert!(app.on_key_event(press('0')).is_empty());
    assert!(app.on_key_event(press('9')).is_empty());
    assert!(app.on_key_event(press('s')).is_empty());
    assert!(app.on_key_event(key(Key::Esc)).is_empty());
    assert_eq!(app.session().state(), SessionState::Idle);
}

#[test]
fn stop_key_tears_the_session_down() {
    let mut app = connected_app();
    assert_eq!(
        app.on_key_event(press('s')),
        vec![Effect::CloseControl, Effect::Kill, Effect::Reap, Effect::RemoveSocketFile]
    );
    assert!(!app.is_nowplaying());
    assert_eq!(app.session().state(), SessionState::Stopped);
    assert_eq!(app.now_playing(), &video("a"));
    assert!(app.on_key_event(press('s')).is_empty());
    assert!(app.is_running());
}

#[test]
fn quit_tears_down_and_ends() {
    let mut app = connected_app();
    assert_eq!(
        app.on_key_event(press('q')),
        vec![Effect::CloseControl, Effect::Kill, Effect::Reap, Effect::RemoveSocketFile]
    );
    assert!(!app.is_running());
    assert!(!app.is_nowplaying());
}

#[test]
fn quit_without_session_removes_stale_socket_file() {
    let mut app = App::new();
    assert_eq!(app.quit(), vec![Effect::RemoveSocketFile]);
    assert!(!app.is_running());
}

#[test]
fn control_c_quits_in_either_mode() {
    let ctrl_c = KeyPress { key: Key::Char('c'), control: true };
    let mut app = App::new();
    app.on_key_event(ctrl_c);
    assert!(!app.is_running());
    let mut app = App::new();
    app.on_key_event(press('/'));
    app.on_key_event(ctrl_c);
    assert!(!app.is_running());
}

#[test]
fn intents_of_the_other_mode_change_nothing() {
    let mut app = app_with_results(&["a", "b"]);
    assert!(app.apply(Intent::Input('x')).is_empty());
    assert!(app.apply(Intent::Commit).is_empty());
    assert!(app.apply(Intent::Erase).is_empty());
    assert_eq!(app.query(), "");
    assert!(!app.is_loading());
    assert_eq!(app.results().len(), 2);
    app.apply(Intent::EnterSearch);
    assert!(app.apply(Intent::CursorNext).is_empty());
    assert!(app.apply(Intent::TabForward).is_empty());
    assert!(app.apply(Intent::Activate).is_empty());
    assert_eq!(app.results().selected(), Some(0));
    assert_eq!(app.screen(), Screen::Results);
    assert_eq!(app.mode(), Mode::SearchEntry);
}

#[test]
fn empty_list_never_has_a_selection() {
    let mut app = App::new();
    for c in "jkjjHjkLkk".chars() {
        app.on_key_event(press(c));
        assert_eq!(app.results().selected(), None);
        assert_eq!(app.queue().selected(), None);
    }
    let ticket = search_for(&mut app, "x");
    assert_eq!(app.results().selected(), None);
    app.check_search_results(ticket, SearchPoll::Delivered(vec![video("a")])).unwrap();
    assert_eq!(app.results().selected(), Some(0));
    let ticket = search_for(&mut app, "y");
    assert_eq!(app.results().selected(), None);
    app.check_search_results(ticket, SearchPoll::Delivered(Vec::new())).unwrap();
    assert_eq!(app.results().selected(), None);
}
