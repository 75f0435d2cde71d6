use ytplay::effect::Effect;
use ytplay::protocol::player_args;
use ytplay::session::{PlaybackSession, SessionState, CONNECT_ATTEMPTS};

fn spawn_of(id: &str) -> Effect {
    Effect::Spawn { args: player_args(id) }
}

fn connecting() -> PlaybackSession {
    let mut session = PlaybackSession::new();
    assert_eq!(session.start("abc"), vec![spawn_of("abc")]);
    session.spawned();
    session
}

fn connected() -> PlaybackSession {
    let mut session = connecting();
    session.poll_connect(true);
    session
}

fn full_teardown() -> Vec<Effect> {
    vec![Effect::CloseControl, Effect::Kill, Effect::Reap, Effect::RemoveSocketFile]
}

#[test]
fn new_session_is_idle() {
    let session = PlaybackSession::new();
    assert_eq!(session.state(), SessionState::Idle);
    assert!(!session.is_active());
    assert!(!session.is_connected());
    assert!(!session.needs_connect());
}

#[test]
fn start_from_idle_only_spawns() {
    let mut session = PlaybackSession::new();
    assert_eq!(session.start("abc"), vec![spawn_of("abc")]);
    assert_eq!(session.state(), SessionState::Idle);
}

#[test]
fn spawned_gives_ten_attempts() {
    let session = connecting();
    assert_eq!(CONNECT_ATTEMPTS, 10);
    assert_eq!(session.state(), SessionState::ConnectingControl { attempts_remaining: 10 });
    assert!(session.is_active());
    assert!(!session.is_connected());
    assert!(session.needs_connect());
}

#[test]
fn failed_spawn_leaves_state_as_it_was() {
    let mut session = PlaybackSession::new();
    session.start("abc");
    assert_eq!(session.state(), SessionState::Idle);
    let mut session = connected();
    session.start("def");
    assert_eq!(session.state(), SessionState::Stopped);
    assert!(!session.is_active());
}

#[test]
fn successful_connect_connects() {
    let session = connected();
    assert_eq!(session.state(), SessionState::Connected);
    assert!(session.is_active());
    assert!(session.is_connected());
    assert!(!session.needs_connect());
}

#[test]
fn failed_connect_uses_one_attempt() {
    let mut session = connecting();
    session.poll_connect(false);
    assert_eq!(session.state(), SessionState::ConnectingControl { attempts_remaining: 9 });
}

#[test]
fn attempts_run_out_after_ten_failures() {
    let mut session = connecting();
    for left in (1..10).rev() {
        session.poll_connect(false);
        assert_eq!(session.state(), SessionState::ConnectingControl { attempts_remaining: left });
    }
    session.poll_connect(false);
    assert_eq!(session.state(), SessionState::Starting);
    assert!(session.is_active());
    assert!(!session.needs_connect());
    session.poll_connect(true);
    assert_eq!(session.state(), SessionState::Starting);
}

#[test]
fn connect_succeeds_on_a_later_attempt() {
    let mut session = connecting();
    session.poll_connect(false);
    session.poll_connect(false);
    session.poll_connect(true);
    assert_eq!(session.state(), SessionState::Connected);
}

#[test]
fn poll_connect_without_attempt_due_changes_nothing() {
    let mut session = PlaybackSession::new();
    session.poll_connect(true);
    assert_eq!(session.state(), SessionState::Idle);
    let mut session = connected();
    session.poll_connect(false);
    assert_eq!(session.state(), SessionState::Connected);
}

#[test]
fn stop_of_connected_session_tears_down_in_order() {
    let mut session = connected();
    assert_eq!(session.stop(), full_teardown());
    assert_eq!(session.state(), SessionState::Stopped);
    assert!(!session.is_active());
    assert!(!session.is_connected());
}

#[test]
fn stop_without_control_skips_the_socket() {
    let mut session = connecting();
    assert_eq!(session.stop(), vec![Effect::Kill, Effect::Reap, Effect::RemoveSocketFile]);
    assert_eq!(session.state(), SessionState::Stopped);
}

#[test]
fn stop_twice_is_harmless() {
    let mut session = connected();
    session.stop();
    assert_eq!(session.stop(), vec![Effect::RemoveSocketFile]);
    assert_eq!(session.state(), SessionState::Stopped);
    assert!(!session.is_active());
    assert!(!session.is_connected());
}

#[test]
fn stop_without_session_keeps_idle() {
    let mut session = PlaybackSession::new();
    assert_eq!(session.stop(), vec![Effect::RemoveSocketFile]);
    assert_eq!(session.state(), SessionState::Idle);
}

#[test]
fn start_while_connected_tears_down_before_spawn() {
    let mut session = connected();
    let mut expected = full_teardown();
    expected.push(spawn_of("next"));
    assert_eq!(session.start("next"), expected);
    assert_eq!(session.state(), SessionState::Stopped);
    session.spawned();
    assert_eq!(session.state(), SessionState::ConnectingControl { attempts_remaining: 10 });
}

#[test]
fn start_while_connecting_tears_down_before_spawn() {
    let mut session = connecting();
    assert_eq!(
        session.start("next"),
        vec![Effect::Kill, Effect::Reap, Effect::RemoveSocketFile, spawn_of("next")]
    );
}

#[test]
fn spawned_beside_a_process_changes_nothing() {
    let mut session = connected();
    session.spawned();
    assert_eq!(session.state(), SessionState::Connected);
}

#[test]
fn send_command_writes_when_connected() {
    let session = connected();
    assert_eq!(
        session.send_command(&vec!["set", "pause", "yes"]),
        Some(Effect::Send { line: "{\"command\": [\"set\",\"pause\",\"yes\"]}\n".to_string() })
    );
}

#[test]
fn send_command_is_silent_without_control() {
    assert_eq!(PlaybackSession::new().send_command(&vec!["cycle", "pause"]), None);
    assert_eq!(connecting().send_command(&vec!["cycle", "pause"]), None);
    let mut stopped = connected();
    stopped.stop();
    assert_eq!(stopped.send_command(&vec!["cycle", "pause"]), None);
}

#[test]
fn named_commands_when_connected() {
    let session = connected();
    let line = |text: &str| Some(Effect::Send { line: text.to_string() });
    assert_eq!(session.play_pause(), line("{\"command\": [\"cycle\",\"pause\"]}\n"));
    assert_eq!(session.increase_volume(), line("{\"command\": [\"add\",\"volume\",\"5\"]}\n"));
    assert_eq!(session.decrease_volume(), line("{\"command\": [\"add\",\"volume\",\"-5\"]}\n"));
    assert_eq!(session.get_current_volume(), line("{\"command\": [\"get_property\",\"volume\"]}\n"));
}

#[test]
fn named_commands_without_control() {
    let session = connecting();
    assert_eq!(session.play_pause(), None);
    assert_eq!(session.increase_volume(), None);
    assert_eq!(session.decrease_volume(), None);
    assert_eq!(session.get_current_volume(), None);
}

#[test]
fn sent_words_are_escaped() {
    let session = connected();
    assert_eq!(
        session.send_command(&vec!["loadfile", "a \"b\"\n"]),
        Some(Effect::Send { line: "{\"command\": [\"loadfile\",\"a \\\"b\\\"\\n\"]}\n".to_string() })
    );
}
