use presence_sync::engine::{apply_tick, plan_tick, PublishOp, TickPlan};
use presence_sync::payload::Payload;
use presence_sync::snapshot::{
    derive_paused, input_in_bounds, AppData, PlayerState, TickInput, TrackInfo,
};
use presence_sync::state::EngineState;

fn track(id: &str, artwork: Option<&str>, page: Option<&str>) -> TrackInfo {
    TrackInfo {
        id: id.to_string(),
        name: format!("name of {id}"),
        artist: format!("artist of {id}"),
        album: format!("album of {id}"),
        artwork_url: artwork.map(|u| u.to_string()),
        page_url: page.map(|u| u.to_string()),
    }
}

fn playing() -> Option<AppData> {
    Some(AppData { player_state: Some(PlayerState::Playing) })
}

fn paused() -> Option<AppData> {
    Some(AppData { player_state: Some(PlayerState::Paused) })
}

fn input(
    remote: bool,
    player: bool,
    app_data: Option<AppData>,
    track: Option<TrackInfo>,
    now: i64,
    remaining: Option<i64>,
) -> TickInput {
    TickInput {
        remote_present: remote,
        player_present: player,
        app_data,
        track,
        now_seconds: now,
        remaining_seconds: remaining,
    }
}

/// Carries one planned tick out the way the host loop does, against a fake
/// channel whose calls all come out as the two flags say, and returns the
/// names of the calls made, in order.
fn run_tick(
    state: &mut EngineState,
    tick_input: &TickInput,
    connect_ok: bool,
    send_ok: bool,
) -> Vec<&'static str> {
    let mut calls = Vec::new();
    assert!(input_in_bounds(tick_input));
    let plan: TickPlan = plan_tick(state, tick_input);
    if plan.close {
        calls.push("close");
    } else {
        if plan.connect {
            calls.push("connect");
        }
        if !plan.connect || connect_ok {
            match &plan.op {
                PublishOp::Publish(_) => calls.push("publish"),
                PublishOp::Clear => calls.push("clear"),
                _ => {}
            }
        }
    }
    apply_tick(state, tick_input, connect_ok, send_ok);
    calls
}

fn published_payload(plan: &TickPlan) -> &Payload {
    match &plan.op {
        PublishOp::Publish(p) => p,
        other => panic!("expected a publish, got {other:?}"),
    }
}

#[test]
fn first_playing_track_publishes_with_exact_timestamp() {
    let mut state = EngineState::new();
    let i = input(
        true,
        true,
        playing(),
        Some(track("A", Some("https://art/a"), Some("https://page/a"))),
        1_000_000,
        Some(137),
    );
    let plan = plan_tick(&state, &i);
    assert!(plan.connect);
    assert!(!plan.close);
    let p = published_payload(&plan);
    assert_eq!(p.details, "name of A");
    assert_eq!(p.state_line, "artist of A");
    assert_eq!(p.large_image_url, "https://art/a");
    assert_eq!(p.large_text, "album of A");
    assert!(!p.paused_overlay);
    assert_eq!(p.end_timestamp_seconds, Some(1_000_137));
    assert_eq!(p.button_url, Some("https://page/a".to_string()));

    let calls = run_tick(&mut state, &i, true, true);
    assert_eq!(calls, vec!["connect", "publish"]);
    assert!(state.connection_open);
    assert_eq!(state.last_track_id, Some("A".to_string()));
    assert!(!state.last_paused);
}

#[test]
fn identical_ticks_publish_exactly_once() {
    let mut state = EngineState::new();
    let i1 = input(true, true, playing(), Some(track("A", Some("art"), None)), 100, Some(10));
    let i2 = input(true, true, playing(), Some(track("A", Some("art"), None)), 101, Some(9));
    let calls1 = run_tick(&mut state, &i1, true, true);
    let calls2 = run_tick(&mut state, &i2, true, true);
    let publishes = calls1.iter().chain(calls2.iter()).filter(|c| **c == "publish").count();
    assert_eq!(publishes, 1);
    assert_eq!(calls2, Vec::<&str>::new());
}

#[test]
fn player_absent_leaves_connection_empty() {
    let mut state = EngineState::new();
    let start = input(true, true, playing(), Some(track("A", Some("art"), None)), 100, Some(10));
    run_tick(&mut state, &start, true, true);
    assert!(state.connection_open);

    let gone = input(true, false, None, None, 200, None);
    let calls = run_tick(&mut state, &gone, true, true);
    assert_eq!(calls, vec!["close"]);
    assert!(!state.connection_open);

    let still_gone = input(true, false, None, None, 300, None);
    let calls = run_tick(&mut state, &still_gone, true, true);
    assert_eq!(calls, Vec::<&str>::new());
    assert!(!state.connection_open);
}

#[test]
fn track_absent_after_present_clears_once() {
    let mut state = EngineState::new();
    let with_track = input(true, true, playing(), Some(track("A", Some("art"), None)), 100, Some(10));
    run_tick(&mut state, &with_track, true, true);
    assert_eq!(state.last_track_id, Some("A".to_string()));

    let without_track = input(true, true, None, None, 200, None);
    let calls = run_tick(&mut state, &without_track, true, true);
    assert_eq!(calls, vec!["clear"]);
    assert_eq!(state.last_track_id, None);

    let still_without = input(true, true, None, None, 300, None);
    let calls = run_tick(&mut state, &still_without, true, true);
    assert_eq!(calls, Vec::<&str>::new());
}

#[test]
fn pause_then_resume_reanchors_timestamp() {
    let mut state = EngineState::new();
    let before_pause = input(true, true, playing(), Some(track("A", Some("art"), None)), 1_000, Some(500));
    run_tick(&mut state, &before_pause, true, true);

    let paused_tick = input(true, true, paused(), Some(track("A", Some("art"), None)), 1_100, Some(500));
    let plan = plan_tick(&state, &paused_tick);
    let p = published_payload(&plan);
    assert!(p.paused_overlay);
    assert_eq!(p.end_timestamp_seconds, None);
    run_tick(&mut state, &paused_tick, true, true);
    assert!(state.last_paused);

    // Resumed much later with less of the track left: the new timestamp
    // comes from this tick's clock and position, not the pre-pause ones.
    let resumed_tick = input(true, true, playing(), Some(track("A", Some("art"), None)), 9_000, Some(480));
    let plan = plan_tick(&state, &resumed_tick);
    let p = published_payload(&plan);
    assert!(!p.paused_overlay);
    assert_eq!(p.end_timestamp_seconds, Some(9_480));
    let calls = run_tick(&mut state, &resumed_tick, true, true);
    assert_eq!(calls, vec!["publish"]);
}

#[test]
fn missing_artwork_skips_publish_and_keeps_memory() {
    let mut state = EngineState::new();
    let with_art = input(true, true, playing(), Some(track("A", Some("art"), None)), 100, Some(10));
    run_tick(&mut state, &with_art, true, true);
    assert_eq!(state.last_track_id, Some("A".to_string()));

    let no_art = input(true, true, playing(), Some(track("T1", None, None)), 200, Some(10));
    let plan = plan_tick(&state, &no_art);
    assert!(matches!(plan.op, PublishOp::SkipNoArtwork));
    let calls = run_tick(&mut state, &no_art, true, true);
    assert_eq!(calls, Vec::<&str>::new());
    assert_eq!(state.last_track_id, Some("A".to_string()));
}

#[test]
fn remote_closing_mid_playback_closes_once() {
    let mut state = EngineState::new();
    let start = input(true, true, playing(), Some(track("A", Some("art"), None)), 100, Some(10));
    run_tick(&mut state, &start, true, true);
    assert!(state.connection_open);

    let remote_gone = input(false, true, playing(), Some(track("A", Some("art"), None)), 200, Some(9));
    let calls = run_tick(&mut state, &remote_gone, true, true);
    assert_eq!(calls, vec!["close"]);
    assert!(!state.connection_open);
}

#[test]
fn changed_track_publishes_new_data() {
    let mut state = EngineState::new();
    let tick_a = input(true, true, playing(), Some(track("A", Some("art-a"), None)), 100, Some(10));
    run_tick(&mut state, &tick_a, true, true);

    let tick_b = input(true, true, playing(), Some(track("B", Some("art-b"), None)), 200, Some(50));
    let plan = plan_tick(&state, &tick_b);
    let p = published_payload(&plan);
    assert_eq!(p.details, "name of B");
    assert_eq!(p.state_line, "artist of B");
    assert_eq!(p.large_image_url, "art-b");
    let calls = run_tick(&mut state, &tick_b, true, true);
    assert_eq!(calls, vec!["publish"]);
    assert_eq!(state.last_track_id, Some("B".to_string()));
}

#[test]
fn missing_position_while_playing_withholds_publish() {
    let mut state = EngineState::new();
    let i = input(true, true, playing(), Some(track("A", Some("art"), None)), 100, None);
    let calls = run_tick(&mut state, &i, true, true);
    assert_eq!(calls, vec!["connect"]);
    let plan = plan_tick(&state, &i);
    assert!(matches!(plan.op, PublishOp::FailNoPosition));
    assert_eq!(state.last_track_id, None);
}

#[test]
fn pause_detection_fails_safe_toward_paused() {
    assert!(derive_paused(&None));
    assert!(derive_paused(&Some(AppData { player_state: None })));
    assert!(derive_paused(&Some(AppData { player_state: Some(PlayerState::Paused) })));
    assert!(derive_paused(&Some(AppData { player_state: Some(PlayerState::Stopped) })));
    assert!(derive_paused(&Some(AppData { player_state: Some(PlayerState::Unknown) })));
    assert!(!derive_paused(&Some(AppData { player_state: Some(PlayerState::Playing) })));
}

#[test]
fn failed_connect_leaves_state_and_is_retried() {
    let mut state = EngineState::new();
    let i = input(true, true, playing(), Some(track("A", Some("art"), None)), 100, Some(10));
    let calls = run_tick(&mut state, &i, false, true);
    assert_eq!(calls, vec!["connect"]);
    assert!(!state.connection_open);
    assert_eq!(state.last_track_id, None);

    let retry = input(true, true, playing(), Some(track("A", Some("art"), None)), 101, Some(9));
    let calls = run_tick(&mut state, &retry, true, true);
    assert_eq!(calls, vec!["connect", "publish"]);
    assert_eq!(state.last_track_id, Some("A".to_string()));
}

#[test]
fn failed_publish_is_retried_by_recomputation() {
    let mut state = EngineState::new();
    let i = input(true, true, playing(), Some(track("A", Some("art"), None)), 100, Some(10));
    let calls = run_tick(&mut state, &i, true, false);
    assert_eq!(calls, vec!["connect", "publish"]);
    assert_eq!(state.last_track_id, None);

    let retry = input(true, true, playing(), Some(track("A", Some("art"), None)), 101, Some(9));
    let calls = run_tick(&mut state, &retry, true, true);
    assert_eq!(calls, vec!["publish"]);
    assert_eq!(state.last_track_id, Some("A".to_string()));
    assert!(!state.last_paused);
}

#[test]
fn button_is_omitted_without_a_page_url() {
    let state = EngineState::new();
    let no_page = input(true, true, playing(), Some(track("A", Some("art"), None)), 100, Some(10));
    let plan = plan_tick(&state, &no_page);
    assert_eq!(published_payload(&plan).button_url, None);

    let with_page = input(true, true, playing(), Some(track("A", Some("art"), Some("https://page/a"))), 100, Some(10));
    let plan = plan_tick(&state, &with_page);
    assert_eq!(published_payload(&plan).button_url, Some("https://page/a".to_string()));
}

#[test]
fn overflowing_timestamp_is_rejected_by_the_bounds_check() {
    let fine = input(true, true, playing(), Some(track("A", Some("art"), None)), i64::MAX - 10, Some(10));
    assert!(input_in_bounds(&fine));
    let over = input(true, true, playing(), Some(track("A", Some("art"), None)), i64::MAX - 10, Some(11));
    assert!(!input_in_bounds(&over));
    let no_timestamp = input(true, true, paused(), Some(track("A", Some("art"), None)), i64::MAX, None);
    assert!(input_in_bounds(&no_timestamp));
}
