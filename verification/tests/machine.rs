use qurop::locator::{find_matching_window, LocateStep, RetrySchedule};
use qurop::session::{Context, WindowMatcher, WindowProps};
use qurop::supervisor::{resolve_toggle, Directive, Effect, Supervisor, VisState};

fn discovered_session(window_id: u32, pid: u32) -> (Supervisor, Context) {
    let mut supervisor = Supervisor::new();
    let mut ctx = Context::new(WindowMatcher::UnresolvedProcess);
    let effects = supervisor.step_command(&mut ctx, &Directive::Open, false);
    assert_eq!(effects, vec![Effect::Spawn]);
    let effects = supervisor.on_spawned(&mut ctx, pid);
    assert_eq!(effects, vec![Effect::Locate]);
    let effects = supervisor.on_discovered(&mut ctx, window_id);
    assert_eq!(effects, vec![Effect::MapWindow(window_id), Effect::Position(window_id)]);
    (supervisor, ctx)
}

#[test]
fn first_open_spawns_discovers_and_maps() {
    let (supervisor, ctx) = discovered_session(42, 1000);
    assert_eq!(supervisor.state, VisState::Visible);
    assert_eq!(ctx.read_window_id(), Some(42));
    assert!(matches!(ctx.matcher, WindowMatcher::ProcessId(1000)));
}

#[test]
fn hide_unmaps_but_keeps_window_id() {
    let (mut supervisor, mut ctx) = discovered_session(42, 1000);
    let effects = supervisor.step_command(&mut ctx, &Directive::Hide, false);
    assert_eq!(effects, vec![Effect::UnmapWindow(42)]);
    assert_eq!(supervisor.state, VisState::Hidden);
    // The id is not cleared, so the next open is cheap.
    assert_eq!(ctx.read_window_id(), Some(42));
}

#[test]
fn open_with_live_child_remaps_without_spawning() {
    let (mut supervisor, mut ctx) = discovered_session(42, 1000);
    supervisor.step_command(&mut ctx, &Directive::Hide, false);
    let effects = supervisor.step_command(&mut ctx, &Directive::Open, false);
    assert_eq!(
        effects,
        vec![Effect::MapWindow(42), Effect::Position(42), Effect::Focus(42)],
    );
    assert!(!effects.contains(&Effect::Spawn));
    assert_eq!(supervisor.state, VisState::Visible);
    assert_eq!(ctx.read_window_id(), Some(42));
}

#[test]
fn open_after_child_exit_respawns_and_rebinds_pid() {
    let (mut supervisor, mut ctx) = discovered_session(42, 1000);
    let effects = supervisor.step_command(&mut ctx, &Directive::Open, true);
    assert_eq!(effects, vec![Effect::Spawn]);
    let effects = supervisor.on_spawned(&mut ctx, 2000);
    assert_eq!(effects, vec![Effect::Locate]);
    // The matcher now carries the new child's pid.
    assert!(matches!(ctx.matcher, WindowMatcher::ProcessId(2000)));
    let effects = supervisor.on_discovered(&mut ctx, 43);
    assert_eq!(effects, vec![Effect::MapWindow(43), Effect::Position(43)]);
    assert_eq!(ctx.read_window_id(), Some(43));
    assert_eq!(supervisor.state, VisState::Visible);
}

#[test]
fn class_matcher_survives_restart() {
    let mut supervisor = Supervisor::new();
    let mut ctx = Context::new(WindowMatcher::WmClass("scratchpad".to_owned()));
    supervisor.step_command(&mut ctx, &Directive::Open, false);
    supervisor.on_spawned(&mut ctx, 555);
    assert!(matches!(&ctx.matcher, WindowMatcher::WmClass(c) if c == "scratchpad"));
}

#[test]
fn hide_id_targets_the_literal_window() {
    let (mut supervisor, mut ctx) = discovered_session(42, 1000);
    // A stale id is unmapped without touching the session's belief.
    let effects = supervisor.step_command(&mut ctx, &Directive::HideId(7), false);
    assert_eq!(effects, vec![Effect::UnmapWindow(7)]);
    assert_eq!(supervisor.state, VisState::Visible);
    assert_eq!(ctx.read_window_id(), Some(42));
    // The current id leaves the session hidden.
    let effects = supervisor.step_command(&mut ctx, &Directive::HideId(42), false);
    assert_eq!(effects, vec![Effect::UnmapWindow(42)]);
    assert_eq!(supervisor.state, VisState::Hidden);
}

#[test]
fn kill_terminates_child_and_ends_supervisor() {
    let (mut supervisor, mut ctx) = discovered_session(42, 1000);
    let effects = supervisor.step_command(&mut ctx, &Directive::Kill, false);
    assert_eq!(effects, vec![Effect::KillChild]);
    assert_eq!(supervisor.state, VisState::Ended);
}

#[test]
fn toggle_resolves_against_focus_state() {
    assert_eq!(resolve_toggle(Some(42), Some(42)), Directive::Hide);
    assert_eq!(resolve_toggle(Some(42), Some(7)), Directive::Open);
    assert_eq!(resolve_toggle(Some(42), None), Directive::Open);
    assert_eq!(resolve_toggle(None, Some(42)), Directive::Open);
    assert_eq!(resolve_toggle(None, None), Directive::Open);
}

#[test]
fn locator_returns_immediately_on_a_hit() {
    let mut schedule = RetrySchedule::new();
    assert_eq!(schedule.step(Some(42), 0), LocateStep::Found(42));
    assert_eq!(schedule.attempts, 0);
}

#[test]
fn locator_backs_off_at_the_fifth_attempt() {
    let mut schedule = RetrySchedule::new();
    for _ in 0..4 {
        assert_eq!(schedule.step(None, 10), LocateStep::RetryNow);
    }
    assert_eq!(schedule.step(None, 10), LocateStep::RetryAfterBackoff);
    for _ in 0..4 {
        assert_eq!(schedule.step(None, 10), LocateStep::RetryNow);
    }
    assert_eq!(schedule.step(None, 10), LocateStep::RetryAfterBackoff);
}

#[test]
fn locator_gives_up_past_the_time_budget() {
    let mut schedule = RetrySchedule::new();
    assert_eq!(schedule.step(None, 5001), LocateStep::GiveUp);
    // A hit inside the budget still wins over everything.
    assert_eq!(schedule.step(Some(9), 4999), LocateStep::Found(9));
}

fn window(id: u32, class: Option<&str>, pid: Option<u32>) -> WindowProps {
    WindowProps { id, class: class.map(|c| c.to_owned()), pid }
}

#[test]
fn matching_finds_first_window_by_class() {
    let windows = vec![
        window(1, Some("browser"), Some(100)),
        window(2, Some("scratchpad"), Some(200)),
        window(3, Some("scratchpad"), Some(300)),
    ];
    let matcher = WindowMatcher::WmClass("scratchpad".to_owned());
    assert_eq!(find_matching_window(&windows, &matcher), Some(2));
}

#[test]
fn matching_finds_window_by_pid() {
    let windows = vec![
        window(1, None, Some(100)),
        window(2, Some("other"), None),
        window(3, None, Some(300)),
    ];
    assert_eq!(find_matching_window(&windows, &WindowMatcher::ProcessId(300)), Some(3));
    assert_eq!(find_matching_window(&windows, &WindowMatcher::ProcessId(999)), None);
}

#[test]
fn unresolved_matcher_matches_nothing() {
    let windows = vec![window(1, Some("x"), Some(100))];
    assert_eq!(find_matching_window(&windows, &WindowMatcher::UnresolvedProcess), None);
}
