use qurop::cli::Command;
use qurop::protocol::{classify_payload, parse_token, SocketVerdict, Token};
use qurop::rendezvous::{rendezvous_plan, ConnectOutcome, RendezvousPlan};
use qurop::session::{Context, WindowMatcher};
use qurop::supervisor::{resolve_toggle, Directive, Effect, Supervisor, VisState};
use qurop::watcher::focus_event_message;

#[test]
fn stale_endpoint_is_replaced_not_fatal() {
    assert_eq!(rendezvous_plan(Some(ConnectOutcome::Refused)), RendezvousPlan::RemoveAndRebind);
}

#[test]
fn rendezvous_plans() {
    assert_eq!(rendezvous_plan(None), RendezvousPlan::BindFresh);
    assert_eq!(rendezvous_plan(Some(ConnectOutcome::Connected)), RendezvousPlan::ActAsClient);
    assert_eq!(rendezvous_plan(Some(ConnectOutcome::OtherError)), RendezvousPlan::Fail);
}

#[test]
fn watcher_emits_hide_only_on_focus_loss() {
    // Focus moved elsewhere: hide the observed window.
    let msg = focus_event_message(Some(7), 42).unwrap();
    assert_eq!(parse_token(&msg), Some(Token::HideId(42)));
    // The managed window itself is focused: nothing to do.
    assert_eq!(focus_event_message(Some(42), 42), None);
    // No focused window reported: nothing to do.
    assert_eq!(focus_event_message(None, 42), None);
}

#[test]
fn client_subcommands_map_to_forwardable_tokens() {
    let open = Command::Open { name: "term".to_owned() };
    let hide = Command::Hide { name: "term".to_owned() };
    let kill = Command::Kill { name: "term".to_owned() };
    let toggle = Command::Toggle { name: "term".to_owned() };
    for cmd in [&open, &hide, &kill, &toggle] {
        let token = cmd.action_token().unwrap();
        assert_eq!(classify_payload(token), SocketVerdict::Forward);
        assert_eq!(cmd.instance_name(), "term");
    }
    let add = Command::Add {
        matcher: qurop::config::MatcherKind::Process,
        class_name: None,
        name: "term".to_owned(),
        command: vec!["htop".to_owned()],
    };
    assert_eq!(add.action_token(), None);
}

/// The whole life of one instance, as four invocations drive it.
#[test]
fn end_to_end_instance_lifecycle() {
    // Invocation 1: `open` for a never-before-seen instance.  No
    // endpoint exists, so it binds fresh and becomes the server.
    assert_eq!(rendezvous_plan(None), RendezvousPlan::BindFresh);
    assert_eq!(classify_payload("open"), SocketVerdict::Forward);
    let mut supervisor = Supervisor::new();
    let mut ctx = Context::new(WindowMatcher::UnresolvedProcess);
    // The daemon spawns the configured program, discovers its window,
    // positions and shows it.
    assert_eq!(
        supervisor.step_command(&mut ctx, &Directive::Open, false),
        vec![Effect::Spawn],
    );
    assert_eq!(supervisor.on_spawned(&mut ctx, 31337), vec![Effect::Locate]);
    assert_eq!(
        supervisor.on_discovered(&mut ctx, 42),
        vec![Effect::MapWindow(42), Effect::Position(42)],
    );
    assert_eq!(supervisor.state, VisState::Visible);
    assert_eq!(ctx.read_window_id(), Some(42));

    // Invocation 2, while the daemon lives: `hide` connects as a
    // client and delivers the token; the daemon unmaps the window but
    // keeps the process running.
    assert_eq!(rendezvous_plan(Some(ConnectOutcome::Connected)), RendezvousPlan::ActAsClient);
    assert_eq!(classify_payload("hide"), SocketVerdict::Forward);
    let effects = supervisor.step_command(&mut ctx, &Directive::Hide, false);
    assert_eq!(effects, vec![Effect::UnmapWindow(42)]);
    assert!(!effects.contains(&Effect::KillChild));
    assert_eq!(supervisor.state, VisState::Hidden);
    assert_eq!(ctx.read_window_id(), Some(42));

    // A toggle now would reopen: the hidden window cannot be focused.
    assert_eq!(resolve_toggle(ctx.read_window_id(), Some(7)), Directive::Open);

    // Invocation 3: `kill` terminates the child and ends the daemon.
    assert_eq!(rendezvous_plan(Some(ConnectOutcome::Connected)), RendezvousPlan::ActAsClient);
    assert_eq!(
        supervisor.step_command(&mut ctx, &Directive::Kill, false),
        vec![Effect::KillChild],
    );
    assert_eq!(supervisor.state, VisState::Ended);

    // Invocation 4: the dead daemon left its endpoint behind; the
    // connection is refused, the stale endpoint is deleted, and the
    // invocation becomes a fresh server.
    assert_eq!(rendezvous_plan(Some(ConnectOutcome::Refused)), RendezvousPlan::RemoveAndRebind);
}
