//! The process supervisor's state machine: what each command does to
//! the session, expressed as a pure transition function.
//!
//! The supervisor consumes commands one at a time from a single ordered
//! channel, so no two transitions overlap.  Each transition yields the
//! next state together with the effects the surrounding shell must
//! perform against the child process and the window directory: spawning,
//! locating, mapping, positioning, focusing, unmapping, killing.  A
//! `toggle` never enters the machine: it is expanded to `open` or `hide`
//! at dispatch time, against the focus state read at that moment.
//!
//! An `open` that finds the previous child gone goes through three
//! steps — spawn, bind the new pid, rediscover — because the spawn and
//! the discovery are performed outside and their results (the pid, the
//! window id) flow back in as events.

use vstd::prelude::*;

use crate::session::{Context, WindowMatcher};

verus! {

/// A primitive action, after toggle expansion.
#[derive(Clone, Copy, Debug, PartialEq, Eq, Structural)]
pub enum Directive {
    Open,
    Hide,
    /// Hide the literal window id, whatever the context believes.
    HideId(u32),
    Kill,
}

/// The visibility state of the managed instance.
#[derive(Clone, Copy, Debug, PartialEq, Eq, Structural)]
pub enum VisState {
    /// No child has ever been spawned.
    NoProcess,
    /// A spawn was requested; its pid is not known yet.
    Spawning,
    /// The child runs; its window is being discovered.
    Locating,
    /// The window is mapped.
    Visible,
    /// The window is unmapped; the child keeps running.
    Hidden,
    /// The child was killed and the supervisor is done.
    Ended,
}

/// One effect the shell performs against the outside world.
#[derive(Clone, Copy, Debug, PartialEq, Eq, Structural)]
pub enum Effect {
    /// Spawn the configured command.
    Spawn,
    /// Run the locator against the context's matcher.
    Locate,
    /// Map the window.
    MapWindow(u32),
    /// Apply the configured layout to the window.
    Position(u32),
    /// Ask the window manager to focus the window.
    Focus(u32),
    /// Unmap the window.
    UnmapWindow(u32),
    /// Resolve the matcher first, then unmap what it finds.
    UnmapByMatcher,
    /// Terminate the child process.
    KillChild,
}

/// The direction a `toggle` takes: `hide` exactly when the managed
/// window is known and is the currently focused one, `open` otherwise.
pub open spec fn spec_toggle_direction(window_id: Option<u32>, focused: Option<u32>) -> Directive {
    if window_id is Some && focused == window_id {
        Directive::Hide
    } else {
        Directive::Open
    }
}

/// Expands a `toggle` against the focus state read at dispatch time.
pub fn resolve_toggle(window_id: Option<u32>, focused: Option<u32>) -> (r: Directive)
    ensures
        r == spec_toggle_direction(window_id, focused),
{
    match (window_id, focused) {
        (Some(w), Some(f)) => if w == f {
            Directive::Hide
        } else {
            Directive::Open
        },
        _ => Directive::Open,
    }
}

/// The machine's invariant, tying the state to the shared context:
/// while the window is mapped or merely hidden its id is known, and
/// discovery only ever runs with a resolved matcher.
pub open spec fn inv(state: VisState, ctx: Context) -> bool {
    match state {
        VisState::Visible | VisState::Hidden => ctx.window_id is Some,
        VisState::Locating => ctx.matcher.is_resolved(),
        _ => true,
    }
}

/// Which commands a state consumes: before the first spawn only `open`
/// arrives (the daemon starts by opening), a settled session takes any
/// command, and during a spawn or discovery no command is consumed —
/// those steps complete before the channel is read again.
pub open spec fn accepts_command(state: VisState, d: Directive) -> bool {
    match state {
        VisState::NoProcess => d is Open,
        VisState::Visible | VisState::Hidden => true,
        _ => false,
    }
}

/// The transition one command causes, with the effects to perform.
///
/// `child_exited` is the shell's non-blocking observation of the child
/// just before an `open` is applied.
pub open spec fn spec_step_command(state: VisState, ctx: Context, d: Directive, child_exited: bool)
    -> (VisState, Context, Seq<Effect>) {
    match d {
        Directive::Open => {
            if state is NoProcess || child_exited {
                (VisState::Spawning, ctx, seq![Effect::Spawn])
            } else {
                let w = ctx.window_id->0;
                (
                    VisState::Visible,
                    ctx,
                    seq![Effect::MapWindow(w), Effect::Position(w), Effect::Focus(w)],
                )
            }
        },
        Directive::Hide => {
            match ctx.window_id {
                Some(w) => (VisState::Hidden, ctx, seq![Effect::UnmapWindow(w)]),
                None => (VisState::Hidden, ctx, seq![Effect::UnmapByMatcher]),
            }
        },
        Directive::HideId(w) => {
            let next = if ctx.window_id == Some(w) {
                VisState::Hidden
            } else {
                state
            };
            (next, ctx, seq![Effect::UnmapWindow(w)])
        },
        Directive::Kill => (VisState::Ended, ctx, seq![Effect::KillChild]),
    }
}

/// The transition taken when the spawn reports the new child's pid: a
/// process-based matcher is bound to it, and discovery begins.
pub open spec fn spec_on_spawned(state: VisState, ctx: Context, pid: u32) -> (
    VisState,
    Context,
    Seq<Effect>,
) {
    (
        VisState::Locating,
        Context { matcher: ctx.matcher.rebound(pid), window_id: ctx.window_id },
        seq![Effect::Locate],
    )
}

/// The transition taken when discovery reports the window: it is
/// recorded, mapped, and positioned.
pub open spec fn spec_on_discovered(state: VisState, ctx: Context, window_id: u32) -> (
    VisState,
    Context,
    Seq<Effect>,
) {
    (
        VisState::Visible,
        Context { matcher: ctx.matcher, window_id: Some(window_id) },
        seq![Effect::MapWindow(window_id), Effect::Position(window_id)],
    )
}

/// The supervisor's own state; the shared `Context` lives beside it
/// behind the session lock.
#[derive(Clone, Copy, Debug, PartialEq, Eq, Structural)]
pub struct Supervisor {
    pub state: VisState,
}

impl Supervisor {
    /// A fresh supervisor: nothing spawned yet.
    pub fn new() -> (r: Supervisor)
        ensures
            r.state is NoProcess,
    {
        Supervisor { state: VisState::NoProcess }
    }

    /// Applies one command to the session.
    pub fn step_command(&mut self, ctx: &mut Context, d: &Directive, child_exited: bool) -> (effects:
        Vec<Effect>)
        requires
            accepts_command(old(self).state, *d),
            inv(old(self).state, *old(ctx)),
        ensures
            final(self).state == spec_step_command(old(self).state, *old(ctx), *d, child_exited).0,
            *final(ctx) == spec_step_command(old(self).state, *old(ctx), *d, child_exited).1,
            effects@ == spec_step_command(old(self).state, *old(ctx), *d, child_exited).2,
            inv(final(self).state, *final(ctx)),
    {
        let ghost spec_result = spec_step_command(self.state, *ctx, *d, child_exited);
        let mut effects: Vec<Effect> = Vec::new();
        match d {
            Directive::Open => {
                let fresh = matches!(self.state, VisState::NoProcess);
                if fresh || child_exited {
                    self.state = VisState::Spawning;
                    effects.push(Effect::Spawn);
                } else {
                    let w = match ctx.read_window_id() {
                        Some(w) => w,
                        None => unreached(),
                    };
                    self.state = VisState::Visible;
                    effects.push(Effect::MapWindow(w));
                    effects.push(Effect::Position(w));
                    effects.push(Effect::Focus(w));
                }
            },
            Directive::Hide => {
                self.state = VisState::Hidden;
                match ctx.read_window_id() {
                    Some(w) => effects.push(Effect::UnmapWindow(w)),
                    None => effects.push(Effect::UnmapByMatcher),
                }
            },
            Directive::HideId(w) => {
                match ctx.read_window_id() {
                    Some(known) => if known == *w {
                        self.state = VisState::Hidden;
                    },
                    None => {},
                }
                effects.push(Effect::UnmapWindow(*w));
            },
            Directive::Kill => {
                self.state = VisState::Ended;
                effects.push(Effect::KillChild);
            },
        }
        proof {
            assert(effects@ =~= spec_result.2);
        }
        effects
    }

    /// Takes the pid of the child a `Spawn` effect produced.
    pub fn on_spawned(&mut self, ctx: &mut Context, pid: u32) -> (effects: Vec<Effect>)
        requires
            old(self).state is Spawning,
        ensures
            final(self).state == spec_on_spawned(old(self).state, *old(ctx), pid).0,
            *final(ctx) == spec_on_spawned(old(self).state, *old(ctx), pid).1,
            effects@ == spec_on_spawned(old(self).state, *old(ctx), pid).2,
            inv(final(self).state, *final(ctx)),
    {
        let ghost spec_result = spec_on_spawned(self.state, *ctx, pid);
        ctx.write_after_restart(pid);
        self.state = VisState::Locating;
        let mut effects: Vec<Effect> = Vec::new();
        effects.push(Effect::Locate);
        proof {
            assert(effects@ =~= spec_result.2);
        }
        effects
    }

    /// Takes the window id a `Locate` effect discovered.
    pub fn on_discovered(&mut self, ctx: &mut Context, window_id: u32) -> (effects: Vec<Effect>)
        requires
            old(self).state is Locating,
        ensures
            final(self).state == spec_on_discovered(old(self).state, *old(ctx), window_id).0,
            *final(ctx) == spec_on_discovered(old(self).state, *old(ctx), window_id).1,
            effects@ == spec_on_discovered(old(self).state, *old(ctx), window_id).2,
            inv(final(self).state, *final(ctx)),
    {
        let ghost spec_result = spec_on_discovered(self.state, *ctx, window_id);
        ctx.write_after_discovery(window_id);
        self.state = VisState::Visible;
        let mut effects: Vec<Effect> = Vec::new();
        effects.push(Effect::MapWindow(window_id));
        effects.push(Effect::Position(window_id));
        proof {
            assert(effects@ =~= spec_result.2);
        }
        effects
    }
}

/// A whole `open`, as the shell drives it: one command step, and — when
/// that step spawned — the pid and window events that complete it.
pub open spec fn spec_open_sequence(state: VisState, ctx: Context, child_exited: bool, pid: u32,
    window_id: u32) -> (VisState, Context, Seq<Effect>) {
    let first = spec_step_command(state, ctx, Directive::Open, child_exited);
    if first.0 is Spawning {
        let bound = spec_on_spawned(first.0, first.1, pid);
        let done = spec_on_discovered(bound.0, bound.1, window_id);
        (done.0, done.1, first.2 + bound.2 + done.2)
    } else {
        first
    }
}

/// A toggle is a hide exactly when the focused window is the managed
/// one, and an open otherwise; it is resolved once, at dispatch, and
/// nothing else ever inspects the focus state.
pub proof fn lemma_toggle_direction(window_id: Option<u32>, focused: Option<u32>)
    ensures
        spec_toggle_direction(window_id, focused) == Directive::Hide <==> (window_id is Some
            && focused == window_id),
        spec_toggle_direction(window_id, focused) == Directive::Open <==> !(window_id is Some
            && focused == window_id),
{
}

/// A hide unmaps the known window and nothing else: the window id
/// survives unchanged — it is not cleared — so the next open can remap
/// without rediscovery, and the child is never touched.
pub proof fn lemma_hide_preserves_window(state: VisState, ctx: Context, child_exited: bool)
    requires
        inv(state, ctx),
        accepts_command(state, Directive::Hide),
    ensures
        spec_step_command(state, ctx, Directive::Hide, child_exited).0 is Hidden,
        spec_step_command(state, ctx, Directive::Hide, child_exited).1.window_id == ctx.window_id,
        spec_step_command(state, ctx, Directive::Hide, child_exited).1.matcher == ctx.matcher,
        spec_step_command(state, ctx, Directive::Hide, child_exited).2 == seq![
            Effect::UnmapWindow(ctx.window_id->0),
        ],
        !spec_step_command(state, ctx, Directive::Hide, child_exited).2.contains(
            Effect::KillChild,
        ),
{
    let step = spec_step_command(state, ctx, Directive::Hide, child_exited);
    assert(step.2 =~= seq![Effect::UnmapWindow(ctx.window_id->0)]);
    assert(step.2[0] != Effect::KillChild);
}

/// A completed open always ends with the session visible, the window
/// id recorded in the context, and a map of exactly that window among
/// the effects.
///
/// When the previous child has exited (or none was ever spawned), the
/// open spawns exactly once, rebinds a process-based matcher to the new
/// child's pid, and rediscovers the window.  When the child is still
/// alive, nothing is spawned and the known window is remapped,
/// repositioned and focused as it is.
pub proof fn lemma_open_sequence(state: VisState, ctx: Context, child_exited: bool, pid: u32,
    window_id: u32)
    requires
        inv(state, ctx),
        accepts_command(state, Directive::Open),
    ensures
        spec_open_sequence(state, ctx, child_exited, pid, window_id).0 is Visible,
        spec_open_sequence(state, ctx, child_exited, pid, window_id).1.window_id is Some,
        spec_open_sequence(state, ctx, child_exited, pid, window_id).2.contains(
            Effect::MapWindow(
                spec_open_sequence(state, ctx, child_exited, pid, window_id).1.window_id->0,
            ),
        ),
        state is NoProcess || child_exited ==> {
            &&& spec_open_sequence(state, ctx, child_exited, pid, window_id).2 == seq![
                Effect::Spawn,
                Effect::Locate,
                Effect::MapWindow(window_id),
                Effect::Position(window_id),
            ]
            &&& spec_open_sequence(state, ctx, child_exited, pid, window_id).1.matcher
                == ctx.matcher.rebound(pid)
            &&& ctx.matcher.is_process_based()
                ==> spec_open_sequence(state, ctx, child_exited, pid, window_id).1.matcher
                == WindowMatcher::ProcessId(pid)
            &&& spec_open_sequence(state, ctx, child_exited, pid, window_id).1.window_id
                == Some(window_id)
        },
        !(state is NoProcess || child_exited) ==> {
            &&& !spec_open_sequence(state, ctx, child_exited, pid, window_id).2.contains(
                Effect::Spawn,
            )
            &&& spec_open_sequence(state, ctx, child_exited, pid, window_id).1 == ctx
            &&& spec_open_sequence(state, ctx, child_exited, pid, window_id).2 == seq![
                Effect::MapWindow(ctx.window_id->0),
                Effect::Position(ctx.window_id->0),
                Effect::Focus(ctx.window_id->0),
            ]
        },
{
    let full = spec_open_sequence(state, ctx, child_exited, pid, window_id);
    if state is NoProcess || child_exited {
        let first = spec_step_command(state, ctx, Directive::Open, child_exited);
        let bound = spec_on_spawned(first.0, first.1, pid);
        let done = spec_on_discovered(bound.0, bound.1, window_id);
        assert(full.2 =~= seq![
            Effect::Spawn,
            Effect::Locate,
            Effect::MapWindow(window_id),
            Effect::Position(window_id),
        ]);
        assert(full.2[2] == Effect::MapWindow(window_id));
    } else {
        let w = ctx.window_id->0;
        assert(full.2 =~= seq![Effect::MapWindow(w), Effect::Position(w), Effect::Focus(w)]);
        assert(full.2[0] == Effect::MapWindow(w));
        assert(forall|i: int| 0 <= i < full.2.len() ==> full.2[i] != Effect::Spawn);
    }
}

} // verus!
