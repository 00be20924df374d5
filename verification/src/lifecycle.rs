//! One spawn window's life: the instance that owns adapter and timer, the
//! frame pump that re-enters user code once per tick, and the teardown whose
//! ordering keeps a pending tick from ever touching a released widget.

use vstd::prelude::*;

use crate::context::{Phase, WindowHandler};
use crate::msg::{Message, ParamEdit};
use crate::timers::TimerRegistry;
use crate::wire::{intake_script, set_size_json};

verus! {

/// What one tick observes and changes of a live context: the stored size,
/// the adapter bounds, the last size reported to the host, and the scripts
/// handed to the page.
#[verifier::ext_equal]
pub struct TickObs {
    pub width: u32,
    pub height: u32,
    pub bounds: (u32, u32),
    pub notified: Option<(u32, u32)>,
    pub scripts: Seq<Seq<char>>,
}

/// The observation of a live context.
pub open spec fn obs_of(ctx: WindowHandler) -> TickObs
    recommends
        ctx.is_live(),
{
    TickObs {
        width: ctx.width,
        height: ctx.height,
        bounds: ctx.bounds(),
        notified: ctx.notified(),
        scripts: ctx.scripts_deep(),
    }
}

/// What one message does to a live context: `init` earns exactly one
/// `set_size` reply carrying the current size; `resize` moves all three
/// sizes to the requested one; a parameter request changes nothing here
/// (its edit goes to the host instead).
pub open spec fn step_obs(s: TickObs, m: Message) -> TickObs {
    match m {
        Message::Init => TickObs {
            scripts: s.scripts.push(intake_script(set_size_json(s.width, s.height))),
            ..s
        },
        Message::Resize { width, height } => TickObs {
            width,
            height,
            bounds: (width, height),
            notified: Some((width, height)),
            scripts: s.scripts,
        },
        Message::SetParameter { .. } => s,
    }
}

/// A whole batch of messages, applied oldest first.
pub open spec fn run_obs(s: TickObs, msgs: Seq<Message>) -> TickObs
    decreases msgs.len(),
{
    if msgs.len() == 0 {
        s
    } else {
        run_obs(step_obs(s, msgs[0]), msgs.drop_first())
    }
}

/// The parameter edit a message asks the host for, if any.
pub open spec fn edit_of(m: Message) -> Seq<ParamEdit> {
    match m {
        Message::SetParameter { id, value_text } => seq![ParamEdit { id, value_text }],
        _ => Seq::empty(),
    }
}

/// All parameter edits a batch asks for, in message order.
pub open spec fn edits_of(msgs: Seq<Message>) -> Seq<ParamEdit>
    decreases msgs.len(),
{
    if msgs.len() == 0 {
        Seq::empty()
    } else {
        edit_of(msgs[0]) + edits_of(msgs.drop_first())
    }
}

proof fn lemma_run_obs_snoc(s: TickObs, msgs: Seq<Message>, m: Message)
    ensures
        run_obs(s, msgs.push(m)) == step_obs(run_obs(s, msgs), m),
    decreases msgs.len(),
{
    if msgs.len() == 0 {
        assert(msgs.push(m)[0] == m);
        assert(msgs.push(m).drop_first() =~= msgs);
        assert(run_obs(s, msgs.push(m)) == run_obs(step_obs(s, m), msgs));
        assert(run_obs(s, msgs.push(m)) =~= step_obs(run_obs(s, msgs), m));
    } else {
        assert(msgs.push(m)[0] == msgs[0]);
        assert(msgs.push(m).drop_first() =~= msgs.drop_first().push(m));
        lemma_run_obs_snoc(step_obs(s, msgs[0]), msgs.drop_first(), m);
        assert(run_obs(s, msgs.push(m)) =~= step_obs(run_obs(s, msgs), m));
    }
}

proof fn lemma_edits_snoc(msgs: Seq<Message>, m: Message)
    ensures
        edits_of(msgs.push(m)) == edits_of(msgs) + edit_of(m),
    decreases msgs.len(),
{
    if msgs.len() == 0 {
        assert(msgs.push(m).drop_first() =~= msgs);
        assert(edits_of(msgs.push(m)) =~= edits_of(msgs) + edit_of(m));
    } else {
        assert(msgs.push(m).drop_first() =~= msgs.drop_first().push(m));
        lemma_edits_snoc(msgs.drop_first(), m);
        assert(edits_of(msgs.push(m)) =~= edits_of(msgs) + edit_of(m));
    }
}

/// The construction options of the adapter survive a tick untouched.
pub open spec fn config_preserved(a: WindowHandler, b: WindowHandler) -> bool {
    a.is_live() && b.is_live() ==> {
        &&& b.phase->adapter.background_color == a.phase->adapter.background_color
        &&& b.phase->adapter.developer_mode == a.phase->adapter.developer_mode
    }
}

/// Reacts to one inbound message: the reference behaviour of the user
/// callback. Returns the parameter edits the host must perform. Outside the
/// spawn window nothing changes: the `init` reply is dropped and a resize is
/// a no-op, and neither failure stops the pump.
pub fn handle_message(ctx: &mut WindowHandler, m: Message) -> (edits: Vec<ParamEdit>)
    ensures
        edits@ == edit_of(m),
        !old(ctx).is_live() ==> *final(ctx) == *old(ctx),
        old(ctx).is_live() ==> {
            &&& final(ctx).is_live()
            &&& obs_of(*final(ctx)) == step_obs(obs_of(*old(ctx)), m)
            &&& final(ctx).queue == old(ctx).queue
            &&& config_preserved(*old(ctx), *final(ctx))
        },
{
    match m {
        Message::Init => {
            let payload = crate::wire::build_set_size_json(ctx.width, ctx.height);
            let _ = ctx.send_text(payload.as_str());
            proof {
                if old(ctx).is_live() {
                    assert(obs_of(*final(ctx)) =~= step_obs(obs_of(*old(ctx)), m));
                }
            }
            Vec::new()
        },
        Message::Resize { width, height } => {
            ctx.resize(width, height);
            proof {
                if old(ctx).is_live() {
                    assert(obs_of(*final(ctx)) =~= step_obs(obs_of(*old(ctx)), m));
                }
            }
            Vec::new()
        },
        Message::SetParameter { id, value_text } => {
            let mut edits: Vec<ParamEdit> = Vec::new();
            edits.push(ParamEdit { id, value_text });
            proof {
                assert(obs_of(*final(ctx)) =~= step_obs(obs_of(*old(ctx)), m));
            }
            edits
        },
    }
}

/// One tick of the frame pump: drains the queue, batched, in emission
/// order, reacts to every message, and returns the parameter edits the host
/// must perform, in the same order.
pub fn run_tick(ctx: &mut WindowHandler) -> (edits: Vec<ParamEdit>)
    ensures
        final(ctx).queue@ == Seq::<Message>::empty(),
        edits@ == edits_of(old(ctx).queue@),
        !old(ctx).is_live() ==> old(ctx).same_but_queue(*final(ctx)),
        old(ctx).is_live() ==> {
            &&& final(ctx).is_live()
            &&& obs_of(*final(ctx)) == run_obs(obs_of(*old(ctx)), old(ctx).queue@)
            &&& config_preserved(*old(ctx), *final(ctx))
        },
{
    let ghost q0 = old(ctx).queue@;
    let mut edits: Vec<ParamEdit> = Vec::new();
    loop
        invariant
            q0.len() >= ctx.queue@.len(),
            ctx.queue@ == q0.subrange(q0.len() - ctx.queue@.len(), q0.len() as int),
            edits@ == edits_of(q0.subrange(0, q0.len() - ctx.queue@.len())),
            !old(ctx).is_live() ==> old(ctx).same_but_queue(*ctx),
            old(ctx).is_live() ==> {
                &&& ctx.is_live()
                &&& obs_of(*ctx) == run_obs(
                    obs_of(*old(ctx)),
                    q0.subrange(0, q0.len() - ctx.queue@.len()),
                )
                &&& config_preserved(*old(ctx), *ctx)
            },
        ensures
            ctx.queue@.len() == 0,
            edits@ == edits_of(q0),
            !old(ctx).is_live() ==> old(ctx).same_but_queue(*ctx),
            old(ctx).is_live() ==> {
                &&& ctx.is_live()
                &&& obs_of(*ctx) == run_obs(obs_of(*old(ctx)), q0)
                &&& config_preserved(*old(ctx), *ctx)
            },
        decreases ctx.queue@.len(),
    {
        let ghost done_before = q0.subrange(0, q0.len() - ctx.queue@.len());
        match ctx.next_event() {
            None => {
                proof {
                    assert(done_before =~= q0);
                }
                break;
            },
            Some(m) => {
                proof {
                    assert(q0.subrange(0, q0.len() - ctx.queue@.len()) =~= done_before.push(m));
                    lemma_edits_snoc(done_before, m);
                    if old(ctx).is_live() {
                        lemma_run_obs_snoc(obs_of(*old(ctx)), done_before, m);
                    }
                }
                let mut e = handle_message(ctx, m);
                edits.append(&mut e);
            },
        }
    }
    proof {
        assert(Seq::<Message>::empty() =~= final(ctx).queue@);
    }
    edits
}

/// The size-consistency invariant at the observation level: the adapter's
/// bounds are the stored size, and a size reported to the host is the
/// stored one.
pub open spec fn obs_consistent(s: TickObs) -> bool {
    &&& s.bounds == (s.width, s.height)
    &&& (s.notified matches Some(n) ==> n == (s.width, s.height))
}

/// Law: no single message of a tick breaks the size-consistency
/// invariant: an `init` reply only adds a script, a resize re-establishes
/// all three sizes at once, and a parameter request touches none of them.
pub proof fn lemma_step_keeps_consistency(s: TickObs, m: Message)
    ensures
        obs_consistent(s) ==> obs_consistent(step_obs(s, m)),
{
}

/// Law: a whole batch of messages — one tick's worth — keeps the
/// size-consistency invariant.
pub proof fn lemma_batch_keeps_consistency(s: TickObs, msgs: Seq<Message>)
    ensures
        obs_consistent(s) ==> obs_consistent(run_obs(s, msgs)),
    decreases msgs.len(),
{
    if msgs.len() > 0 {
        lemma_step_keeps_consistency(s, msgs[0]);
        lemma_batch_keeps_consistency(step_obs(s, msgs[0]), msgs.drop_first());
    }
}

/// What the window handler answers the platform for one windowing event.
#[derive(Clone, Copy, Debug, PartialEq, Eq, Structural)]
pub enum EventStatus {
    /// The event was consumed here.
    Captured,
    /// The event is left to the platform's default handling.
    Ignored,
}

/// One windowing event as far as the routing decision needs it: the host's
/// own handlers have already seen the event, and their answers ride along.
#[derive(Clone, Copy, Debug, PartialEq, Eq, Structural)]
pub enum UiEvent {
    /// A keyboard event; `handled` is the host keyboard handler's answer.
    Keyboard { handled: bool },
    /// A mouse event; `status` is the host mouse handler's answer.
    Mouse { status: EventStatus },
    /// Anything else the platform delivers.
    Other,
}

/// Routes one windowing event: a keyboard event is captured exactly when
/// the host's keyboard handler took it, a mouse event answers whatever the
/// mouse handler answered, and everything else is ignored.
pub fn route_event(event: UiEvent) -> (r: EventStatus)
    ensures
        event matches UiEvent::Keyboard { handled } ==> r == (if handled {
            EventStatus::Captured
        } else {
            EventStatus::Ignored
        }),
        event matches UiEvent::Mouse { status } ==> r == status,
        event is Other ==> r == EventStatus::Ignored,
{
    match event {
        UiEvent::Keyboard { handled } => {
            if handled {
                EventStatus::Captured
            } else {
                EventStatus::Ignored
            }
        },
        UiEvent::Mouse { status } => status,
        UiEvent::Other => EventStatus::Ignored,
    }
}

/// Law: an `init` message earns exactly one reply, and that reply is the
/// `set_size` document carrying the editor's size at that moment — no other
/// script and no other state is touched.
pub proof fn lemma_init_reply(s: TickObs)
    ensures
        step_obs(s, Message::Init).scripts == s.scripts.push(
            intake_script(set_size_json(s.width, s.height)),
        ),
        step_obs(s, Message::Init).scripts.len() == s.scripts.len() + 1,
        step_obs(s, Message::Init) == (TickObs {
            scripts: s.scripts.push(intake_script(set_size_json(s.width, s.height))),
            ..s
        }),
{
}

/// An instance: the owner of the adapter and the timer created by one
/// spawn. Its timer token stays valid for the registry's whole lifetime, so
/// a stale token can never be mistaken for a fresh timer.
pub struct Instance {
    pub timer_token: usize,
}

/// The frame pump's entry: the platform timer fired with `token`. A tick
/// runs only while the token is live; a cancelled or unknown token gets no
/// tick and the context stays exactly as it was.
pub fn on_timer(timers: &TimerRegistry, token: usize, ctx: &mut WindowHandler) -> (r: Option<
    Vec<ParamEdit>,
>)
    ensures
        !timers.token_live(token as int) ==> r is None && *final(ctx) == *old(ctx),
        timers.token_live(token as int) ==> {
            &&& r matches Some(edits) && edits@ == edits_of(old(ctx).queue@)
            &&& final(ctx).queue@ == Seq::<Message>::empty()
            &&& !old(ctx).is_live() ==> old(ctx).same_but_queue(*final(ctx))
            &&& old(ctx).is_live() ==> {
                &&& final(ctx).is_live()
                &&& obs_of(*final(ctx)) == run_obs(obs_of(*old(ctx)), old(ctx).queue@)
                &&& config_preserved(*old(ctx), *final(ctx))
            }
        },
{
    if timers.is_live(token) {
        Some(run_tick(ctx))
    } else {
        None
    }
}

/// Tears one spawn window down, in the only safe order: the timer is
/// cancelled first, so that no new tick can reference a closing adapter;
/// only then are the capability reference and the adapter released. The
/// host must call this strictly before it invalidates the parent surface.
pub fn teardown(inst: Instance, ctx: &mut WindowHandler, timers: &mut TimerRegistry)
    ensures
        !final(timers).token_live(inst.timer_token as int),
        final(timers).slots@ == crate::timers::cancelled(
            old(timers).slots@,
            inst.timer_token as int,
        ),
        forall|t: int|
            t != inst.timer_token ==> final(timers).token_live(t) == old(timers).token_live(t),
        final(ctx).phase is TornDown,
        final(ctx).width == old(ctx).width,
        final(ctx).height == old(ctx).height,
        final(ctx).queue == old(ctx).queue,
{
    timers.cancel(inst.timer_token);
    ctx.phase = Phase::TornDown;
}

} // verus!
