//! The shared editor context: the lock-guarded state that the host's UI
//! thread and the platform's message callbacks both touch. The host wraps it
//! in its lock; everything here is the state machine under that lock.
//!
//! The context is a tagged state machine, so that an illegal combination
//! (a host capability present without a live adapter) cannot be represented:
//! before a spawn it is `Unspawned`, during the spawn window it is `Spawned`
//! and carries the adapter and the host capability together, and after a
//! teardown it is `TornDown`.

use vstd::prelude::*;
use vstd::string::*;

use crate::msg::{EditorError, Message, Outbound};
use crate::wire::{build_intake_script, build_outbound_json, intake_script, outbound_json, outbound_wf};

verus! {

/// The state of the native web widget for one spawn window: its bounds, the
/// construction options it was given, and the scripts handed to it for
/// evaluation, in order. The host applies `scripts` to the real widget.
pub struct Adapter {
    pub bounds_width: u32,
    pub bounds_height: u32,
    pub background_color: (u8, u8, u8, u8),
    pub developer_mode: bool,
    pub scripts: Vec<String>,
}

/// What the context knows of the host capability it holds during a spawn
/// window: the last size the host was asked to take.
pub struct HostHandle {
    pub last_notified: Option<(u32, u32)>,
}

/// The lifecycle phase of the context.
pub enum Phase {
    /// No spawn has happened yet.
    Unspawned,
    /// A spawn window is open: the adapter is live and the host capability
    /// is held. Neither exists without the other.
    Spawned { adapter: Adapter, host: HostHandle },
    /// The last spawn window was closed; adapter and capability are gone.
    TornDown,
}

/// The shared editor context: current size, lifecycle phase, and the FIFO
/// queue of inbound messages drained once per tick.
pub struct WindowHandler {
    pub width: u32,
    pub height: u32,
    pub queue: Vec<Message>,
    pub phase: Phase,
}

impl WindowHandler {
    /// A spawn window is open: adapter and capability are present.
    pub open spec fn is_live(self) -> bool {
        self.phase is Spawned
    }

    /// The adapter's bounds, when live.
    pub open spec fn bounds(self) -> (u32, u32)
        recommends
            self.is_live(),
    {
        (self.phase->adapter.bounds_width, self.phase->adapter.bounds_height)
    }

    /// The last size reported to the host, when live.
    pub open spec fn notified(self) -> Option<(u32, u32)>
        recommends
            self.is_live(),
    {
        self.phase->host.last_notified
    }

    /// The scripts handed to the adapter so far, as sequences of characters,
    /// in evaluation order.
    pub open spec fn scripts_deep(self) -> Seq<Seq<char>>
        recommends
            self.is_live(),
    {
        self.phase->adapter.scripts@.map_values(|s: String| s@)
    }

    /// The size consistency the data model promises: while live, the
    /// adapter's bounds are the stored size, and when a size has been
    /// reported to the host it is the stored one.
    pub open spec fn sizes_consistent(self) -> bool {
        self.is_live() ==> {
            &&& self.bounds() == (self.width, self.height)
            &&& (self.notified() matches Some(n) ==> n == (self.width, self.height))
        }
    }

    /// `other` is `self` with at most the inbound queue changed.
    pub open spec fn same_but_queue(self, other: WindowHandler) -> bool {
        &&& other.width == self.width
        &&& other.height == self.height
        &&& other.phase == self.phase
    }

    /// `other` is `self` with at most the adapter's script log changed.
    pub open spec fn same_but_scripts(self, other: WindowHandler) -> bool {
        &&& other.width == self.width
        &&& other.height == self.height
        &&& other.queue == self.queue
        &&& other.phase is Spawned == self.phase is Spawned
        &&& self.is_live() ==> {
            &&& other.bounds() == self.bounds()
            &&& other.notified() == self.notified()
            &&& other.phase->adapter.background_color == self.phase->adapter.background_color
            &&& other.phase->adapter.developer_mode == self.phase->adapter.developer_mode
        }
        &&& !self.is_live() ==> other.phase == self.phase
    }

    /// The context after `resize(width, height)`: a no-op unless live;
    /// when live, adapter bounds, stored size, and the size reported to the
    /// host all become the requested size.
    pub open spec fn resize_spec(self, width: u32, height: u32) -> WindowHandler {
        if self.is_live() {
            WindowHandler {
                width,
                height,
                queue: self.queue,
                phase: Phase::Spawned {
                    adapter: Adapter {
                        bounds_width: width,
                        bounds_height: height,
                        background_color: self.phase->adapter.background_color,
                        developer_mode: self.phase->adapter.developer_mode,
                        scripts: self.phase->adapter.scripts,
                    },
                    host: HostHandle { last_notified: Some((width, height)) },
                },
            }
        } else {
            self
        }
    }

    /// A fresh context with the configured initial size and no spawn window.
    pub fn new(width: u32, height: u32) -> (ctx: WindowHandler)
        ensures
            ctx.width == width,
            ctx.height == height,
            ctx.queue@ == Seq::<Message>::empty(),
            ctx.phase is Unspawned,
    {
        WindowHandler { width, height, queue: Vec::new(), phase: Phase::Unspawned }
    }

    /// Resizes the editor. Effective only while a spawn window is open;
    /// otherwise a silent no-op, which is expected outside the window and is
    /// not an error. An effective resize leaves adapter bounds, stored size,
    /// and the size reported to the host all equal to the requested size.
    pub fn resize(&mut self, width: u32, height: u32)
        ensures
            *final(self) == old(self).resize_spec(width, height),
            old(self).is_live() ==> {
                &&& final(self).bounds() == (width, height)
                &&& (final(self).width, final(self).height) == (width, height)
                &&& final(self).notified() == Some((width, height))
            },
            !old(self).is_live() ==> *final(self) == *old(self),
    {
        let live = match &self.phase {
            Phase::Spawned { .. } => true,
            _ => false,
        };
        if live {
            self.width = width;
            self.height = height;
            match &mut self.phase {
                Phase::Spawned { adapter, host } => {
                    adapter.bounds_width = width;
                    adapter.bounds_height = height;
                    host.last_notified = Some((width, height));
                },
                _ => {},
            }
        }
    }

    /// Whether a spawn window is open right now.
    pub fn live(&self) -> (r: bool)
        ensures
            r == self.is_live(),
    {
        match &self.phase {
            Phase::Spawned { .. } => true,
            _ => false,
        }
    }

    /// Hands one serialized payload to the live page by queueing a call of
    /// the page-global intake function. Fails `NoActiveView` outside the
    /// spawn window and changes nothing then.
    pub fn send_text(&mut self, payload: &str) -> (r: Result<(), EditorError>)
        ensures
            !old(self).is_live() ==> {
                &&& r == Err::<(), EditorError>(EditorError::NoActiveView)
                &&& *final(self) == *old(self)
            },
            old(self).is_live() ==> {
                &&& r == Ok::<(), EditorError>(())
                &&& old(self).same_but_scripts(*final(self))
                &&& final(self).scripts_deep() == old(self).scripts_deep().push(
                    intake_script(payload@),
                )
            },
    {
        match &mut self.phase {
            Phase::Spawned { adapter, .. } => {
                let script = build_intake_script(payload);
                adapter.scripts.push(script);
                proof {
                    assert(final(self).scripts_deep() =~= old(self).scripts_deep().push(
                        intake_script(payload@),
                    ));
                }
                Ok(())
            },
            _ => Err(EditorError::NoActiveView),
        }
    }

    /// Sends one outbound message of the protocol into the live page: it is
    /// serialized exactly as `outbound_json` says and delivered through the
    /// intake call. Fails `NoActiveView` outside the spawn window. The
    /// message must be well-formed — `check_json_number` decides the one
    /// condition at run time — so that the page receives one JSON document.
    pub fn send_outbound(&mut self, m: &Outbound) -> (r: Result<(), EditorError>)
        requires
            outbound_wf(*m),
        ensures
            !old(self).is_live() ==> {
                &&& r == Err::<(), EditorError>(EditorError::NoActiveView)
                &&& *final(self) == *old(self)
            },
            old(self).is_live() ==> {
                &&& r == Ok::<(), EditorError>(())
                &&& old(self).same_but_scripts(*final(self))
                &&& final(self).scripts_deep() == old(self).scripts_deep().push(
                    intake_script(outbound_json(*m)),
                )
            },
    {
        let payload = build_outbound_json(m);
        self.send_text(payload.as_str())
    }

    /// Queues one inbound message at the tail, in emission order. This is
    /// the inbound sink's last step.
    pub fn push_inbound(&mut self, m: Message)
        ensures
            final(self).queue@ == old(self).queue@.push(m),
            old(self).same_but_queue(*final(self)),
    {
        self.queue.push(m);
    }

    /// Returns and clears all queued inbound messages, in emission order.
    /// On an empty queue it returns empty and changes nothing, so a second
    /// drain right after a first always returns empty.
    pub fn drain_messages(&mut self) -> (msgs: Vec<Message>)
        ensures
            msgs@ == old(self).queue@,
            final(self).queue@ == Seq::<Message>::empty(),
            old(self).same_but_queue(*final(self)),
    {
        let mut out: Vec<Message> = Vec::new();
        core::mem::swap(&mut out, &mut self.queue);
        out
    }

    /// Removes and returns the oldest queued inbound message, if any.
    pub fn next_event(&mut self) -> (r: Option<Message>)
        ensures
            old(self).queue@.len() == 0 ==> r is None && *final(self) == *old(self),
            old(self).queue@.len() > 0 ==> {
                &&& r == Some(old(self).queue@[0])
                &&& final(self).queue@ == old(self).queue@.drop_first()
                &&& old(self).same_but_queue(*final(self))
            },
    {
        if self.queue.len() == 0 {
            None
        } else {
            let m = self.queue.remove(0);
            proof {
                assert(final(self).queue@ =~= old(self).queue@.drop_first());
            }
            Some(m)
        }
    }
}

/// Law: the queue is first-in, first-out. Two messages enqueued by the
/// inbound sink one after the other stand behind what was queued before, in
/// emission order; and a drain hands the whole queue out unchanged, so a
/// drain of the empty queue hands out the empty batch.
pub proof fn lemma_sink_drain_fifo(q: Seq<Message>, m1: Message, m2: Message)
    ensures
        q.push(m1).push(m2) == q + seq![m1, m2],
        q.push(m1).push(m2)[q.len() as int] == m1,
        q.push(m1).push(m2)[q.len() as int + 1] == m2,
{
    assert(q.push(m1).push(m2) =~= q + seq![m1, m2]);
}

/// Resizing while live leaves the three sizes consistent: adapter bounds,
/// stored size, and the last size reported to the host are all the requested
/// size afterward.
pub proof fn lemma_resize_consistent(ctx: WindowHandler, width: u32, height: u32)
    requires
        ctx.is_live(),
    ensures
        ctx.resize_spec(width, height).bounds() == (width, height),
        ctx.resize_spec(width, height).width == width,
        ctx.resize_spec(width, height).height == height,
        ctx.resize_spec(width, height).notified() == Some((width, height)),
{
}

/// Resizing without a live spawn window changes nothing at all.
pub proof fn lemma_resize_no_op(ctx: WindowHandler, width: u32, height: u32)
    requires
        !ctx.is_live(),
    ensures
        ctx.resize_spec(width, height) == ctx,
{
}

/// Law: a resize never breaks the size-consistency invariant — an
/// effective one establishes it outright, and an ineffective one leaves
/// the context as it was.
pub proof fn lemma_resize_keeps_consistency(ctx: WindowHandler, width: u32, height: u32)
    ensures
        ctx.is_live() ==> ctx.resize_spec(width, height).sizes_consistent(),
        ctx.sizes_consistent() ==> ctx.resize_spec(width, height).sizes_consistent(),
{
}

} // verus!
