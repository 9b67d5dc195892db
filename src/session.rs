//! One invocation as a state machine: the driver performs each request
//! against the window manager and hands back what came of it.
use vstd::prelude::*;
use crate::commands::{kill_id_spec, pointer_warp_setting, warp_setting_spec};
use crate::controller::{
    close_plan, decide, env_ready, focus_is_overlay, is_open_plan, open_plan, transition_spec, FocusWatcher, Operation, OverlayConfig,
    Transition, WatchAction, WatchEvent,
};
use crate::error::AppError;
use crate::geometry::{has_active, OutputInfo};
use crate::windows::{any_matches, matching_ids, query_overlay_exists, reply_windows, OutputNode};

verus! {

/// Where an invocation stands.
#[derive(Clone, Copy, Debug, PartialEq, Eq, Structural)]
pub enum Phase {
    Start,
    Listing,
    ReadingConfig,
    ListingOutputs,
    Sending,
    Watching,
    Dismissing,
    Finished,
}

/// What the driver must do next.
#[derive(Debug)]
pub enum Request {
    ListWindows,
    ReadConfig,
    ListOutputs,
    Command(String),
    NextEvent,
    Finish(Result<(), AppError>),
}

/// What the driver hands back.
#[derive(Debug)]
pub enum Reply {
    /// The invocation begins.
    Begin,
    /// The window list; `None` for an empty reply body.
    Windows(Option<Vec<OutputNode>>),
    /// The live configuration text; `None` when it could not be read.
    Config(Option<String>),
    Outputs(Vec<OutputInfo>),
    /// The last command's outcome, with the error text on failure.
    CommandDone(Result<(), String>),
    Event(WatchEvent),
}

/// An invocation of toggle, open or close.
#[derive(Debug)]
pub struct Session {
    pub op: Operation,
    pub cfg: OverlayConfig,
    pub phase: Phase,
    /// The saved pointer-warp value, once read.
    pub saved_warp: String,
    /// Commands to send, in order; those before `next` are sent.
    pub queue: Vec<String>,
    pub next: usize,
    /// Whether the focus watcher runs once the queue is sent.
    pub then_watch: bool,
    pub watcher: FocusWatcher,
}

impl Session {
    pub open spec fn wf(&self) -> bool {
        &&& self.cfg.wf()
        &&& self.next <= self.queue@.len()
        &&& self.watcher.marker == self.cfg.marker
        &&& (self.then_watch || self.phase == Phase::Watching) ==> !self.watcher.done
        &&& self.watcher.done ==> self.phase == Phase::Sending || self.phase == Phase::Dismissing
            || self.phase == Phase::Finished
    }

    pub fn new(op: Operation, cfg: OverlayConfig) -> (r: Session)
        requires
            cfg.wf(),
        ensures
            r.wf(),
            r.op == op,
            r.cfg == cfg,
            r.phase == Phase::Start,
            !r.then_watch,
    {
        let watcher = FocusWatcher::new(cfg.marker.duplicate());
        Session {
            op,
            cfg,
            phase: Phase::Start,
            saved_warp: String::new(),
            queue: Vec::new(),
            next: 0,
            then_watch: false,
            watcher,
        }
    }

    fn finish(&mut self, outcome: Result<(), AppError>) -> (r: Request)
        requires
            old(self).wf(),
            !old(self).then_watch,
        ensures
            final(self).wf(),
            final(self).phase == Phase::Finished,
            r == Request::Finish(outcome),
            final(self).cfg == old(self).cfg,
            final(self).op == old(self).op,
            final(self).queue == old(self).queue,
            final(self).next == old(self).next,
            final(self).watcher == old(self).watcher,
            final(self).then_watch == old(self).then_watch,
    {
        self.phase = Phase::Finished;
        Request::Finish(outcome)
    }

    /// Sends the next queued command, or moves on once the queue is sent:
    /// to the watcher when `then_watch` holds, else to the end.
    fn advance(&mut self) -> (r: Request)
        requires
            old(self).wf(),
            old(self).phase != Phase::Watching || old(self).next < old(self).queue@.len()
                || old(self).then_watch,
        ensures
            final(self).wf(),
            final(self).cfg == old(self).cfg,
            final(self).op == old(self).op,
            final(self).queue == old(self).queue,
            final(self).then_watch == old(self).then_watch,
            final(self).watcher == old(self).watcher,
            old(self).next < old(self).queue@.len() ==> final(self).phase == Phase::Sending && final(self).next
                == old(self).next + 1 && (r matches Request::Command(c) && c@ == old(self).queue@[old(
                self,
            ).next as int]@),
            old(self).next >= old(self).queue@.len() && old(self).then_watch ==> final(self).phase
                == Phase::Watching && r is NextEvent,
            old(self).next >= old(self).queue@.len() && !old(self).then_watch ==> final(self).phase
                == Phase::Finished && r == Request::Finish(Ok(())),
    {
        if self.next < self.queue.len() {
            let c = self.queue[self.next].clone();
            self.next = self.next + 1;
            self.phase = Phase::Sending;
            Request::Command(c)
        } else if self.then_watch {
            self.phase = Phase::Watching;
            Request::NextEvent
        } else {
            self.phase = Phase::Finished;
            Request::Finish(Ok(()))
        }
    }
}


/// The reply that a phase waits for.
pub open spec fn expected(phase: Phase, reply: Reply) -> bool {
    match phase {
        Phase::Start => reply is Begin,
        Phase::Listing => reply is Windows,
        Phase::ReadingConfig => reply is Config,
        Phase::ListingOutputs => reply is Outputs,
        Phase::Sending => reply is CommandDone,
        Phase::Watching => reply is Event,
        Phase::Dismissing => reply is Windows,
        Phase::Finished => false,
    }
}

/// The session sends one close command per id of `ids`, by id, then ends.
pub open spec fn closing(new: Session, r: Request, ids: Seq<i64>) -> bool {
    &&& new.queue@.len() == ids.len()
    &&& forall|k: int| 0 <= k < ids.len() ==> (#[trigger] new.queue@[k])@ == kill_id_spec(ids[k])
    &&& !new.then_watch
    &&& ids.len() == 0 ==> new.phase == Phase::Finished && r == Request::Finish(Ok(()))
    &&& ids.len() > 0 ==> new.phase == Phase::Sending && new.next == 1 && (r matches Request::Command(c)
        && c@ == kill_id_spec(ids[0]))
}

/// The outcome of one step, phase by phase.
pub open spec fn step_spec(old: Session, new: Session, reply: Reply, r: Request) -> bool {
    let m = old.cfg.marker;
    match reply {
        _ if !expected(old.phase, reply) => new.phase == Phase::Finished && r matches Request::Finish(
            Err(AppError::Decode(_)),
        ),
        Reply::Begin => new.phase == Phase::Listing && r is ListWindows,
        Reply::Windows(w) => if old.phase == Phase::Dismissing {
            closing(new, r, matching_ids(reply_windows(w), m))
        } else {
            match transition_spec(old.op, any_matches(reply_windows(w), m)) {
                Transition::Nothing => new.phase == Phase::Finished && r == Request::Finish(Ok(())),
                Transition::Open => new.phase == Phase::ReadingConfig && r is ReadConfig,
                Transition::Close => closing(new, r, matching_ids(reply_windows(w), m)),
            }
        },
        Reply::Config(c) => new.phase == Phase::ListingOutputs && r is ListOutputs && new.saved_warp@
            == warp_setting_spec(c),
        Reply::Outputs(o) => if !has_active(o@) {
            new.phase == Phase::Finished && r matches Request::Finish(Err(AppError::NoActiveOutput))
        } else if !env_ready(old.cfg) {
            new.phase == Phase::Finished && (r matches Request::Finish(Err(AppError::EnvironmentMissing(v)))
                && v@ == if old.cfg.home is None {
                "HOME"@
            } else {
                "SHELL"@
            })
        } else {
            &&& is_open_plan(old.cfg, old.saved_warp@, o@, new.queue@)
            &&& new.then_watch
            &&& new.phase == Phase::Sending
            &&& new.next == 1
            &&& r matches Request::Command(c) && c@ == new.queue@[0]@
        },
        Reply::CommandDone(Err(e)) => new.phase == Phase::Finished && (r matches Request::Finish(
            Err(AppError::Transport(t)),
        ) && t@ == e@),
        Reply::CommandDone(Ok(())) => {
            &&& new.queue == old.queue
            &&& new.then_watch == old.then_watch
            &&& new.watcher == old.watcher
            &&& old.next < old.queue@.len() ==> new.phase == Phase::Sending && new.next == old.next + 1 && (
            r matches Request::Command(c) && c@ == old.queue@[old.next as int]@)
            &&& old.next >= old.queue@.len() && old.then_watch ==> new.phase == Phase::Watching
                && r is NextEvent
            &&& old.next >= old.queue@.len() && !old.then_watch ==> new.phase == Phase::Finished
                && r == Request::Finish(Ok(()))
        },
        Reply::Event(ev) => match ev {
            WatchEvent::Focus { title, app_id } => if focus_is_overlay(m, title, app_id) {
                new.phase == Phase::Watching && r is NextEvent
            } else {
                &&& new.phase == Phase::Dismissing
                &&& !new.then_watch
                &&& r is ListWindows
            },
            WatchEvent::Other => new.phase == Phase::Watching && r is NextEvent,
            WatchEvent::Malformed(e) => new.phase == Phase::Finished && (r matches Request::Finish(
                Err(AppError::Transport(t)),
            ) && t@ == e@),
            WatchEvent::Ended => new.phase == Phase::Finished && r == Request::Finish(Ok(())),
            WatchEvent::Cancelled => new.phase == Phase::Finished && r == Request::Finish(Ok(())),
        },
    }
}

impl Session {
    fn watch(&mut self, ev: WatchEvent) -> (r: WatchAction)
        requires
            old(self).wf(),
            old(self).phase == Phase::Watching,
        ensures
            final(self).cfg == old(self).cfg,
            final(self).op == old(self).op,
            final(self).queue == old(self).queue,
            final(self).next == old(self).next,
            final(self).watcher.marker == old(self).watcher.marker,
            r is Continue ==> final(self).then_watch == old(self).then_watch && final(self).wf() && final(self).phase == Phase::Watching,
            r is Dismiss ==> final(self).phase == Phase::Dismissing && !final(self).then_watch
                && final(self).next <= final(self).queue@.len(),
            !(r is Continue) && !(r is Dismiss) ==> final(self).phase == Phase::Sending && !final(self).then_watch
                && final(self).next <= final(self).queue@.len(),
            match ev {
                WatchEvent::Focus { title, app_id } => if focus_is_overlay(old(self).cfg.marker, title, app_id) {
                    r is Continue
                } else {
                    r is Dismiss
                },
                WatchEvent::Other => r is Continue,
                WatchEvent::Malformed(e) => r matches WatchAction::Fail(AppError::Transport(t)) && t@ == e@,
                WatchEvent::Ended => r is Stop,
                WatchEvent::Cancelled => r is Stop,
            },
    {
        let r = self.watcher.on_event(ev);
        match r {
            WatchAction::Continue => {},
            WatchAction::Dismiss => {
                self.phase = Phase::Dismissing;
                self.then_watch = false;
            },
            _ => {
                self.phase = Phase::Sending;
                self.then_watch = false;
            },
        }
        r
    }

    /// Takes the reply to the last request and returns the next request.
    /// A reply that the current phase does not wait for ends the session
    /// with a `Decode` error.
    pub fn step(&mut self, reply: Reply) -> (r: Request)
        requires
            old(self).wf(),
        ensures
            final(self).wf(),
            final(self).op == old(self).op,
            final(self).cfg == old(self).cfg,
            step_spec(*old(self), *final(self), reply, r),
    {
        let ok = match (self.phase, &reply) {
            (Phase::Start, Reply::Begin) => true,
            (Phase::Listing, Reply::Windows(_)) => true,
            (Phase::ReadingConfig, Reply::Config(_)) => true,
            (Phase::ListingOutputs, Reply::Outputs(_)) => true,
            (Phase::Sending, Reply::CommandDone(_)) => true,
            (Phase::Watching, Reply::Event(_)) => true,
            (Phase::Dismissing, Reply::Windows(_)) => true,
            _ => false,
        };
        if !ok {
            self.then_watch = false;
            return self.finish(Err(AppError::Decode(String::from_str("reply out of turn"))));
        }
        match reply {
            Reply::Begin => {
                self.phase = Phase::Listing;
                Request::ListWindows
            },
            Reply::Windows(w) => {
                if self.phase == Phase::Dismissing {
                    self.queue = close_plan(&w, &self.cfg.marker);
                    self.next = 0;
                    self.then_watch = false;
                    return self.advance();
                }
                let exists = query_overlay_exists(&w, &self.cfg.marker);
                match decide(self.op, exists) {
                    Transition::Nothing => {
                        self.then_watch = false;
                        self.finish(Ok(()))
                    },
                    Transition::Open => {
                        self.phase = Phase::ReadingConfig;
                        Request::ReadConfig
                    },
                    Transition::Close => {
                        self.queue = close_plan(&w, &self.cfg.marker);
                        self.next = 0;
                        self.then_watch = false;
                        self.advance()
                    },
                }
            },
            Reply::Config(c) => {
                self.saved_warp = pointer_warp_setting(&c);
                self.phase = Phase::ListingOutputs;
                Request::ListOutputs
            },
            Reply::Outputs(o) => match open_plan(&self.cfg, self.saved_warp.as_str(), &o) {
                Err(e) => {
                    self.then_watch = false;
                    self.finish(Err(e))
                },
                Ok(cmds) => {
                    self.queue = cmds;
                    self.next = 0;
                    self.then_watch = true;
                    self.advance()
                },
            },
            Reply::CommandDone(Err(e)) => {
                self.then_watch = false;
                self.finish(Err(AppError::Transport(e)))
            },
            Reply::CommandDone(Ok(())) => self.advance(),
            Reply::Event(ev) => match self.watch(ev) {
                WatchAction::Continue => Request::NextEvent,
                WatchAction::Dismiss => Request::ListWindows,
                WatchAction::Fail(e) => {
                    self.then_watch = false;
                    self.finish(Err(e))
                },
                WatchAction::Stop => {
                    self.then_watch = false;
                    self.finish(Ok(()))
                },
            },
        }
    }
}

} // verus!
