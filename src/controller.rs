//! The decisions of one invocation: what a toggle / open / close does given
//! the live window list, the commands that opening and closing issue, and the
//! focus watcher that dismisses the overlay.
use vstd::prelude::*;
use crate::commands::{
    kill_id_command, kill_id_spec, launch_command, launch_spec,
    rule_command, rule_spec, warp_command, warp_spec,
};
use crate::error::AppError;
use crate::geometry::{compute_dimensions, has_active, Dimensions, is_first_active, resolve_spec, size_wf, Fraction, OutputInfo, Size};
use crate::windows::{
    any_matches, ident_matches, matches_marker, matching_ids, overlay_ids, reply_windows, window_matches, Marker, MarkerKind,
    OutputNode, WindowRef,
};

verus! {

/// What the user asked for.
#[derive(Clone, Copy, Debug, PartialEq, Eq, Structural)]
pub enum Operation {
    Toggle,
    Open,
    Close,
}

/// What the invocation does.
#[derive(Clone, Copy, Debug, PartialEq, Eq, Structural)]
pub enum Transition {
    Open,
    Close,
    Nothing,
}

/// Toggle closes an existing overlay and opens a missing one; open never
/// creates a second overlay; close always closes.
pub open spec fn transition_spec(op: Operation, overlay_exists: bool) -> Transition {
    match op {
        Operation::Toggle => if overlay_exists { Transition::Close } else { Transition::Open },
        Operation::Open => if overlay_exists { Transition::Nothing } else { Transition::Open },
        Operation::Close => Transition::Close,
    }
}

pub fn decide(op: Operation, overlay_exists: bool) -> (r: Transition)
    ensures
        r == transition_spec(op, overlay_exists),
{
    match op {
        Operation::Toggle => if overlay_exists { Transition::Close } else { Transition::Open },
        Operation::Open => if overlay_exists { Transition::Nothing } else { Transition::Open },
        Operation::Close => Transition::Close,
    }
}

/// Everything an invocation is configured with.
#[derive(Debug)]
pub struct OverlayConfig {
    pub marker: Marker,
    pub width: Option<Size>,
    pub height: Option<Size>,
    pub default_width: Fraction,
    pub default_height: Fraction,
    pub grant_focus: bool,
    /// What the terminal runs; the shell when empty.
    pub command: Vec<String>,
    /// The user's shell, if the environment names one.
    pub shell: Option<String>,
    /// The user's home directory, where the terminal starts, if known.
    pub home: Option<String>,
}

impl OverlayConfig {
    pub open spec fn wf(&self) -> bool {
        self.default_width.wf() && self.default_height.wf() && size_wf(self.width) && size_wf(self.height)
    }
}

impl OverlayConfig {
    /// The usual setup: the overlay marked by app id `dropdown`, default
    /// width 0.3 and height 0.4 of the output, focus granted.
    pub fn with_defaults(
        width: Option<Size>,
        height: Option<Size>,
        command: Vec<String>,
        shell: Option<String>,
        home: Option<String>,
    ) -> (r: OverlayConfig)
        requires
            size_wf(width),
            size_wf(height),
        ensures
            r.wf(),
            r.marker.kind == MarkerKind::AppId,
            r.marker.value@ == "dropdown"@,
            r.width == width,
            r.height == height,
            r.default_width == (Fraction { num: 3, den: 10 }),
            r.default_height == (Fraction { num: 4, den: 10 }),
            r.grant_focus,
            r.command == command,
            r.shell == shell,
            r.home == home,
    {
        OverlayConfig {
            marker: Marker { kind: MarkerKind::AppId, value: String::from_str("dropdown") },
            width,
            height,
            default_width: Fraction { num: 3, den: 10 },
            default_height: Fraction { num: 4, den: 10 },
            grant_focus: true,
            command,
            shell,
            home,
        }
    }
}

/// The environment holds what the launch needs: a home directory, and a
/// shell when no command is given.
pub open spec fn env_ready(cfg: OverlayConfig) -> bool {
    cfg.home is Some && (cfg.command@.len() > 0 || cfg.shell is Some)
}

/// What the terminal runs: the command, or else the shell alone.
pub open spec fn launch_args(cfg: OverlayConfig) -> Seq<String> {
    if cfg.command@.len() > 0 {
        cfg.command@
    } else {
        seq![cfg.shell->0]
    }
}

/// `cmds` opens the overlay on the first active output, in order: pointer
/// warping off, the window rule, the launch, the saved warp value back.
pub open spec fn is_open_plan(cfg: OverlayConfig, saved_warp: Seq<char>, outputs: Seq<OutputInfo>, cmds: Seq<String>) -> bool {
    cmds.len() == 4 && cmds[0]@ == warp_spec("none"@) && cmds[2]@ == launch_spec(cfg.marker, (cfg.home->0)@, launch_args(cfg))
        && cmds[3]@ == warp_spec(saved_warp) && exists|i: int|
        is_first_active(outputs, i) && #[trigger] cmds[1]@ == rule_spec(
            cfg.marker,
            Dimensions {
                width: resolve_spec(cfg.width, outputs[i].width as int, cfg.default_width) as i64,
                height: resolve_spec(cfg.height, outputs[i].height as int, cfg.default_height) as i64,
            },
            cfg.grant_focus,
        )
}

/// The commands that open the overlay on the first active output, in order:
/// pointer warping off, the window rule, the launch, the saved warp value
/// back. Issuing nothing, it fails with `NoActiveOutput` when no output is
/// active, and otherwise with `EnvironmentMissing` naming `HOME` or `SHELL`
/// when the launch lacks it.
pub fn open_plan(cfg: &OverlayConfig, saved_warp: &str, outputs: &Vec<OutputInfo>) -> (r: Result<Vec<String>, AppError>)
    requires
        cfg.wf(),
    ensures
        r is Err <==> !has_active(outputs@) || !env_ready(*cfg),
        r matches Err(e) ==> (if !has_active(outputs@) {
            e is NoActiveOutput
        } else if cfg.home is None {
            e matches AppError::EnvironmentMissing(v) && v@ == "HOME"@
        } else {
            e matches AppError::EnvironmentMissing(v) && v@ == "SHELL"@
        }),
        r matches Ok(cmds) ==> is_open_plan(*cfg, saved_warp@, outputs@, cmds@),
{
    let d = match compute_dimensions(outputs, &cfg.width, &cfg.height, cfg.default_width, cfg.default_height) {
        Ok(d) => d,
        Err(e) => {
            return Err(e);
        },
    };
    let home = match &cfg.home {
        Some(h) => h,
        None => {
            return Err(AppError::EnvironmentMissing(String::from_str("HOME")));
        },
    };
    let mut args: Vec<String> = Vec::new();
    if cfg.command.len() > 0 {
        let mut i: usize = 0;
        while i < cfg.command.len()
            invariant
                i <= cfg.command@.len(),
                args@ == cfg.command@.take(i as int),
            decreases cfg.command.len() - i,
        {
            args.push(cfg.command[i].clone());
            assert(cfg.command@.take(i + 1) =~= cfg.command@.take(i as int).push(cfg.command@[i as int]));
            i += 1;
        }
        assert(cfg.command@.take(i as int) =~= cfg.command@);
    } else {
        match &cfg.shell {
            Some(sh) => args.push(sh.clone()),
            None => {
                return Err(AppError::EnvironmentMissing(String::from_str("SHELL")));
            },
        }
        assert(args@ =~= launch_args(*cfg));
    }
    let mut cmds: Vec<String> = Vec::new();
    cmds.push(warp_command("none"));
    cmds.push(rule_command(&cfg.marker, d, cfg.grant_focus));
    cmds.push(launch_command(&cfg.marker, home, &args));
    cmds.push(warp_command(saved_warp));
    Ok(cmds)
}

/// One close command per window of the reply that carries the marker, by
/// numeric id; none when the reply is empty or holds no such window.
pub fn close_plan(reply: &Option<Vec<OutputNode>>, m: &Marker) -> (r: Vec<String>)
    ensures
        r@.len() == matching_ids(reply_windows(*reply), *m).len(),
        forall|k: int|
            0 <= k < r@.len() ==> (#[trigger] r@[k])@ == kill_id_spec(matching_ids(reply_windows(*reply), *m)[k]),
{
    let ids = overlay_ids(reply, m);
    let mut r: Vec<String> = Vec::new();
    let mut i: usize = 0;
    while i < ids.len()
        invariant
            i <= ids@.len(),
            r@.len() == i,
            forall|k: int| 0 <= k < i ==> (#[trigger] r@[k])@ == kill_id_spec(ids@[k]),
        decreases ids.len() - i,
    {
        r.push(kill_id_command(ids[i]));
        i += 1;
    }
    r
}

/// An event of the window manager's subscription stream, as the watcher
/// sees it.
#[derive(Debug)]
pub enum WatchEvent {
    /// Focus moved to the window with these identifying attributes.
    Focus { title: Option<String>, app_id: Option<String> },
    /// Any other event.
    Other,
    /// The stream delivered something that could not be decoded.
    Malformed(String),
    /// The stream ended.
    Ended,
    /// The caller asked the watcher to stop.
    Cancelled,
}

/// What the watcher asks its driver to do next.
#[derive(Debug)]
pub enum WatchAction {
    /// Wait for the next event.
    Continue,
    /// Close the overlay, then stop.
    Dismiss,
    /// Stop with this error.
    Fail(AppError),
    /// Stop.
    Stop,
}

pub open spec fn focus_is_overlay(m: Marker, title: Option<String>, app_id: Option<String>) -> bool {
    match m.kind {
        MarkerKind::Title => ident_matches(title, m),
        MarkerKind::AppId => ident_matches(app_id, m),
    }
}

/// Waits on the event stream and dismisses the overlay on the first focus
/// change to any other window.
#[derive(Debug)]
pub struct FocusWatcher {
    pub marker: Marker,
    pub done: bool,
}

impl FocusWatcher {
    pub fn new(marker: Marker) -> (r: FocusWatcher)
        ensures
            r.marker == marker,
            !r.done,
    {
        FocusWatcher { marker, done: false }
    }

    /// Next step on one event. Focus on the overlay and other events keep the
    /// watcher waiting; focus elsewhere asks for the overlay to be closed; a malformed event
    /// fails; the end of the stream or a cancellation stops. Once stopped,
    /// every later event is answered with `Stop`.
    pub fn on_event(&mut self, ev: WatchEvent) -> (r: WatchAction)
        ensures
            final(self).marker == old(self).marker,
            old(self).done ==> r is Stop && final(self).done,
            !old(self).done ==> match ev {
                WatchEvent::Focus { title, app_id } => if focus_is_overlay(old(self).marker, title, app_id) {
                    r is Continue && !final(self).done
                } else {
                    r is Dismiss && final(self).done
                },
                WatchEvent::Other => r is Continue && !final(self).done,
                WatchEvent::Malformed(e) => r matches WatchAction::Fail(AppError::Transport(t)) && t@ == e@
                    && final(self).done,
                WatchEvent::Ended => r is Stop && final(self).done,
                WatchEvent::Cancelled => r is Stop && final(self).done,
            },
    {
        if self.done {
            return WatchAction::Stop;
        }
        match ev {
            WatchEvent::Focus { title, app_id } => {
                let probe = WindowRef { id: 0, title, app_id };
                if matches_marker(&probe, &self.marker) {
                    WatchAction::Continue
                } else {
                    self.done = true;
                    WatchAction::Dismiss
                }
            },
            WatchEvent::Other => WatchAction::Continue,
            WatchEvent::Malformed(e) => {
                self.done = true;
                WatchAction::Fail(AppError::Transport(e))
            },
            WatchEvent::Ended => {
                self.done = true;
                WatchAction::Stop
            },
            WatchEvent::Cancelled => {
                self.done = true;
                WatchAction::Stop
            },
        }
    }
}


/// The windows left once every window whose id is in `ids` is closed.
pub open spec fn without_ids(ws: Seq<WindowRef>, ids: Seq<i64>) -> Seq<WindowRef>
    decreases ws.len(),
{
    if ws.len() == 0 {
        Seq::empty()
    } else if ids.contains(ws.last().id) {
        without_ids(ws.drop_last(), ids)
    } else {
        without_ids(ws.drop_last(), ids).push(ws.last())
    }
}

proof fn lemma_matching_ids_cover(ws: Seq<WindowRef>, m: Marker)
    ensures
        forall|i: int|
            0 <= i < ws.len() && window_matches(#[trigger] ws[i], m) ==> matching_ids(ws, m).contains(ws[i].id),
    decreases ws.len(),
{
    if ws.len() > 0 {
        let pre = ws.drop_last();
        lemma_matching_ids_cover(pre, m);
        assert forall|i: int| 0 <= i < ws.len() && window_matches(#[trigger] ws[i], m) implies matching_ids(
            ws,
            m,
        ).contains(ws[i].id) by {
            if i < ws.len() - 1 {
                assert(pre[i] == ws[i]);
                let j = choose|j: int| 0 <= j < matching_ids(pre, m).len() && matching_ids(pre, m)[j] == ws[i].id;
                if window_matches(ws.last(), m) {
                    assert(matching_ids(ws, m)[j] == ws[i].id);
                } else {
                    assert(matching_ids(ws, m)[j] == ws[i].id);
                }
            } else {
                let n = matching_ids(pre, m).len() as int;
                assert(matching_ids(ws, m)[n] == ws[i].id);
            }
        }
    }
}

proof fn lemma_without_ids_members(ws: Seq<WindowRef>, ids: Seq<i64>)
    ensures
        forall|j: int|
            0 <= j < without_ids(ws, ids).len() ==> !ids.contains((#[trigger] without_ids(ws, ids)[j]).id)
                && ws.contains(without_ids(ws, ids)[j]),
    decreases ws.len(),
{
    if ws.len() > 0 {
        let pre = ws.drop_last();
        lemma_without_ids_members(pre, ids);
        assert forall|j: int| 0 <= j < without_ids(ws, ids).len() implies !ids.contains(
            (#[trigger] without_ids(ws, ids)[j]).id,
        ) && ws.contains(without_ids(ws, ids)[j]) by {
            let r = without_ids(ws, ids);
            if j < without_ids(pre, ids).len() {
                assert(r[j] == without_ids(pre, ids)[j]);
                let k = choose|k: int| 0 <= k < pre.len() && pre[k] == without_ids(pre, ids)[j];
                assert(ws[k] == r[j]);
            } else {
                assert(r[j] == ws.last());
                assert(ws[ws.len() - 1] == r[j]);
            }
        }
    }
}

proof fn lemma_no_match_no_ids(ws: Seq<WindowRef>, m: Marker)
    requires
        !any_matches(ws, m),
    ensures
        matching_ids(ws, m).len() == 0,
    decreases ws.len(),
{
    if ws.len() > 0 {
        let pre = ws.drop_last();
        assert(!window_matches(ws[ws.len() - 1], m));
        assert forall|i: int| 0 <= i < pre.len() implies !window_matches(#[trigger] pre[i], m) by {
            assert(pre[i] == ws[i]);
        }
        lemma_no_match_no_ids(pre, m);
    }
}

/// Closing by the ids of the marked windows leaves no marked window.
pub proof fn lemma_close_leaves_none(ws: Seq<WindowRef>, m: Marker)
    ensures
        !any_matches(without_ids(ws, matching_ids(ws, m)), m),
{
    let ids = matching_ids(ws, m);
    let rest = without_ids(ws, ids);
    lemma_matching_ids_cover(ws, m);
    lemma_without_ids_members(ws, ids);
    assert forall|j: int| 0 <= j < rest.len() implies !window_matches(#[trigger] rest[j], m) by {
        let k = choose|k: int| 0 <= k < ws.len() && ws[k] == rest[j];
        if window_matches(rest[j], m) {
            assert(window_matches(ws[k], m));
            assert(ids.contains(ws[k].id));
        }
    }
}

/// Closing when no window carries the marker issues no close command.
pub proof fn lemma_close_when_closed(reply: Option<Vec<OutputNode>>, m: Marker)
    requires
        !any_matches(reply_windows(reply), m),
    ensures
        matching_ids(reply_windows(reply), m).len() == 0,
{
    lemma_no_match_no_ids(reply_windows(reply), m);
}

/// One open cycle from a window list without the overlay: open is chosen,
/// the launched window is then the only marked one, and the dismissal closes
/// it by id, leaving a list without the overlay again.
pub proof fn lemma_open_cycle(ws: Seq<WindowRef>, m: Marker, launched: WindowRef)
    requires
        !any_matches(ws, m),
        window_matches(launched, m),
    ensures
        transition_spec(Operation::Open, any_matches(ws, m)) == Transition::Open,
        matching_ids(ws.push(launched), m) == seq![launched.id],
        !any_matches(without_ids(ws.push(launched), matching_ids(ws.push(launched), m)), m),
{
    let ws2 = ws.push(launched);
    lemma_no_match_no_ids(ws, m);
    assert(ws2.drop_last() =~= ws);
    assert(matching_ids(ws2, m) =~= seq![launched.id]);
    lemma_close_leaves_none(ws2, m);
}

/// Two open cycles in a row, with no other change to the windows: each
/// chooses to open, at most one marked window exists at a time, and the list
/// ends without the overlay.
pub proof fn lemma_open_cycle_twice(ws: Seq<WindowRef>, m: Marker, first: WindowRef, second: WindowRef)
    requires
        !any_matches(ws, m),
        window_matches(first, m),
        window_matches(second, m),
    ensures
        transition_spec(Operation::Open, any_matches(ws, m)) == Transition::Open,
        matching_ids(ws.push(first), m).len() == 1,
        ({
            let after = without_ids(ws.push(first), matching_ids(ws.push(first), m));
            &&& transition_spec(Operation::Open, any_matches(after, m)) == Transition::Open
            &&& matching_ids(after.push(second), m).len() == 1
            &&& !any_matches(without_ids(after.push(second), matching_ids(after.push(second), m)), m)
        }),
{
    lemma_open_cycle(ws, m, first);
    let after = without_ids(ws.push(first), matching_ids(ws.push(first), m));
    lemma_open_cycle(after, m, second);
}

/// Two toggles starting with no overlay: the first opens; once the launched
/// window (which carries the marker) is present, the second closes, and the
/// close commands it issues leave no overlay window.
pub proof fn lemma_toggle_twice(ws: Seq<WindowRef>, m: Marker, launched: WindowRef)
    requires
        !any_matches(ws, m),
        window_matches(launched, m),
    ensures
        transition_spec(Operation::Toggle, any_matches(ws, m)) == Transition::Open,
        any_matches(ws.push(launched), m),
        transition_spec(Operation::Toggle, any_matches(ws.push(launched), m)) == Transition::Close,
        !any_matches(without_ids(ws.push(launched), matching_ids(ws.push(launched), m)), m),
{
    let ws2 = ws.push(launched);
    assert(window_matches(ws2[ws.len() as int], m));
    lemma_close_leaves_none(ws2, m);
}

} // verus!
