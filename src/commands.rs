//! The text commands sent to the window manager.
use vstd::prelude::*;
use crate::geometry::Dimensions;
use crate::text::{capture_group1, decimal_of, decimal_text, regex_group1, shell_quote, shell_word};
use crate::windows::{Marker, MarkerKind};

verus! {

/// Criteria that select the windows carrying the marker.
pub open spec fn selector_spec(m: Marker) -> Seq<char> {
    match m.kind {
        MarkerKind::Title => "[title=\""@ + m.value@ + "\"]"@,
        MarkerKind::AppId => "[app_id=\""@ + m.value@ + "\"]"@,
    }
}

pub fn selector(m: &Marker) -> (r: String)
    ensures
        r@ == selector_spec(*m),
{
    let mut s = match m.kind {
        MarkerKind::Title => String::from_str("[title=\""),
        MarkerKind::AppId => String::from_str("[app_id=\""),
    };
    s.append(m.value.as_str());
    s.append("\"]");
    s
}

/// Window rule for the overlay: floating, sized, placed at the cursor and
/// nudged down by 35, and focused when `grant_focus` holds.
pub open spec fn rule_spec(m: Marker, d: Dimensions, grant_focus: bool) -> Seq<char> {
    "for_window "@ + selector_spec(m) + " floating enable, resize set "@ + decimal_of(d.width as int) + " "@
        + decimal_of(d.height as int) + ", move position cursor, move down 35"@ + if grant_focus {
        ", focus"@
    } else {
        ""@
    }
}

pub fn rule_command(m: &Marker, d: Dimensions, grant_focus: bool) -> (r: String)
    ensures
        r@ == rule_spec(*m, d, grant_focus),
{
    let mut s = String::from_str("for_window ");
    let sel = selector(m);
    s.append(sel.as_str());
    s.append(" floating enable, resize set ");
    let w = decimal_text(d.width);
    s.append(w.as_str());
    s.append(" ");
    let h = decimal_text(d.height);
    s.append(h.as_str());
    s.append(", move position cursor, move down 35");
    if grant_focus {
        s.append(", focus");
    } else {
        s.append("");
    }
    s
}

/// Arguments, each shell-quoted and preceded by a space.
pub open spec fn quoted_args(args: Seq<String>) -> Seq<char>
    decreases args.len(),
{
    if args.len() == 0 {
        Seq::empty()
    } else {
        quoted_args(args.drop_last()) + " "@ + shell_word(args.last()@)
    }
}

/// Launch of the terminal, tagged with the marker, in directory `home`,
/// running `args`.
pub open spec fn launch_spec(m: Marker, home: Seq<char>, args: Seq<String>) -> Seq<char> {
    match m.kind {
        MarkerKind::Title => "exec kitty --title "@ + m.value@ + " --directory "@ + shell_word(home) + " --"@
            + quoted_args(args),
        MarkerKind::AppId => "exec kitty --class "@ + m.value@ + " --directory "@ + shell_word(home) + " --"@
            + quoted_args(args),
    }
}

pub fn launch_command(m: &Marker, home: &String, args: &Vec<String>) -> (r: String)
    ensures
        r@ == launch_spec(*m, home@, args@),
{
    let mut s = match m.kind {
        MarkerKind::Title => String::from_str("exec kitty --title "),
        MarkerKind::AppId => String::from_str("exec kitty --class "),
    };
    s.append(m.value.as_str());
    s.append(" --directory ");
    let h = shell_quote(home);
    s.append(h.as_str());
    s.append(" --");
    let ghost head = s@;
    let mut i: usize = 0;
    while i < args.len()
        invariant
            i <= args@.len(),
            s@ == head + quoted_args(args@.take(i as int)),
        decreases args.len() - i,
    {
        s.append(" ");
        let q = shell_quote(&args[i]);
        s.append(q.as_str());
        assert(args@.take(i + 1).drop_last() =~= args@.take(i as int));
        i += 1;
    }
    assert(args@.take(i as int) =~= args@);
    s
}

pub open spec fn kill_id_spec(id: i64) -> Seq<char> {
    "[con_id="@ + decimal_of(id as int) + "] kill"@
}

/// Closes the window with the given numeric id.
pub fn kill_id_command(id: i64) -> (r: String)
    ensures
        r@ == kill_id_spec(id),
{
    let mut s = String::from_str("[con_id=");
    let n = decimal_text(id);
    s.append(n.as_str());
    s.append("] kill");
    s
}

pub open spec fn warp_spec(setting: Seq<char>) -> Seq<char> {
    "mouse_warping "@ + setting
}

/// Sets the pointer-warp configuration value.
pub fn warp_command(setting: &str) -> (r: String)
    ensures
        r@ == warp_spec(setting@),
{
    let mut s = String::from_str("mouse_warping ");
    s.append(setting);
    s
}

/// The pattern that finds the pointer-warp value in the configuration text.
pub open spec fn warp_pattern() -> Seq<char> {
    "mouse_warping\\s+(\\w+)"@
}

/// The saved pointer-warp value: the captured word, or `none` when nothing
/// was captured.
pub fn warp_setting_from_capture(capture: Option<String>) -> (r: String)
    ensures
        r@ == match capture {
            Some(s) => s@,
            None => "none"@,
        },
{
    match capture {
        Some(s) => s,
        None => String::from_str("none"),
    }
}

pub open spec fn warp_setting_spec(config: Option<String>) -> Seq<char> {
    match config {
        None => "none"@,
        Some(c) => match regex_group1(warp_pattern(), c@) {
            Some(s) => s,
            None => "none"@,
        },
    }
}

/// The pointer-warp value read from the live configuration text; `none` when
/// the configuration could not be read (`None`) or names no value.
pub fn pointer_warp_setting(config: &Option<String>) -> (r: String)
    ensures
        r@ == warp_setting_spec(*config),
{
    match config {
        None => String::from_str("none"),
        Some(c) => {
            let cap = capture_group1("mouse_warping\\s+(\\w+)", c.as_str());
            warp_setting_from_capture(cap)
        },
    }
}

} // verus!
