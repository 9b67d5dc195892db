use dropdown::text::{decimal_text, natural_text};
use dropdown::commands::{
    kill_id_command, launch_command, pointer_warp_setting, rule_command, selector,
    warp_command, warp_setting_from_capture,
};
use dropdown::controller::{
    close_plan, decide, open_plan, FocusWatcher, Operation, OverlayConfig, Transition, WatchAction, WatchEvent,
};
use dropdown::error::AppError;
use dropdown::geometry::{
    active_output, compute_dimensions, parse_size, resolve, scale_extent, Dimensions, Fraction, OutputInfo, Size,
};
use dropdown::windows::{
    all_windows, matches_marker, overlay_ids, query_overlay_exists, Marker, MarkerKind, OutputNode, Tab, WindowRef,
};

fn frac(num: i64, den: u32) -> Fraction {
    Fraction { num, den }
}

fn app_marker() -> Marker {
    Marker { kind: MarkerKind::AppId, value: "dropdown".to_string() }
}

fn title_marker() -> Marker {
    Marker { kind: MarkerKind::Title, value: "dropdown".to_string() }
}

fn win(id: i64, title: Option<&str>, app_id: Option<&str>) -> WindowRef {
    WindowRef { id, title: title.map(|s| s.to_string()), app_id: app_id.map(|s| s.to_string()) }
}

fn tree(outputs: Vec<Vec<Vec<WindowRef>>>) -> Vec<OutputNode> {
    outputs
        .into_iter()
        .map(|tabs| OutputNode { tabs: tabs.into_iter().map(|windows| Tab { windows }).collect() })
        .collect()
}

fn screen(active: bool, width: i32, height: i32) -> OutputInfo {
    OutputInfo { active, width, height }
}

fn config(width: Option<Size>, height: Option<Size>, command: Vec<String>) -> OverlayConfig {
    OverlayConfig {
        marker: app_marker(),
        width,
        height,
        default_width: frac(3, 10),
        default_height: frac(4, 10),
        grant_focus: true,
        command,
        shell: Some("/bin/zsh".to_string()),
        home: Some("/home/u".to_string()),
    }
}

#[test]
fn resolve_pixels_verbatim() {
    assert_eq!(resolve(&Some(Size::Px(800)), 1920, frac(3, 10)), 800);
    assert_eq!(resolve(&Some(Size::Px(5000)), 100, frac(1, 2)), 5000);
    assert_eq!(resolve(&Some(Size::Px(u32::MAX)), 0, frac(1, 1)), u32::MAX as i64);
}

#[test]
fn resolve_fraction_rounds() {
    assert_eq!(resolve(&Some(Size::Fr(frac(3, 10))), 1920, frac(1, 1)), 576);
    assert_eq!(resolve(&Some(Size::Fr(frac(1, 2))), 3, frac(1, 1)), 2);
    assert_eq!(resolve(&Some(Size::Fr(frac(1, 3))), 100, frac(1, 1)), 33);
    assert_eq!(resolve(&Some(Size::Fr(frac(1, 1))), 1080, frac(1, 2)), 1080);
    assert_eq!(scale_extent(-3, frac(1, 2)), -2);
    assert_eq!(scale_extent(i32::MIN, frac(u32::MAX as i64, 1)), i32::MIN as i64 * u32::MAX as i64);
    assert_eq!(resolve(&Some(Size::Fr(frac(-5, 1))), 100, frac(1, 1)), -500);
    assert_eq!(scale_extent(3, frac(-1, 2)), -2);
    assert_eq!(scale_extent(-3, frac(-1, 2)), 2);
}

#[test]
fn resolve_default_fraction() {
    assert_eq!(resolve(&None, 1920, frac(3, 10)), 576);
    assert_eq!(resolve(&None, 1080, frac(4, 10)), 432);
    assert_eq!(resolve(&None, 1920, frac(2, 10)), 384);
    assert_eq!(resolve(&None, 0, frac(4, 10)), 0);
}

#[test]
fn dimensions_on_full_hd() {
    let outs = vec![screen(true, 1920, 1080)];
    let d = compute_dimensions(&outs, &None, &None, frac(3, 10), frac(4, 10)).unwrap();
    assert_eq!(d, Dimensions { width: 576, height: 432 });
    let d = compute_dimensions(&outs, &Some(Size::Px(800)), &None, frac(3, 10), frac(4, 10)).unwrap();
    assert_eq!(d, Dimensions { width: 800, height: 432 });
}

#[test]
fn dimensions_first_active_output_wins() {
    let outs = vec![screen(false, 800, 600), screen(true, 1000, 500), screen(true, 1920, 1080)];
    assert_eq!(active_output(&outs), Some(1));
    let d = compute_dimensions(&outs, &None, &None, frac(1, 2), frac(1, 2)).unwrap();
    assert_eq!(d, Dimensions { width: 500, height: 250 });
}

#[test]
fn dimensions_without_active_output() {
    let outs = vec![screen(false, 1920, 1080)];
    assert_eq!(active_output(&outs), None);
    let r = compute_dimensions(&outs, &None, &None, frac(3, 10), frac(4, 10));
    assert!(matches!(r, Err(AppError::NoActiveOutput)));
    let r = compute_dimensions(&Vec::new(), &None, &None, frac(3, 10), frac(4, 10));
    assert!(matches!(r, Err(AppError::NoActiveOutput)));
}

#[test]
fn parse_sizes() {
    assert_eq!(parse_size("800"), Some(Size::Px(800)));
    assert_eq!(parse_size("0"), Some(Size::Px(0)));
    assert_eq!(parse_size("4294967295"), Some(Size::Px(u32::MAX)));
    assert_eq!(parse_size("0.3"), Some(Size::Fr(frac(3, 10))));
    assert_eq!(parse_size(".5"), Some(Size::Fr(frac(5, 10))));
    assert_eq!(parse_size("1."), Some(Size::Fr(frac(1, 1))));
    assert_eq!(parse_size("0.123456789"), Some(Size::Fr(frac(123456789, 1_000_000_000))));
    assert_eq!(parse_size("2.5"), Some(Size::Fr(frac(25, 10))));
    assert_eq!(parse_size("-5"), Some(Size::Fr(frac(-5, 1))));
    assert_eq!(parse_size("-0.5"), Some(Size::Fr(frac(-5, 10))));
    assert_eq!(parse_size("+7"), Some(Size::Px(7)));
    assert_eq!(parse_size("+0.25"), Some(Size::Fr(frac(25, 100))));
}

#[test]
fn parse_sizes_refused() {
    assert_eq!(parse_size(""), None);
    assert_eq!(parse_size("."), None);
    assert_eq!(parse_size("abc"), None);
    assert_eq!(parse_size("1.2.3"), None);
    assert_eq!(parse_size("-"), None);
    assert_eq!(parse_size("+-1"), None);
    assert_eq!(parse_size("--5"), None);
    assert_eq!(parse_size("4294967296"), None);
    assert_eq!(parse_size("0.1234567891"), None);
}

#[test]
fn flatten_keeps_order() {
    let t = tree(vec![
        vec![vec![win(1, None, Some("a")), win(2, None, Some("b"))], vec![]],
        vec![],
        vec![vec![win(3, Some("t"), None)]],
    ]);
    let ids: Vec<i64> = all_windows(&t).iter().map(|w| w.id).collect();
    assert_eq!(ids, vec![1, 2, 3]);
}

#[test]
fn overlay_exists_on_empty_reply() {
    assert!(!query_overlay_exists(&None, &app_marker()));
    assert!(!query_overlay_exists(&Some(Vec::new()), &app_marker()));
}

#[test]
fn overlay_exists_only_with_marker() {
    let none = tree(vec![vec![vec![win(1, Some("dropdown"), Some("foot")), win(2, None, None)]]]);
    assert!(!query_overlay_exists(&Some(none), &app_marker()));
    let some = tree(vec![
        vec![vec![win(1, None, Some("foot")), win(2, None, None)]],
        vec![vec![win(3, None, Some("x"))], vec![win(4, None, Some("dropdown"))]],
    ]);
    assert!(query_overlay_exists(&Some(some), &app_marker()));
}

#[test]
fn overlay_exists_by_title() {
    let t = tree(vec![vec![vec![win(7, Some("dropdown"), None)]]]);
    assert!(query_overlay_exists(&Some(t), &title_marker()));
    let t = tree(vec![vec![vec![win(7, None, Some("dropdown"))]]]);
    assert!(!query_overlay_exists(&Some(t), &title_marker()));
    assert!(matches_marker(&win(1, Some("dropdown"), None), &title_marker()));
    assert!(!matches_marker(&win(1, Some("dropdownx"), None), &title_marker()));
}

#[test]
fn close_targets_every_marked_window() {
    let t = tree(vec![vec![vec![win(5, None, Some("dropdown")), win(6, None, Some("foot"))], vec![win(9, None, Some("dropdown"))]]]);
    let reply = Some(t);
    assert_eq!(overlay_ids(&reply, &app_marker()), vec![5, 9]);
    assert_eq!(close_plan(&reply, &app_marker()), vec!["[con_id=5] kill".to_string(), "[con_id=9] kill".to_string()]);
}

#[test]
fn close_when_closed_issues_nothing() {
    assert!(close_plan(&None, &app_marker()).is_empty());
    let t = tree(vec![vec![vec![win(6, None, Some("foot"))]]]);
    assert!(close_plan(&Some(t), &app_marker()).is_empty());
}

#[test]
fn toggle_decisions() {
    assert_eq!(decide(Operation::Toggle, false), Transition::Open);
    assert_eq!(decide(Operation::Toggle, true), Transition::Close);
    assert_eq!(decide(Operation::Open, false), Transition::Open);
    assert_eq!(decide(Operation::Open, true), Transition::Nothing);
    assert_eq!(decide(Operation::Close, false), Transition::Close);
    assert_eq!(decide(Operation::Close, true), Transition::Close);
}

#[test]
fn toggle_twice_ends_closed() {
    let m = app_marker();
    let mut windows = vec![win(1, None, Some("foot"))];
    let reply = Some(tree(vec![vec![windows.iter().map(|w| w.duplicate()).collect()]]));
    assert_eq!(decide(Operation::Toggle, query_overlay_exists(&reply, &m)), Transition::Open);
    windows.push(win(2, None, Some("dropdown")));
    let reply = Some(tree(vec![vec![windows.iter().map(|w| w.duplicate()).collect()]]));
    assert_eq!(decide(Operation::Toggle, query_overlay_exists(&reply, &m)), Transition::Close);
    let kills = close_plan(&reply, &m);
    assert_eq!(kills, vec!["[con_id=2] kill".to_string()]);
    windows.retain(|w| w.id != 2);
    let reply = Some(tree(vec![vec![windows]]));
    assert!(!query_overlay_exists(&reply, &m));
}

#[test]
fn open_plan_commands() {
    let outs = vec![screen(true, 1920, 1080)];
    let cmds = open_plan(&config(None, None, Vec::new()), "container", &outs).unwrap();
    assert_eq!(
        cmds,
        vec![
            "mouse_warping none".to_string(),
            "for_window [app_id=\"dropdown\"] floating enable, resize set 576 432, move position cursor, move down 35, focus"
                .to_string(),
            "exec kitty --class dropdown --directory /home/u -- /bin/zsh".to_string(),
            "mouse_warping container".to_string(),
        ]
    );
}

#[test]
fn open_plan_with_width_and_command() {
    let outs = vec![screen(true, 1920, 1080)];
    let args = vec!["htop".to_string(), "-d".to_string(), "it's here".to_string()];
    let cmds = open_plan(&config(Some(Size::Px(800)), None, args), "none", &outs).unwrap();
    assert_eq!(
        cmds[1],
        "for_window [app_id=\"dropdown\"] floating enable, resize set 800 432, move position cursor, move down 35, focus"
    );
    assert_eq!(cmds[2], "exec kitty --class dropdown --directory /home/u -- htop -d 'it'\\''s here'");
}

#[test]
fn open_without_active_output_issues_nothing() {
    let outs = vec![screen(false, 1920, 1080)];
    let r = open_plan(&config(None, None, Vec::new()), "none", &outs);
    assert!(matches!(r, Err(AppError::NoActiveOutput)));
    let r = open_plan(&config(None, None, Vec::new()), "none", &Vec::new());
    assert!(matches!(r, Err(AppError::NoActiveOutput)));
}

#[test]
fn command_vocabulary() {
    assert_eq!(selector(&app_marker()), "[app_id=\"dropdown\"]");
    assert_eq!(selector(&title_marker()), "[title=\"dropdown\"]");
    assert_eq!(kill_id_command(42), "[con_id=42] kill");
    assert_eq!(kill_id_command(-7), "[con_id=-7] kill");
    assert_eq!(warp_command("output"), "mouse_warping output");
    let rule = rule_command(&title_marker(), Dimensions { width: 10, height: 0 }, false);
    assert_eq!(rule, "for_window [title=\"dropdown\"] floating enable, resize set 10 0, move position cursor, move down 35");
}

#[test]
fn launch_quotes_arguments() {
    let args = vec![String::new(), "a b".to_string(), "x!".to_string(), "ok-1.2/_=,+".to_string()];
    assert_eq!(
        launch_command(&title_marker(), &"/home/my dir".to_string(), &args),
        "exec kitty --title dropdown --directory '/home/my dir' -- '' 'a b' 'x'\\!'' ok-1.2/_=,+"
    );
}

#[test]
fn warp_setting_read_from_config() {
    let cfg = Some("font pango:mono 10\nmouse_warping   output\nfocus_follows_mouse no\n".to_string());
    assert_eq!(pointer_warp_setting(&cfg), "output");
    assert_eq!(pointer_warp_setting(&Some("bindsym $mod+d exec dmenu".to_string())), "none");
    assert_eq!(pointer_warp_setting(&None), "none");
    assert_eq!(warp_setting_from_capture(Some("container".to_string())), "container");
    assert_eq!(warp_setting_from_capture(None), "none");
}

#[test]
fn watcher_closes_on_foreign_focus() {
    let mut w = FocusWatcher::new(app_marker());
    let a = w.on_event(WatchEvent::Focus { title: Some("x".to_string()), app_id: Some("dropdown".to_string()) });
    assert!(matches!(a, WatchAction::Continue));
    assert!(matches!(w.on_event(WatchEvent::Other), WatchAction::Continue));
    let a = w.on_event(WatchEvent::Focus { title: None, app_id: Some("firefox".to_string()) });
    assert!(matches!(a, WatchAction::Dismiss));
    let a = w.on_event(WatchEvent::Focus { title: None, app_id: Some("firefox".to_string()) });
    assert!(matches!(a, WatchAction::Stop));
}

#[test]
fn watcher_focus_without_app_id_closes() {
    let mut w = FocusWatcher::new(app_marker());
    let a = w.on_event(WatchEvent::Focus { title: Some("dropdown".to_string()), app_id: None });
    assert!(matches!(a, WatchAction::Dismiss));
}

#[test]
fn watcher_stops_on_error_end_and_cancel() {
    let mut w = FocusWatcher::new(app_marker());
    match w.on_event(WatchEvent::Malformed("bad frame".to_string())) {
        WatchAction::Fail(AppError::Transport(t)) => assert_eq!(t, "bad frame"),
        other => panic!("expected a transport failure, got {:?}", other),
    }
    assert!(matches!(w.on_event(WatchEvent::Other), WatchAction::Stop));
    let mut w = FocusWatcher::new(app_marker());
    assert!(matches!(w.on_event(WatchEvent::Ended), WatchAction::Stop));
    let mut w = FocusWatcher::new(title_marker());
    assert!(matches!(w.on_event(WatchEvent::Cancelled), WatchAction::Stop));
    assert!(w.done);
}

#[test]
fn open_plan_needs_home_and_shell() {
    let outs = vec![screen(true, 1920, 1080)];
    let mut c = config(None, None, Vec::new());
    c.shell = None;
    match open_plan(&c, "none", &outs) {
        Err(AppError::EnvironmentMissing(v)) => assert_eq!(v, "SHELL"),
        other => panic!("expected a missing shell, got {:?}", other),
    }
    let mut c = config(None, None, vec!["htop".to_string()]);
    c.shell = None;
    assert!(open_plan(&c, "none", &outs).is_ok());
    c.home = None;
    match open_plan(&c, "none", &outs) {
        Err(AppError::EnvironmentMissing(v)) => assert_eq!(v, "HOME"),
        other => panic!("expected a missing home, got {:?}", other),
    }
    assert!(matches!(open_plan(&c, "none", &Vec::new()), Err(AppError::NoActiveOutput)));
}

#[test]
fn decimal_rendering() {
    assert_eq!(natural_text(0), "0");
    assert_eq!(natural_text(1907), "1907");
    assert_eq!(natural_text(u64::MAX), u64::MAX.to_string());
    assert_eq!(decimal_text(-42), "-42");
    assert_eq!(decimal_text(i64::MIN), i64::MIN.to_string());
    assert_eq!(decimal_text(i64::MAX), i64::MAX.to_string());
}
