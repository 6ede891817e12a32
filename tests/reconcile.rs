use i3_wk::model::{Action, Output, Rect, ReconcileError, Workspace};
use i3_wk::reconcile::{find_candidate, find_focused, find_showing, reconcile};

fn rect() -> Rect {
    Rect { x: 0, y: 0, width: 1920, height: 1080 }
}

fn output(name: &str, current: Option<&str>) -> Output {
    Output {
        name: name.to_string(),
        active: true,
        primary: false,
        rect: rect(),
        current_workspace: current.map(|c| c.to_string()),
    }
}

fn workspace(num: u32, name: &str, output: &str, focused: bool, visible: bool) -> Workspace {
    Workspace {
        num,
        name: name.to_string(),
        visible,
        focused,
        rect: rect(),
        output: output.to_string(),
        urgent: false,
    }
}

fn two_outputs() -> Vec<Output> {
    vec![output("HDMI-1", Some("1")), output("eDP-1", Some("2"))]
}

fn two_workspaces() -> Vec<Workspace> {
    vec![
        workspace(1, "1", "HDMI-1", true, true),
        workspace(2, "2", "eDP-1", false, true),
    ]
}

fn focus(n: &str) -> Action {
    Action::Focus(n.to_string())
}

fn move_to(o: &str) -> Action {
    Action::MoveFocusedTo(o.to_string())
}

#[test]
fn swap_visible_workspace_from_other_output() {
    let r = reconcile(&two_outputs(), &two_workspaces(), &"2".to_string());
    assert_eq!(r, Ok(vec![move_to("eDP-1"), focus("2"), move_to("HDMI-1"), focus("2")]));
}

#[test]
fn move_hidden_workspace_from_other_output() {
    let mut ws = two_workspaces();
    ws.push(workspace(3, "3", "eDP-1", false, false));
    let r = reconcile(&two_outputs(), &ws, &"3".to_string());
    assert_eq!(r, Ok(vec![focus("3"), move_to("HDMI-1"), focus("3")]));
}

#[test]
fn focused_target_is_no_op() {
    let r = reconcile(&two_outputs(), &two_workspaces(), &"1".to_string());
    assert_eq!(r, Ok(vec![]));
}

#[test]
fn absent_target_is_plain_focus() {
    let r = reconcile(&two_outputs(), &two_workspaces(), &"9".to_string());
    assert_eq!(r, Ok(vec![focus("9")]));
}

#[test]
fn no_focused_workspace_is_precondition_violation() {
    let ws = vec![
        workspace(1, "1", "HDMI-1", false, true),
        workspace(2, "2", "eDP-1", false, true),
    ];
    let r = reconcile(&two_outputs(), &ws, &"2".to_string());
    assert_eq!(r, Err(ReconcileError::PreconditionViolation));
}

#[test]
fn two_focused_workspaces_is_precondition_violation() {
    let ws = vec![
        workspace(1, "1", "HDMI-1", true, true),
        workspace(2, "2", "eDP-1", true, true),
    ];
    let r = reconcile(&two_outputs(), &ws, &"2".to_string());
    assert_eq!(r, Err(ReconcileError::PreconditionViolation));
}

#[test]
fn empty_snapshot_is_precondition_violation() {
    let r = reconcile(&vec![], &vec![], &"1".to_string());
    assert_eq!(r, Err(ReconcileError::PreconditionViolation));
}

#[test]
fn visible_target_without_showing_output_is_lookup_failure() {
    let outputs = vec![output("HDMI-1", Some("1")), output("eDP-1", None)];
    let r = reconcile(&outputs, &two_workspaces(), &"2".to_string());
    assert_eq!(r, Err(ReconcileError::LookupFailure));
}

#[test]
fn target_on_active_output_is_plain_focus() {
    let mut ws = two_workspaces();
    ws.push(workspace(4, "4", "HDMI-1", false, false));
    let r = reconcile(&two_outputs(), &ws, &"4".to_string());
    assert_eq!(r, Ok(vec![focus("4")]));
}

#[test]
fn first_matching_workspace_decides() {
    let mut ws = two_workspaces();
    ws.push(workspace(5, "2", "DP-2", false, false));
    let r = reconcile(&two_outputs(), &ws, &"2".to_string());
    assert_eq!(r, Ok(vec![move_to("eDP-1"), focus("2"), move_to("HDMI-1"), focus("2")]));
}

#[test]
fn focused_workspace_need_not_come_first() {
    let ws = vec![
        workspace(2, "2", "eDP-1", false, true),
        workspace(3, "3", "eDP-1", false, false),
        workspace(1, "1", "HDMI-1", true, true),
    ];
    let r = reconcile(&two_outputs(), &ws, &"3".to_string());
    assert_eq!(r, Ok(vec![focus("3"), move_to("HDMI-1"), focus("3")]));
}

#[test]
fn find_focused_positions() {
    assert_eq!(find_focused(&two_workspaces()), Some(0));
    let ws = vec![
        workspace(2, "2", "eDP-1", false, true),
        workspace(1, "1", "HDMI-1", true, true),
    ];
    assert_eq!(find_focused(&ws), Some(1));
    assert_eq!(find_focused(&vec![]), None);
}

#[test]
fn find_candidate_skips_active_output() {
    let mut ws = two_workspaces();
    ws.push(workspace(4, "4", "HDMI-1", false, false));
    ws.push(workspace(5, "4", "eDP-1", false, false));
    assert_eq!(find_candidate(&ws, &"4".to_string(), &"HDMI-1".to_string()), Some(3));
    assert_eq!(find_candidate(&ws, &"4".to_string(), &"eDP-1".to_string()), Some(2));
    assert_eq!(find_candidate(&ws, &"7".to_string(), &"eDP-1".to_string()), None);
}

#[test]
fn find_showing_positions() {
    let outputs = two_outputs();
    assert_eq!(find_showing(&outputs, &"2".to_string()), Some(1));
    assert_eq!(find_showing(&outputs, &"1".to_string()), Some(0));
    assert_eq!(find_showing(&outputs, &"3".to_string()), None);
}
