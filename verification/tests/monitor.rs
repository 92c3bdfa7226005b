use frob::monitor::cycle::{
    find_next_workspace, get_workspaces, reverse, sort_by_position, switch_to_workspace, Args,
    Rect, Workspace,
};
use frob::monitor::{cycle, run, Cli};

fn workspace(name: &str, visible: bool, focused: bool, x: u32, y: u32) -> Workspace {
    Workspace { name: name.to_string(), visible, focused, rect: Rect { x, y } }
}

fn names(workspaces: &[Workspace]) -> Vec<&str> {
    workspaces.iter().map(|workspace| workspace.name.as_str()).collect()
}

fn next_name(workspaces: &[Workspace]) -> Option<&str> {
    find_next_workspace(workspaces).map(|workspace| workspace.name.as_str())
}

fn three_visible() -> Vec<Workspace> {
    vec![
        workspace("A", true, true, 0, 0),
        workspace("B", true, false, 1920, 0),
        workspace("C", true, false, 3840, 0),
    ]
}

#[test]
fn focus_moves_to_the_next_visible_workspace() {
    assert_eq!(next_name(&three_visible()), Some("B"));
}

#[test]
fn focus_skips_a_hidden_workspace() {
    let workspaces = vec![
        workspace("A", true, true, 0, 0),
        workspace("B", false, false, 0, 0),
        workspace("C", true, false, 1920, 0),
    ];
    assert_eq!(next_name(&workspaces), Some("C"));
}

#[test]
fn focus_stays_with_the_only_visible_workspace() {
    assert_eq!(next_name(&[workspace("A", true, true, 0, 0)]), None);
    let workspaces = vec![
        workspace("A", true, true, 0, 0),
        workspace("B", false, false, 0, 0),
        workspace("C", false, false, 0, 0),
    ];
    assert_eq!(next_name(&workspaces), None);
}

#[test]
fn focus_goes_from_the_last_workspace_to_the_first() {
    let workspaces = vec![
        workspace("A", true, false, 0, 0),
        workspace("B", true, false, 1920, 0),
        workspace("C", true, true, 3840, 0),
    ];
    assert_eq!(next_name(&workspaces), Some("A"));
}

#[test]
fn focus_goes_from_the_last_workspace_to_the_first_that_is_visible() {
    let workspaces = vec![
        workspace("A", false, false, 0, 0),
        workspace("B", true, false, 0, 0),
        workspace("C", true, true, 1920, 0),
        workspace("D", false, false, 1920, 0),
    ];
    assert_eq!(next_name(&workspaces), Some("B"));
}

#[test]
fn focus_stays_where_no_workspace_has_it() {
    let workspaces = vec![
        workspace("A", true, false, 0, 0),
        workspace("B", true, false, 1920, 0),
    ];
    assert_eq!(next_name(&workspaces), None);
}

#[test]
fn focus_stays_where_only_a_hidden_workspace_has_it() {
    let workspaces = vec![
        workspace("A", true, false, 0, 0),
        workspace("B", false, true, 0, 0),
        workspace("C", true, false, 1920, 0),
    ];
    assert_eq!(next_name(&workspaces), None);
}

#[test]
fn focus_stays_where_there_is_no_workspace() {
    assert_eq!(next_name(&[]), None);
}

#[test]
fn the_first_workspace_with_the_focus_counts() {
    let workspaces = vec![
        workspace("A", true, false, 0, 0),
        workspace("B", true, true, 1920, 0),
        workspace("C", true, true, 3840, 0),
        workspace("D", true, false, 5760, 0),
    ];
    assert_eq!(next_name(&workspaces), Some("C"));
}

#[test]
fn workspaces_are_sorted_by_row_and_then_by_column() {
    let mut workspaces = vec![
        workspace("lower right", true, false, 1920, 1080),
        workspace("upper right", true, false, 1920, 0),
        workspace("lower left", true, false, 0, 1080),
        workspace("upper left", true, false, 0, 0),
    ];
    sort_by_position(&mut workspaces);
    assert_eq!(names(&workspaces), vec!["upper left", "upper right", "lower left", "lower right"]);
}

#[test]
fn workspaces_at_one_place_keep_their_order() {
    let mut workspaces = vec![
        workspace("3", false, false, 1920, 0),
        workspace("1", true, false, 0, 0),
        workspace("4", true, false, 1920, 0),
        workspace("2", false, false, 0, 0),
        workspace("5", false, false, 1920, 0),
    ];
    sort_by_position(&mut workspaces);
    assert_eq!(names(&workspaces), vec!["1", "2", "3", "4", "5"]);
}

#[test]
fn sorting_nothing_gives_nothing() {
    let mut workspaces: Vec<Workspace> = Vec::new();
    sort_by_position(&mut workspaces);
    assert!(workspaces.is_empty());
}

#[test]
fn sorting_agrees_with_the_standard_library() {
    let mut seed: u32 = 12345;
    for length in 0..40usize {
        let mut workspaces = Vec::new();
        for index in 0..length {
            seed = seed.wrapping_mul(1664525).wrapping_add(1013904223);
            let x = (seed >> 16) % 3;
            let y = (seed >> 24) % 3;
            workspaces.push(workspace(&format!("{}", index), true, false, x, y));
        }
        let mut expected = workspaces.clone();
        expected.sort_by_key(|workspace| (workspace.rect.y, workspace.rect.x));
        sort_by_position(&mut workspaces);
        assert_eq!(names(&workspaces), names(&expected));
    }
}

#[test]
fn the_order_is_turned_round() {
    let mut workspaces = three_visible();
    reverse(&mut workspaces);
    assert_eq!(names(&workspaces), vec!["C", "B", "A"]);
    let mut none: Vec<Workspace> = Vec::new();
    reverse(&mut none);
    assert!(none.is_empty());
}

#[test]
fn cycling_plans_the_switch_to_the_next_workspace() {
    let args = Args { reverse: false, attempts: 1 };
    let plan = cycle::run(&args, three_visible()).expect("a switch");
    assert_eq!(plan.workspace.name, "B");
    assert_eq!(plan.attempts, 1);
}

#[test]
fn cycling_in_reverse_walks_the_other_way() {
    let args = Args { reverse: true, attempts: 1 };
    let plan = cycle::run(&args, three_visible()).expect("a switch");
    assert_eq!(plan.workspace.name, "C");
    let workspaces = vec![
        workspace("A", true, false, 0, 0),
        workspace("B", true, true, 1920, 0),
        workspace("C", true, false, 3840, 0),
    ];
    let plan = cycle::run(&args, workspaces).expect("a switch");
    assert_eq!(plan.workspace.name, "A");
}

#[test]
fn cycling_sorts_the_workspaces_first() {
    let workspaces = vec![
        workspace("C", true, false, 3840, 0),
        workspace("A", true, true, 0, 0),
        workspace("below", true, false, 0, 1080),
        workspace("B", true, false, 1920, 0),
    ];
    let forward = cycle::run(&Args { reverse: false, attempts: 1 }, workspaces.clone());
    assert_eq!(forward.expect("a switch").workspace.name, "B");
    let backward = cycle::run(&Args { reverse: true, attempts: 1 }, workspaces);
    assert_eq!(backward.expect("a switch").workspace.name, "below");
}

#[test]
fn cycling_keeps_the_number_of_attempts() {
    let plan = cycle::run(&Args { reverse: false, attempts: 3 }, three_visible());
    assert_eq!(plan.expect("a switch").attempts, 3);
    let plan = cycle::run(&Args { reverse: false, attempts: 0 }, three_visible());
    assert_eq!(plan.expect("a switch").attempts, 0);
}

#[test]
fn cycling_plans_nothing_where_the_focus_stays() {
    let args = Args { reverse: false, attempts: 1 };
    assert!(cycle::run(&args, Vec::new()).is_none());
    assert!(cycle::run(&args, vec![workspace("A", true, true, 0, 0)]).is_none());
    let unfocused = vec![workspace("A", true, false, 0, 0), workspace("B", true, false, 1, 0)];
    assert!(cycle::run(&args, unfocused).is_none());
}

#[test]
fn the_planned_workspace_is_handed_over_whole() {
    let workspaces = vec![
        workspace("A", true, true, 0, 0),
        workspace("2:web", true, false, 1920, 1080),
    ];
    let plan = cycle::run(&Args { reverse: false, attempts: 1 }, workspaces).expect("a switch");
    assert_eq!(plan.workspace.name, "2:web");
    assert!(plan.workspace.visible);
    assert!(!plan.workspace.focused);
    assert_eq!(plan.workspace.rect, Rect { x: 1920, y: 1080 });
}

#[test]
fn the_monitor_command_cycles() {
    let plan = run(&Cli::Cycle(Args { reverse: false, attempts: 2 }), three_visible());
    let plan = plan.expect("a switch");
    assert_eq!(plan.workspace.name, "B");
    assert_eq!(plan.attempts, 2);
    let plan = run(&Cli::Cycle(Args { reverse: true, attempts: 2 }), three_visible());
    assert_eq!(plan.expect("a switch").workspace.name, "C");
}

#[test]
fn the_workspaces_are_asked_of_the_window_manager() {
    let call = get_workspaces();
    assert_eq!(call.program, "i3-msg");
    assert_eq!(call.args, vec!["-t", "get_workspaces"]);
}

#[test]
fn a_switch_is_asked_of_the_window_manager() {
    let call = switch_to_workspace(&workspace("2:web", true, false, 0, 0));
    assert_eq!(call.program, "i3-msg");
    assert_eq!(call.args, vec!["-t", "command", "workspace", "2:web"]);
}
