//! Cycling the focus through the workspaces that are visible.
//!
//! The workspaces are put in reading order: by row, then by column. The
//! focus moves from the workspace that has it to the next visible one in
//! that order, and from the last one back to the first.

use vstd::prelude::*;

verus! {

/// The program that talks to the window manager.
pub const PROGRAM: &'static str = "i3-msg";

/// Where a workspace is on the screen.
#[derive(Copy, Clone, Debug, PartialEq, Eq, Structural)]
pub struct Rect {
    pub x: u32,
    pub y: u32,
}

/// A workspace, as the window manager reports it.
#[derive(Clone, Debug)]
pub struct Workspace {
    pub name: String,
    pub visible: bool,
    pub focused: bool,
    pub rect: Rect,
}

/// How to cycle.
#[derive(Copy, Clone, Debug)]
pub struct Args {
    /// reverse cycle direction
    pub reverse: bool,
    /// number of cycle attempts (workaround for an i3 bug)
    pub attempts: usize,
}

/// A switch of the focus to a workspace.
#[derive(Clone, Debug)]
pub struct Plan {
    /// The workspace to switch to.
    pub workspace: Workspace,
    /// How many times to ask for the switch.
    pub attempts: usize,
}

/// A call of a program.
#[derive(Clone, Debug)]
pub struct Invocation {
    pub program: &'static str,
    pub args: Vec<String>,
}

impl Invocation {
    /// The arguments, as texts.
    pub open spec fn spec_args(&self) -> Seq<Seq<char>> {
        self.args@.map_values(|arg: String| arg@)
    }
}

/// Whether `a` stands before `b` in reading order, or at the same place.
pub open spec fn position_le(a: Workspace, b: Workspace) -> bool {
    a.rect.y < b.rect.y || (a.rect.y == b.rect.y && a.rect.x <= b.rect.x)
}

/// `sorted` with `workspace` put in behind every workspace that does not
/// stand after it.
pub open spec fn insert_by_position(sorted: Seq<Workspace>, workspace: Workspace) -> Seq<
    Workspace,
>
    decreases sorted.len(),
{
    if sorted.len() == 0 || position_le(sorted.last(), workspace) {
        sorted.push(workspace)
    } else {
        insert_by_position(sorted.drop_last(), workspace).push(sorted.last())
    }
}

/// The workspaces in reading order. Workspaces at the same place keep the
/// order in which they were given.
pub open spec fn sorted_by_position(workspaces: Seq<Workspace>) -> Seq<Workspace>
    decreases workspaces.len(),
{
    if workspaces.len() == 0 {
        workspaces
    } else {
        insert_by_position(sorted_by_position(workspaces.drop_last()), workspaces.last())
    }
}

/// The workspaces that are visible, in the order given.
pub open spec fn shown(workspaces: Seq<Workspace>) -> Seq<Workspace> {
    workspaces.filter(|workspace: Workspace| workspace.visible)
}

/// Whether the workspace at `at` is the first of `workspaces` that has the
/// focus.
pub open spec fn is_first_focused(workspaces: Seq<Workspace>, at: int) -> bool {
    &&& 0 <= at < workspaces.len()
    &&& workspaces[at].focused
    &&& forall|i: int| 0 <= i < at ==> !(#[trigger] workspaces[i]).focused
}

/// The workspace that gets the focus next: among the visible ones, the one
/// after the first that has the focus, and the first one after the last.
/// There is none where no visible workspace has the focus, and none where no
/// more than one is visible.
pub open spec fn next_workspace(workspaces: Seq<Workspace>) -> Option<Workspace> {
    let shown = shown(workspaces);
    if shown.len() >= 2 && exists|at: int| is_first_focused(shown, at) {
        let at = choose|at: int| is_first_focused(shown, at);
        Some(shown[(at + 1) % (shown.len() as int)])
    } else {
        None
    }
}

/// The order in which the workspaces are walked.
pub open spec fn walk_order(args: Args, workspaces: Seq<Workspace>) -> Seq<Workspace> {
    if args.reverse {
        sorted_by_position(workspaces).reverse()
    } else {
        sorted_by_position(workspaces)
    }
}

/// Whether `plan` is the switch that cycling through `workspaces` makes
/// when it is done as `args` says.
pub open spec fn is_plan_of(plan: Option<Plan>, args: Args, workspaces: Seq<Workspace>) -> bool {
    match next_workspace(walk_order(args, workspaces)) {
        Some(workspace) => plan == Some(Plan { workspace, attempts: args.attempts }),
        None => plan is None,
    }
}

/// Whether no workspace of `workspaces` stands after a later one.
pub open spec fn in_reading_order(workspaces: Seq<Workspace>) -> bool {
    forall|i: int, j: int|
        0 <= i <= j < workspaces.len() ==> position_le(
            #[trigger] workspaces[i],
            #[trigger] workspaces[j],
        )
}

/// The workspaces of `workspaces` that are at `place`, in the order given.
pub open spec fn placed_at(workspaces: Seq<Workspace>, place: Rect) -> Seq<Workspace> {
    workspaces.filter(|workspace: Workspace| workspace.rect == place)
}

/// The place at which [`insert_by_position`] puts a workspace in.
proof fn lemma_insert_place(sorted: Seq<Workspace>, workspace: Workspace) -> (at: int)
    ensures
        0 <= at <= sorted.len(),
        insert_by_position(sorted, workspace) == sorted.insert(at, workspace),
        at > 0 ==> position_le(sorted[at - 1], workspace),
        forall|i: int| at <= i < sorted.len() ==> !position_le(#[trigger] sorted[i], workspace),
    decreases sorted.len(),
{
    if sorted.len() == 0 || position_le(sorted.last(), workspace) {
        assert(sorted.push(workspace) =~= sorted.insert(sorted.len() as int, workspace));
        sorted.len() as int
    } else {
        let init = sorted.drop_last();
        let at = lemma_insert_place(init, workspace);
        assert(init.insert(at, workspace).push(sorted.last()) =~= sorted.insert(at, workspace));
        assert forall|i: int| at <= i < sorted.len() implies !position_le(
            #[trigger] sorted[i],
            workspace,
        ) by {
            if i < init.len() {
                assert(sorted[i] == init[i]);
            }
        }
        assert(at > 0 ==> sorted[at - 1] == init[at - 1]);
        at
    }
}

/// Sorting puts the workspaces in reading order.
pub proof fn lemma_sorted_in_reading_order(workspaces: Seq<Workspace>)
    ensures
        in_reading_order(sorted_by_position(workspaces)),
    decreases workspaces.len(),
{
    if workspaces.len() > 0 {
        let init = sorted_by_position(workspaces.drop_last());
        let last = workspaces.last();
        lemma_sorted_in_reading_order(workspaces.drop_last());
        let at = lemma_insert_place(init, last);
        let sorted = init.insert(at, last);
        assert forall|i: int, j: int| 0 <= i <= j < sorted.len() implies position_le(
            #[trigger] sorted[i],
            #[trigger] sorted[j],
        ) by {
            if j < at {
                assert(sorted[i] == init[i] && sorted[j] == init[j]);
            } else if j == at {
                if i < at {
                    assert(sorted[i] == init[i]);
                    assert(position_le(init[i], init[at - 1]));
                }
            } else {
                assert(sorted[j] == init[j - 1]);
                assert(!position_le(init[j - 1], last));
                if i < at {
                    assert(sorted[i] == init[i]);
                    assert(position_le(init[i], init[j - 1]));
                } else if i > at {
                    assert(sorted[i] == init[i - 1]);
                    assert(position_le(init[i - 1], init[j - 1]));
                }
            }
        }
    }
}

/// Sorting neither adds a workspace nor drops one.
pub proof fn lemma_sorted_is_permutation(workspaces: Seq<Workspace>)
    ensures
        sorted_by_position(workspaces).len() == workspaces.len(),
        sorted_by_position(workspaces).to_multiset() == workspaces.to_multiset(),
    decreases workspaces.len(),
{
    broadcast use vstd::seq_lib::group_to_multiset_ensures;

    if workspaces.len() > 0 {
        let given = workspaces.drop_last();
        let init = sorted_by_position(given);
        let last = workspaces.last();
        lemma_sorted_is_permutation(given);
        let at = lemma_insert_place(init, last);
        let sorted = init.insert(at, last);
        assert(sorted.remove(at) =~= init);
        assert(sorted[at] == last);
        assert(given.push(last) =~= workspaces);
        assert(sorted.to_multiset() =~= init.to_multiset().insert(last));
    }
}

/// Sorting leaves the workspaces that are at one place in the order in
/// which they were given.
pub proof fn lemma_sorted_is_stable(workspaces: Seq<Workspace>, place: Rect)
    ensures
        placed_at(sorted_by_position(workspaces), place) == placed_at(workspaces, place),
    decreases workspaces.len(),
{
    let here = |workspace: Workspace| workspace.rect == place;
    if workspaces.len() > 0 {
        let given = workspaces.drop_last();
        let init = sorted_by_position(given);
        let last = workspaces.last();
        lemma_sorted_is_stable(given, place);
        let at = lemma_insert_place(init, last);
        let head = init.take(at);
        let tail = init.skip(at);
        assert(init =~= head + tail);
        assert(init.insert(at, last) =~= head.push(last) + tail);
        Seq::filter_distributes_over_add(head, tail, here);
        Seq::filter_distributes_over_add(head.push(last), tail, here);
        assert(given.push(last) =~= workspaces);
        assert(head.push(last).drop_last() =~= head);
        reveal(Seq::filter);
        if last.rect == place {
            // What follows the workspace put in stands after it, so none
            // of it is at this place.
            assert forall|i: int| 0 <= i < tail.len() implies !here(#[trigger] tail[i]) by {
                assert(tail[i] == init[at + i]);
                assert(!position_le(init[at + i], last));
            }
            assert(tail.all(|workspace: Workspace| !here(workspace)));
            tail.lemma_all_neg_filter_empty(here);
            assert(tail.filter(here) =~= Seq::<Workspace>::empty());
        }
    }
}

/// Where `workspace` goes in `sorted`: behind every workspace that does not
/// stand after it.
proof fn lemma_insert_at(sorted: Seq<Workspace>, workspace: Workspace, at: int)
    requires
        0 <= at <= sorted.len(),
        at > 0 ==> position_le(sorted[at - 1], workspace),
        forall|i: int| at <= i < sorted.len() ==> !position_le(#[trigger] sorted[i], workspace),
    ensures
        insert_by_position(sorted, workspace) == sorted.insert(at, workspace),
    decreases sorted.len() - at,
{
    if at == sorted.len() {
        assert(sorted.push(workspace) =~= sorted.insert(at, workspace));
    } else {
        assert(!position_le(sorted[sorted.len() - 1], workspace));
        let init = sorted.drop_last();
        assert(at > 0 ==> init[at - 1] == sorted[at - 1]);
        assert forall|i: int| at <= i < init.len() implies !position_le(
            #[trigger] init[i],
            workspace,
        ) by {
            assert(init[i] == sorted[i]);
        }
        lemma_insert_at(init, workspace, at);
        assert(init.insert(at, workspace).push(sorted.last()) =~= sorted.insert(at, workspace));
    }
}

/// Where the first visible workspace that has the focus is known, the
/// next workspace is the visible one after it, or the first one where it is
/// the last.
pub proof fn lemma_next_after(workspaces: Seq<Workspace>, at: int)
    requires
        shown(workspaces).len() >= 2,
        is_first_focused(shown(workspaces), at),
    ensures
        next_workspace(workspaces) == Some(
            shown(workspaces)[(at + 1) % (shown(workspaces).len() as int)],
        ),
{
    let shown = shown(workspaces);
    let chosen = choose|found: int| is_first_focused(shown, found);
    if chosen < at {
        assert(!shown[chosen].focused);
    }
    if at < chosen {
        assert(!shown[at].focused);
    }
}

/// The workspace that gets the focus next is one of those given, and it is
/// visible.
pub proof fn lemma_next_is_visible(workspaces: Seq<Workspace>)
    ensures
        next_workspace(workspaces) matches Some(next) ==> next.visible && workspaces.contains(next),
{
    let visible = |workspace: Workspace| workspace.visible;
    let shown = shown(workspaces);
    if next_workspace(workspaces) is Some {
        let at = choose|found: int| is_first_focused(shown, found);
        let after = (at + 1) % (shown.len() as int);
        assert(0 <= after < shown.len()) by (nonlinear_arith)
            requires
                after == (at + 1) % (shown.len() as int),
                shown.len() > 0,
        ;
        workspaces.lemma_filter_pred(visible, after);
        assert(shown.contains(shown[after]));
        workspaces.lemma_filter_contains_rev(visible, shown[after]);
    }
}

/// Whether `a` stands before `b` in reading order, or at the same place.
fn stands_before(a: &Workspace, b: &Workspace) -> (before: bool)
    ensures
        before == position_le(*a, *b),
{
    a.rect.y < b.rect.y || (a.rect.y == b.rect.y && a.rect.x <= b.rect.x)
}

/// Puts the workspaces in reading order.
pub fn sort_by_position(workspaces: &mut Vec<Workspace>)
    ensures
        final(workspaces)@ == sorted_by_position(old(workspaces)@),
{
    let ghost given = workspaces@;
    let mut i: usize = 0;
    assert(workspaces@.take(0) =~= sorted_by_position(given.take(0)));
    while i < workspaces.len()
        invariant
            i <= workspaces@.len(),
            workspaces@.len() == given.len(),
            workspaces@.take(i as int) == sorted_by_position(given.take(i as int)),
            workspaces@.skip(i as int) == given.skip(i as int),
        decreases workspaces@.len() - i,
    {
        let ghost before = workspaces@;
        let ghost head = before.take(i as int);
        let workspace = workspaces.remove(i);
        assert(workspace == given[i as int]) by {
            assert(before.skip(i as int)[0] == given.skip(i as int)[0]);
        }
        assert(workspaces@.take(i as int) =~= head);
        let mut at: usize = i;
        while at > 0 && !stands_before(&workspaces[at - 1], &workspace)
            invariant
                at <= i < before.len(),
                workspaces@ == before.remove(i as int),
                forall|k: int| at <= k < i ==> !position_le(#[trigger] workspaces@[k], workspace),
            decreases at,
        {
            at -= 1;
        }
        proof {
            assert forall|k: int| at <= k < head.len() implies !position_le(
                #[trigger] head[k],
                workspace,
            ) by {
                assert(head[k] == workspaces@[k]);
            }
            assert(at > 0 ==> head[at - 1] == workspaces@[at - 1]);
            lemma_insert_at(head, workspace, at as int);
        }
        workspaces.insert(at, workspace);
        proof {
            let longer = given.take(i + 1);
            assert(longer.drop_last() =~= given.take(i as int));
            assert(longer.last() == given[i as int]);
            assert(workspaces@.take(i + 1) =~= head.insert(at as int, workspace));
            assert(workspaces@.skip(i + 1) =~= before.skip(i + 1));
            assert(before.skip(i + 1) =~= before.skip(i as int).skip(1));
            assert(given.skip(i + 1) =~= given.skip(i as int).skip(1));
        }
        i += 1;
    }
    assert(workspaces@.take(i as int) =~= workspaces@);
    assert(given.take(i as int) =~= given);
}

/// Turns the order of the workspaces round.
pub fn reverse(workspaces: &mut Vec<Workspace>)
    ensures
        final(workspaces)@ == old(workspaces)@.reverse(),
{
    let ghost given = workspaces@;
    let mut turned: Vec<Workspace> = Vec::new();
    while workspaces.len() > 0
        invariant
            workspaces@.len() + turned@.len() == given.len(),
            workspaces@ == given.take(workspaces@.len() as int),
            forall|i: int|
                0 <= i < turned@.len() ==> #[trigger] turned@[i] == given[given.len() - 1 - i],
        decreases workspaces@.len(),
    {
        if let Some(workspace) = workspaces.pop() {
            turned.push(workspace);
            assert(workspaces@ =~= given.take(workspaces@.len() as int));
        }
    }
    assert(turned@ =~= given.reverse());
    *workspaces = turned;
}

/// The place of the workspace that gets the focus next.
fn find_next_index(workspaces: &[Workspace]) -> (next: Option<usize>)
    ensures
        match next_workspace(workspaces@) {
            Some(workspace) => next matches Some(at) && at < workspaces@.len() && workspaces@[at as int]
                == workspace,
            None => next is None,
        },
{
    // The places of the visible workspaces.
    let mut places: Vec<usize> = Vec::new();
    let mut i: usize = 0;
    assert(workspaces@.take(0) =~= Seq::<Workspace>::empty());
    proof {
        reveal(Seq::filter);
    }
    while i < workspaces.len()
        invariant
            i <= workspaces@.len(),
            places@.len() == shown(workspaces@.take(i as int)).len(),
            forall|k: int|
                0 <= k < places@.len() ==> (#[trigger] places@[k]) < i && workspaces@[places@[k] as int]
                    == shown(workspaces@.take(i as int))[k],
        decreases workspaces@.len() - i,
    {
        proof {
            reveal(Seq::filter);
            let longer = workspaces@.take(i + 1);
            assert(longer.drop_last() =~= workspaces@.take(i as int));
            assert(longer.last() == workspaces@[i as int]);
        }
        if workspaces[i].visible {
            places.push(i);
        }
        i += 1;
    }
    assert(workspaces@.take(i as int) =~= workspaces@);
    let ghost shown = shown(workspaces@);
    // The first of them that has the focus.
    let mut at: usize = 0;
    while at < places.len() && !workspaces[places[at]].focused
        invariant
            at <= places@.len(),
            places@.len() == shown.len(),
            forall|k: int|
                0 <= k < places@.len() ==> (#[trigger] places@[k]) < workspaces@.len()
                    && workspaces@[places@[k] as int] == shown[k],
            forall|k: int| 0 <= k < at ==> !(#[trigger] shown[k]).focused,
        decreases places@.len() - at,
    {
        at += 1;
    }
    if at == places.len() || places.len() < 2 {
        assert(next_workspace(workspaces@) is None) by {
            if at == places.len() {
                assert forall|found: int| !is_first_focused(shown, found) by {
                    if 0 <= found < shown.len() {
                        assert(!shown[found].focused);
                    }
                }
            }
        }
        return None;
    }
    proof {
        lemma_next_after(workspaces@, at as int);
    }
    let after: usize = if at + 1 == places.len() {
        0
    } else {
        at + 1
    };
    assert(after == (at + 1) % (shown.len() as int)) by {
        if at + 1 == places@.len() {
            assert((at + 1) % (shown.len() as int) == 0) by (nonlinear_arith)
                requires
                    at + 1 == shown.len(),
                    shown.len() > 0,
            ;
        } else {
            assert((at + 1) % (shown.len() as int) == at + 1) by (nonlinear_arith)
                requires
                    0 <= at + 1 < shown.len(),
            ;
        }
    }
    Some(places[after])
}

/// The workspace that gets the focus next, if the focus is to move.
///
/// `workspaces` are in the order in which they are to be walked. The focus
/// goes from the first visible workspace that has it to the visible one
/// after it, and from the last one to the first. It stays where it is when
/// no visible workspace has it, and when at most one workspace is visible.
pub fn find_next_workspace(workspaces: &[Workspace]) -> (next: Option<&Workspace>)
    ensures
        match next_workspace(workspaces@) {
            Some(workspace) => next == Some(&workspace),
            None => next is None,
        },
{
    match find_next_index(workspaces) {
        Some(at) => Some(&workspaces[at]),
        None => None,
    }
}

/// The switch that cycling as `args` says makes, if any.
///
/// The workspaces are put in reading order, and the order is turned round
/// where `args.reverse` is set. The focus then moves as
/// [`find_next_workspace`] says.
pub fn run(args: &Args, workspaces: Vec<Workspace>) -> (plan: Option<Plan>)
    ensures
        is_plan_of(plan, *args, workspaces@),
{
    let mut workspaces = workspaces;
    sort_by_position(&mut workspaces);
    if args.reverse {
        reverse(&mut workspaces);
    }
    let next = match find_next_index(workspaces.as_slice()) {
        Some(next) => next,
        None => {
            return None;
        },
    };
    let workspace = workspaces.remove(next);
    Some(Plan { workspace, attempts: args.attempts })
}

/// The call that asks the window manager for its workspaces.
pub fn get_workspaces() -> (call: Invocation)
    ensures
        call.program@ == PROGRAM@,
        call.spec_args() == seq!["-t"@, "get_workspaces"@],
{
    let mut args: Vec<String> = Vec::new();
    args.push("-t".to_owned());
    args.push("get_workspaces".to_owned());
    let call = Invocation { program: PROGRAM, args };
    assert(call.spec_args() =~= seq!["-t"@, "get_workspaces"@]);
    call
}

/// The call that asks the window manager to switch to `workspace`.
pub fn switch_to_workspace(workspace: &Workspace) -> (call: Invocation)
    ensures
        call.program@ == PROGRAM@,
        call.spec_args() == seq!["-t"@, "command"@, "workspace"@, workspace.name@],
{
    let mut args: Vec<String> = Vec::new();
    args.push("-t".to_owned());
    args.push("command".to_owned());
    args.push("workspace".to_owned());
    args.push(workspace.name.clone());
    let call = Invocation { program: PROGRAM, args };
    assert(call.spec_args() =~= seq!["-t"@, "command"@, "workspace"@, workspace.name@]);
    call
}

} // verus!
