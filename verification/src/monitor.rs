//! Moving the focus between the workspaces of a tiling window manager.

use vstd::prelude::*;

pub mod cycle;

verus! {

/// What the user asks for.
#[derive(Copy, Clone, Debug)]
pub enum Cli {
    Cycle(cycle::Args),
}

/// What the command `cli` does, given the workspaces that there are: the
/// switch to make, if any.
pub fn run(cli: &Cli, workspaces: Vec<cycle::Workspace>) -> (plan: Option<cycle::Plan>)
    ensures
        match *cli {
            Cli::Cycle(args) => cycle::is_plan_of(plan, args, workspaces@),
        },
{
    match cli {
        Cli::Cycle(args) => cycle::run(args, workspaces),
    }
}

} // verus!
