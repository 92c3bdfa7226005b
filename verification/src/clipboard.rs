//! A minimal clipboard owner: the requests it makes of the X server and the
//! answers it gives to selection requests.

use vstd::prelude::*;

pub mod atoms;
pub mod protocol;
pub mod start;
pub mod window;
pub mod window_id;

pub use atoms::Atoms;
pub use start::start;
pub use window::Window;
pub use window_id::WindowId;

verus! {

/// What the user asks for.
#[derive(Copy, Clone, Debug)]
pub enum Opt {
    Start,
}

/// What the command `opt` does with the owner's window `window`: the
/// requests that set it up.
pub fn run(opt: &Opt, window: &Window) -> (startup: start::Startup)
    ensures
        start::is_startup_of(startup, *window),
{
    match opt {
        Opt::Start => start::start(window),
    }
}

} // verus!
