//! Constants of the X11 core protocol, taken from `x11rb`.

use vstd::prelude::*;

verus! {

/// The id that stands for "no resource" and "no atom".
pub open spec fn spec_none() -> u32 {
    0
}

/// The timestamp that asks the server to use its own current time.
pub open spec fn spec_current_time() -> u32 {
    0
}

/// The depth that tells the server to take the depth of the parent window.
pub open spec fn spec_copy_depth_from_parent() -> u8 {
    0
}

/// The event code of a selection notify event.
pub open spec fn spec_selection_notify_event() -> u8 {
    31
}

/// The event mask that selects no event.
pub open spec fn spec_no_event() -> u32 {
    0
}

/// Reads `x11rb::NONE`. The contract claims that it is zero, the value
/// the protocol reserves for "none".
#[verifier::external_body]
pub(crate) fn none() -> (id: u32)
    ensures
        id == spec_none(),
{
    x11rb::NONE
}

/// Reads `x11rb::CURRENT_TIME`. The contract claims that it is zero, the
/// timestamp the protocol reserves for "now".
#[verifier::external_body]
pub(crate) fn current_time() -> (time: u32)
    ensures
        time == spec_current_time(),
{
    x11rb::CURRENT_TIME
}

/// Reads `x11rb::COPY_DEPTH_FROM_PARENT`. The contract claims that it is
/// zero.
#[verifier::external_body]
pub(crate) fn copy_depth_from_parent() -> (depth: u8)
    ensures
        depth == spec_copy_depth_from_parent(),
{
    x11rb::COPY_DEPTH_FROM_PARENT
}

/// Reads `x11rb::protocol::xproto::SELECTION_NOTIFY_EVENT`. The contract
/// claims that it is 31, the code the core protocol gives this event.
#[verifier::external_body]
pub(crate) fn selection_notify_event() -> (code: u8)
    ensures
        code == spec_selection_notify_event(),
{
    x11rb::protocol::xproto::SELECTION_NOTIFY_EVENT
}

/// Reads `x11rb::protocol::xproto::EventMask::NO_EVENT` as a number. The
/// contract claims that it is zero: the mask with no bit set.
#[verifier::external_body]
pub(crate) fn no_event() -> (mask: u32)
    ensures
        mask == spec_no_event(),
{
    u32::from(x11rb::protocol::xproto::EventMask::NO_EVENT)
}

} // verus!
