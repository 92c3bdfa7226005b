//! The id of a window.

use vstd::prelude::*;
use vstd::std_specs::convert::FromSpecImpl;

verus! {

/// The id that the X server knows a window by.
#[derive(Copy, Clone, Debug)]
pub struct WindowId(u32);

impl View for WindowId {
    type V = u32;

    closed spec fn view(&self) -> u32 {
        self.0
    }
}

impl WindowId {
    /// The window id that stands for the raw id `id`.
    pub closed spec fn spec_new(id: u32) -> WindowId {
        WindowId(id)
    }

    /// A window id and the raw id it was made from are the same number.
    pub proof fn lemma_view(id: u32)
        ensures
            WindowId::spec_new(id)@ == id,
    {
    }

    /// A window id is determined by its raw id.
    pub proof fn lemma_view_injective(a: WindowId, b: WindowId)
        requires
            a@ == b@,
        ensures
            a == b,
    {
    }
}

impl core::ops::Deref for WindowId {
    type Target = u32;

    fn deref(&self) -> (id: &u32)
        ensures
            *id == self@,
    {
        &self.0
    }
}

impl From<u32> for WindowId {
    fn from(id: u32) -> (window: WindowId) {
        WindowId(id)
    }
}

impl FromSpecImpl<u32> for WindowId {
    open spec fn obeys_from_spec() -> bool {
        true
    }

    open spec fn from_spec(id: u32) -> WindowId {
        WindowId::spec_new(id)
    }
}

impl From<WindowId> for u32 {
    fn from(id: WindowId) -> (raw: u32) {
        id.0
    }
}

impl FromSpecImpl<WindowId> for u32 {
    open spec fn obeys_from_spec() -> bool {
        true
    }

    open spec fn from_spec(id: WindowId) -> u32 {
        id@
    }
}

} // verus!
