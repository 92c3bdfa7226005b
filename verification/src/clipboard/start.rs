//! What the clipboard owner does when it starts, and how it answers a
//! request for the selection.

use vstd::prelude::*;
use vstd::string::StringSliceAdditionalSpecFns;

use crate::clipboard::atoms::Atoms;
use crate::clipboard::protocol::{
    no_event, none, selection_notify_event, spec_current_time, spec_no_event, spec_none,
    spec_selection_notify_event,
};
use crate::clipboard::window::{
    replace_property, PropertyChange, PropertyChangeView, PropertyData, SelectionClaim, Window,
};
use crate::clipboard::window_id::WindowId;
use crate::text::str_eq;

verus! {

/// The title of the owner's window.
pub const WINDOW_TITLE: &'static str = "midas-clipboard-server";

/// The class of the owner's window.
pub const WINDOW_CLASS: &'static str = "midas-clipboard-server";

/// The text that the owner hands to whoever asks for the clipboard.
pub const PAYLOAD: &'static str = "Hello from Rust! \u{1F980}";

/// The requests that set the owner up, in the order in which they are sent.
#[derive(Clone, Debug)]
pub struct Startup {
    pub title: PropertyChange,
    pub class: PropertyChange,
    pub claim: SelectionClaim,
}

/// Another client's request for the selection.
#[derive(Copy, Clone, Debug)]
pub struct SelectionRequestEvent {
    pub response_type: u8,
    pub sequence: u16,
    pub time: u32,
    pub owner: u32,
    pub requestor: u32,
    pub selection: u32,
    pub target: u32,
    pub property: u32,
}

/// The event that tells a requestor how its request ended.
#[derive(Copy, Clone, Debug, PartialEq, Eq, Structural)]
pub struct SelectionNotifyEvent {
    pub response_type: u8,
    pub sequence: u16,
    pub time: u32,
    pub requestor: u32,
    pub selection: u32,
    pub target: u32,
    pub property: u32,
}

/// A request to send an event to a window.
#[derive(Copy, Clone, Debug, PartialEq, Eq, Structural)]
pub struct SendEvent {
    pub propagate: bool,
    pub destination: u32,
    pub event_mask: u32,
    pub event: SelectionNotifyEvent,
}

/// The answer to a selection request: a property to set on the requestor's
/// window, if the target is supported, and then the event to send to it.
#[derive(Clone, Debug)]
pub struct SelectionReply {
    pub change: Option<PropertyChange>,
    pub send: SendEvent,
}

/// What a requestor may ask the selection to be converted to.
#[derive(Copy, Clone, Debug, PartialEq, Eq, Structural)]
pub enum Target {
    /// The list of the targets that are supported.
    Targets,
    /// The text itself.
    Text,
    /// Anything else.
    Unsupported,
}

/// The target that the atom named `name` stands for.
pub open spec fn spec_target(name: Seq<char>) -> Target {
    if name == "TARGETS"@ {
        Target::Targets
    } else if name == "UTF8_STRING"@ || name == "text/plain;charset=utf-8"@ || name
        == "text/plain"@ {
        Target::Text
    } else {
        Target::Unsupported
    }
}

/// The types that the text is offered as, in the order in which they are
/// listed to a requestor.
pub open spec fn supported_types(atoms: Atoms) -> Seq<u32> {
    seq![atoms.UTF8_STRING, atoms.text_plain_utf8, atoms.text_plain]
}

/// The property that is set on the requestor's window, if any.
pub open spec fn reply_change(
    atoms: Atoms,
    event: SelectionRequestEvent,
    target: Target,
) -> Option<PropertyChangeView> {
    match target {
        Target::Targets => Some(
            replace_property(
                event.requestor,
                event.property,
                atoms.ATOM,
                PropertyData::U32(supported_types(atoms)),
            ),
        ),
        Target::Text => Some(
            replace_property(
                event.requestor,
                event.property,
                atoms.UTF8_STRING,
                PropertyData::U8(PAYLOAD.spec_bytes()),
            ),
        ),
        Target::Unsupported => None,
    }
}

/// The event that is sent back: it repeats the request, and names the
/// property that holds the answer, or none when the target is refused.
pub open spec fn reply_event(event: SelectionRequestEvent, target: Target) -> SendEvent {
    SendEvent {
        propagate: true,
        destination: event.requestor,
        event_mask: spec_no_event(),
        event: SelectionNotifyEvent {
            response_type: spec_selection_notify_event(),
            sequence: 0,
            time: event.time,
            requestor: event.requestor,
            selection: event.selection,
            target: event.target,
            property: if target == Target::Unsupported {
                spec_none()
            } else {
                event.property
            },
        },
    }
}

/// Whether `startup` sets `window` up as the owner: it gives the window
/// its title and its class, and claims the clipboard for it as of now.
pub open spec fn is_startup_of(startup: Startup, window: Window) -> bool {
    &&& startup.title@ == window.property_change(
        window.spec_atoms()._NET_WM_NAME,
        window.spec_atoms().UTF8_STRING,
        PropertyData::U8(WINDOW_TITLE.spec_bytes()),
    )
    &&& startup.class@ == window.property_change(
        window.spec_atoms().WM_CLASS,
        window.spec_atoms().STRING,
        PropertyData::U8(WINDOW_CLASS.spec_bytes()),
    )
    &&& startup.claim == (SelectionClaim {
        owner: window.spec_id(),
        selection: window.spec_atoms().CLIPBOARD,
        time: spec_current_time(),
    })
}

/// The requests that set up the owner's window and claim the clipboard
/// for it.
pub fn start(window: &Window) -> (startup: Startup)
    ensures
        is_startup_of(startup, *window),
{
    Startup {
        title: window.set_title(WINDOW_TITLE),
        class: window.set_class(WINDOW_CLASS),
        claim: window.acquire_clipboard_now(),
    }
}

/// The target that the atom named `name` stands for.
pub fn classify_target(name: &str) -> (target: Target)
    ensures
        target == spec_target(name@),
{
    if str_eq(name, "TARGETS") {
        Target::Targets
    } else if str_eq(name, "UTF8_STRING") || str_eq(name, "text/plain;charset=utf-8") || str_eq(
        name,
        "text/plain",
    ) {
        Target::Text
    } else {
        Target::Unsupported
    }
}

/// Answers the selection request `event`, whose target atom is named
/// `target_name`.
///
/// A request for `TARGETS` is answered with the list of supported types, a
/// request for one of these types with the text. Any other target gets no
/// property, and the event that is sent back names none.
pub fn handle_selection_request(
    atoms: &Atoms,
    event: &SelectionRequestEvent,
    target_name: &str,
) -> (reply: SelectionReply)
    ensures
        match reply_change(*atoms, *event, spec_target(target_name@)) {
            Some(change) => reply.change is Some && reply.change->Some_0@ == change,
            None => reply.change is None,
        },
        reply.send == reply_event(*event, spec_target(target_name@)),
{
    let mut response = SelectionNotifyEvent {
        response_type: selection_notify_event(),
        sequence: 0,
        time: event.time,
        requestor: event.requestor,
        selection: event.selection,
        target: event.target,
        property: event.property,
    };
    let requestor = Window::from_id(atoms, WindowId::from(event.requestor));
    proof {
        WindowId::lemma_view(event.requestor);
    }
    let change = match classify_target(target_name) {
        Target::Targets => {
            let targets: [u32; 3] = [atoms.UTF8_STRING, atoms.text_plain_utf8, atoms.text_plain];
            assert(targets@ =~= supported_types(*atoms));
            Some(requestor.set_property_atoms(event.property, targets.as_slice()))
        },
        Target::Text => Some(requestor.set_property_str(event.property, PAYLOAD)),
        Target::Unsupported => {
            response.property = none();
            None
        },
    };
    SelectionReply {
        change,
        send: SendEvent {
            propagate: true,
            destination: event.requestor,
            event_mask: no_event(),
            event: response,
        },
    }
}

} // verus!
