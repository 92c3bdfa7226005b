//! A window, seen as the requests that can be made about it.
//!
//! Nothing here talks to the server. Each method returns the request that
//! the caller is to send.

use vstd::prelude::*;
use vstd::slice::slice_to_vec;
use vstd::string::StringSliceAdditionalSpecFns;

use crate::clipboard::atoms::Atoms;
use crate::clipboard::protocol::{
    copy_depth_from_parent, current_time, spec_copy_depth_from_parent, spec_current_time,
};
use crate::clipboard::window_id::WindowId;

verus! {

/// What a property change does with the value that is already there.
#[derive(Copy, Clone, Debug, PartialEq, Eq, Structural)]
pub enum PropMode {
    Replace,
    Prepend,
    Append,
}

/// The class of a window.
#[derive(Copy, Clone, Debug, PartialEq, Eq, Structural)]
pub enum WindowClass {
    CopyFromParent,
    InputOutput,
    InputOnly,
}

/// The value of a property, in one of the three item widths of the protocol.
#[derive(Clone, Debug)]
pub enum PropertyValue {
    U8(Vec<u8>),
    U16(Vec<u16>),
    U32(Vec<u32>),
}

/// The items of a property value.
pub enum PropertyData {
    U8(Seq<u8>),
    U16(Seq<u16>),
    U32(Seq<u32>),
}

impl View for PropertyValue {
    type V = PropertyData;

    open spec fn view(&self) -> PropertyData {
        match self {
            PropertyValue::U8(items) => PropertyData::U8(items@),
            PropertyValue::U16(items) => PropertyData::U16(items@),
            PropertyValue::U32(items) => PropertyData::U32(items@),
        }
    }
}

impl PropertyData {
    /// The width of one item, in bits.
    pub open spec fn format(self) -> u8 {
        match self {
            PropertyData::U8(_) => 8,
            PropertyData::U16(_) => 16,
            PropertyData::U32(_) => 32,
        }
    }
}

impl PropertyValue {
    /// The width of one item, in bits.
    pub fn format(&self) -> (bits: u8)
        ensures
            bits == self@.format(),
    {
        match self {
            PropertyValue::U8(_) => 8,
            PropertyValue::U16(_) => 16,
            PropertyValue::U32(_) => 32,
        }
    }
}

/// A request to change one property of a window.
#[derive(Clone, Debug)]
pub struct PropertyChange {
    pub mode: PropMode,
    pub window: WindowId,
    pub property: u32,
    pub type_: u32,
    pub value: PropertyValue,
}

/// What a [`PropertyChange`] asks for.
pub struct PropertyChangeView {
    pub mode: PropMode,
    pub window: u32,
    pub property: u32,
    pub type_: u32,
    pub value: PropertyData,
}

impl View for PropertyChange {
    type V = PropertyChangeView;

    open spec fn view(&self) -> PropertyChangeView {
        PropertyChangeView {
            mode: self.mode,
            window: self.window@,
            property: self.property,
            type_: self.type_,
            value: self.value@,
        }
    }
}

/// A request to make a window the owner of a selection.
#[derive(Copy, Clone, Debug)]
pub struct SelectionClaim {
    pub owner: WindowId,
    pub selection: u32,
    pub time: u32,
}

/// A request to create a window.
#[derive(Copy, Clone, Debug)]
pub struct CreateWindow {
    pub depth: u8,
    pub wid: WindowId,
    pub parent: u32,
    pub x: i16,
    pub y: i16,
    pub width: u16,
    pub height: u16,
    pub border_width: u16,
    pub class: WindowClass,
    pub visual: u32,
}

/// Why no window could be made.
#[derive(Copy, Clone, Debug, PartialEq, Eq, Structural)]
pub enum WindowError {
    /// The server has no screen.
    NoRoots,
}

impl WindowError {
    /// The text shown to the user.
    pub fn message(&self) -> (text: &'static str)
        ensures
            text@ == "No roots available"@,
    {
        "No roots available"
    }
}

/// The change that replaces `property` of the window `window` by `value`,
/// of type `type_`.
pub open spec fn replace_property(
    window: u32,
    property: u32,
    type_: u32,
    value: PropertyData,
) -> PropertyChangeView {
    PropertyChangeView { mode: PropMode::Replace, window, property, type_, value }
}

/// A window of the server, with the atoms that requests about it are
/// made of.
#[derive(Copy, Clone, Debug)]
pub struct Window {
    id: WindowId,
    atoms: Atoms,
}

impl Window {
    /// The id of the window.
    pub closed spec fn spec_id(&self) -> WindowId {
        self.id
    }

    /// The atoms that the window's requests are made of.
    pub closed spec fn spec_atoms(&self) -> Atoms {
        self.atoms
    }

    /// The change that replaces `property` of this window by `value`, of
    /// type `type_`.
    pub open spec fn property_change(
        &self,
        property: u32,
        type_: u32,
        value: PropertyData,
    ) -> PropertyChangeView {
        replace_property(self.spec_id()@, property, type_, value)
    }

    /// The request for a window of one pixel at the origin of the first
    /// screen, with the depth of its parent and no border.
    pub open spec fn dummy_request(root: u32, id: u32) -> CreateWindow {
        CreateWindow {
            depth: spec_copy_depth_from_parent(),
            wid: WindowId::spec_new(id),
            parent: root,
            x: 0,
            y: 0,
            width: 1,
            height: 1,
            border_width: 0,
            class: WindowClass::InputOutput,
            visual: 0,
        }
    }

    /// A window that is never shown, under the root of the first screen.
    ///
    /// `roots` holds the root windows of the server's screens and `id` is a
    /// fresh id. Returns the window and the request that creates it, or
    /// [`WindowError::NoRoots`] when the server has no screen.
    pub fn new_dummy(roots: &[u32], id: u32, atoms: &Atoms) -> (made: Result<
        (Window, CreateWindow),
        WindowError,
    >)
        ensures
            roots@.len() == 0 <==> made == Err::<(Window, CreateWindow), _>(WindowError::NoRoots),
            roots@.len() > 0 ==> made is Ok && made->Ok_0.0.spec_id() == WindowId::spec_new(id)
                && made->Ok_0.0.spec_atoms() == *atoms && made->Ok_0.1 == Window::dummy_request(
                roots@[0],
                id,
            ),
    {
        if roots.len() == 0 {
            return Err(WindowError::NoRoots);
        }
        let id = WindowId::from(id);
        let request = CreateWindow {
            depth: copy_depth_from_parent(),
            wid: id,
            parent: roots[0],
            x: 0,
            y: 0,
            width: 1,
            height: 1,
            border_width: 0,
            class: WindowClass::InputOutput,
            visual: 0,
        };
        Ok((Window::from_id(atoms, id), request))
    }

    /// The window that the server knows as `id`.
    pub fn from_id(atoms: &Atoms, id: WindowId) -> (window: Window)
        ensures
            window.spec_id() == id,
            window.spec_atoms() == *atoms,
    {
        Window { id, atoms: *atoms }
    }

    /// The id of the window.
    pub fn id(&self) -> (id: WindowId)
        ensures
            id == self.spec_id(),
    {
        self.id
    }

    /// The change that sets the title: `_NET_WM_NAME`, as UTF-8 text.
    pub fn set_title(&self, title: &str) -> (change: PropertyChange)
        ensures
            change@ == self.property_change(
                self.spec_atoms()._NET_WM_NAME,
                self.spec_atoms().UTF8_STRING,
                PropertyData::U8(title.spec_bytes()),
            ),
    {
        self.set_property_str(self.atoms._NET_WM_NAME, title)
    }

    /// The change that sets the class: `WM_CLASS`, as a byte string.
    pub fn set_class(&self, class: &str) -> (change: PropertyChange)
        ensures
            change@ == self.property_change(
                self.spec_atoms().WM_CLASS,
                self.spec_atoms().STRING,
                PropertyData::U8(class.spec_bytes()),
            ),
    {
        self.set_property_bytes(self.atoms.WM_CLASS, class.as_bytes())
    }

    /// The change that sets `property` to the text `data`, as UTF-8.
    pub fn set_property_str(&self, property: u32, data: &str) -> (change: PropertyChange)
        ensures
            change@ == self.property_change(
                property,
                self.spec_atoms().UTF8_STRING,
                PropertyData::U8(data.spec_bytes()),
            ),
    {
        self.set_property(
            property,
            self.atoms.UTF8_STRING,
            PropertyValue::U8(slice_to_vec(data.as_bytes())),
        )
    }

    /// The change that sets `property` to the byte string `bytes`.
    pub fn set_property_bytes(&self, property: u32, bytes: &[u8]) -> (change: PropertyChange)
        ensures
            change@ == self.property_change(
                property,
                self.spec_atoms().STRING,
                PropertyData::U8(bytes@),
            ),
    {
        self.set_property(property, self.atoms.STRING, PropertyValue::U8(slice_to_vec(bytes)))
    }

    /// The change that sets `property` to the list of atoms `atoms`.
    pub fn set_property_atoms(&self, property: u32, atoms: &[u32]) -> (change: PropertyChange)
        ensures
            change@ == self.property_change(
                property,
                self.spec_atoms().ATOM,
                PropertyData::U32(atoms@),
            ),
    {
        self.set_property(property, self.atoms.ATOM, PropertyValue::U32(slice_to_vec(atoms)))
    }

    /// The change that replaces `property` by `value`, of type `type_`.
    fn set_property(&self, property: u32, type_: u32, value: PropertyValue) -> (change:
        PropertyChange)
        ensures
            change@ == self.property_change(property, type_, value@),
    {
        PropertyChange { mode: PropMode::Replace, window: self.id, property, type_, value }
    }

    /// The claim of the clipboard for this window, as of the server's
    /// current time.
    pub fn acquire_clipboard_now(&self) -> (claim: SelectionClaim)
        ensures
            claim == (SelectionClaim {
                owner: self.spec_id(),
                selection: self.spec_atoms().CLIPBOARD,
                time: spec_current_time(),
            }),
    {
        self.acquire_clipboard_at(current_time())
    }

    /// The claim of the clipboard for this window, as of `time`.
    pub fn acquire_clipboard_at(&self, time: u32) -> (claim: SelectionClaim)
        ensures
            claim == (SelectionClaim {
                owner: self.spec_id(),
                selection: self.spec_atoms().CLIPBOARD,
                time,
            }),
    {
        SelectionClaim { owner: self.id, selection: self.atoms.CLIPBOARD, time }
    }
}

} // verus!
