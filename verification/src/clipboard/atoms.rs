//! The atoms that the clipboard owner works with.

use vstd::prelude::*;

verus! {

/// How many atoms the table holds.
pub const ATOM_COUNT: usize = 8;

/// The ids that the server has given to the names in [`atom_names`].
#[allow(non_snake_case)]
#[derive(Copy, Clone, Debug)]
pub struct Atoms {
    pub UTF8_STRING: u32,
    pub STRING: u32,
    pub ATOM: u32,
    pub WM_CLASS: u32,
    pub _NET_WM_NAME: u32,
    pub CLIPBOARD: u32,
    pub text_plain_utf8: u32,
    pub text_plain: u32,
}

/// The names of the atoms, in the order of the fields of [`Atoms`].
pub open spec fn spec_atom_names() -> Seq<Seq<char>> {
    seq![
        "UTF8_STRING"@,
        "STRING"@,
        "ATOM"@,
        "WM_CLASS"@,
        "_NET_WM_NAME"@,
        "CLIPBOARD"@,
        "text/plain;charset=utf-8"@,
        "text/plain"@,
    ]
}

/// The table that holds the ids `ids`, taken in the order of the names.
pub open spec fn spec_atoms_from(ids: Seq<u32>) -> Atoms
    recommends
        ids.len() == ATOM_COUNT,
{
    Atoms {
        UTF8_STRING: ids[0],
        STRING: ids[1],
        ATOM: ids[2],
        WM_CLASS: ids[3],
        _NET_WM_NAME: ids[4],
        CLIPBOARD: ids[5],
        text_plain_utf8: ids[6],
        text_plain: ids[7],
    }
}

/// The names to intern, in the order of the fields of [`Atoms`].
pub fn atom_names() -> (names: Vec<&'static str>)
    ensures
        names@.len() == ATOM_COUNT,
        names@.map_values(|name: &'static str| name@) == spec_atom_names(),
{
    let names: Vec<&'static str> = vec![
        "UTF8_STRING",
        "STRING",
        "ATOM",
        "WM_CLASS",
        "_NET_WM_NAME",
        "CLIPBOARD",
        "text/plain;charset=utf-8",
        "text/plain",
    ];
    assert(names@.map_values(|name: &'static str| name@) =~= spec_atom_names());
    names
}

impl Atoms {
    /// Builds the table from the ids that the server gave for
    /// [`atom_names`], in that order. Any other number of ids is refused.
    pub fn from_interned(ids: &[u32]) -> (atoms: Option<Atoms>)
        ensures
            atoms is Some <==> ids@.len() == ATOM_COUNT,
            atoms matches Some(table) ==> table == spec_atoms_from(ids@),
    {
        if ids.len() != ATOM_COUNT {
            return None;
        }
        Some(
            Atoms {
                UTF8_STRING: ids[0],
                STRING: ids[1],
                ATOM: ids[2],
                WM_CLASS: ids[3],
                _NET_WM_NAME: ids[4],
                CLIPBOARD: ids[5],
                text_plain_utf8: ids[6],
                text_plain: ids[7],
            },
        )
    }
}

} // verus!
