//! The table of opcode names that the trace consults.
//!
//! The table is written at most once. Until then, and for every opcode that
//! the table lacks, the name is `unknown`.

use once_cell::sync::OnceCell;
use std::collections::HashMap;
use vstd::prelude::*;
use vstd::std_specs::hash::*;
use vstd::string::StringExecFns;

verus! {

/// `once_cell::sync::OnceCell`, a cell that is written at most once. Verus
/// sees nothing inside it.
#[verifier::external_type_specification]
#[verifier::external_body]
#[verifier::reject_recursive_types(T)]
pub struct ExOnceCell<T>(OnceCell<T>);

/// Whether the cell has been written.
pub uninterp spec fn cell_is_set(cell: OnceCell<HashMap<u16, String>>) -> bool;

/// The table that a written cell holds.
pub uninterp spec fn cell_names(cell: OnceCell<HashMap<u16, String>>) -> Map<u16, String>;

/// `OnceCell::new`: a cell that has not been written.
#[verifier::external_body]
fn cell_new() -> (cell: OnceCell<HashMap<u16, String>>)
    ensures
        !cell_is_set(cell),
{
    OnceCell::new()
}

/// `OnceCell::set`: writes the cell if it was empty and says so; a cell that
/// was written keeps what it holds. The caller has the cell to itself, so no
/// other write can come in between.
#[verifier::external_body]
fn cell_set(cell: &mut OnceCell<HashMap<u16, String>>, names: HashMap<u16, String>) -> (written:
    bool)
    ensures
        written == !cell_is_set(*old(cell)),
        cell_is_set(*final(cell)),
        cell_names(*final(cell)) == if written {
            names@
        } else {
            cell_names(*old(cell))
        },
{
    cell.set(names).is_ok()
}

/// `OnceCell::get`: the table of a written cell, nothing for an empty one.
#[verifier::external_body]
fn cell_get(cell: &OnceCell<HashMap<u16, String>>) -> (names: Option<&HashMap<u16, String>>)
    ensures
        names is Some == cell_is_set(*cell),
        names matches Some(table) ==> table@ == cell_names(*cell),
{
    cell.get()
}

/// The name given to opcodes that have none.
pub open spec fn unknown_name() -> Seq<char> {
    "unknown"@
}

/// The names of a table, as character sequences.
pub open spec fn name_texts(table: Map<u16, String>) -> Map<u16, Seq<char>> {
    table.map_values(|name: String| name@)
}

/// The name that a table of names gives to an opcode.
pub open spec fn name_in(names: Map<u16, Seq<char>>, opcode: u16) -> Seq<char> {
    if names.contains_key(opcode) {
        names[opcode]
    } else {
        unknown_name()
    }
}

/// A write-once table from opcode to display name.
///
/// The cell is private and is written only by `set_opcode_names`, which
/// takes the registry by `&mut`. No write can therefore pass unseen beside a
/// reader, and what the cell holds is a function of the registry's value.
pub struct OpcodeNames {
    cell: OnceCell<HashMap<u16, String>>,
}

impl OpcodeNames {
    /// Whether the table has been written.
    pub closed spec fn is_set(&self) -> bool {
        cell_is_set(self.cell)
    }

    /// The names in the table; none while it is unwritten.
    pub closed spec fn names(&self) -> Map<u16, Seq<char>> {
        if cell_is_set(self.cell) {
            name_texts(cell_names(self.cell))
        } else {
            Map::empty()
        }
    }

    /// The display name of an opcode: its entry in the table, or `unknown`.
    pub open spec fn name_of(&self, opcode: u16) -> Seq<char> {
        name_in(self.names(), opcode)
    }

    /// A table that has not been written yet.
    pub fn new() -> (registry: OpcodeNames)
        ensures
            !registry.is_set(),
            registry.names() == Map::<u16, Seq<char>>::empty(),
    {
        OpcodeNames { cell: cell_new() }
    }
}

/// Writes the table, once. The first call on a registry copies
/// `opcode_names` into it and returns true. Every later call returns false
/// and leaves the table as it is.
pub fn set_opcode_names(registry: &mut OpcodeNames, opcode_names: &HashMap<u16, String>) -> (written:
    bool)
    ensures
        written == !old(registry).is_set(),
        final(registry).is_set(),
        written ==> final(registry).names() == name_texts(opcode_names@),
        !written ==> final(registry).names() == old(registry).names(),
{
    let copy = opcode_names.clone();
    cell_set(&mut registry.cell, copy)
}

/// The display name of an opcode: its entry in the table, or `unknown` if
/// the table has no entry for it or has not been written.
pub fn get_opcode_name(registry: &OpcodeNames, opcode: u16) -> (name: String)
    ensures
        name@ == registry.name_of(opcode),
{
    broadcast use group_hash_axioms;

    match cell_get(&registry.cell) {
        Some(table) => match table.get(&opcode) {
            Some(entry) => entry.clone(),
            None => String::from_str("unknown"),
        },
        None => String::from_str("unknown"),
    }
}

} // verus!
