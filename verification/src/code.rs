//! Code objects: what every entity that carries atoms offers.

use crate::atom::Atom;
use vstd::prelude::*;

verus! {

/// Why an operation on a code object failed.
#[derive(Clone, Copy, Debug, PartialEq, Eq, Structural)]
pub enum CodeError {
    /// An index at or past the end of the array that it was meant for.
    OutOfRange,
    /// A reference for which no target can be named.
    UnresolvedReference,
    /// A run of atoms that ends while atoms it announced are still to come.
    MalformedSequence,
}

/// A code object as specifications see it.
pub struct CodeModel {
    /// The identity of the object.
    pub oid: u32,
    /// The second, diagnostic identity, if the object was given one.
    pub detail_oid: Option<u64>,
    /// The atoms of the object, in order.
    pub code: Seq<Atom>,
    /// The handles of the objects that it refers to, in order. Reference
    /// pointers among the atoms index this list.
    pub references: Seq<usize>,
}

/// The most atoms, and the most references, that a code object holds:
/// both are counted in 16 bits.
pub open spec fn max_size() -> nat {
    0xFFFF
}

/// `code` cut or padded to `size` atoms. The padding is the undefined atom.
pub open spec fn resized(code: Seq<Atom>, size: nat) -> Seq<Atom> {
    Seq::new(
        size,
        |i: int|
            if i < code.len() {
                code[i]
            } else {
                Atom { atom_: 0xFFFFFFFF }
            },
    )
}

/// `code` with `a` at index `i`, padded first if it was too short.
pub open spec fn with_atom(code: Seq<Atom>, i: nat, a: Atom) -> Seq<Atom> {
    if i < code.len() {
        code.update(i as int, a)
    } else {
        resized(code, i + 1).update(i as int, a)
    }
}

/// The counter once it has been moved past `detail_oid`: above it if it
/// can be, and never lower than it was. A counter at the greatest 64-bit
/// value hands out nothing more.
pub open spec fn moved_past(next: u64, detail_oid: u64) -> u64 {
    if next > detail_oid {
        next
    } else if detail_oid < u64::MAX {
        (detail_oid + 1) as u64
    } else {
        u64::MAX
    }
}

/// The source of detail OIDs: a counter that hands out each value once, in
/// rising order. It is off unless asked for; while it is off no object gets a
/// detail OID.
pub struct DetailOids {
    enabled_: bool,
    next_: u64,
}

impl DetailOids {
    /// Whether detail OIDs are handed out.
    pub closed spec fn enabled(&self) -> bool {
        self.enabled_
    }

    /// The detail OID that is handed out next.
    pub closed spec fn next(&self) -> u64 {
        self.next_
    }

    /// Whether the next call of `assign` hands out a detail OID: the
    /// counter is on and has not reached the greatest 64-bit value.
    pub open spec fn assigns(&self) -> bool {
        self.enabled() && self.next() < u64::MAX
    }

    /// A counter that starts at 11, so that detail OIDs do not look like
    /// object OIDs.
    pub fn new(enabled: bool) -> (counter: DetailOids)
        ensures
            counter.enabled() == enabled,
            counter.next() == 11,
    {
        DetailOids { enabled_: enabled, next_: 11 }
    }

    /// Whether detail OIDs are handed out.
    pub fn is_enabled(&self) -> (enabled: bool)
        ensures
            enabled == self.enabled(),
    {
        self.enabled_
    }

    /// Hands out the next detail OID and steps the counter, or hands out
    /// nothing and leaves the counter alone if it is off or used up.
    pub fn assign(&mut self) -> (detail_oid: Option<u64>)
        ensures
            final(self).enabled() == old(self).enabled(),
            old(self).assigns() ==> detail_oid == Some(old(self).next()) && final(self).next()
                == old(self).next() + 1,
            !old(self).assigns() ==> detail_oid is None && final(self).next() == old(self).next(),
    {
        if self.enabled_ && self.next_ < u64::MAX {
            let detail_oid = self.next_;
            self.next_ = self.next_ + 1;
            Some(detail_oid)
        } else {
            None
        }
    }

    /// Makes sure that every detail OID handed out from now on is above
    /// `detail_oid`. The counter never goes back.
    pub fn advance_past(&mut self, detail_oid: u64)
        ensures
            final(self).enabled() == old(self).enabled(),
            final(self).next() == moved_past(old(self).next(), detail_oid),
    {
        if self.next_ <= detail_oid {
            if detail_oid < u64::MAX {
                self.next_ = detail_oid + 1;
            } else {
                self.next_ = u64::MAX;
            }
        }
    }
}

impl Default for DetailOids {
    /// A counter that is off.
    fn default() -> (counter: DetailOids)
        ensures
            !counter.enabled(),
            counter.next() == 11,
    {
        DetailOids { enabled_: false, next_: 11 }
    }
}

/// An entity that carries atoms and refers to other such entities.
///
/// References are handles into a `CodeArena`. Objects may refer to each
/// other in cycles; the arena owns them all.
pub trait Code: View<V = CodeModel> + Sized {
    /// The detail OID, if the object has one.
    fn get_detail_oid(&self) -> (detail_oid: Option<u64>)
        ensures
            detail_oid == self@.detail_oid,
    ;

    /// Gives the object a detail OID, and moves the counter past it so
    /// that the counter never hands out this value or a lower one. While the
    /// counter is off nothing happens.
    fn set_detail_oid(&mut self, detail_oid: u64, counter: &mut DetailOids)
        ensures
            final(counter).enabled() == old(counter).enabled(),
            old(counter).enabled() ==> final(self)@ == (CodeModel {
                detail_oid: Some(detail_oid),
                ..old(self)@
            }) && final(counter).next() == moved_past(old(counter).next(), detail_oid),
            !old(counter).enabled() ==> final(self)@ == old(self)@ && final(counter).next() == old(counter).next(),
    ;

    /// The OID.
    fn get_oid(&self) -> (oid: u32)
        ensures
            oid == self@.oid,
    ;

    /// Sets the OID.
    fn set_oid(&mut self, oid: u32)
        ensures
            final(self)@ == (CodeModel { oid: oid, ..old(self)@ }),
    ;

    /// The atom at index `i`, or `OutOfRange` if the code has no such index.
    fn code(&self, i: u16) -> (r: Result<Atom, CodeError>)
        ensures
            i < self@.code.len() ==> r == Ok::<Atom, CodeError>(self@.code[i as int]),
            i >= self@.code.len() ==> r == Err::<Atom, CodeError>(CodeError::OutOfRange),
    ;

    /// Puts `a` at index `i`. Code that is too short grows to hold the
    /// index; the atoms in between are undefined atoms. The size of the code
    /// is counted in 16 bits, so the last index that can be written is
    /// 65534.
    fn set_code(&mut self, i: u16, a: Atom)
        requires
            i < u16::MAX,
        ensures
            final(self)@ == (CodeModel { code: with_atom(old(self)@.code, i as nat, a), ..old(self)@ }),
    ;

    /// The number of atoms.
    fn code_size(&self) -> (size: u16)
        ensures
            size == self@.code.len(),
    ;

    /// Cuts the code to `new_size` atoms, or pads it with undefined atoms.
    fn resize_code(&mut self, new_size: u16)
        ensures
            final(self)@ == (CodeModel { code: resized(old(self)@.code, new_size as nat), ..old(self)@ }),
    ;

    /// Makes reference `i` point to `object`, or fails with `OutOfRange`,
    /// changing nothing, if there is no reference `i`.
    fn set_reference(&mut self, i: u16, object: usize) -> (r: Result<(), CodeError>)
        ensures
            i < old(self)@.references.len() ==> r is Ok && final(self)@ == (CodeModel {
                references: old(self)@.references.update(i as int, object),
                ..old(self)@
            }),
            i >= old(self)@.references.len() ==> r == Err::<(), CodeError>(CodeError::OutOfRange)
                && final(self)@ == old(self)@,
    ;

    /// The handle that reference `i` holds, or `OutOfRange` if there is no
    /// reference `i`.
    fn get_reference(&self, i: u16) -> (r: Result<usize, CodeError>)
        ensures
            i < self@.references.len() ==> r == Ok::<usize, CodeError>(self@.references[i as int]),
            i >= self@.references.len() ==> r == Err::<usize, CodeError>(CodeError::OutOfRange),
    ;

    /// The number of references.
    fn references_size(&self) -> (size: u16)
        ensures
            size == self@.references.len(),
    ;

    /// Drops every reference.
    fn clear_references(&mut self)
        ensures
            final(self)@ == (CodeModel { references: Seq::empty(), ..old(self)@ }),
    ;
}

} // verus!
