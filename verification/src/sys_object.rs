//! The image of a code object: what is kept when an object is stored.
//!
//! An image cannot hold handles, which mean something only in one arena. It
//! holds small indices instead. Whoever loads or stores an image supplies the
//! list of candidate targets that the indices count through.

use crate::atom::Atom;
use crate::code::max_size;
use vstd::prelude::*;

verus! {

/// A code object as a plain record: its atoms, and its references as
/// indices into a list of candidate targets.
pub struct SysObject {
    pub code_: Vec<Atom>,
    pub references_: Vec<u16>,
}

impl Default for SysObject {
    /// The image without atoms and references.
    fn default() -> (image: SysObject)
        ensures
            image.code_@ == Seq::<Atom>::empty(),
            image.references_@ == Seq::<u16>::empty(),
    {
        SysObject { code_: Vec::new(), references_: Vec::new() }
    }
}

impl SysObject {
    /// Whether the image is small enough for a code object, which counts
    /// its atoms and its references in 16 bits.
    pub open spec fn fits(&self) -> bool {
        self.code_@.len() <= max_size() && self.references_@.len() <= max_size()
    }
}

/// Whether every index names a candidate.
pub open spec fn resolvable(indices: Seq<u16>, targets: Seq<usize>) -> bool {
    forall|j: int| 0 <= j < indices.len() ==> (#[trigger] indices[j]) < targets.len()
}

/// The handles that the indices name.
pub open spec fn resolved(indices: Seq<u16>, targets: Seq<usize>) -> Seq<usize> {
    Seq::new(indices.len(), |j: int| targets[indices[j] as int])
}

/// The first place at which `handle` stands among the candidates, or their
/// number if it stands nowhere.
pub open spec fn position(targets: Seq<usize>, handle: usize) -> nat
    decreases targets.len(),
{
    if targets.len() == 0 {
        0
    } else if targets[0] == handle {
        0
    } else {
        1 + position(targets.drop_first(), handle)
    }
}

/// Whether a handle has an index: it stands among the candidates, at a
/// place that 16 bits can count.
pub open spec fn indexable(targets: Seq<usize>, handle: usize) -> bool {
    position(targets, handle) < targets.len() && position(targets, handle) <= max_size()
}

/// Whether every handle has an index.
pub open spec fn all_indexable(references: Seq<usize>, targets: Seq<usize>) -> bool {
    forall|j: int| 0 <= j < references.len() ==> indexable(targets, #[trigger] references[j])
}

/// The indices of the handles.
pub open spec fn indices_of(references: Seq<usize>, targets: Seq<usize>) -> Seq<u16> {
    Seq::new(references.len(), |j: int| position(targets, references[j]) as u16)
}

/// The place that `position` names holds the handle, and no earlier place
/// does.
pub proof fn lemma_position(targets: Seq<usize>, handle: usize)
    ensures
        position(targets, handle) <= targets.len(),
        position(targets, handle) < targets.len() ==> targets[position(targets, handle) as int]
            == handle,
        forall|j: int| 0 <= j < position(targets, handle) ==> targets[j] != handle,
    decreases targets.len(),
{
    if targets.len() != 0 && targets[0] != handle {
        let rest = targets.drop_first();
        lemma_position(rest, handle);
        assert forall|j: int| 0 <= j < position(targets, handle) implies targets[j] != handle by {
            if j > 0 {
                assert(targets[j] == rest[j - 1]);
            }
        }
    }
}

/// The first place that holds the handle is the place that `position`
/// names.
pub proof fn lemma_position_is_first(targets: Seq<usize>, handle: usize, at: int)
    requires
        0 <= at < targets.len(),
        targets[at] == handle,
        forall|j: int| 0 <= j < at ==> targets[j] != handle,
    ensures
        position(targets, handle) == at,
{
    lemma_position(targets, handle);
}

/// Storing and loading with the same candidates gives the references back:
/// the indices that stand for a list of handles name those handles again.
pub proof fn lemma_image_round_trip(references: Seq<usize>, targets: Seq<usize>)
    requires
        all_indexable(references, targets),
    ensures
        resolvable(indices_of(references, targets), targets),
        resolved(indices_of(references, targets), targets) == references,
{
    assert forall|j: int| 0 <= j < references.len() implies (#[trigger] indices_of(
        references,
        targets,
    )[j]) < targets.len() && targets[indices_of(references, targets)[j] as int] == references[j] by {
        assert(indexable(targets, references[j]));
        lemma_position(targets, references[j]);
    }
    assert(resolved(indices_of(references, targets), targets) =~= references);
}

} // verus!
