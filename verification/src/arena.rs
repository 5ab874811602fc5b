//! The arena: the owner of all code objects.
//!
//! Objects refer to each other by handle, not by pointer, so that they can
//! form cycles. A handle is the number of the slot in which the arena keeps
//! an object. Handles are given out in rising order and never twice.
//!
//! No object is dropped by hand. The arena drops, on request, every object
//! that cannot be reached from a set of roots by following references; what
//! can be reached by anyone who holds a root stays.

use crate::code::{Code, CodeError, CodeModel};
use crate::local_object::LocalObject;
use vstd::prelude::*;

verus! {

/// Whether a handle names an object: the arena has given it out and has
/// not dropped the object since.
pub open spec fn occupied(arena: Seq<Option<CodeModel>>, handle: usize) -> bool {
    handle < arena.len() && arena[handle as int] is Some
}

/// Whether the object at `from` holds a reference to the object at `to`.
pub open spec fn refers(arena: Seq<Option<CodeModel>>, from: usize, to: usize) -> bool {
    occupied(arena, from) && occupied(arena, to) && arena[from as int]->0.references.contains(to)
}

/// Whether `path` leads from a root along references: it starts at a root
/// that names an object, and each of its objects refers to the next.
pub open spec fn is_path(arena: Seq<Option<CodeModel>>, roots: Seq<usize>, path: Seq<usize>) -> bool {
    &&& path.len() > 0
    &&& roots.contains(path[0])
    &&& occupied(arena, path[0])
    &&& forall|i: int| 0 <= i < path.len() - 1 ==> refers(arena, #[trigger] path[i], path[i + 1])
}

/// Whether the object at `handle` can be reached from the roots.
pub open spec fn reachable(arena: Seq<Option<CodeModel>>, roots: Seq<usize>, handle: usize) -> bool {
    exists|path: Seq<usize>| is_path(arena, roots, path) && path.last() == handle
}

/// How many entries of `marks` are false.
pub open spec fn unmarked(marks: Seq<bool>) -> nat
    decreases marks.len(),
{
    if marks.len() == 0 {
        0
    } else if marks.last() {
        unmarked(marks.drop_last())
    } else {
        unmarked(marks.drop_last()) + 1
    }
}

proof fn lemma_mark(marks: Seq<bool>, i: int)
    requires
        0 <= i < marks.len(),
        !marks[i],
    ensures
        unmarked(marks.update(i, true)) + 1 == unmarked(marks),
    decreases marks.len(),
{
    let after = marks.update(i, true);
    if i == marks.len() - 1 {
        assert(after.drop_last() =~= marks.drop_last());
    } else {
        lemma_mark(marks.drop_last(), i);
        assert(after.drop_last() =~= marks.drop_last().update(i, true));
    }
}

/// A root that names an object can be reached.
pub proof fn lemma_root_is_reachable(arena: Seq<Option<CodeModel>>, roots: Seq<usize>, i: int)
    requires
        0 <= i < roots.len(),
        occupied(arena, roots[i]),
    ensures
        reachable(arena, roots, roots[i]),
{
    let path = seq![roots[i]];
    assert(is_path(arena, roots, path));
    assert(path.last() == roots[i]);
}

/// What an object that can be reached refers to can be reached as well.
pub proof fn lemma_reference_is_reachable(
    arena: Seq<Option<CodeModel>>,
    roots: Seq<usize>,
    from: usize,
    to: usize,
)
    requires
        reachable(arena, roots, from),
        refers(arena, from, to),
    ensures
        reachable(arena, roots, to),
{
    let path = choose|path: Seq<usize>| is_path(arena, roots, path) && path.last() == from;
    let longer = path.push(to);
    assert forall|i: int| 0 <= i < longer.len() - 1 implies refers(
        arena,
        #[trigger] longer[i],
        longer[i + 1],
    ) by {
        if i < path.len() - 1 {
            assert(refers(arena, path[i], path[i + 1]));
        }
    }
    assert(is_path(arena, roots, longer));
    assert(longer.last() == to);
}

/// Whether `marks` holds the roots and, with each object, what it refers to.
pub open spec fn closed_marks(arena: Seq<Option<CodeModel>>, roots: Seq<usize>, marks: Seq<bool>) -> bool {
    &&& marks.len() == arena.len()
    &&& forall|i: int|
        0 <= i < roots.len() && occupied(arena, #[trigger] roots[i]) ==> marks[roots[i] as int]
    &&& forall|from: usize, to: usize|
        from < marks.len() && marks[from as int] && #[trigger] refers(arena, from, to)
            ==> marks[to as int]
}

proof fn lemma_closed_marks_hold_paths(
    arena: Seq<Option<CodeModel>>,
    roots: Seq<usize>,
    marks: Seq<bool>,
    path: Seq<usize>,
)
    requires
        closed_marks(arena, roots, marks),
        is_path(arena, roots, path),
    ensures
        path.last() < marks.len(),
        marks[path.last() as int],
    decreases path.len(),
{
    if path.len() == 1 {
        let i = choose|i: int| 0 <= i < roots.len() && roots[i] == path[0];
        assert(occupied(arena, roots[i]));
    } else {
        let shorter = path.drop_last();
        assert forall|i: int| 0 <= i < shorter.len() - 1 implies refers(
            arena,
            #[trigger] shorter[i],
            shorter[i + 1],
        ) by {
            assert(refers(arena, path[i], path[i + 1]));
        }
        assert(is_path(arena, roots, shorter));
        lemma_closed_marks_hold_paths(arena, roots, marks, shorter);
        assert(refers(arena, path[path.len() - 2], path[path.len() - 2 + 1]));
    }
}

/// A growing store of code objects. Its view is the sequence of its slots;
/// a slot holds the model of its object, or nothing once the object has been
/// dropped. The handle of an object is the index of its slot.
pub struct CodeArena {
    slots_: Vec<Option<LocalObject>>,
}

impl View for CodeArena {
    type V = Seq<Option<CodeModel>>;

    closed spec fn view(&self) -> Seq<Option<CodeModel>> {
        Seq::new(
            self.slots_@.len(),
            |i: int|
                match self.slots_@[i] {
                    Some(object) => Some(object@),
                    None => None,
                },
        )
    }
}

impl CodeArena {
    /// An arena without objects.
    pub fn new() -> (arena: CodeArena)
        ensures
            arena@ == Seq::<Option<CodeModel>>::empty(),
    {
        CodeArena { slots_: Vec::new() }
    }

    /// The number of handles given out, which is also the next handle.
    pub fn size(&self) -> (size: usize)
        ensures
            size == self@.len(),
    {
        self.slots_.len()
    }

    /// Takes an object in and returns its handle. The objects that are
    /// there keep theirs.
    pub fn add(&mut self, object: LocalObject) -> (handle: usize)
        ensures
            handle == old(self)@.len(),
            final(self)@ == old(self)@.push(Some(object@)),
    {
        let handle = self.slots_.len();
        self.slots_.push(Some(object));
        handle
    }

    /// The object that a handle names, if it names one.
    pub fn get(&self, handle: usize) -> (object: Option<&LocalObject>)
        ensures
            occupied(self@, handle) ==> object is Some && Some(object->0@) == self@[handle as int],
            !occupied(self@, handle) ==> object is None,
    {
        if handle < self.slots_.len() {
            self.slots_[handle].as_ref()
        } else {
            None
        }
    }

    /// Puts `object` into the slot of a handle. The other slots stay as
    /// they are; what referred to the handle now refers to `object`. Fails
    /// with `OutOfRange`, changing nothing, if the arena has not given that
    /// handle out.
    pub fn put(&mut self, handle: usize, object: LocalObject) -> (r: Result<(), CodeError>)
        ensures
            handle < old(self)@.len() ==> r is Ok && final(self)@ == old(self)@.update(
                handle as int,
                Some(object@),
            ),
            handle >= old(self)@.len() ==> r == Err::<(), CodeError>(CodeError::OutOfRange)
                && final(self)@ == old(self)@,
    {
        if handle < self.slots_.len() {
            self.slots_.set(handle, Some(object));
            Ok(())
        } else {
            Err(CodeError::OutOfRange)
        }
    }

    /// Marks `to` and notes it for a visit, if it names an object that is
    /// not marked yet.
    fn visit(&self, to: usize, marks: &mut Vec<bool>, pending: &mut Vec<usize>)
        requires
            old(marks)@.len() == self@.len(),
        ensures
            final(marks)@.len() == self@.len(),
            occupied(self@, to) && !old(marks)@[to as int] ==> final(marks)@ == old(marks)@.update(
                to as int,
                true,
            ) && final(pending)@ == old(pending)@.push(to) && unmarked(final(marks)@) + 1
                == unmarked(old(marks)@),
            !(occupied(self@, to) && !old(marks)@[to as int]) ==> final(marks)@ == old(marks)@
                && final(pending)@ == old(pending)@,
    {
        if to < self.slots_.len() && self.slots_[to].is_some() && !marks[to] {
            proof {
                lemma_mark(marks@, to as int);
            }
            marks.set(to, true);
            pending.push(to);
        }
    }

    /// Which objects can be reached from the roots by following
    /// references: entry `h` of the result says so of the object at handle
    /// `h`. A root or a reference that names no object leads nowhere.
    pub fn reachable_from(&self, roots: &[usize]) -> (marks: Vec<bool>)
        ensures
            marks@.len() == self@.len(),
            forall|handle: usize|
                handle < self@.len() ==> (marks@[handle as int] <==> reachable(
                    self@,
                    roots@,
                    handle,
                )),
    {
        let n = self.slots_.len();
        let mut marks: Vec<bool> = Vec::new();
        while marks.len() < n
            invariant
                n == self@.len(),
                marks@.len() <= n,
                forall|i: int| 0 <= i < marks@.len() ==> !marks@[i],
            decreases n - marks.len(),
        {
            marks.push(false);
        }
        let mut pending: Vec<usize> = Vec::new();
        let mut r: usize = 0;
        while r < roots.len()
            invariant
                n == self@.len(),
                marks@.len() == n,
                r <= roots@.len(),
                forall|i: int|
                    0 <= i < pending@.len() ==> occupied(self@, #[trigger] pending@[i])
                        && marks@[pending@[i] as int],
                forall|h: usize| h < n && #[trigger] marks@[h as int] ==> reachable(self@, roots@, h),
                forall|h: usize| h < n && #[trigger] marks@[h as int] ==> pending@.contains(h),
                forall|i: int|
                    0 <= i < r && occupied(self@, #[trigger] roots@[i]) ==> marks@[roots@[i] as int],
            decreases roots@.len() - r,
        {
            let root = roots[r];
            let ghost before = pending@;
            let ghost marked = marks@;
            self.visit(root, &mut marks, &mut pending);
            proof {
                if occupied(self@, root) {
                    lemma_root_is_reachable(self@, roots@, r as int);
                }
                assert forall|h: usize| h < n && #[trigger] marks@[h as int] implies pending@.contains(
                    h,
                ) by {
                    if marked[h as int] {
                        let i = choose|i: int| 0 <= i < before.len() && before[i] == h;
                        assert(pending@[i] == h);
                    } else {
                        assert(pending@[pending@.len() - 1] == h);
                    }
                }
            }
            r += 1;
        }
        while pending.len() > 0
            invariant
                n == self@.len(),
                marks@.len() == n,
                forall|i: int|
                    0 <= i < pending@.len() ==> occupied(self@, #[trigger] pending@[i])
                        && marks@[pending@[i] as int],
                forall|h: usize| h < n && #[trigger] marks@[h as int] ==> reachable(self@, roots@, h),
                forall|i: int|
                    0 <= i < roots@.len() && occupied(self@, #[trigger] roots@[i])
                        ==> marks@[roots@[i] as int],
                forall|from: usize, to: usize|
                    from < n && marks@[from as int] && !pending@.contains(from) && #[trigger] refers(
                        self@,
                        from,
                        to,
                    ) ==> marks@[to as int],
            decreases 2 * unmarked(marks@) + pending@.len(),
        {
            let ghost stacked = pending@;
            let from = pending.pop().unwrap();
            assert(stacked =~= pending@.push(from));
            assert(occupied(self@, stacked[stacked.len() - 1]) && marks@[from as int]);
            let ghost budget = 2 * unmarked(marks@) + pending@.len();
            match self.get(from) {
                Some(object) => {
                    let count = object.references_size();
                    let mut j: u16 = 0;
                    while j < count
                        invariant
                            n == self@.len(),
                            marks@.len() == n,
                            from < n,
                            Some(object@) == self@[from as int],
                            count == object@.references.len(),
                            j <= count,
                            2 * unmarked(marks@) + pending@.len() <= budget,
                            forall|i: int|
                                0 <= i < pending@.len() ==> occupied(self@, #[trigger] pending@[i])
                                    && marks@[pending@[i] as int],
                            forall|h: usize|
                                h < n && #[trigger] marks@[h as int] ==> reachable(self@, roots@, h),
                            forall|i: int|
                                0 <= i < roots@.len() && occupied(self@, #[trigger] roots@[i])
                                    ==> marks@[roots@[i] as int],
                            forall|other: usize, to: usize|
                                other < n && other != from && marks@[other as int]
                                    && !pending@.contains(other) && #[trigger] refers(
                                    self@,
                                    other,
                                    to,
                                ) ==> marks@[to as int],
                            marks@[from as int],
                            forall|i: int|
                                0 <= i < j && occupied(self@, #[trigger] object@.references[i])
                                    ==> marks@[object@.references[i] as int],
                        decreases count - j,
                    {
                        let to = match object.get_reference(j) {
                            Ok(to) => to,
                            Err(_) => 0,
                        };
                        let ghost before = pending@;
                        let ghost marked = marks@;
                        self.visit(to, &mut marks, &mut pending);
                        proof {
                            if occupied(self@, to) {
                                assert(object@.references[j as int] == to);
                                assert(refers(self@, from, to));
                                lemma_reference_is_reachable(self@, roots@, from, to);
                            }
                            assert forall|other: usize, target: usize|
                                other < n && other != from && marks@[other as int]
                                    && !pending@.contains(other) && #[trigger] refers(
                                    self@,
                                    other,
                                    target,
                                ) implies marks@[target as int] by {
                                if !marked[other as int] {
                                    assert(pending@[pending@.len() - 1] == other);
                                }
                                if before.contains(other) {
                                    let i = choose|i: int| 0 <= i < before.len() && before[i] == other;
                                    assert(pending@[i] == other);
                                }
                            }
                        }
                        j += 1;
                    }
                    proof {
                        assert forall|to: usize| #[trigger]
                            refers(self@, from, to) implies marks@[to as int] by {
                            let i = choose|i: int|
                                0 <= i < object@.references.len() && object@.references[i] == to;
                            assert(occupied(self@, object@.references[i]));
                        }
                    }
                },
                None => {},
            }
        }
        proof {
            assert(pending@ =~= Seq::<usize>::empty());
            assert(closed_marks(self@, roots@, marks@));
            assert forall|handle: usize| handle < self@.len() && reachable(
                self@,
                roots@,
                handle,
            ) implies marks@[handle as int] by {
                let path = choose|path: Seq<usize>|
                    is_path(self@, roots@, path) && path.last() == handle;
                lemma_closed_marks_hold_paths(self@, roots@, marks@, path);
            }
        }
        marks
    }

    /// Drops every object that cannot be reached from the roots. What can
    /// be reached stays as it is, under its handle; no handle is given out
    /// again.
    pub fn collect(&mut self, roots: &[usize])
        ensures
            final(self)@.len() == old(self)@.len(),
            forall|handle: usize|
                handle < old(self)@.len() ==> #[trigger] final(self)@[handle as int] == if reachable(
                    old(self)@,
                    roots@,
                    handle,
                ) {
                    old(self)@[handle as int]
                } else {
                    None::<CodeModel>
                },
    {
        let marks = self.reachable_from(roots);
        let n = self.slots_.len();
        let mut handle: usize = 0;
        while handle < n
            invariant
                n == old(self)@.len(),
                self@.len() == n,
                marks@.len() == n,
                handle <= n,
                forall|h: usize|
                    h < n ==> (marks@[h as int] <==> reachable(old(self)@, roots@, h)),
                forall|h: usize|
                    h < handle ==> #[trigger] self@[h as int] == if marks@[h as int] {
                        old(self)@[h as int]
                    } else {
                        None::<CodeModel>
                    },
                forall|h: usize| handle <= h < n ==> #[trigger] self@[h as int] == old(self)@[h as int],
            decreases n - handle,
        {
            if !marks[handle] {
                let ghost before = self@;
                self.slots_.set(handle, None);
                assert(self@ =~= before.update(handle as int, None::<CodeModel>));
            }
            handle += 1;
        }
    }
}

} // verus!
