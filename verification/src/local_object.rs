//! The code object that lives in this process.

use crate::atom::Atom;
use crate::arena::CodeArena;
use crate::code::{max_size, resized, Code, CodeError, CodeModel, DetailOids};
use crate::code_trace::CodeTrace;
use crate::opcode_names::OpcodeNames;
use crate::sys_object::{
    all_indexable, indexable, indices_of, lemma_position, lemma_position_is_first, position,
    resolvable, resolved, SysObject,
};
use crate::trace::TraceContext;
use vstd::prelude::*;

verus! {

/// A code object held in memory: an OID, atoms, and references to other
/// objects by their handles.
pub struct LocalObject {
    oid_: u32,
    code_: Vec<Atom>,
    references_: Vec<usize>,
    detail_oid_: Option<u64>,
}

impl View for LocalObject {
    type V = CodeModel;

    closed spec fn view(&self) -> CodeModel {
        CodeModel {
            oid: self.oid_,
            detail_oid: self.detail_oid_,
            code: self.code_@,
            references: self.references_@,
        }
    }
}

impl LocalObject {
    #[verifier::type_invariant]
    spec fn sizes_fit(self) -> bool {
        self.code_@.len() <= max_size() && self.references_@.len() <= max_size()
    }

    /// An empty object with OID zero, and with the next detail OID of the
    /// counter if the counter hands one out.
    pub fn new(counter: &mut DetailOids) -> (object: LocalObject)
        ensures
            object@.oid == 0,
            object@.code == Seq::<Atom>::empty(),
            object@.references == Seq::<usize>::empty(),
            final(counter).enabled() == old(counter).enabled(),
            old(counter).assigns() ==> object@.detail_oid == Some(old(counter).next()) && final(counter).next() == old(counter).next() + 1,
            !old(counter).assigns() ==> object@.detail_oid is None && final(counter).next() == old(counter).next(),
    {
        let detail_oid = counter.assign();
        LocalObject { oid_: 0, code_: Vec::new(), references_: Vec::new(), detail_oid_: detail_oid }
    }
}

impl LocalObject {
    /// Takes the code of an image over as it is, and sets the references to
    /// the handles that the indices of the image name among `targets`.
    ///
    /// Fails, changing nothing, with `OutOfRange` if the image has more
    /// atoms or references than 16 bits count, and else with
    /// `UnresolvedReference` if one of its indices names no target.
    pub fn load(&mut self, source: &SysObject, targets: &[usize]) -> (r: Result<(), CodeError>)
        ensures
            !source.fits() ==> r == Err::<(), CodeError>(CodeError::OutOfRange),
            source.fits() && !resolvable(source.references_@, targets@) ==> r == Err::<
                (),
                CodeError,
            >(CodeError::UnresolvedReference),
            r is Err ==> final(self)@ == old(self)@,
            source.fits() && resolvable(source.references_@, targets@) ==> r is Ok && final(self)@
                == (CodeModel {
                code: source.code_@,
                references: resolved(source.references_@, targets@),
                ..old(self)@
            }),
    {
        proof {
            use_type_invariant(&*self);
        }
        if source.code_.len() > 0xFFFF || source.references_.len() > 0xFFFF {
            return Err(CodeError::OutOfRange);
        }
        let mut references: Vec<usize> = Vec::new();
        let mut j: usize = 0;
        while j < source.references_.len()
            invariant
                source.fits(),
                j <= source.references_@.len(),
                references@.len() == j,
                forall|k: int| 0 <= k < j ==> (#[trigger] source.references_@[k]) < targets@.len(),
                forall|k: int|
                    0 <= k < j ==> #[trigger] references@[k] == targets@[source.references_@[k] as int],
            decreases source.references_@.len() - j,
        {
            let index = source.references_[j] as usize;
            if index >= targets.len() {
                return Err(CodeError::UnresolvedReference);
            }
            references.push(targets[index]);
            j += 1;
        }
        let mut code: Vec<Atom> = Vec::new();
        let mut i: usize = 0;
        while i < source.code_.len()
            invariant
                i <= source.code_@.len(),
                code@ == source.code_@.take(i as int),
            decreases source.code_@.len() - i,
        {
            code.push(source.code_[i]);
            i += 1;
        }
        assert(code@ =~= source.code_@);
        assert(references@ =~= resolved(source.references_@, targets@));
        self.code_ = code;
        self.references_ = references;
        Ok(())
    }

    /// The image of this object: its code as it is, and for each reference
    /// the first place at which its handle stands among `targets`.
    ///
    /// Fails with `UnresolvedReference` if a handle does not stand among the
    /// first 65536 targets.
    pub fn extract(&self, targets: &[usize]) -> (r: Result<SysObject, CodeError>)
        ensures
            all_indexable(self@.references, targets@) ==> r is Ok && r->Ok_0.code_@ == self@.code
                && r->Ok_0.references_@ == indices_of(self@.references, targets@),
            !all_indexable(self@.references, targets@) ==> r == Err::<SysObject, CodeError>(
                CodeError::UnresolvedReference,
            ),
    {
        let mut indices: Vec<u16> = Vec::new();
        let mut j: usize = 0;
        while j < self.references_.len()
            invariant
                j <= self.references_@.len(),
                indices@.len() == j,
                forall|k: int| 0 <= k < j ==> indexable(targets@, #[trigger] self.references_@[k]),
                forall|k: int|
                    0 <= k < j ==> #[trigger] indices@[k] == position(
                        targets@,
                        self.references_@[k],
                    ),
            decreases self.references_@.len() - j,
        {
            let handle = self.references_[j];
            let mut at: usize = 0;
            while at < targets.len() && at <= 0xFFFF && targets[at] != handle
                invariant
                    at <= targets@.len(),
                    forall|k: int| 0 <= k < at ==> targets@[k] != handle,
                decreases targets@.len() - at,
            {
                at += 1;
            }
            proof {
                lemma_position(targets@, handle);
                if at < targets@.len() && at <= 0xFFFF {
                    lemma_position_is_first(targets@, handle, at as int);
                }
            }
            if at >= targets.len() || at > 0xFFFF {
                return Err(CodeError::UnresolvedReference);
            }
            indices.push(at as u16);
            j += 1;
        }
        let mut code: Vec<Atom> = Vec::new();
        let mut i: usize = 0;
        while i < self.code_.len()
            invariant
                i <= self.code_@.len(),
                code@ == self.code_@.take(i as int),
            decreases self.code_@.len() - i,
        {
            code.push(self.code_[i]);
            i += 1;
        }
        Ok(SysObject { code_: code, references_: indices })
    }
}

impl Default for LocalObject {
    /// An empty object with OID zero and without a detail OID.
    fn default() -> (object: LocalObject)
        ensures
            object@ == (CodeModel {
                oid: 0,
                detail_oid: None,
                code: Seq::empty(),
                references: Seq::empty(),
            }),
    {
        LocalObject { oid_: 0, code_: Vec::new(), references_: Vec::new(), detail_oid_: None }
    }
}

impl Code for LocalObject {
    fn get_detail_oid(&self) -> (detail_oid: Option<u64>) {
        self.detail_oid_
    }

    fn set_detail_oid(&mut self, detail_oid: u64, counter: &mut DetailOids) {
        proof {
            use_type_invariant(&*self);
        }
        if counter.is_enabled() {
            self.detail_oid_ = Some(detail_oid);
            counter.advance_past(detail_oid);
        }
    }

    fn get_oid(&self) -> (oid: u32) {
        self.oid_
    }

    fn set_oid(&mut self, oid: u32) {
        proof {
            use_type_invariant(&*self);
        }
        self.oid_ = oid;
    }

    fn code(&self, i: u16) -> (r: Result<Atom, CodeError>) {
        if (i as usize) < self.code_.len() {
            Ok(self.code_[i as usize])
        } else {
            Err(CodeError::OutOfRange)
        }
    }

    fn set_code(&mut self, i: u16, a: Atom) {
        if i >= self.code_size() {
            self.resize_code(i + 1);
        }
        proof {
            use_type_invariant(&*self);
        }
        let mut code: Vec<Atom> = Vec::new();
        std::mem::swap(&mut self.code_, &mut code);
        code.set(i as usize, a);
        std::mem::swap(&mut self.code_, &mut code);
    }

    fn code_size(&self) -> (size: u16) {
        proof {
            use_type_invariant(self);
        }
        self.code_.len() as u16
    }

    fn resize_code(&mut self, new_size: u16) {
        proof {
            use_type_invariant(&*self);
        }
        let size = new_size as usize;
        let mut code: Vec<Atom> = Vec::new();
        std::mem::swap(&mut self.code_, &mut code);
        code.truncate(size);
        while code.len() < size
            invariant
                code@.len() <= size,
                code@.len() < size ==> code@.len() >= old(self).code_@.len(),
                code@ =~= resized(old(self).code_@, code@.len()),
            decreases size - code.len(),
        {
            code.push(Atom::default());
        }
        std::mem::swap(&mut self.code_, &mut code);
    }

    fn set_reference(&mut self, i: u16, object: usize) -> (r: Result<(), CodeError>) {
        proof {
            use_type_invariant(&*self);
        }
        if (i as usize) < self.references_.len() {
            let mut references: Vec<usize> = Vec::new();
            std::mem::swap(&mut self.references_, &mut references);
            references.set(i as usize, object);
            std::mem::swap(&mut self.references_, &mut references);
            Ok(())
        } else {
            Err(CodeError::OutOfRange)
        }
    }

    fn get_reference(&self, i: u16) -> (r: Result<usize, CodeError>) {
        if (i as usize) < self.references_.len() {
            Ok(self.references_[i as usize])
        } else {
            Err(CodeError::OutOfRange)
        }
    }

    fn references_size(&self) -> (size: u16) {
        proof {
            use_type_invariant(self);
        }
        self.references_.len() as u16
    }

    fn clear_references(&mut self) {
        proof {
            use_type_invariant(&*self);
        }
        self.references_ = Vec::new();
    }
}

impl CodeTrace for LocalObject {
    fn trace_at(
        &self,
        i: u16,
        arena: &CodeArena,
        names: &OpcodeNames,
        number: &str,
        out: &mut String,
        context: &mut TraceContext,
    ) -> (r: Result<(), CodeError>) {
        crate::code_trace::trace_at(self, i, arena, names, number, out, context)
    }

    fn trace_out(
        &self,
        arena: &CodeArena,
        names: &OpcodeNames,
        numbers: &Vec<String>,
        out: &mut String,
    ) -> (r: Result<(), CodeError>) {
        crate::code_trace::trace_out(self, arena, names, numbers, out)
    }

    fn trace_string(&self, arena: &CodeArena, names: &OpcodeNames, numbers: &Vec<String>) -> (r:
        Result<String, CodeError>) {
        crate::code_trace::trace_string(self, arena, names, numbers)
    }
}

} // verus!
