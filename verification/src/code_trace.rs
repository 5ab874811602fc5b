//! The trace of a whole code object.

use crate::arena::{occupied, CodeArena};
use crate::atom::{lemma_pointer_fields, pointer_bits, Atom, R_PTR};
use crate::code::{Code, CodeError, CodeModel};
use crate::opcode_names::OpcodeNames;
use crate::text::{decimal_text, push_decimal};
use crate::trace::{context_after, next_context, trace_text, TraceContext};
use vstd::prelude::*;
use vstd::string::StringExecFns;

verus! {

/// A detail OID as it is written after an OID: in brackets, and not at all
/// if there is none.
pub open spec fn detail_suffix(detail_oid: Option<u64>) -> Seq<char> {
    match detail_oid {
        Some(detail) => "("@ + decimal_text(detail as nat) + ")"@,
        None => Seq::empty(),
    }
}

/// Whether a reference pointer with index `index` can be followed: the
/// object has that reference, and the arena has the object it names.
pub open spec fn resolves(index: u16, references: Seq<usize>, arena: Seq<Option<CodeModel>>) -> bool {
    index < references.len() && occupied(arena, references[index as int])
}

/// What the trace adds to an atom that it has read as a reference pointer:
/// an arrow and the OID of the object referred to, or a note that there is
/// none. Nothing is added to any other atom.
pub open spec fn reference_text(
    a: Atom,
    ctx: TraceContext,
    references: Seq<usize>,
    arena: Seq<Option<CodeModel>>,
) -> Seq<char> {
    if ctx.timestamp_data_ == 0 && a.descriptor() == R_PTR {
        if resolves(a.index(), references, arena) {
            let target = arena[references[a.index() as int] as int]->0;
            " -> "@ + decimal_text(target.oid as nat) + detail_suffix(target.detail_oid)
        } else {
            " (unassigned) "@
        }
    } else {
        Seq::empty()
    }
}

/// What the trace writes for atom `i` of an object, met in context `ctx`.
pub open spec fn at_text(
    code: CodeModel,
    i: int,
    arena: Seq<Option<CodeModel>>,
    ctx: TraceContext,
    names: Map<u16, Seq<char>>,
    number: Seq<char>,
) -> Seq<char>
    recommends
        0 <= i < code.code.len(),
{
    trace_text(code.code[i], ctx, names, number) + reference_text(
        code.code[i],
        ctx,
        code.references,
        arena,
    )
}

/// The text that stands for atom `i` as a number: entry `i` of `numbers`,
/// and nothing if the list is too short.
pub open spec fn number_at(numbers: Seq<String>, i: int) -> Seq<char> {
    if 0 <= i < numbers.len() {
        numbers[i]@
    } else {
        Seq::empty()
    }
}

/// Line `i` of the trace of an object: the index, a tab, the atom, a line
/// feed. The atom is read in the context that the atoms before it leave.
pub open spec fn line_text(
    code: CodeModel,
    i: int,
    arena: Seq<Option<CodeModel>>,
    names: Map<u16, Seq<char>>,
    numbers: Seq<String>,
) -> Seq<char>
    recommends
        0 <= i < code.code.len(),
{
    decimal_text(i as nat) + "\t"@ + at_text(
        code,
        i,
        arena,
        context_after(code.code.take(i), TraceContext::start()),
        names,
        number_at(numbers, i),
    ) + "\n"@
}

/// The first `n` lines of the trace of an object.
pub open spec fn lines_text(
    code: CodeModel,
    arena: Seq<Option<CodeModel>>,
    names: Map<u16, Seq<char>>,
    numbers: Seq<String>,
    n: nat,
) -> Seq<char>
    recommends
        n <= code.code.len(),
    decreases n,
{
    if n == 0 {
        Seq::empty()
    } else {
        lines_text(code, arena, names, numbers, (n - 1) as nat) + line_text(
            code,
            n - 1,
            arena,
            names,
            numbers,
        )
    }
}

/// The trace of an object: a line of dashes, a line for each atom, and a
/// line with the OID.
pub open spec fn object_text(
    code: CodeModel,
    arena: Seq<Option<CodeModel>>,
    names: Map<u16, Seq<char>>,
    numbers: Seq<String>,
) -> Seq<char> {
    "--------\n"@ + lines_text(code, arena, names, numbers, code.code.len()) + "OID: "@
        + decimal_text(code.oid as nat) + detail_suffix(code.detail_oid) + "\n"@
}

/// Whether the atoms of an object end while atoms that they announced are
/// still to come.
pub open spec fn ends_early(code: CodeModel) -> bool {
    context_after(code.code, TraceContext::start()).is_pending()
}

/// A detail OID in brackets, or nothing.
pub(crate) fn detail_string(detail_oid: Option<u64>) -> (text: String)
    ensures
        text@ == detail_suffix(detail_oid),
{
    let mut text = String::new();
    match detail_oid {
        Some(detail) => {
            text.append("(");
            push_decimal(&mut text, detail);
            text.append(")");
        },
        None => {},
    }
    text
}

/// What follows a reference pointer with index `index`.
fn reference_string<C: Code>(code: &C, index: u16, arena: &CodeArena) -> (text: String)
    ensures
        text@ == if resolves(index, code@.references, arena@) {
            let target = arena@[code@.references[index as int] as int]->0;
            " -> "@ + decimal_text(target.oid as nat) + detail_suffix(target.detail_oid)
        } else {
            " (unassigned) "@
        },
{
    let mut text = String::new();
    match code.get_reference(index) {
        Ok(handle) => match arena.get(handle) {
            Some(target) => {
                text.append(" -> ");
                push_decimal(&mut text, target.get_oid() as u64);
                text.append(detail_string(target.get_detail_oid()).as_str());
            },
            None => {
                text.append(" (unassigned) ");
            },
        },
        Err(_) => {
            text.append(" (unassigned) ");
        },
    }
    text
}

/// Writes atom `i` of `code` to `out` and moves `context` on.
///
/// The atom is written as `Atom::trace` writes it. If it was read as a
/// reference pointer, the OID of the object that it refers to follows, or
/// ` (unassigned) ` if the object has no such reference or the arena no such
/// object; the trace goes on either way. Fails with `OutOfRange`, writing
/// nothing, if the code has no index `i`.
pub fn trace_at<C: Code>(
    code: &C,
    i: u16,
    arena: &CodeArena,
    names: &OpcodeNames,
    number: &str,
    out: &mut String,
    context: &mut TraceContext,
) -> (r: Result<(), CodeError>)
    ensures
        i < code@.code.len() ==> r is Ok && final(out)@ == old(out)@ + at_text(
            code@,
            i as int,
            arena@,
            *old(context),
            names.names(),
            number@,
        ) && *final(context) == next_context(code@.code[i as int], *old(context)),
        i >= code@.code.len() ==> r == Err::<(), CodeError>(CodeError::OutOfRange) && final(out)@
            == old(out)@ && *final(context) == *old(context),
{
    let a = match code.code(i) {
        Ok(a) => a,
        Err(e) => {
            return Err(e);
        },
    };
    let read_by_descriptor = context.timestamp_data_ == 0;
    let mut text = String::new();
    a.trace(context, names, number, &mut text);
    if read_by_descriptor && a.getDescriptor() == R_PTR {
        text.append(reference_string(code, a.asIndex(), arena).as_str());
    }
    out.append(text.as_str());
    Ok(())
}

/// Writes the trace of `code` to `out`: a line of dashes, one line for each
/// atom with its index, and a line with the OID.
///
/// `numbers` holds, for each index, the atom there written as a number; an
/// entry is looked at only if that atom is printed as a number, and a
/// missing entry counts as empty.
///
/// Fails with `MalformedSequence`, writing nothing, if the code ends while
/// atoms that it announced are still to come: members of a header, blocks of
/// a string, or halves of a timestamp.
pub fn trace_out<C: Code>(
    code: &C,
    arena: &CodeArena,
    names: &OpcodeNames,
    numbers: &Vec<String>,
    out: &mut String,
) -> (r: Result<(), CodeError>)
    ensures
        !ends_early(code@) ==> r is Ok && final(out)@ == old(out)@ + object_text(
            code@,
            arena@,
            names.names(),
            numbers@,
        ),
        ends_early(code@) ==> r == Err::<(), CodeError>(CodeError::MalformedSequence) && final(out)@ == old(out)@,
{
    let mut text = String::new();
    text.append("--------\n");
    let mut context = TraceContext::default();
    let size = code.code_size();
    let mut i: u16 = 0;
    while i < size
        invariant
            size == code@.code.len(),
            i <= size,
            context == context_after(code@.code.take(i as int), TraceContext::start()),
            text@ == "--------\n"@ + lines_text(code@, arena@, names.names(), numbers@, i as nat),
        decreases size - i,
    {
        let mut line = String::new();
        push_decimal(&mut line, i as u64);
        line.append("\t");
        let number: &str = if (i as usize) < numbers.len() {
            numbers[i as usize].as_str()
        } else {
            proof {
                reveal_strlit("");
            }
            ""
        };
        let _ = trace_at(code, i, arena, names, number, &mut line, &mut context);
        line.append("\n");
        text.append(line.as_str());
        proof {
            assert(code@.code.take(i + 1).drop_last() =~= code@.code.take(i as int));
        }
        i += 1;
    }
    assert(code@.code.take(size as int) =~= code@.code);
    if context.members_to_go_ != 0 || context.timestamp_data_ != 0 || context.string_data_ != 0 {
        return Err(CodeError::MalformedSequence);
    }
    text.append("OID: ");
    push_decimal(&mut text, code.get_oid() as u64);
    text.append(detail_string(code.get_detail_oid()).as_str());
    text.append("\n");
    out.append(text.as_str());
    Ok(())
}

/// The trace of `code` as a string. See `trace_out`.
pub fn trace_string<C: Code>(
    code: &C,
    arena: &CodeArena,
    names: &OpcodeNames,
    numbers: &Vec<String>,
) -> (r: Result<String, CodeError>)
    ensures
        !ends_early(code@) ==> r is Ok && r->Ok_0@ == object_text(
            code@,
            arena@,
            names.names(),
            numbers@,
        ),
        ends_early(code@) ==> r == Err::<String, CodeError>(CodeError::MalformedSequence),
{
    let mut out = String::new();
    match trace_out(code, arena, names, numbers, &mut out) {
        Ok(()) => Ok(out),
        Err(e) => Err(e),
    }
}

/// Code objects that can be traced.
pub trait CodeTrace: Code {
    /// Writes atom `i` to `out`, using and moving on `context`. See the
    /// function `trace_at`.
    fn trace_at(
        &self,
        i: u16,
        arena: &CodeArena,
        names: &OpcodeNames,
        number: &str,
        out: &mut String,
        context: &mut TraceContext,
    ) -> (r: Result<(), CodeError>)
        ensures
            i < self@.code.len() ==> r is Ok && final(out)@ == old(out)@ + at_text(
                self@,
                i as int,
                arena@,
                *old(context),
                names.names(),
                number@,
            ) && *final(context) == next_context(self@.code[i as int], *old(context)),
            i >= self@.code.len() ==> r == Err::<(), CodeError>(CodeError::OutOfRange) && final(out)@ == old(out)@ && *final(context) == *old(context),
    ;

    /// Writes the trace of this object to `out`. See the function
    /// `trace_out`.
    fn trace_out(
        &self,
        arena: &CodeArena,
        names: &OpcodeNames,
        numbers: &Vec<String>,
        out: &mut String,
    ) -> (r: Result<(), CodeError>)
        ensures
            !ends_early(self@) ==> r is Ok && final(out)@ == old(out)@ + object_text(
                self@,
                arena@,
                names.names(),
                numbers@,
            ),
            ends_early(self@) ==> r == Err::<(), CodeError>(CodeError::MalformedSequence) && final(out)@ == old(out)@,
    ;

    /// The trace of this object as a string.
    fn trace_string(&self, arena: &CodeArena, names: &OpcodeNames, numbers: &Vec<String>) -> (r:
        Result<String, CodeError>)
        ensures
            !ends_early(self@) ==> r is Ok && r->Ok_0@ == object_text(
                self@,
                arena@,
                names.names(),
                numbers@,
            ),
            ends_early(self@) ==> r == Err::<String, CodeError>(CodeError::MalformedSequence),
    ;
}

/// A reference pointer to the last reference of an object is traced with
/// the OID of the object that this reference names.
///
/// The pointer is met where no timestamp half is expected, the object has
/// `k` references, and the arena holds the object that the last of them
/// names. The trace then writes the pointer with its index `k - 1`, an arrow
/// and that OID, and leaves the context as the indentation left it. A pointer
/// holds 12 bits of index, so `k` is at most 4096 here.
pub proof fn lemma_last_reference_resolves(
    code: CodeModel,
    i: int,
    arena: Seq<Option<CodeModel>>,
    ctx: TraceContext,
    names: Map<u16, Seq<char>>,
    number: Seq<char>,
)
    requires
        0 <= i < code.code.len(),
        1 <= code.references.len() <= 4096,
        code.code[i].atom_ == pointer_bits(R_PTR, (code.references.len() - 1) as u16),
        occupied(arena, code.references.last()),
        ctx.timestamp_data_ == 0,
    ensures
        at_text(code, i, arena, ctx, names, number) == ctx.indent_text() + "rptr: "@
            + decimal_text((code.references.len() - 1) as nat) + " -> "@ + decimal_text(
            arena[code.references.last() as int]->0.oid as nat,
        ) + detail_suffix(arena[code.references.last() as int]->0.detail_oid),
        next_context(code.code[i], ctx) == ctx.after_indent(),
{
    let index = (code.references.len() - 1) as u16;
    lemma_pointer_fields(R_PTR, index);
}

/// A reference pointer past the last reference of an object is traced as
/// unassigned, and the trace goes on as after any other pointer.
///
/// The pointer is met where no timestamp half is expected, and the object
/// has `k` references. The trace then writes the pointer with its index `k`
/// and the note ` (unassigned) `, and leaves the context as the indentation
/// left it, as it does for a pointer that resolves.
pub proof fn lemma_missing_reference_is_unassigned(
    code: CodeModel,
    i: int,
    arena: Seq<Option<CodeModel>>,
    ctx: TraceContext,
    names: Map<u16, Seq<char>>,
    number: Seq<char>,
)
    requires
        0 <= i < code.code.len(),
        code.references.len() < 4096,
        code.code[i].atom_ == pointer_bits(R_PTR, code.references.len() as u16),
        ctx.timestamp_data_ == 0,
    ensures
        at_text(code, i, arena, ctx, names, number) == ctx.indent_text() + "rptr: "@
            + decimal_text(code.references.len()) + " (unassigned) "@,
        next_context(code.code[i], ctx) == ctx.after_indent(),
{
    let index = code.references.len() as u16;
    lemma_pointer_fields(R_PTR, index);
}

} // verus!
