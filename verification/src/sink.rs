//! The trace as bytes, for sinks that take bytes.
//!
//! The characters of a packed string go out one byte each, as they came in,
//! whether or not these bytes are valid UTF-8. Everything else is text and
//! goes out as UTF-8.

use crate::arena::CodeArena;
use crate::atom::Atom;
use crate::code::{Code, CodeError, CodeModel};
use crate::code_trace::{at_text, detail_suffix, ends_early, number_at, trace_at};
use crate::opcode_names::OpcodeNames;
use crate::payload::le_bytes;
use crate::text::{decimal_text, push_decimal};
use crate::trace::{
    block_chars, block_text, context_after, next_context, shape_of, trace_shape, trace_text,
    TraceContext, TraceShape,
};
use vstd::prelude::*;
use vstd::string::{StrSliceExecFns, StringExecFns};
use vstd::utf8::encode_utf8;

verus! {

/// Whether an atom met in context `ctx` is read as a block of a string:
/// no timestamp half is expected, a string is being read, and the atom has
/// no descriptor that the trace knows.
pub open spec fn reads_block(a: Atom, ctx: TraceContext) -> bool {
    ctx.timestamp_data_ == 0 && ctx.string_data_ != 0 && shape_of(a.descriptor())
        == TraceShape::Payload
}

/// Characters as bytes, one byte for each: the low eight bits of its code.
pub open spec fn one_byte_each(text: Seq<char>) -> Seq<u8> {
    Seq::new(text.len(), |i: int| text[i] as u8)
}

/// The bytes that stand for a piece of the trace: one byte for each
/// character if the piece is a block of a string, and UTF-8 if it is not.
pub open spec fn sink_bytes(text: Seq<char>, block: bool) -> Seq<u8> {
    if block {
        one_byte_each(text)
    } else {
        encode_utf8(text)
    }
}

/// The bytes of line `i` of the trace of an object.
pub open spec fn line_bytes(
    code: CodeModel,
    i: int,
    arena: Seq<Option<CodeModel>>,
    names: Map<u16, Seq<char>>,
    numbers: Seq<String>,
) -> Seq<u8>
    recommends
        0 <= i < code.code.len(),
{
    let ctx = context_after(code.code.take(i), TraceContext::start());
    encode_utf8(decimal_text(i as nat) + "\t"@) + sink_bytes(
        at_text(code, i, arena, ctx, names, number_at(numbers, i)),
        reads_block(code.code[i], ctx),
    ) + encode_utf8("\n"@)
}

/// The bytes of the first `n` lines of the trace of an object.
pub open spec fn lines_bytes(
    code: CodeModel,
    arena: Seq<Option<CodeModel>>,
    names: Map<u16, Seq<char>>,
    numbers: Seq<String>,
    n: nat,
) -> Seq<u8>
    recommends
        n <= code.code.len(),
    decreases n,
{
    if n == 0 {
        Seq::empty()
    } else {
        lines_bytes(code, arena, names, numbers, (n - 1) as nat) + line_bytes(
            code,
            n - 1,
            arena,
            names,
            numbers,
        )
    }
}

/// The bytes of the trace of an object: the line of dashes, the lines of
/// the atoms, and the line with the OID.
pub open spec fn object_bytes(
    code: CodeModel,
    arena: Seq<Option<CodeModel>>,
    names: Map<u16, Seq<char>>,
    numbers: Seq<String>,
) -> Seq<u8> {
    encode_utf8("--------\n"@) + lines_bytes(code, arena, names, numbers, code.code.len())
        + encode_utf8(
        "OID: "@ + decimal_text(code.oid as nat) + detail_suffix(code.detail_oid) + "\n"@,
    )
}

/// A block of a string goes out as the bytes that the cell holds: after the
/// indentation, which is plain spaces, the first bytes of the cell, lowest
/// first, as many as characters are still to come and at most four.
pub proof fn lemma_block_bytes(
    a: Atom,
    ctx: TraceContext,
    names: Map<u16, Seq<char>>,
    number: Seq<char>,
)
    requires
        reads_block(a, ctx),
    ensures
        sink_bytes(trace_text(a, ctx, names, number), true) == one_byte_each(ctx.indent_text())
            + le_bytes(a.atom_).take(block_chars(ctx.char_count_) as int),
{
    let count = block_chars(ctx.char_count_);
    assert(one_byte_each(block_text(a.atom_, count)) =~= le_bytes(a.atom_).take(count as int));
    assert(trace_text(a, ctx, names, number) =~= ctx.indent_text() + block_text(a.atom_, count));
    assert(one_byte_each(ctx.indent_text() + block_text(a.atom_, count)) =~= one_byte_each(
        ctx.indent_text(),
    ) + one_byte_each(block_text(a.atom_, count)));
}

/// Whether an atom met in `context` is read as a block of a string.
pub fn reads_as_block(a: &Atom, context: &TraceContext) -> (block: bool)
    ensures
        block == reads_block(*a, *context),
{
    context.timestamp_data_ == 0 && context.string_data_ != 0 && trace_shape(a.getDescriptor())
        == TraceShape::Payload
}

/// Appends a piece of the trace to `out` as bytes.
fn push_sink_bytes(out: &mut Vec<u8>, text: &str, block: bool)
    ensures
        final(out)@ == old(out)@ + sink_bytes(text@, block),
{
    if block {
        let n = text.unicode_len();
        let mut i: usize = 0;
        while i < n
            invariant
                n == text@.len(),
                i <= n,
                out@ == old(out)@ + one_byte_each(text@.take(i as int)),
            decreases n - i,
        {
            let c = text.get_char(i);
            out.push(c as u8);
            assert(out@ =~= old(out)@ + one_byte_each(text@.take(i + 1)));
            i += 1;
        }
        assert(text@.take(n as int) =~= text@);
    } else {
        let mut bytes = text.as_bytes_vec();
        out.append(&mut bytes);
    }
}

impl Atom {
    /// Writes this atom to `out` as bytes and moves `context` on to the
    /// next atom. The text is that of `trace`. A block of a string goes out
    /// one byte for each character; anything else goes out as UTF-8.
    pub fn trace_bytes(
        &self,
        context: &mut TraceContext,
        names: &OpcodeNames,
        number: &str,
        out: &mut Vec<u8>,
    )
        ensures
            final(out)@ == old(out)@ + sink_bytes(
                trace_text(*self, *old(context), names.names(), number@),
                reads_block(*self, *old(context)),
            ),
            *final(context) == next_context(*self, *old(context)),
    {
        let block = reads_as_block(self, context);
        let mut text = String::new();
        self.trace(context, names, number, &mut text);
        push_sink_bytes(out, text.as_str(), block);
    }
}

/// Writes atom `i` of `code` to `out` as bytes and moves `context` on. The
/// text is that of `trace_at`. A block of a string goes out one byte for
/// each character; anything else goes out as UTF-8. Fails with `OutOfRange`,
/// writing nothing, if the code has no index `i`.
pub fn trace_at_bytes<C: Code>(
    code: &C,
    i: u16,
    arena: &CodeArena,
    names: &OpcodeNames,
    number: &str,
    out: &mut Vec<u8>,
    context: &mut TraceContext,
) -> (r: Result<(), CodeError>)
    ensures
        i < code@.code.len() ==> r is Ok && final(out)@ == old(out)@ + sink_bytes(
            at_text(code@, i as int, arena@, *old(context), names.names(), number@),
            reads_block(code@.code[i as int], *old(context)),
        ) && *final(context) == next_context(code@.code[i as int], *old(context)),
        i >= code@.code.len() ==> r == Err::<(), CodeError>(CodeError::OutOfRange) && final(out)@
            == old(out)@ && *final(context) == *old(context),
{
    let a = match code.code(i) {
        Ok(a) => a,
        Err(e) => {
            return Err(e);
        },
    };
    let block = reads_as_block(&a, context);
    let mut text = String::new();
    match trace_at(code, i, arena, names, number, &mut text, context) {
        Ok(()) => {
            push_sink_bytes(out, text.as_str(), block);
            Ok(())
        },
        Err(e) => Err(e),
    }
}

/// Appends line `i` of the trace of `code` to `out`.
fn push_line_bytes<C: Code>(
    code: &C,
    i: u16,
    arena: &CodeArena,
    names: &OpcodeNames,
    numbers: &Vec<String>,
    out: &mut Vec<u8>,
    context: &mut TraceContext,
)
    requires
        i < code@.code.len(),
        *old(context) == context_after(code@.code.take(i as int), TraceContext::start()),
    ensures
        final(out)@ == old(out)@ + line_bytes(code@, i as int, arena@, names.names(), numbers@),
        *final(context) == next_context(code@.code[i as int], *old(context)),
{
    let mut line: Vec<u8> = Vec::new();
    let mut prefix = String::new();
    push_decimal(&mut prefix, i as u64);
    prefix.append("\t");
    push_sink_bytes(&mut line, prefix.as_str(), false);
    let number: &str = if (i as usize) < numbers.len() {
        numbers[i as usize].as_str()
    } else {
        proof {
            reveal_strlit("");
        }
        ""
    };
    let _ = trace_at_bytes(code, i, arena, names, number, &mut line, context);
    push_sink_bytes(&mut line, "\n", false);
    assert(prefix@ =~= decimal_text(i as nat) + "\t"@);
    assert(line@ =~= line_bytes(code@, i as int, arena@, names.names(), numbers@));
    out.append(&mut line);
}

/// Writes the trace of `code` to `out` as bytes. The text is that of
/// `trace_out`, line by line. The blocks of strings go out one byte for each
/// character; everything else goes out as UTF-8.
///
/// Fails with `MalformedSequence`, writing nothing, if the code ends while
/// atoms that it announced are still to come.
pub fn trace_out_bytes<C: Code>(
    code: &C,
    arena: &CodeArena,
    names: &OpcodeNames,
    numbers: &Vec<String>,
    out: &mut Vec<u8>,
) -> (r: Result<(), CodeError>)
    ensures
        !ends_early(code@) ==> r is Ok && final(out)@ == old(out)@ + object_bytes(
            code@,
            arena@,
            names.names(),
            numbers@,
        ),
        ends_early(code@) ==> r == Err::<(), CodeError>(CodeError::MalformedSequence) && final(out)@
            == old(out)@,
{
    let mut bytes: Vec<u8> = Vec::new();
    push_sink_bytes(&mut bytes, "--------\n", false);
    let mut context = TraceContext::default();
    let size = code.code_size();
    let mut i: u16 = 0;
    while i < size
        invariant
            size == code@.code.len(),
            i <= size,
            context == context_after(code@.code.take(i as int), TraceContext::start()),
            bytes@ == encode_utf8("--------\n"@) + lines_bytes(
                code@,
                arena@,
                names.names(),
                numbers@,
                i as nat,
            ),
        decreases size - i,
    {
        push_line_bytes(code, i, arena, names, numbers, &mut bytes, &mut context);
        proof {
            assert(code@.code.take(i + 1).drop_last() =~= code@.code.take(i as int));
        }
        i += 1;
    }
    assert(code@.code.take(size as int) =~= code@.code);
    if context.members_to_go_ != 0 || context.timestamp_data_ != 0 || context.string_data_ != 0 {
        return Err(CodeError::MalformedSequence);
    }
    let mut last = String::new();
    last.append("OID: ");
    push_decimal(&mut last, code.get_oid() as u64);
    last.append(crate::code_trace::detail_string(code.get_detail_oid()).as_str());
    last.append("\n");
    push_sink_bytes(&mut bytes, last.as_str(), false);
    out.append(&mut bytes);
    Ok(())
}

} // verus!
