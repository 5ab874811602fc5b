//! The trace: atoms written out as text, one after the other.
//!
//! A run of atoms is flat. What an atom means can depend on the atoms
//! before it: a string header announces blocks of characters, a timestamp
//! header two halves of a count. The `TraceContext` carries that from one
//! atom to the next. It also counts how many atoms are still to be indented
//! as members of the last header.

use crate::atom::{
    has_count_field, lemma_byte_fields, string_blocks, Atom, ASSIGN_PTR, BOOLEAN_, CODE_VL_PTR, COMPOSITE_STATE, C_PTR, DEVICE, DEVICE_FUNCTION,
    D_IN_OBJ_PTR, GROUP, INSTANTIATED_ANTI_PROGRAM, INSTANTIATED_CPP_PROGRAM,
    INSTANTIATED_INPUT_LESS_PROGRAM, INSTANTIATED_PROGRAM, IN_OBJ_PTR, IPGM_PTR, I_PTR, MARKER, MKS, MODEL, NIL, NODE, NULL_PROGRAM,
    OBJECT, OPERATOR, OUT_OBJ_PTR, PROD_PTR, R_PTR, SET, STRING, S_SET, THIS, TIMESTAMP,
    T_WILDCARD, VALUE_PTR, VIEW, VL_PTR, VWS, WILDCARD,
};
use crate::opcode_names::{get_opcode_name, name_in, OpcodeNames};
use crate::payload::{
    join_timestamp, le_bytes, lemma_le_word, string_atoms, string_block, timestamp_join,
};
use crate::text::{decimal_text, push_decimal};
use crate::u_duration::microseconds;
use crate::u_timestamp::UTimestamp;
use crate::utils::{signed_s_ms_us_text, Utils};
use vstd::prelude::*;
use vstd::string::StringExecFns;

verus! {

/// What has to be remembered between two atoms of a trace.
#[derive(Clone, Copy, Debug, PartialEq, Eq, Structural)]
pub struct TraceContext {
    /// How many of the next atoms are indented.
    pub members_to_go_: u8,
    /// How many halves of a timestamp are still to come.
    pub timestamp_data_: u8,
    /// How many blocks of a string are still to come.
    pub string_data_: u8,
    /// How many characters of that string are still to come.
    pub char_count_: u8,
    /// The high half of a timestamp, kept until the low half comes.
    pub timestamp_high_: u32,
}

/// How the trace writes a cell, as its descriptor decides.
#[derive(Clone, Copy, Debug, PartialEq, Eq, Structural)]
pub enum TraceShape {
    /// A fixed word.
    Literal,
    /// A label and `true` or `false`.
    Boolean,
    /// A label and the index.
    Index,
    /// A label, the input index and the index.
    InputIndex,
    /// A label, the variable index and the index.
    Assignment,
    /// A label and the node.
    Node,
    /// A label, then node, class and device.
    Device,
    /// A label, the opcode and its name.
    Function,
    /// A label and the count of members, which are then indented.
    Count,
    /// A label, the opcode, its name and the count of members, which are
    /// then indented.
    Header,
    /// A label and the count of blocks, which are then read as characters.
    StringHeader,
    /// A label; the next two atoms are then read as the halves of a count.
    TimestampHeader,
    /// A label and which inputs the program takes.
    NullProgram,
    /// No variant of its own: characters of a string if one is being read,
    /// else a number if bit 31 is clear, else undefined.
    Payload,
}

/// The shape in which the trace writes cells of a descriptor. Every
/// descriptor that keeps an opcode and a count of members is a header.
pub open spec fn shape_of(d: u8) -> TraceShape {
    if d == NIL || d == WILDCARD || d == T_WILDCARD || d == THIS || d == VIEW || d == MKS || d
        == VWS {
        TraceShape::Literal
    } else if d == BOOLEAN_ {
        TraceShape::Boolean
    } else if d == I_PTR || d == VL_PTR || d == R_PTR || d == IPGM_PTR || d == OUT_OBJ_PTR || d
        == VALUE_PTR || d == PROD_PTR || d == CODE_VL_PTR {
        TraceShape::Index
    } else if d == IN_OBJ_PTR || d == D_IN_OBJ_PTR {
        TraceShape::InputIndex
    } else if d == ASSIGN_PTR {
        TraceShape::Assignment
    } else if d == NODE {
        TraceShape::Node
    } else if d == DEVICE {
        TraceShape::Device
    } else if d == DEVICE_FUNCTION {
        TraceShape::Function
    } else if d == C_PTR || d == SET {
        TraceShape::Count
    } else if d == OBJECT || d == S_SET || d == MARKER || d == OPERATOR || d == GROUP || d
        == INSTANTIATED_PROGRAM || d == INSTANTIATED_CPP_PROGRAM || d
        == INSTANTIATED_ANTI_PROGRAM || d == INSTANTIATED_INPUT_LESS_PROGRAM || d
        == COMPOSITE_STATE || d == MODEL {
        TraceShape::Header
    } else if d == STRING {
        TraceShape::StringHeader
    } else if d == TIMESTAMP {
        TraceShape::TimestampHeader
    } else if d == NULL_PROGRAM {
        TraceShape::NullProgram
    } else {
        TraceShape::Payload
    }
}

/// The word that the trace writes first for cells of a descriptor. It is
/// empty for the descriptors that the trace does not know. The four kinds of
/// instantiated program, the native one among them, share the label `ipgm: `.
pub open spec fn label_text(d: u8) -> Seq<char> {
    if d == NIL {
        "nil"@
    } else if d == BOOLEAN_ {
        "bl: "@
    } else if d == WILDCARD {
        ":"@
    } else if d == T_WILDCARD {
        "::"@
    } else if d == I_PTR {
        "iptr: "@
    } else if d == VL_PTR {
        "vlptr: "@
    } else if d == R_PTR {
        "rptr: "@
    } else if d == IPGM_PTR {
        "ipgm_ptr: "@
    } else if d == IN_OBJ_PTR {
        "in_obj_ptr: "@
    } else if d == D_IN_OBJ_PTR {
        "d_in_obj_ptr: "@
    } else if d == OUT_OBJ_PTR {
        "out_obj_ptr: "@
    } else if d == VALUE_PTR {
        "value_ptr: "@
    } else if d == PROD_PTR {
        "prod_ptr: "@
    } else if d == ASSIGN_PTR {
        "assign_ptr: "@
    } else if d == CODE_VL_PTR {
        "code_vlptr: "@
    } else if d == THIS {
        "this"@
    } else if d == VIEW {
        "view"@
    } else if d == MKS {
        "mks"@
    } else if d == VWS {
        "vws"@
    } else if d == NODE {
        "nid: "@
    } else if d == DEVICE {
        "did: "@
    } else if d == DEVICE_FUNCTION {
        "fid: "@
    } else if d == C_PTR {
        "cptr: "@
    } else if d == SET {
        "set: "@
    } else if d == OBJECT {
        "obj: "@
    } else if d == S_SET {
        "s_set: "@
    } else if d == MARKER {
        "mk: "@
    } else if d == OPERATOR {
        "op: "@
    } else if d == STRING {
        "st: "@
    } else if d == TIMESTAMP {
        "us"@
    } else if d == GROUP {
        "grp: "@
    } else if d == INSTANTIATED_PROGRAM || d == INSTANTIATED_CPP_PROGRAM || d
        == INSTANTIATED_ANTI_PROGRAM || d == INSTANTIATED_INPUT_LESS_PROGRAM {
        "ipgm: "@
    } else if d == COMPOSITE_STATE {
        "cst: "@
    } else if d == MODEL {
        "mdl: "@
    } else if d == NULL_PROGRAM {
        "null pgm "@
    } else {
        Seq::empty()
    }
}

/// How many characters the next block of a string gives when `remaining`
/// characters are still to come: four, or fewer at the end.
pub open spec fn block_chars(remaining: u8) -> u8 {
    if remaining < 4 {
        remaining
    } else {
        4
    }
}

/// The first `count` bytes of a cell, lowest first, each as the character
/// with that code.
pub open spec fn block_text(cell: u32, count: u8) -> Seq<char>
    recommends
        count <= 4,
{
    Seq::new(count as nat, |i: int| le_bytes(cell)[i] as char)
}

impl TraceContext {
    /// The context at the start of a trace: nothing pending.
    pub open spec fn start() -> TraceContext {
        TraceContext {
            members_to_go_: 0,
            timestamp_data_: 0,
            string_data_: 0,
            char_count_: 0,
            timestamp_high_: 0,
        }
    }

    /// The indentation of the next atom: three spaces while members are
    /// to come.
    pub open spec fn indent_text(self) -> Seq<char> {
        if self.members_to_go_ != 0 {
            "   "@
        } else {
            Seq::empty()
        }
    }

    /// The context once the indentation is written: one member fewer to
    /// come.
    pub open spec fn after_indent(self) -> TraceContext {
        if self.members_to_go_ != 0 {
            TraceContext { members_to_go_: (self.members_to_go_ - 1) as u8, ..self }
        } else {
            self
        }
    }

    /// Whether atoms that were announced are still to come.
    pub open spec fn is_pending(self) -> bool {
        self.members_to_go_ != 0 || self.timestamp_data_ != 0 || self.string_data_ != 0
    }
}

/// What the trace writes for one half of a timestamp, in the context left
/// by the indentation: the cell as a number and, unless the other half is
/// still to come, a space and the time that both halves give.
pub open spec fn timestamp_half_text(a: Atom, ctx: TraceContext) -> Seq<char>
    recommends
        ctx.timestamp_data_ != 0,
{
    if ctx.timestamp_data_ == 2 {
        decimal_text(a.atom_ as nat)
    } else {
        decimal_text(a.atom_ as nat) + " "@ + signed_s_ms_us_text(
            timestamp_join(ctx.timestamp_high_, a.atom_) as int,
        )
    }
}

/// What the trace writes after the label, for a cell that is read by its
/// descriptor.
pub open spec fn detail_text(
    a: Atom,
    ctx: TraceContext,
    names: Map<u16, Seq<char>>,
    number: Seq<char>,
) -> Seq<char> {
    match shape_of(a.descriptor()) {
        TraceShape::Literal => Seq::empty(),
        TraceShape::Boolean => if a.boolean() {
            "true"@
        } else {
            "false"@
        },
        TraceShape::Index => decimal_text(a.index() as nat),
        TraceShape::InputIndex => decimal_text(a.input_index() as nat) + " "@ + decimal_text(
            a.index() as nat,
        ),
        TraceShape::Assignment => decimal_text(a.node_id() as nat) + " "@ + decimal_text(
            a.index() as nat,
        ),
        TraceShape::Node => decimal_text(a.node_id() as nat),
        TraceShape::Device => decimal_text(a.node_id() as nat) + " "@ + decimal_text(
            a.class_id() as nat,
        ) + " "@ + decimal_text(a.device_id() as nat),
        TraceShape::Function => decimal_text(a.opcode() as nat) + " ("@ + name_in(
            names,
            a.opcode(),
        ) + ")"@,
        TraceShape::Count => decimal_text(a.atom_count() as nat),
        TraceShape::Header => decimal_text(a.opcode() as nat) + " ("@ + name_in(names, a.opcode())
            + ") "@ + decimal_text(a.atom_count() as nat),
        TraceShape::StringHeader => decimal_text(a.atom_count() as nat),
        TraceShape::TimestampHeader => Seq::empty(),
        TraceShape::NullProgram => if a.past_inputs() {
            "all inputs"@
        } else {
            "new inputs"@
        },
        TraceShape::Payload => if ctx.string_data_ != 0 {
            block_text(a.atom_, block_chars(ctx.char_count_))
        } else if a.is_float() {
            "nb: "@ + number
        } else {
            "undef"@
        },
    }
}

/// What the trace writes for an atom after its indentation, in the context
/// that the indentation leaves. `number` is the atom written as a number,
/// and is used only where the atom is one.
pub open spec fn body_text(
    a: Atom,
    ctx: TraceContext,
    names: Map<u16, Seq<char>>,
    number: Seq<char>,
) -> Seq<char> {
    if ctx.timestamp_data_ != 0 {
        timestamp_half_text(a, ctx)
    } else {
        label_text(a.descriptor()) + detail_text(a, ctx, names, number)
    }
}

/// What the trace writes for an atom met in context `ctx`.
pub open spec fn trace_text(
    a: Atom,
    ctx: TraceContext,
    names: Map<u16, Seq<char>>,
    number: Seq<char>,
) -> Seq<char> {
    ctx.indent_text() + body_text(a, ctx.after_indent(), names, number)
}

/// The context that an atom leaves, from the context that its indentation
/// left.
pub open spec fn body_context(a: Atom, ctx: TraceContext) -> TraceContext {
    if ctx.timestamp_data_ != 0 {
        TraceContext {
            timestamp_data_: (ctx.timestamp_data_ - 1) as u8,
            timestamp_high_: if ctx.timestamp_data_ == 2 {
                a.atom_
            } else {
                ctx.timestamp_high_
            },
            ..ctx
        }
    } else {
        match shape_of(a.descriptor()) {
            TraceShape::Count | TraceShape::Header => TraceContext {
                members_to_go_: a.atom_count(),
                ..ctx
            },
            TraceShape::StringHeader => TraceContext {
                members_to_go_: a.atom_count(),
                string_data_: a.atom_count(),
                char_count_: a.device_id(),
                ..ctx
            },
            TraceShape::TimestampHeader => TraceContext {
                members_to_go_: 2,
                timestamp_data_: 2,
                ..ctx
            },
            TraceShape::Payload => if ctx.string_data_ != 0 {
                TraceContext {
                    string_data_: (ctx.string_data_ - 1) as u8,
                    char_count_: (ctx.char_count_ - block_chars(ctx.char_count_)) as u8,
                    ..ctx
                }
            } else {
                ctx
            },
            _ => ctx,
        }
    }
}

/// The context that an atom met in context `ctx` leaves to the next atom.
pub open spec fn next_context(a: Atom, ctx: TraceContext) -> TraceContext {
    body_context(a, ctx.after_indent())
}

/// The context that a run of atoms leaves, when the first of them is met
/// in context `start`.
pub open spec fn context_after(atoms: Seq<Atom>, start: TraceContext) -> TraceContext
    decreases atoms.len(),
{
    if atoms.len() == 0 {
        start
    } else {
        next_context(atoms.last(), context_after(atoms.drop_last(), start))
    }
}

impl Default for TraceContext {
    /// The context at the start of a trace.
    fn default() -> (ctx: TraceContext)
        ensures
            ctx == TraceContext::start(),
    {
        TraceContext {
            members_to_go_: 0,
            timestamp_data_: 0,
            string_data_: 0,
            char_count_: 0,
            timestamp_high_: 0,
        }
    }
}

impl TraceContext {
    /// Writes the indentation of the next atom, and counts that atom off.
    pub fn write_indents(&mut self, out: &mut String)
        ensures
            final(out)@ == old(out)@ + old(self).indent_text(),
            *final(self) == old(self).after_indent(),
    {
        if self.members_to_go_ != 0 {
            out.append("   ");
            self.members_to_go_ -= 1;
        }
    }
}

/// The shape in which the trace writes cells of a descriptor.
pub fn trace_shape(d: u8) -> (shape: TraceShape)
    ensures
        shape == shape_of(d),
{
    if d == NIL || d == WILDCARD || d == T_WILDCARD || d == THIS || d == VIEW || d == MKS || d
        == VWS {
        TraceShape::Literal
    } else if d == BOOLEAN_ {
        TraceShape::Boolean
    } else if d == I_PTR || d == VL_PTR || d == R_PTR || d == IPGM_PTR || d == OUT_OBJ_PTR || d
        == VALUE_PTR || d == PROD_PTR || d == CODE_VL_PTR {
        TraceShape::Index
    } else if d == IN_OBJ_PTR || d == D_IN_OBJ_PTR {
        TraceShape::InputIndex
    } else if d == ASSIGN_PTR {
        TraceShape::Assignment
    } else if d == NODE {
        TraceShape::Node
    } else if d == DEVICE {
        TraceShape::Device
    } else if d == DEVICE_FUNCTION {
        TraceShape::Function
    } else if d == C_PTR || d == SET {
        TraceShape::Count
    } else if d == OBJECT || d == S_SET || d == MARKER || d == OPERATOR || d == GROUP || d
        == INSTANTIATED_PROGRAM || d == INSTANTIATED_CPP_PROGRAM || d
        == INSTANTIATED_ANTI_PROGRAM || d == INSTANTIATED_INPUT_LESS_PROGRAM || d
        == COMPOSITE_STATE || d == MODEL {
        TraceShape::Header
    } else if d == STRING {
        TraceShape::StringHeader
    } else if d == TIMESTAMP {
        TraceShape::TimestampHeader
    } else if d == NULL_PROGRAM {
        TraceShape::NullProgram
    } else {
        TraceShape::Payload
    }
}

/// The word that the trace writes first for cells of a descriptor.
pub fn trace_label(d: u8) -> (label: &'static str)
    ensures
        label@ == label_text(d),
{
    if d == NIL {
        "nil"
    } else if d == BOOLEAN_ {
        "bl: "
    } else if d == WILDCARD {
        ":"
    } else if d == T_WILDCARD {
        "::"
    } else if d == I_PTR {
        "iptr: "
    } else if d == VL_PTR {
        "vlptr: "
    } else if d == R_PTR {
        "rptr: "
    } else if d == IPGM_PTR {
        "ipgm_ptr: "
    } else if d == IN_OBJ_PTR {
        "in_obj_ptr: "
    } else if d == D_IN_OBJ_PTR {
        "d_in_obj_ptr: "
    } else if d == OUT_OBJ_PTR {
        "out_obj_ptr: "
    } else if d == VALUE_PTR {
        "value_ptr: "
    } else if d == PROD_PTR {
        "prod_ptr: "
    } else if d == ASSIGN_PTR {
        "assign_ptr: "
    } else if d == CODE_VL_PTR {
        "code_vlptr: "
    } else if d == THIS {
        "this"
    } else if d == VIEW {
        "view"
    } else if d == MKS {
        "mks"
    } else if d == VWS {
        "vws"
    } else if d == NODE {
        "nid: "
    } else if d == DEVICE {
        "did: "
    } else if d == DEVICE_FUNCTION {
        "fid: "
    } else if d == C_PTR {
        "cptr: "
    } else if d == SET {
        "set: "
    } else if d == OBJECT {
        "obj: "
    } else if d == S_SET {
        "s_set: "
    } else if d == MARKER {
        "mk: "
    } else if d == OPERATOR {
        "op: "
    } else if d == STRING {
        "st: "
    } else if d == TIMESTAMP {
        "us"
    } else if d == GROUP {
        "grp: "
    } else if d == INSTANTIATED_PROGRAM || d == INSTANTIATED_CPP_PROGRAM || d
        == INSTANTIATED_ANTI_PROGRAM || d == INSTANTIATED_INPUT_LESS_PROGRAM {
        "ipgm: "
    } else if d == COMPOSITE_STATE {
        "cst: "
    } else if d == MODEL {
        "mdl: "
    } else if d == NULL_PROGRAM {
        "null pgm "
    } else {
        proof {
            reveal_strlit("");
        }
        ""
    }
}

/// The first `count` bytes of a cell, lowest first, as characters.
fn block_string(cell: u32, count: u8) -> (text: String)
    requires
        count <= 4,
    ensures
        text@ == block_text(cell, count),
{
    let mut text = String::new();
    if count >= 1 {
        text.push(((cell & 0xFF) as u8) as char);
    }
    if count >= 2 {
        text.push((((cell >> 8) & 0xFF) as u8) as char);
    }
    if count >= 3 {
        text.push((((cell >> 16) & 0xFF) as u8) as char);
    }
    if count >= 4 {
        text.push((((cell >> 24) & 0xFF) as u8) as char);
    }
    text
}

impl Atom {
    /// One half of a timestamp as text, with the context moved on.
    fn timestamp_half(&self, context: &mut TraceContext) -> (text: String)
        requires
            old(context).timestamp_data_ != 0,
        ensures
            text@ == timestamp_half_text(*self, *old(context)),
            *final(context) == body_context(*self, *old(context)),
    {
        let mut text = String::new();
        push_decimal(&mut text, self.atom_ as u64);
        context.timestamp_data_ -= 1;
        if context.timestamp_data_ == 1 {
            context.timestamp_high_ = self.atom_;
        } else {
            let timestamp = UTimestamp::from_duration(
                microseconds(join_timestamp(context.timestamp_high_, self.atom_)),
            );
            text.append(" ");
            text.append(Utils::relative_time(timestamp).as_str());
        }
        text
    }

    /// What follows the label of a cell that is read by its descriptor.
    fn detail(&self, context: &TraceContext, names: &OpcodeNames, number: &str) -> (text: String)
        ensures
            text@ == detail_text(*self, *context, names.names(), number@),
    {
        let mut text = String::new();
        match trace_shape(self.getDescriptor()) {
            TraceShape::Literal => {},
            TraceShape::Boolean => {
                text.append(
                    if self.asBoolean() {
                        "true"
                    } else {
                        "false"
                    },
                );
            },
            TraceShape::Index => {
                push_decimal(&mut text, self.asIndex() as u64);
            },
            TraceShape::InputIndex => {
                push_decimal(&mut text, self.asInputIndex() as u64);
                text.append(" ");
                push_decimal(&mut text, self.asIndex() as u64);
            },
            TraceShape::Assignment => {
                push_decimal(&mut text, self.asAssignmentIndex() as u64);
                text.append(" ");
                push_decimal(&mut text, self.asIndex() as u64);
            },
            TraceShape::Node => {
                push_decimal(&mut text, self.getNodeID() as u64);
            },
            TraceShape::Device => {
                push_decimal(&mut text, self.getNodeID() as u64);
                text.append(" ");
                push_decimal(&mut text, self.getClassID() as u64);
                text.append(" ");
                push_decimal(&mut text, self.getDeviceID() as u64);
            },
            TraceShape::Function => {
                push_decimal(&mut text, self.asOpcode() as u64);
                text.append(" (");
                text.append(get_opcode_name(names, self.asOpcode()).as_str());
                text.append(")");
            },
            TraceShape::Count | TraceShape::StringHeader => {
                push_decimal(&mut text, self.getAtomCount() as u64);
            },
            TraceShape::Header => {
                push_decimal(&mut text, self.asOpcode() as u64);
                text.append(" (");
                text.append(get_opcode_name(names, self.asOpcode()).as_str());
                text.append(") ");
                push_decimal(&mut text, self.getAtomCount() as u64);
            },
            TraceShape::TimestampHeader => {},
            TraceShape::NullProgram => {
                text.append(
                    if self.takesPastInputs() {
                        "all inputs"
                    } else {
                        "new inputs"
                    },
                );
            },
            TraceShape::Payload => {
                if context.string_data_ != 0 {
                    let count: u8 = if context.char_count_ < 4 {
                        context.char_count_
                    } else {
                        4
                    };
                    text = block_string(self.atom_, count);
                } else if self.isFloat() {
                    text.append("nb: ");
                    text.append(number);
                } else {
                    text.append("undef");
                }
            },
        }
        text
    }

    /// Moves the context on past a cell that is read by its descriptor.
    fn advance(&self, context: &mut TraceContext)
        requires
            old(context).timestamp_data_ == 0,
        ensures
            *final(context) == body_context(*self, *old(context)),
    {
        match trace_shape(self.getDescriptor()) {
            TraceShape::Count | TraceShape::Header => {
                context.members_to_go_ = self.getAtomCount();
            },
            TraceShape::StringHeader => {
                context.members_to_go_ = self.getAtomCount();
                context.string_data_ = context.members_to_go_;
                context.char_count_ = self.getDeviceID();
            },
            TraceShape::TimestampHeader => {
                context.members_to_go_ = 2;
                context.timestamp_data_ = context.members_to_go_;
            },
            TraceShape::Payload => {
                if context.string_data_ != 0 {
                    context.string_data_ -= 1;
                    if context.char_count_ < 4 {
                        context.char_count_ = 0;
                    } else {
                        context.char_count_ -= 4;
                    }
                }
            },
            _ => {},
        }
    }

    /// Writes this atom to `out` and moves `context` on to the next atom.
    ///
    /// First comes the indentation, if the atom is a member of a header
    /// before it. An atom that a timestamp header announced is then written
    /// as a plain number, the second of the two followed by the time that
    /// both give. Any other atom is written as its descriptor says: a word,
    /// or a label with the fields of the cell. A header makes the atoms after
    /// it its members; a string header also makes them blocks of characters,
    /// a timestamp header halves of a count. An atom without a descriptor
    /// that the trace knows gives characters while a string is being read,
    /// else `nb: ` and `number` if it is a number, else `undef`.
    ///
    /// `names` gives the names of opcodes. `number` is this atom written as
    /// a number by the caller; it is looked at only if the atom is printed
    /// as one.
    pub fn trace(
        &self,
        context: &mut TraceContext,
        names: &OpcodeNames,
        number: &str,
        out: &mut String,
    )
        ensures
            final(out)@ == old(out)@ + trace_text(*self, *old(context), names.names(), number@),
            *final(context) == next_context(*self, *old(context)),
    {
        context.write_indents(out);
        if context.timestamp_data_ != 0 {
            let text = self.timestamp_half(context);
            out.append(text.as_str());
            return ;
        }
        out.append(trace_label(self.getDescriptor()));
        let text = self.detail(context, names, number);
        out.append(text.as_str());
        self.advance(context);
    }
}

/// Every cell that counts members in its low byte opens a run of that many
/// members: read by its descriptor, it leaves its count as the number of
/// atoms to indent, and is written with that count at its end.
pub proof fn lemma_counted_cells_open_members(
    a: Atom,
    ctx: TraceContext,
    names: Map<u16, Seq<char>>,
    number: Seq<char>,
)
    requires
        has_count_field(a.descriptor()),
        ctx.timestamp_data_ == 0,
    ensures
        shape_of(a.descriptor()) == TraceShape::Header || shape_of(a.descriptor())
            == TraceShape::Count,
        next_context(a, ctx) == (TraceContext { members_to_go_: a.atom_count(), ..ctx }),
        shape_of(a.descriptor()) == TraceShape::Header ==> trace_text(a, ctx, names, number)
            == ctx.indent_text() + label_text(a.descriptor()) + decimal_text(a.opcode() as nat)
            + " ("@ + name_in(names, a.opcode()) + ") "@ + decimal_text(a.atom_count() as nat),
        shape_of(a.descriptor()) == TraceShape::Count ==> trace_text(a, ctx, names, number)
            == ctx.indent_text() + label_text(a.descriptor()) + decimal_text(
            a.atom_count() as nat,
        ),
{
}

/// What a run of atoms gives when the indentation is left aside: the text
/// that the trace writes for each atom after its indentation, one after the
/// other. The first atom is met in context `start`.
pub open spec fn run_bodies(
    atoms: Seq<Atom>,
    start: TraceContext,
    names: Map<u16, Seq<char>>,
    number: Seq<char>,
) -> Seq<char>
    decreases atoms.len(),
{
    if atoms.len() == 0 {
        Seq::empty()
    } else {
        run_bodies(atoms.drop_last(), start, names, number) + body_text(
            atoms.last(),
            context_after(atoms.drop_last(), start).after_indent(),
            names,
            number,
        )
    }
}

/// Bytes as characters: each byte is the character with that code.
pub open spec fn chars_of(text: Seq<u8>) -> Seq<char> {
    Seq::new(text.len(), |i: int| text[i] as char)
}

/// Whether the blocks of a packed string are read as characters: none of
/// them has in its top byte, where the fourth character of the block stands,
/// a descriptor that the trace knows.
pub open spec fn reads_as_characters(text: Seq<u8>) -> bool {
    forall|k: int|
        0 <= k < string_blocks(text.len() as u8) ==> shape_of(
            (#[trigger] string_block(text, k)).descriptor(),
        ) == TraceShape::Payload
}

/// The smaller of two numbers.
pub open spec fn at_most(a: int, b: int) -> int {
    if a <= b {
        a
    } else {
        b
    }
}

proof fn lemma_string_prefix(
    text: Seq<u8>,
    start: TraceContext,
    names: Map<u16, Seq<char>>,
    number: Seq<char>,
    k: int,
)
    requires
        text.len() <= 255,
        start.timestamp_data_ == 0,
        reads_as_characters(text),
        0 <= k <= string_blocks(text.len() as u8),
    ensures
        context_after(string_atoms(text).take(k + 1), start) == (TraceContext {
            members_to_go_: (string_blocks(text.len() as u8) - k) as u8,
            string_data_: (string_blocks(text.len() as u8) - k) as u8,
            char_count_: (text.len() - at_most(4 * k, text.len() as int)) as u8,
            ..start
        }),
        run_bodies(string_atoms(text).take(k + 1), start, names, number) == "st: "@ + decimal_text(
            string_blocks(text.len() as u8) as nat,
        ) + chars_of(text.take(at_most(4 * k, text.len() as int))),
    decreases k,
{
    let n = text.len();
    let blocks = string_blocks(n as u8);
    let atoms = string_atoms(text);
    let run = atoms.take(k + 1);
    assert(run.drop_last() =~= atoms.take(k));
    assert(run.last() == atoms[k]);
    if k == 0 {
        lemma_byte_fields(STRING, 0, blocks, n as u8);
        assert(run.drop_last() =~= Seq::<Atom>::empty());
        assert(context_after(run.drop_last(), start) == start);
        assert(run_bodies(run.drop_last(), start, names, number) =~= Seq::<char>::empty());
        assert(chars_of(text.take(0)) =~= Seq::<char>::empty());
        assert(run_bodies(run, start, names, number) =~= "st: "@ + decimal_text(blocks as nat)
            + chars_of(text.take(0)));
    } else {
        let j = k - 1;
        lemma_string_prefix(text, start, names, number, j);
        let before = context_after(atoms.take(k), start);
        let block = string_block(text, j);
        assert(atoms[k] == block);
        lemma_le_word(
            crate::payload::byte_or_zero(text, 4 * j),
            crate::payload::byte_or_zero(text, 4 * j + 1),
            crate::payload::byte_or_zero(text, 4 * j + 2),
            crate::payload::byte_or_zero(text, 4 * j + 3),
        );
        assert(shape_of(block.descriptor()) == TraceShape::Payload);
        assert(label_text(block.descriptor()) =~= Seq::<char>::empty());
        let taken = block_chars(before.char_count_);
        assert(4 * j < n);
        assert(taken == at_most(4 * k, n as int) - 4 * j);
        assert(block_text(block.atom_, taken) =~= chars_of(text.subrange(4 * j, 4 * j + taken)));
        assert(chars_of(text.take(4 * j)) + chars_of(text.subrange(4 * j, 4 * j + taken))
            =~= chars_of(text.take(at_most(4 * k, n as int))));
        assert(body_text(block, before.after_indent(), names, number) =~= chars_of(
            text.subrange(4 * j, 4 * j + taken),
        ));
    }
}

/// A string that is packed into atoms and traced comes out as it went in.
///
/// The atoms are read after any run that left no timestamp half pending,
/// and the string must be one whose blocks are read as characters. The trace
/// then writes, indentation aside, the string header and after it exactly the
/// characters of the string; and it leaves nothing pending.
pub proof fn lemma_string_round_trip(
    text: Seq<u8>,
    start: TraceContext,
    names: Map<u16, Seq<char>>,
    number: Seq<char>,
)
    requires
        text.len() <= 255,
        start.timestamp_data_ == 0,
        reads_as_characters(text),
    ensures
        run_bodies(string_atoms(text), start, names, number) == "st: "@ + decimal_text(
            string_blocks(text.len() as u8) as nat,
        ) + chars_of(text),
        context_after(string_atoms(text), start) == (TraceContext {
            members_to_go_: 0,
            string_data_: 0,
            char_count_: 0,
            ..start
        }),
{
    let blocks = string_blocks(text.len() as u8);
    lemma_string_prefix(text, start, names, number, blocks as int);
    assert(string_atoms(text).take(blocks + 1) =~= string_atoms(text));
    assert(text.take(at_most(4 * blocks, text.len() as int)) =~= text);
}

} // verus!
