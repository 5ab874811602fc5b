//! The atom: one 32-bit cell that holds either a number or a tagged value.
//!
//! Bit 31 decides. When it is clear the cell is a number: an IEEE-754
//! single-precision bit pattern shifted right by one. When it is set the top
//! byte is the descriptor, which names the variant and fixes the layout of
//! the remaining 24 bits.

use vstd::prelude::*;

verus! {

pub const NIL: u8 = 0x80;

pub const BOOLEAN_: u8 = 0x81;

pub const WILDCARD: u8 = 0x82;

pub const T_WILDCARD: u8 = 0x83;

/// Internal pointer.
pub const I_PTR: u8 = 0x84;

/// Reference pointer.
pub const R_PTR: u8 = 0x85;

/// Binding map value pointer.
pub const VL_PTR: u8 = 0x86;

/// Index of data of a template argument held by an instantiated program.
pub const IPGM_PTR: u8 = 0x87;

/// Index of data held by an input object.
pub const IN_OBJ_PTR: u8 = 0x88;

/// Index of data held by the overlay's value array.
pub const VALUE_PTR: u8 = 0x89;

/// Index of data held by the overlay's production array.
pub const PROD_PTR: u8 = 0x8A;

/// Index of data held by a newly produced object.
pub const OUT_OBJ_PTR: u8 = 0x8B;

/// Index of data held by an object referenced by an input object.
pub const D_IN_OBJ_PTR: u8 = 0x8C;

/// Index of a variable, and of the expression that produces its value.
pub const ASSIGN_PTR: u8 = 0x8D;

/// Pointer to a value at an index in the same code array.
pub const CODE_VL_PTR: u8 = 0x8E;

pub const THIS: u8 = 0x90;

pub const VIEW: u8 = 0x91;

pub const MKS: u8 = 0x92;

pub const VWS: u8 = 0x93;

pub const NODE: u8 = 0xA0;

pub const DEVICE: u8 = 0xA1;

pub const DEVICE_FUNCTION: u8 = 0xA2;

/// Chain pointer.
pub const C_PTR: u8 = 0xC0;

pub const SET: u8 = 0xC1;

/// Structured set.
pub const S_SET: u8 = 0xC2;

pub const OBJECT: u8 = 0xC3;

pub const MARKER: u8 = 0xC4;

pub const OPERATOR: u8 = 0xC5;

pub const STRING: u8 = 0xC6;

pub const TIMESTAMP: u8 = 0xC7;

pub const GROUP: u8 = 0xC8;

pub const INSTANTIATED_PROGRAM: u8 = 0xC9;

pub const INSTANTIATED_CPP_PROGRAM: u8 = 0xCA;

pub const INSTANTIATED_INPUT_LESS_PROGRAM: u8 = 0xCB;

pub const INSTANTIATED_ANTI_PROGRAM: u8 = 0xCC;

pub const COMPOSITE_STATE: u8 = 0xCD;

pub const MODEL: u8 = 0xCE;

pub const NULL_PROGRAM: u8 = 0xCF;

/// One 32-bit cell. Its model is the bit pattern itself; the spec functions
/// below read the fields that the descriptors define.
#[derive(Clone, Copy, Debug, PartialEq, Eq, Structural)]
pub struct Atom {
    pub atom_: u32,
}

/// The descriptor placed in the top byte of a cell.
pub open spec fn tag(descriptor: u8) -> u32 {
    (descriptor as u32) << 24
}

/// Whether cells with this descriptor keep a count of following atoms in
/// their low byte.
pub open spec fn has_count_field(descriptor: u8) -> bool {
    ||| descriptor == SET
    ||| descriptor == OBJECT
    ||| descriptor == MARKER
    ||| descriptor == C_PTR
    ||| descriptor == OPERATOR
    ||| descriptor == INSTANTIATED_PROGRAM
    ||| descriptor == INSTANTIATED_CPP_PROGRAM
    ||| descriptor == INSTANTIATED_INPUT_LESS_PROGRAM
    ||| descriptor == INSTANTIATED_ANTI_PROGRAM
    ||| descriptor == COMPOSITE_STATE
    ||| descriptor == MODEL
    ||| descriptor == GROUP
    ||| descriptor == S_SET
}

/// The number of four-character blocks that hold `character_count` characters.
pub open spec fn string_blocks(character_count: u8) -> u8 {
    ((character_count + 3) / 4) as u8
}

impl Atom {
    /// The top byte.
    pub open spec fn descriptor(self) -> u8 {
        (self.atom_ >> 24) as u8
    }

    /// The low 12 bits: the index of every pointer variant.
    pub open spec fn index(self) -> u16 {
        (self.atom_ & 0x00000FFF) as u16
    }

    /// Bits 12 to 19: the input index or relative index of the two
    /// input-object pointers.
    pub open spec fn input_index(self) -> u8 {
        ((self.atom_ & 0x000FF000) >> 12) as u8
    }

    /// Bits 8 to 19: the opcode of headers and wildcards.
    pub open spec fn opcode(self) -> u16 {
        ((self.atom_ >> 8) & 0x00000FFF) as u16
    }

    /// Bits 12 to 23: the cast opcode of a code value pointer.
    pub open spec fn cast_opcode(self) -> u16 {
        ((self.atom_ & 0x00FFF000) >> 12) as u16
    }

    /// Bits 16 to 23: the node of a device, or the variable of an
    /// assignment pointer.
    pub open spec fn node_id(self) -> u8 {
        ((self.atom_ & 0x00FF0000) >> 16) as u8
    }

    /// Bits 8 to 15.
    pub open spec fn class_id(self) -> u8 {
        ((self.atom_ & 0x0000FF00) >> 8) as u8
    }

    /// The low byte.
    pub open spec fn device_id(self) -> u8 {
        (self.atom_ & 0x000000FF) as u8
    }

    /// Whether the low byte is non-zero.
    pub open spec fn boolean(self) -> bool {
        self.atom_ & 0x000000FF != 0
    }

    /// Whether the lowest bit is set.
    pub open spec fn past_inputs(self) -> bool {
        self.atom_ & 0x00000001 != 0
    }

    /// Whether bit 31 is clear, so that the cell holds a number.
    pub open spec fn is_float(self) -> bool {
        self.atom_ >> 31 == 0
    }

    /// The IEEE-754 bit pattern that a number cell stands for. Its lowest
    /// bit is always zero.
    pub open spec fn float_bits(self) -> u32 {
        self.atom_ << 1
    }

    /// Whether the top four bits are `1100` or `1101`.
    pub open spec fn is_structural(self) -> bool {
        self.atom_ >> 28 == 0xC || self.atom_ >> 28 == 0xD
    }

    /// Whether the cell is one of the eight patterns that stand for
    /// "nothing here".
    pub open spec fn reads_as_nil(self) -> bool {
        ||| self.atom_ == 0x80000000
        ||| self.atom_ == 0x3FFFFFFF
        ||| self.atom_ == 0x81FFFFFF
        ||| self.atom_ == 0xC1000000
        ||| self.atom_ == 0xA0FFFFFF
        ||| self.atom_ == 0xA1FFFFFF
        ||| self.atom_ == 0xA2FFFFFF
        ||| self.atom_ == 0xC6FFFFFF
    }

    /// How many atoms after this one belong to it: the count field of a
    /// header, the block count of a string, two for a timestamp, zero for
    /// anything else.
    pub open spec fn atom_count(self) -> u8 {
        if has_count_field(self.descriptor()) {
            self.device_id()
        } else if self.descriptor() == STRING {
            self.class_id()
        } else if self.descriptor() == TIMESTAMP {
            2
        } else {
            0
        }
    }
}

/// The bits of a pointer cell: descriptor and 12-bit index.
pub open spec fn pointer_bits(descriptor: u8, index: u16) -> u32 {
    tag(descriptor) | ((index as u32) & 0x0FFF)
}

/// The bits of an input-object pointer: descriptor, an 8-bit index from bit
/// 12 up, and the 12-bit index.
pub open spec fn input_pointer_bits(descriptor: u8, input_index: u8, index: u16) -> u32 {
    tag(descriptor) | ((input_index as u32) << 12) | ((index as u32) & 0x0FFF)
}

/// The bits of an assignment pointer: descriptor, an 8-bit variable index
/// from bit 16 up, and the 12-bit index.
pub open spec fn assignment_pointer_bits(descriptor: u8, variable_index: u8, index: u16) -> u32 {
    tag(descriptor) | ((variable_index as u32) << 16) | ((index as u32) & 0x0FFF)
}

/// The bits of a code value pointer: descriptor, a 12-bit cast opcode from
/// bit 12 up, and the 12-bit index.
pub open spec fn cast_pointer_bits(descriptor: u8, cast_opcode: u16, index: u16) -> u32 {
    tag(descriptor) | (((cast_opcode as u32) & 0x0FFF) << 12) | ((index as u32) & 0x0FFF)
}

/// The bits of a header: descriptor, a 12-bit opcode from bit 8 up, and an
/// 8-bit count.
pub open spec fn header_bits(descriptor: u8, opcode: u16, count: u8) -> u32 {
    tag(descriptor) | (((opcode as u32) & 0x0FFF) << 8) | (count as u32)
}

/// The bits of a cell made of four bytes: descriptor first.
pub open spec fn byte_bits(descriptor: u8, high: u8, middle: u8, low: u8) -> u32 {
    tag(descriptor) | ((high as u32) << 16) | ((middle as u32) << 8) | (low as u32)
}

/// The bits of a device function: descriptor and a 16-bit opcode from bit 8 up.
pub open spec fn function_bits(descriptor: u8, opcode: u16) -> u32 {
    tag(descriptor) | ((opcode as u32) << 8)
}

proof fn lemma_pointer_bits(d: u8, index: u16)
    by (bit_vector)
    ensures
        (((d as u32) << 24) | ((index as u32) & 0x0FFF)) >> 24 == d as u32,
        (((d as u32) << 24) | ((index as u32) & 0x0FFF)) & 0x0FFF == (index & 0x0FFF) as u32,
{
}

proof fn lemma_input_pointer_bits(d: u8, hi: u8, index: u16)
    by (bit_vector)
    ensures
        (((d as u32) << 24) | ((hi as u32) << 12) | ((index as u32) & 0x0FFF)) >> 24 == d as u32,
        ((((d as u32) << 24) | ((hi as u32) << 12) | ((index as u32) & 0x0FFF)) & 0x000FF000) >> 12
            == hi as u32,
        (((d as u32) << 24) | ((hi as u32) << 12) | ((index as u32) & 0x0FFF)) & 0x0FFF == (index
            & 0x0FFF) as u32,
{
}

proof fn lemma_assignment_pointer_bits(d: u8, var: u8, index: u16)
    by (bit_vector)
    ensures
        (((d as u32) << 24) | ((var as u32) << 16) | ((index as u32) & 0x0FFF)) >> 24 == d as u32,
        ((((d as u32) << 24) | ((var as u32) << 16) | ((index as u32) & 0x0FFF)) & 0x00FF0000)
            >> 16 == var as u32,
        (((d as u32) << 24) | ((var as u32) << 16) | ((index as u32) & 0x0FFF)) & 0x0FFF == (index
            & 0x0FFF) as u32,
{
}

proof fn lemma_cast_pointer_bits(d: u8, cast: u16, index: u16)
    by (bit_vector)
    ensures
        (((d as u32) << 24) | (((cast as u32) & 0x0FFF) << 12) | ((index as u32) & 0x0FFF)) >> 24
            == d as u32,
        ((((d as u32) << 24) | (((cast as u32) & 0x0FFF) << 12) | ((index as u32) & 0x0FFF))
            & 0x00FFF000) >> 12 == (cast & 0x0FFF) as u32,
        (((d as u32) << 24) | (((cast as u32) & 0x0FFF) << 12) | ((index as u32) & 0x0FFF))
            & 0x0FFF == (index & 0x0FFF) as u32,
{
}

proof fn lemma_header_bits(d: u8, opcode: u16, count: u8)
    by (bit_vector)
    ensures
        (((d as u32) << 24) | (((opcode as u32) & 0x0FFF) << 8) | (count as u32)) >> 24 == d as u32,
        ((((d as u32) << 24) | (((opcode as u32) & 0x0FFF) << 8) | (count as u32)) >> 8) & 0x0FFF
            == (opcode & 0x0FFF) as u32,
        (((d as u32) << 24) | (((opcode as u32) & 0x0FFF) << 8) | (count as u32)) & 0xFF
            == count as u32,
{
}

proof fn lemma_byte_bits(d: u8, high: u8, middle: u8, low: u8)
    by (bit_vector)
    ensures
        (((d as u32) << 24) | ((high as u32) << 16) | ((middle as u32) << 8) | (low as u32)) >> 24
            == d as u32,
        ((((d as u32) << 24) | ((high as u32) << 16) | ((middle as u32) << 8) | (low as u32))
            & 0x00FF0000) >> 16 == high as u32,
        ((((d as u32) << 24) | ((high as u32) << 16) | ((middle as u32) << 8) | (low as u32))
            & 0x0000FF00) >> 8 == middle as u32,
        (((d as u32) << 24) | ((high as u32) << 16) | ((middle as u32) << 8) | (low as u32))
            & 0x000000FF == low as u32,
{
}

proof fn lemma_function_bits(d: u8, opcode: u16)
    by (bit_vector)
    ensures
        (((d as u32) << 24) | ((opcode as u32) << 8)) >> 24 == d as u32,
        ((((d as u32) << 24) | ((opcode as u32) << 8)) >> 8) & 0x0FFF == (opcode & 0x0FFF) as u32,
{
}

impl Atom {
    fn pointer(descriptor: u8, index: u16) -> (r: Atom)
        ensures
            r.atom_ == pointer_bits(descriptor, index),
            r.descriptor() == descriptor,
            r.index() == index & 0x0FFF,
    {
        proof {
            lemma_pointer_bits(descriptor, index);
        }
        Atom { atom_: ((descriptor as u32) << 24) | ((index as u32) & 0x0FFF) }
    }

    fn input_pointer(descriptor: u8, input_index: u8, index: u16) -> (r: Atom)
        ensures
            r.atom_ == input_pointer_bits(descriptor, input_index, index),
            r.descriptor() == descriptor,
            r.input_index() == input_index,
            r.index() == index & 0x0FFF,
    {
        proof {
            lemma_input_pointer_bits(descriptor, input_index, index);
        }
        Atom {
            atom_: ((descriptor as u32) << 24) | ((input_index as u32) << 12) | ((index as u32)
                & 0x0FFF),
        }
    }

    fn header(descriptor: u8, opcode: u16, count: u8) -> (r: Atom)
        ensures
            r.atom_ == header_bits(descriptor, opcode, count),
            r.descriptor() == descriptor,
            r.opcode() == opcode & 0x0FFF,
            r.device_id() == count,
    {
        proof {
            lemma_header_bits(descriptor, opcode, count);
        }
        Atom {
            atom_: ((descriptor as u32) << 24) | (((opcode as u32) & 0x0FFF) << 8) | (count as u32),
        }
    }

    fn bytes(descriptor: u8, high: u8, middle: u8, low: u8) -> (r: Atom)
        ensures
            r.atom_ == byte_bits(descriptor, high, middle, low),
            r.descriptor() == descriptor,
            r.node_id() == high,
            r.class_id() == middle,
            r.device_id() == low,
    {
        proof {
            lemma_byte_bits(descriptor, high, middle, low);
        }
        Atom {
            atom_: ((descriptor as u32) << 24) | ((high as u32) << 16) | ((middle as u32) << 8) | (
            low as u32),
        }
    }

    fn assignment_pointer(descriptor: u8, variable_index: u8, index: u16) -> (r: Atom)
        ensures
            r.atom_ == assignment_pointer_bits(descriptor, variable_index, index),
            r.descriptor() == descriptor,
            r.node_id() == variable_index,
            r.index() == index & 0x0FFF,
    {
        proof {
            lemma_assignment_pointer_bits(descriptor, variable_index, index);
        }
        Atom {
            atom_: ((descriptor as u32) << 24) | ((variable_index as u32) << 16) | ((index as u32)
                & 0x0FFF),
        }
    }

    fn cast_pointer(descriptor: u8, cast_opcode: u16, index: u16) -> (r: Atom)
        ensures
            r.atom_ == cast_pointer_bits(descriptor, cast_opcode, index),
            r.descriptor() == descriptor,
            r.cast_opcode() == cast_opcode & 0x0FFF,
            r.index() == index & 0x0FFF,
    {
        proof {
            lemma_cast_pointer_bits(descriptor, cast_opcode, index);
        }
        Atom {
            atom_: ((descriptor as u32) << 24) | (((cast_opcode as u32) & 0x0FFF) << 12) | ((
            index as u32) & 0x0FFF),
        }
    }

    fn function(descriptor: u8, opcode: u16) -> (r: Atom)
        ensures
            r.atom_ == function_bits(descriptor, opcode),
            r.descriptor() == descriptor,
            r.opcode() == opcode & 0x0FFF,
    {
        proof {
            lemma_function_bits(descriptor, opcode);
        }
        Atom { atom_: ((descriptor as u32) << 24) | ((opcode as u32) << 8) }
    }
}

/// A pointer cell gives back its descriptor and the low 12 bits of the
/// index that went into it; an index below 4096 comes back whole.
pub proof fn lemma_pointer_fields(descriptor: u8, index: u16)
    ensures
        (Atom { atom_: pointer_bits(descriptor, index) }).descriptor() == descriptor,
        (Atom { atom_: pointer_bits(descriptor, index) }).index() == index & 0x0FFF,
        index < 4096 ==> (Atom { atom_: pointer_bits(descriptor, index) }).index() == index,
{
    lemma_pointer_bits(descriptor, index);
    assert(index < 4096 ==> index & 0x0FFF == index) by (bit_vector);
}

/// A cell made of four bytes gives each of them back.
pub proof fn lemma_byte_fields(descriptor: u8, high: u8, middle: u8, low: u8)
    ensures
        (Atom { atom_: byte_bits(descriptor, high, middle, low) }).descriptor() == descriptor,
        (Atom { atom_: byte_bits(descriptor, high, middle, low) }).node_id() == high,
        (Atom { atom_: byte_bits(descriptor, high, middle, low) }).class_id() == middle,
        (Atom { atom_: byte_bits(descriptor, high, middle, low) }).device_id() == low,
{
    lemma_byte_bits(descriptor, high, middle, low);
}

/// A number put into a cell and read back is the number it was, but for
/// the lowest bit of its pattern, which is cleared. The cell always has bit
/// 31 clear, so it is read as a number.
pub proof fn lemma_float_round_trip(bits: u32)
    ensures
        (Atom { atom_: bits >> 1 }).is_float(),
        (Atom { atom_: bits >> 1 }).float_bits() == bits & 0xFFFFFFFE,
        (Atom { atom_: bits >> 1 }).float_bits() == bits || (Atom { atom_: bits >> 1 }).float_bits()
            + 1 == bits,
{
    lemma_float_bits(bits);
}

/// A cell is a number exactly if its top byte is below `0x80`, the lowest
/// descriptor: no bit pattern is both a number and a tagged value.
pub proof fn lemma_float_or_tagged(a: Atom)
    ensures
        a.is_float() <==> a.descriptor() < 0x80,
{
    let cell = a.atom_;
    assert(cell >> 31 == 0 <==> (cell >> 24) < 0x80) by (bit_vector);
    assert((cell >> 24) < 0x100) by (bit_vector);
}

proof fn lemma_fixed_cells()
    by (bit_vector)
    ensures
        0x80000000u32 >> 24 == 0x80,
        0x83000000u32 >> 24 == 0x83,
        0x90000000u32 >> 24 == 0x90,
        0x91000000u32 >> 24 == 0x91,
        0x92000000u32 >> 24 == 0x92,
        0x93000000u32 >> 24 == 0x93,
        0xC7000000u32 >> 24 == 0xC7,
        0x81000000u32 >> 24 == 0x81,
        0x81000001u32 >> 24 == 0x81,
        0x81000000u32 & 0xFF == 0,
        0x81000001u32 & 0xFF == 1,
        0xCF000000u32 >> 24 == 0xCF,
        0xCF000001u32 >> 24 == 0xCF,
        0xCF000000u32 & 1 == 0,
        0xCF000001u32 & 1 == 1,
{
}

proof fn lemma_float_bits(bits: u32)
    by (bit_vector)
    ensures
        (bits >> 1) >> 31 == 0,
        (bits >> 1) << 1 == bits & 0xFFFFFFFE,
        bits & 0xFFFFFFFE == bits || (bits & 0xFFFFFFFE) + 1 == bits,
{
}

#[allow(non_snake_case)]
impl Atom {
    /// The cell with exactly these bits.
    pub fn new(a: u32) -> (r: Atom)
        ensures
            r.atom_ == a,
    {
        Atom { atom_: a }
    }

    /// The number cell for an IEEE-754 single-precision bit pattern: the
    /// pattern shifted right by one, which clears bit 31 and drops the lowest
    /// bit of the mantissa. Reading the cell back gives the pattern with
    /// that lowest bit cleared.
    pub fn FloatBits(bits: u32) -> (r: Atom)
        ensures
            r.atom_ == bits >> 1,
            r.is_float(),
            r.float_bits() == bits & 0xFFFFFFFE,
    {
        proof {
            lemma_float_bits(bits);
        }
        Atom { atom_: bits >> 1 }
    }

    /// Positive infinity as a number cell.
    pub fn PlusInfinity() -> (r: Atom)
        ensures
            r.atom_ == 0x3FC00000,
    {
        Atom { atom_: 0x3FC00000 }
    }

    /// Negative infinity as a number cell.
    pub fn MinusInfinity() -> (r: Atom)
        ensures
            r.atom_ == 0x7FC00000,
    {
        Atom { atom_: 0x7FC00000 }
    }

    /// The number cell that stands for an undefined number.
    pub fn UndefinedFloat() -> (r: Atom)
        ensures
            r.atom_ == 0x0FFFFFFF,
    {
        Atom { atom_: 0x0FFFFFFF }
    }

    /// The nil cell.
    pub fn Nil() -> (r: Atom)
        ensures
            r.atom_ == 0x80000000,
            r.descriptor() == NIL,
    {
        proof {
            lemma_fixed_cells();
        }
        Atom { atom_: 0x80000000 }
    }

    /// A boolean cell: the value is kept in the lowest bit.
    pub fn Boolean(value: bool) -> (r: Atom)
        ensures
            r.atom_ == if value { 0x81000001u32 } else { 0x81000000u32 },
            r.descriptor() == BOOLEAN_,
            r.boolean() == value,
    {
        proof {
            lemma_fixed_cells();
        }
        if value {
            Atom { atom_: 0x81000001 }
        } else {
            Atom { atom_: 0x81000000 }
        }
    }

    /// The cell that stands for an undefined boolean.
    pub fn UndefinedBoolean() -> (r: Atom)
        ensures
            r.atom_ == 0x81FFFFFF,
    {
        Atom { atom_: 0x81FFFFFF }
    }

    /// The wildcard with opcode zero.
    pub fn Wildcard() -> (r: Atom)
        ensures
            r.atom_ == header_bits(WILDCARD, 0, 0),
            r.descriptor() == WILDCARD,
            r.opcode() == 0,
    {
        proof {
            assert(0u16 & 0x0FFF == 0) by (bit_vector);
        }
        Atom::header(WILDCARD, 0, 0)
    }

    /// A wildcard that carries an opcode, cut to 12 bits.
    pub fn Wildcard_opcode(opcode: u16) -> (r: Atom)
        ensures
            r.atom_ == header_bits(WILDCARD, opcode, 0),
            r.descriptor() == WILDCARD,
            r.opcode() == opcode & 0x0FFF,
    {
        Atom::header(WILDCARD, opcode, 0)
    }

    /// The tail wildcard cell.
    pub fn TailWildcard() -> (r: Atom)
        ensures
            r.atom_ == 0x83000000,
            r.descriptor() == T_WILDCARD,
    {
        proof {
            lemma_fixed_cells();
        }
        Atom { atom_: 0x83000000 }
    }

    /// An internal pointer. The index is cut to 12 bits.
    pub fn IPointer(index: u16) -> (r: Atom)
        ensures
            r.atom_ == pointer_bits(I_PTR, index),
            r.descriptor() == I_PTR,
            r.index() == index & 0x0FFF,
    {
        Atom::pointer(I_PTR, index)
    }

    /// A binding map value pointer. The index is cut to 12 bits.
    pub fn VLPointer(index: u16) -> (r: Atom)
        ensures
            r.atom_ == pointer_bits(VL_PTR, index),
            r.descriptor() == VL_PTR,
            r.index() == index & 0x0FFF,
    {
        Atom::pointer(VL_PTR, index)
    }

    /// A reference pointer: an index into the reference list of the object
    /// that holds the cell. The index is cut to 12 bits.
    pub fn RPointer(index: u16) -> (r: Atom)
        ensures
            r.atom_ == pointer_bits(R_PTR, index),
            r.descriptor() == R_PTR,
            r.index() == index & 0x0FFF,
    {
        Atom::pointer(R_PTR, index)
    }

    /// A pointer to template argument data of an instantiated program. The
    /// index is cut to 12 bits.
    pub fn IPGMPointer(index: u16) -> (r: Atom)
        ensures
            r.atom_ == pointer_bits(IPGM_PTR, index),
            r.descriptor() == IPGM_PTR,
            r.index() == index & 0x0FFF,
    {
        Atom::pointer(IPGM_PTR, index)
    }

    /// A pointer to data held by an input object. The index is cut to 12 bits.
    pub fn InObjPointer(input_index: u8, index: u16) -> (r: Atom)
        ensures
            r.atom_ == input_pointer_bits(IN_OBJ_PTR, input_index, index),
            r.descriptor() == IN_OBJ_PTR,
            r.input_index() == input_index,
            r.index() == index & 0x0FFF,
    {
        Atom::input_pointer(IN_OBJ_PTR, input_index, index)
    }

    /// A pointer to data held by an object that an input object references.
    /// The index is cut to 12 bits.
    pub fn DInObjPointer(relative_index: u8, index: u16) -> (r: Atom)
        ensures
            r.atom_ == input_pointer_bits(D_IN_OBJ_PTR, relative_index, index),
            r.descriptor() == D_IN_OBJ_PTR,
            r.input_index() == relative_index,
            r.index() == index & 0x0FFF,
    {
        Atom::input_pointer(D_IN_OBJ_PTR, relative_index, index)
    }

    /// A pointer to data held by a newly produced object. The index is cut
    /// to 12 bits.
    pub fn OutObjPointer(index: u16) -> (r: Atom)
        ensures
            r.atom_ == pointer_bits(OUT_OBJ_PTR, index),
            r.descriptor() == OUT_OBJ_PTR,
            r.index() == index & 0x0FFF,
    {
        Atom::pointer(OUT_OBJ_PTR, index)
    }

    /// A pointer into the overlay's value array. The index is cut to 12 bits.
    pub fn ValuePointer(index: u16) -> (r: Atom)
        ensures
            r.atom_ == pointer_bits(VALUE_PTR, index),
            r.descriptor() == VALUE_PTR,
            r.index() == index & 0x0FFF,
    {
        Atom::pointer(VALUE_PTR, index)
    }

    /// A pointer into the overlay's production array. The index is cut to
    /// 12 bits.
    pub fn ProductionPointer(index: u16) -> (r: Atom)
        ensures
            r.atom_ == pointer_bits(PROD_PTR, index),
            r.descriptor() == PROD_PTR,
            r.index() == index & 0x0FFF,
    {
        Atom::pointer(PROD_PTR, index)
    }

    /// A pointer that pairs a variable with the expression that produces its
    /// value. The cell is tagged as a template argument pointer and keeps the
    /// variable in bits 16 to 23. The index is cut to 12 bits.
    pub fn AssignmentPointer(variable_index: u8, index: u16) -> (r: Atom)
        ensures
            r.atom_ == assignment_pointer_bits(IPGM_PTR, variable_index, index),
            r.descriptor() == IPGM_PTR,
            r.node_id() == variable_index,
            r.index() == index & 0x0FFF,
    {
        Atom::assignment_pointer(IPGM_PTR, variable_index, index)
    }

    /// A pointer to a value in the same code array, with the cast opcode
    /// `0x0FFF`. The index is cut to 12 bits.
    pub fn CodeVLPointer(index: u16) -> (r: Atom)
        ensures
            r.atom_ == cast_pointer_bits(CODE_VL_PTR, 0x0FFF, index),
            r.descriptor() == CODE_VL_PTR,
            r.cast_opcode() == 0x0FFF,
            r.index() == index & 0x0FFF,
    {
        proof {
            assert(0x0FFFu16 & 0x0FFF == 0x0FFF) by (bit_vector);
        }
        Atom::cast_pointer(CODE_VL_PTR, 0x0FFF, index)
    }

    /// A pointer to a value in the same code array. Cast opcode and index
    /// are each cut to 12 bits.
    pub fn CodeVLPointer_cast_opcode(index: u16, cast_opcode: u16) -> (r: Atom)
        ensures
            r.atom_ == cast_pointer_bits(CODE_VL_PTR, cast_opcode, index),
            r.descriptor() == CODE_VL_PTR,
            r.cast_opcode() == cast_opcode & 0x0FFF,
            r.index() == index & 0x0FFF,
    {
        Atom::cast_pointer(CODE_VL_PTR, cast_opcode, index)
    }

    /// The `this` cell.
    pub fn This() -> (r: Atom)
        ensures
            r.atom_ == 0x90000000,
            r.descriptor() == THIS,
    {
        proof {
            lemma_fixed_cells();
        }
        Atom { atom_: 0x90000000 }
    }

    /// The `view` cell.
    pub fn View() -> (r: Atom)
        ensures
            r.atom_ == 0x91000000,
            r.descriptor() == VIEW,
    {
        proof {
            lemma_fixed_cells();
        }
        Atom { atom_: 0x91000000 }
    }

    /// The markers cell.
    pub fn Mks() -> (r: Atom)
        ensures
            r.atom_ == 0x92000000,
            r.descriptor() == MKS,
    {
        proof {
            lemma_fixed_cells();
        }
        Atom { atom_: 0x92000000 }
    }

    /// The views cell.
    pub fn Vws() -> (r: Atom)
        ensures
            r.atom_ == 0x93000000,
            r.descriptor() == VWS,
    {
        proof {
            lemma_fixed_cells();
        }
        Atom { atom_: 0x93000000 }
    }

    /// The header of a structured set. The opcode is cut to 12 bits.
    pub fn SSet(opcode: u16, element_count: u8) -> (r: Atom)
        ensures
            r.atom_ == header_bits(S_SET, opcode, element_count),
            r.descriptor() == S_SET,
            r.opcode() == opcode & 0x0FFF,
            r.atom_count() == element_count,
    {
        Atom::header(S_SET, opcode, element_count)
    }

    /// The header of a set of `element_count` atoms.
    pub fn Set_(element_count: u8) -> (r: Atom)
        ensures
            r.atom_ == byte_bits(SET, 0, 0, element_count),
            r.descriptor() == SET,
            r.atom_count() == element_count,
    {
        Atom::bytes(SET, 0, 0, element_count)
    }

    /// The header of a pointer chain of `element_count` atoms.
    pub fn CPointer(element_count: u8) -> (r: Atom)
        ensures
            r.atom_ == byte_bits(C_PTR, 0, 0, element_count),
            r.descriptor() == C_PTR,
            r.atom_count() == element_count,
    {
        Atom::bytes(C_PTR, 0, 0, element_count)
    }

    /// The header of an object. The opcode is cut to 12 bits.
    pub fn Object(opcode: u16, arity: u8) -> (r: Atom)
        ensures
            r.atom_ == header_bits(OBJECT, opcode, arity),
            r.descriptor() == OBJECT,
            r.opcode() == opcode & 0x0FFF,
            r.atom_count() == arity,
    {
        Atom::header(OBJECT, opcode, arity)
    }

    /// The header of a marker. The opcode is cut to 12 bits.
    pub fn Marker(opcode: u16, arity: u8) -> (r: Atom)
        ensures
            r.atom_ == header_bits(MARKER, opcode, arity),
            r.descriptor() == MARKER,
            r.opcode() == opcode & 0x0FFF,
            r.atom_count() == arity,
    {
        Atom::header(MARKER, opcode, arity)
    }

    /// The header of an operator. The opcode is cut to 12 bits.
    pub fn Operator(opcode: u16, arity: u8) -> (r: Atom)
        ensures
            r.atom_ == header_bits(OPERATOR, opcode, arity),
            r.descriptor() == OPERATOR,
            r.opcode() == opcode & 0x0FFF,
            r.atom_count() == arity,
    {
        Atom::header(OPERATOR, opcode, arity)
    }

    /// A node cell. The node is kept in bits 8 to 15.
    pub fn Node(node_id: u8) -> (r: Atom)
        ensures
            r.atom_ == byte_bits(NODE, 0, node_id, 0),
            r.descriptor() == NODE,
            r.class_id() == node_id,
    {
        Atom::bytes(NODE, 0, node_id, 0)
    }

    /// The cell that stands for an undefined node.
    pub fn UndefinedNode() -> (r: Atom)
        ensures
            r.atom_ == 0xA0FFFFFF,
    {
        Atom { atom_: 0xA0FFFFFF }
    }

    /// A device cell: node, class and device, one byte each.
    pub fn Device(node_id: u8, class_id: u8, dev_id: u8) -> (r: Atom)
        ensures
            r.atom_ == byte_bits(DEVICE, node_id, class_id, dev_id),
            r.descriptor() == DEVICE,
            r.node_id() == node_id,
            r.class_id() == class_id,
            r.device_id() == dev_id,
    {
        Atom::bytes(DEVICE, node_id, class_id, dev_id)
    }

    /// The cell that stands for an undefined device.
    pub fn UndefinedDevice() -> (r: Atom)
        ensures
            r.atom_ == 0xA1FFFFFF,
    {
        Atom { atom_: 0xA1FFFFFF }
    }

    /// A device function cell. All 16 bits of the opcode are stored, from
    /// bit 8 up; reading the opcode back gives its low 12 bits.
    pub fn DeviceFunction(opcode: u16) -> (r: Atom)
        ensures
            r.atom_ == function_bits(DEVICE_FUNCTION, opcode),
            r.descriptor() == DEVICE_FUNCTION,
            r.opcode() == opcode & 0x0FFF,
    {
        Atom::function(DEVICE_FUNCTION, opcode)
    }

    /// The cell that stands for an undefined device function.
    pub fn UndefinedDeviceFunction() -> (r: Atom)
        ensures
            r.atom_ == 0xA2FFFFFF,
    {
        Atom { atom_: 0xA2FFFFFF }
    }

    /// The header of a string of `character_count` characters. The
    /// characters follow four to an atom, so the header announces
    /// `character_count / 4` atoms, rounded up, and keeps the character
    /// count itself in its low byte.
    pub fn String(character_count: u8) -> (r: Atom)
        ensures
            r.atom_ == byte_bits(STRING, 0, string_blocks(character_count), character_count),
            r.descriptor() == STRING,
            r.atom_count() == string_blocks(character_count),
            r.device_id() == character_count,
    {
        let mut blocks: u8 = character_count / 4;
        if character_count % 4 != 0 {
            blocks += 1;
        }
        Atom::bytes(STRING, 0, blocks, character_count)
    }

    /// The cell that stands for an undefined string.
    pub fn UndefinedString() -> (r: Atom)
        ensures
            r.atom_ == 0xC6FFFFFF,
    {
        Atom { atom_: 0xC6FFFFFF }
    }

    /// The header of a timestamp. Two atoms follow it: the high and the low
    /// half of a 64-bit count of microseconds.
    pub fn Timestamp() -> (r: Atom)
        ensures
            r.atom_ == 0xC7000000,
            r.descriptor() == TIMESTAMP,
            r.atom_count() == 2,
    {
        proof {
            lemma_fixed_cells();
        }
        Atom { atom_: 0xC7000000 }
    }

    /// The cell that stands for an undefined timestamp.
    pub fn UndefinedTimestamp() -> (r: Atom)
        ensures
            r.atom_ == 0xC7FFFFFF,
    {
        Atom { atom_: 0xC7FFFFFF }
    }

    /// The header of an instantiated program. The opcode is cut to 12 bits.
    pub fn InstantiatedProgram(opcode: u16, arity: u8) -> (r: Atom)
        ensures
            r.atom_ == header_bits(INSTANTIATED_PROGRAM, opcode, arity),
            r.descriptor() == INSTANTIATED_PROGRAM,
            r.opcode() == opcode & 0x0FFF,
            r.atom_count() == arity,
    {
        Atom::header(INSTANTIATED_PROGRAM, opcode, arity)
    }

    /// The header of a group. The opcode is cut to 12 bits.
    pub fn Group(opcode: u16, arity: u8) -> (r: Atom)
        ensures
            r.atom_ == header_bits(GROUP, opcode, arity),
            r.descriptor() == GROUP,
            r.opcode() == opcode & 0x0FFF,
            r.atom_count() == arity,
    {
        Atom::header(GROUP, opcode, arity)
    }

    /// The header of an instantiated native program. The opcode is cut to
    /// 12 bits.
    pub fn InstantiatedCPPProgram(opcode: u16, arity: u8) -> (r: Atom)
        ensures
            r.atom_ == header_bits(INSTANTIATED_CPP_PROGRAM, opcode, arity),
            r.descriptor() == INSTANTIATED_CPP_PROGRAM,
            r.opcode() == opcode & 0x0FFF,
            r.atom_count() == arity,
    {
        Atom::header(INSTANTIATED_CPP_PROGRAM, opcode, arity)
    }

    /// The header of an instantiated anti-program. The opcode is cut to 12
    /// bits.
    pub fn InstantiatedAntiProgram(opcode: u16, arity: u8) -> (r: Atom)
        ensures
            r.atom_ == header_bits(INSTANTIATED_ANTI_PROGRAM, opcode, arity),
            r.descriptor() == INSTANTIATED_ANTI_PROGRAM,
            r.opcode() == opcode & 0x0FFF,
            r.atom_count() == arity,
    {
        Atom::header(INSTANTIATED_ANTI_PROGRAM, opcode, arity)
    }

    /// The header of an instantiated program without inputs. The opcode is
    /// cut to 12 bits.
    pub fn InstantiatedInputLessProgram(opcode: u16, arity: u8) -> (r: Atom)
        ensures
            r.atom_ == header_bits(INSTANTIATED_INPUT_LESS_PROGRAM, opcode, arity),
            r.descriptor() == INSTANTIATED_INPUT_LESS_PROGRAM,
            r.opcode() == opcode & 0x0FFF,
            r.atom_count() == arity,
    {
        Atom::header(INSTANTIATED_INPUT_LESS_PROGRAM, opcode, arity)
    }

    /// The header of a composite state. The opcode is cut to 12 bits.
    pub fn CompositeState(opcode: u16, arity: u8) -> (r: Atom)
        ensures
            r.atom_ == header_bits(COMPOSITE_STATE, opcode, arity),
            r.descriptor() == COMPOSITE_STATE,
            r.opcode() == opcode & 0x0FFF,
            r.atom_count() == arity,
    {
        Atom::header(COMPOSITE_STATE, opcode, arity)
    }

    /// The header of a model. The opcode is cut to 12 bits.
    pub fn Model(opcode: u16, arity: u8) -> (r: Atom)
        ensures
            r.atom_ == header_bits(MODEL, opcode, arity),
            r.descriptor() == MODEL,
            r.opcode() == opcode & 0x0FFF,
            r.atom_count() == arity,
    {
        Atom::header(MODEL, opcode, arity)
    }

    /// The null program. The lowest bit says whether it takes past inputs.
    pub fn NullProgram(take_past_inputs: bool) -> (r: Atom)
        ensures
            r.atom_ == if take_past_inputs { 0xCF000001u32 } else { 0xCF000000u32 },
            r.descriptor() == NULL_PROGRAM,
            r.past_inputs() == take_past_inputs,
    {
        proof {
            lemma_fixed_cells();
        }
        if take_past_inputs {
            Atom { atom_: 0xCF000001 }
        } else {
            Atom { atom_: 0xCF000000 }
        }
    }

    /// Whether every bit is set: the canonical undefined cell.
    pub fn isUndefined(&self) -> (r: bool)
        ensures
            r == (self.atom_ == 0xFFFFFFFF),
    {
        self.atom_ == 0xFFFFFFFF
    }

    /// The top byte. It names a variant only when bit 31 is set.
    pub fn getDescriptor(&self) -> (r: u8)
        ensures
            r == self.descriptor(),
    {
        (self.atom_ >> 24) as u8
    }

    /// Whether the cell opens a structure: its top four bits are `1100` or
    /// `1101`.
    pub fn isStructural(&self) -> (r: bool)
        ensures
            r == self.is_structural(),
    {
        let top: u32 = self.atom_ >> 28;
        top == 0xC || top == 0xD
    }

    /// Whether the cell holds a number, that is, bit 31 is clear.
    pub fn isFloat(&self) -> (r: bool)
        ensures
            r == self.is_float(),
    {
        (self.atom_ >> 31) == 0
    }

    /// Whether the cell reads as nil. This holds of eight patterns and of
    /// no other: nil, the number reserved for it, the undefined boolean, the
    /// empty set, and the undefined node, device, device function and string.
    pub fn readsAsNil(&self) -> (r: bool)
        ensures
            r == self.reads_as_nil(),
            r <==> Atom::nil_patterns().contains(self.atom_),
    {
        self.atom_ == 0x80000000 || self.atom_ == 0x3FFFFFFF || self.atom_ == 0x81FFFFFF
            || self.atom_ == 0xC1000000 || self.atom_ == 0xA0FFFFFF || self.atom_ == 0xA1FFFFFF
            || self.atom_ == 0xA2FFFFFF || self.atom_ == 0xC6FFFFFF
    }

    /// The IEEE-754 single-precision bit pattern of a number cell: the cell
    /// shifted left by one.
    pub fn asFloatBits(&self) -> (r: u32)
        ensures
            r == self.float_bits(),
    {
        self.atom_ << 1
    }

    /// The value of a boolean cell.
    pub fn asBoolean(&self) -> (r: bool)
        ensures
            r == self.boolean(),
    {
        self.atom_ & 0x000000FF != 0
    }

    /// Whether the cell is a boolean that holds true.
    pub fn isBooleanTrue(&self) -> (r: bool)
        ensures
            r == (self.descriptor() == BOOLEAN_ && self.boolean()),
    {
        self.getDescriptor() == BOOLEAN_ && self.asBoolean()
    }

    /// Whether the cell is a boolean that holds false.
    pub fn isBooleanFalse(&self) -> (r: bool)
        ensures
            r == (self.descriptor() == BOOLEAN_ && !self.boolean()),
    {
        self.getDescriptor() == BOOLEAN_ && !self.asBoolean()
    }

    /// The index of a pointer cell.
    pub fn asIndex(&self) -> (r: u16)
        ensures
            r == self.index(),
    {
        (self.atom_ & 0x00000FFF) as u16
    }

    /// The input index of a pointer to input object data.
    pub fn asInputIndex(&self) -> (r: u8)
        ensures
            r == self.input_index(),
    {
        ((self.atom_ & 0x000FF000) >> 12) as u8
    }

    /// The relative index of a pointer to data of a referenced input object.
    pub fn asRelativeIndex(&self) -> (r: u8)
        ensures
            r == self.input_index(),
    {
        ((self.atom_ & 0x000FF000) >> 12) as u8
    }

    /// The opcode of a header, wildcard or device function.
    pub fn asOpcode(&self) -> (r: u16)
        ensures
            r == self.opcode(),
    {
        ((self.atom_ >> 8) & 0x00000FFF) as u16
    }

    /// The cast opcode of a code value pointer.
    pub fn asCastOpcode(&self) -> (r: u16)
        ensures
            r == self.cast_opcode(),
    {
        ((self.atom_ & 0x00FFF000) >> 12) as u16
    }

    /// The node of a device cell.
    pub fn getNodeID(&self) -> (r: u8)
        ensures
            r == self.node_id(),
    {
        ((self.atom_ & 0x00FF0000) >> 16) as u8
    }

    /// The class of a device cell.
    pub fn getClassID(&self) -> (r: u8)
        ensures
            r == self.class_id(),
    {
        ((self.atom_ & 0x0000FF00) >> 8) as u8
    }

    /// The device of a device cell.
    pub fn getDeviceID(&self) -> (r: u8)
        ensures
            r == self.device_id(),
    {
        (self.atom_ & 0x000000FF) as u8
    }

    /// The variable index of an assignment pointer.
    pub fn asAssignmentIndex(&self) -> (r: u8)
        ensures
            r == self.node_id(),
    {
        ((self.atom_ & 0x00FF0000) >> 16) as u8
    }

    /// How many atoms after this one belong to it: the arity of operators,
    /// objects, markers and the other headers, the number of atoms in a
    /// pointer chain, the number of character blocks of a string, two for a
    /// timestamp whatever its other bits, and zero for every other cell.
    pub fn getAtomCount(&self) -> (r: u8)
        ensures
            r == self.atom_count(),
            self.descriptor() == TIMESTAMP ==> r == 2,
            !has_count_field(self.descriptor()) && self.descriptor() != STRING && self.descriptor()
                != TIMESTAMP ==> r == 0,
    {
        let d = self.getDescriptor();
        if d == SET || d == OBJECT || d == MARKER || d == C_PTR || d == OPERATOR || d
            == INSTANTIATED_PROGRAM || d == INSTANTIATED_CPP_PROGRAM || d
            == INSTANTIATED_INPUT_LESS_PROGRAM || d == INSTANTIATED_ANTI_PROGRAM || d
            == COMPOSITE_STATE || d == MODEL || d == GROUP || d == S_SET {
            (self.atom_ & 0x000000FF) as u8
        } else if d == STRING {
            ((self.atom_ & 0x0000FF00) >> 8) as u8
        } else if d == TIMESTAMP {
            2
        } else {
            0
        }
    }

    /// Whether a null program takes past inputs.
    pub fn takesPastInputs(&self) -> (r: bool)
        ensures
            r == self.past_inputs(),
    {
        self.atom_ & 0x00000001 != 0
    }
}

impl Atom {
    /// The bit patterns that read as nil.
    pub open spec fn nil_patterns() -> Set<u32> {
        set![
            0x80000000u32,
            0x3FFFFFFFu32,
            0x81FFFFFFu32,
            0xC1000000u32,
            0xA0FFFFFFu32,
            0xA1FFFFFFu32,
            0xA2FFFFFFu32,
            0xC6FFFFFFu32,
        ]
    }
}

impl Default for Atom {
    /// The canonical undefined cell: every bit set.
    fn default() -> (r: Atom)
        ensures
            r.atom_ == 0xFFFFFFFF,
    {
        Atom { atom_: 0xFFFFFFFF }
    }
}

} // verus!
