//! The RV32I general-purpose register file and its two naming policies.

use vstd::prelude::*;

verus! {

/// One of the 32 general-purpose registers.
///
/// A value of this type is always a legal register: turning a raw
/// integer index into a register is the only fallible step (see
/// [`AsmRegister::from_index`]) and happens before a register reaches
/// any rendering code.
#[derive(Debug, Copy, Clone, PartialEq, Eq, Structural)]
pub enum AsmRegister {
    R0,
    R1,
    R2,
    R3,
    R4,
    R5,
    R6,
    R7,
    R8,
    R9,
    R10,
    R11,
    R12,
    R13,
    R14,
    R15,
    R16,
    R17,
    R18,
    R19,
    R20,
    R21,
    R22,
    R23,
    R24,
    R25,
    R26,
    R27,
    R28,
    R29,
    R30,
    R31,
}

impl AsmRegister {
    /// The positional index of the register, 0 through 31.
    pub open spec fn spec_index(self) -> u8 {
        match self {
            AsmRegister::R0 => 0,
            AsmRegister::R1 => 1,
            AsmRegister::R2 => 2,
            AsmRegister::R3 => 3,
            AsmRegister::R4 => 4,
            AsmRegister::R5 => 5,
            AsmRegister::R6 => 6,
            AsmRegister::R7 => 7,
            AsmRegister::R8 => 8,
            AsmRegister::R9 => 9,
            AsmRegister::R10 => 10,
            AsmRegister::R11 => 11,
            AsmRegister::R12 => 12,
            AsmRegister::R13 => 13,
            AsmRegister::R14 => 14,
            AsmRegister::R15 => 15,
            AsmRegister::R16 => 16,
            AsmRegister::R17 => 17,
            AsmRegister::R18 => 18,
            AsmRegister::R19 => 19,
            AsmRegister::R20 => 20,
            AsmRegister::R21 => 21,
            AsmRegister::R22 => 22,
            AsmRegister::R23 => 23,
            AsmRegister::R24 => 24,
            AsmRegister::R25 => 25,
            AsmRegister::R26 => 26,
            AsmRegister::R27 => 27,
            AsmRegister::R28 => 28,
            AsmRegister::R29 => 29,
            AsmRegister::R30 => 30,
            AsmRegister::R31 => 31,
        }
    }

    /// The register with the given positional index, or `None` when the
    /// index is outside the 5-bit field range. This is the single place
    /// where a raw integer can fail to name a register.
    pub fn from_index(value: u8) -> (r: Option<AsmRegister>)
        ensures
            r is Some <==> value < 32,
            r is Some ==> r.unwrap().spec_index() == value,
    {
        match value {
            0 => Some(AsmRegister::R0),
            1 => Some(AsmRegister::R1),
            2 => Some(AsmRegister::R2),
            3 => Some(AsmRegister::R3),
            4 => Some(AsmRegister::R4),
            5 => Some(AsmRegister::R5),
            6 => Some(AsmRegister::R6),
            7 => Some(AsmRegister::R7),
            8 => Some(AsmRegister::R8),
            9 => Some(AsmRegister::R9),
            10 => Some(AsmRegister::R10),
            11 => Some(AsmRegister::R11),
            12 => Some(AsmRegister::R12),
            13 => Some(AsmRegister::R13),
            14 => Some(AsmRegister::R14),
            15 => Some(AsmRegister::R15),
            16 => Some(AsmRegister::R16),
            17 => Some(AsmRegister::R17),
            18 => Some(AsmRegister::R18),
            19 => Some(AsmRegister::R19),
            20 => Some(AsmRegister::R20),
            21 => Some(AsmRegister::R21),
            22 => Some(AsmRegister::R22),
            23 => Some(AsmRegister::R23),
            24 => Some(AsmRegister::R24),
            25 => Some(AsmRegister::R25),
            26 => Some(AsmRegister::R26),
            27 => Some(AsmRegister::R27),
            28 => Some(AsmRegister::R28),
            29 => Some(AsmRegister::R29),
            30 => Some(AsmRegister::R30),
            31 => Some(AsmRegister::R31),
            _ => None,
        }
    }

    /// The positional index of the register.
    pub fn index(self) -> (n: u8)
        ensures
            n == self.spec_index(),
    {
        match self {
            AsmRegister::R0 => 0,
            AsmRegister::R1 => 1,
            AsmRegister::R2 => 2,
            AsmRegister::R3 => 3,
            AsmRegister::R4 => 4,
            AsmRegister::R5 => 5,
            AsmRegister::R6 => 6,
            AsmRegister::R7 => 7,
            AsmRegister::R8 => 8,
            AsmRegister::R9 => 9,
            AsmRegister::R10 => 10,
            AsmRegister::R11 => 11,
            AsmRegister::R12 => 12,
            AsmRegister::R13 => 13,
            AsmRegister::R14 => 14,
            AsmRegister::R15 => 15,
            AsmRegister::R16 => 16,
            AsmRegister::R17 => 17,
            AsmRegister::R18 => 18,
            AsmRegister::R19 => 19,
            AsmRegister::R20 => 20,
            AsmRegister::R21 => 21,
            AsmRegister::R22 => 22,
            AsmRegister::R23 => 23,
            AsmRegister::R24 => 24,
            AsmRegister::R25 => 25,
            AsmRegister::R26 => 26,
            AsmRegister::R27 => 27,
            AsmRegister::R28 => 28,
            AsmRegister::R29 => 29,
            AsmRegister::R30 => 30,
            AsmRegister::R31 => 31,
        }
    }
}

impl From<AsmRegister> for u8 {
    /// The positional index of the register.
    fn from(value: AsmRegister) -> (r: u8) {
        value.index()
    }
}

impl vstd::std_specs::convert::FromSpecImpl<AsmRegister> for u8 {
    open spec fn obeys_from_spec() -> bool {
        true
    }

    open spec fn from_spec(value: AsmRegister) -> u8 {
        value.spec_index()
    }
}

/// The raw positional name of a register: `x` followed by its index.
pub open spec fn spec_raw_name(r: AsmRegister) -> Seq<char> {
    match r {
        AsmRegister::R0 => "x0"@,
        AsmRegister::R1 => "x1"@,
        AsmRegister::R2 => "x2"@,
        AsmRegister::R3 => "x3"@,
        AsmRegister::R4 => "x4"@,
        AsmRegister::R5 => "x5"@,
        AsmRegister::R6 => "x6"@,
        AsmRegister::R7 => "x7"@,
        AsmRegister::R8 => "x8"@,
        AsmRegister::R9 => "x9"@,
        AsmRegister::R10 => "x10"@,
        AsmRegister::R11 => "x11"@,
        AsmRegister::R12 => "x12"@,
        AsmRegister::R13 => "x13"@,
        AsmRegister::R14 => "x14"@,
        AsmRegister::R15 => "x15"@,
        AsmRegister::R16 => "x16"@,
        AsmRegister::R17 => "x17"@,
        AsmRegister::R18 => "x18"@,
        AsmRegister::R19 => "x19"@,
        AsmRegister::R20 => "x20"@,
        AsmRegister::R21 => "x21"@,
        AsmRegister::R22 => "x22"@,
        AsmRegister::R23 => "x23"@,
        AsmRegister::R24 => "x24"@,
        AsmRegister::R25 => "x25"@,
        AsmRegister::R26 => "x26"@,
        AsmRegister::R27 => "x27"@,
        AsmRegister::R28 => "x28"@,
        AsmRegister::R29 => "x29"@,
        AsmRegister::R30 => "x30"@,
        AsmRegister::R31 => "x31"@,
    }
}

/// The ABI calling-convention name of a register, exactly as the
/// RISC-V psABI defines it (`x8` also has the alternate name `fp`, the
/// frame pointer; its primary name `s0` is the one rendered).
pub open spec fn spec_abi_name(r: AsmRegister) -> Seq<char> {
    match r {
        AsmRegister::R0 => "zero"@,
        AsmRegister::R1 => "ra"@,
        AsmRegister::R2 => "sp"@,
        AsmRegister::R3 => "gp"@,
        AsmRegister::R4 => "tp"@,
        AsmRegister::R5 => "t0"@,
        AsmRegister::R6 => "t1"@,
        AsmRegister::R7 => "t2"@,
        AsmRegister::R8 => "s0"@,
        AsmRegister::R9 => "s1"@,
        AsmRegister::R10 => "a0"@,
        AsmRegister::R11 => "a1"@,
        AsmRegister::R12 => "a2"@,
        AsmRegister::R13 => "a3"@,
        AsmRegister::R14 => "a4"@,
        AsmRegister::R15 => "a5"@,
        AsmRegister::R16 => "a6"@,
        AsmRegister::R17 => "a7"@,
        AsmRegister::R18 => "s2"@,
        AsmRegister::R19 => "s3"@,
        AsmRegister::R20 => "s4"@,
        AsmRegister::R21 => "s5"@,
        AsmRegister::R22 => "s6"@,
        AsmRegister::R23 => "s7"@,
        AsmRegister::R24 => "s8"@,
        AsmRegister::R25 => "s9"@,
        AsmRegister::R26 => "s10"@,
        AsmRegister::R27 => "s11"@,
        AsmRegister::R28 => "t3"@,
        AsmRegister::R29 => "t4"@,
        AsmRegister::R30 => "t5"@,
        AsmRegister::R31 => "t6"@,
    }
}

/// The display name of a register under the chosen policy.
pub open spec fn spec_register_name(r: AsmRegister, raw: bool) -> Seq<char> {
    if raw {
        spec_raw_name(r)
    } else {
        spec_abi_name(r)
    }
}

/// The display name of a register: the positional name when `raw` is
/// set, the ABI name otherwise. Total over the register set.
pub fn register_name(r: AsmRegister, raw: bool) -> (s: &'static str)
    ensures
        s@ == spec_register_name(r, raw),
{
    if raw {
        match r {
            AsmRegister::R0 => "x0",
            AsmRegister::R1 => "x1",
            AsmRegister::R2 => "x2",
            AsmRegister::R3 => "x3",
            AsmRegister::R4 => "x4",
            AsmRegister::R5 => "x5",
            AsmRegister::R6 => "x6",
            AsmRegister::R7 => "x7",
            AsmRegister::R8 => "x8",
            AsmRegister::R9 => "x9",
            AsmRegister::R10 => "x10",
            AsmRegister::R11 => "x11",
            AsmRegister::R12 => "x12",
            AsmRegister::R13 => "x13",
            AsmRegister::R14 => "x14",
            AsmRegister::R15 => "x15",
            AsmRegister::R16 => "x16",
            AsmRegister::R17 => "x17",
            AsmRegister::R18 => "x18",
            AsmRegister::R19 => "x19",
            AsmRegister::R20 => "x20",
            AsmRegister::R21 => "x21",
            AsmRegister::R22 => "x22",
            AsmRegister::R23 => "x23",
            AsmRegister::R24 => "x24",
            AsmRegister::R25 => "x25",
            AsmRegister::R26 => "x26",
            AsmRegister::R27 => "x27",
            AsmRegister::R28 => "x28",
            AsmRegister::R29 => "x29",
            AsmRegister::R30 => "x30",
            AsmRegister::R31 => "x31",
        }
    } else {
        match r {
            AsmRegister::R0 => "zero",
            AsmRegister::R1 => "ra",
            AsmRegister::R2 => "sp",
            AsmRegister::R3 => "gp",
            AsmRegister::R4 => "tp",
            AsmRegister::R5 => "t0",
            AsmRegister::R6 => "t1",
            AsmRegister::R7 => "t2",
            AsmRegister::R8 => "s0",
            AsmRegister::R9 => "s1",
            AsmRegister::R10 => "a0",
            AsmRegister::R11 => "a1",
            AsmRegister::R12 => "a2",
            AsmRegister::R13 => "a3",
            AsmRegister::R14 => "a4",
            AsmRegister::R15 => "a5",
            AsmRegister::R16 => "a6",
            AsmRegister::R17 => "a7",
            AsmRegister::R18 => "s2",
            AsmRegister::R19 => "s3",
            AsmRegister::R20 => "s4",
            AsmRegister::R21 => "s5",
            AsmRegister::R22 => "s6",
            AsmRegister::R23 => "s7",
            AsmRegister::R24 => "s8",
            AsmRegister::R25 => "s9",
            AsmRegister::R26 => "s10",
            AsmRegister::R27 => "s11",
            AsmRegister::R28 => "t3",
            AsmRegister::R29 => "t4",
            AsmRegister::R30 => "t5",
            AsmRegister::R31 => "t6",
        }
    }
}

/// The numeric value of a decimal digit character, or a value out of
/// range for any digit when the character is not one.
spec fn char_digit_val(c: char) -> int {
    if c == '0' {
        0
    } else if c == '1' {
        1
    } else if c == '2' {
        2
    } else if c == '3' {
        3
    } else if c == '4' {
        4
    } else if c == '5' {
        5
    } else if c == '6' {
        6
    } else if c == '7' {
        7
    } else if c == '8' {
        8
    } else if c == '9' {
        9
    } else {
        99
    }
}

/// A left inverse of [`spec_raw_name`]: reads the index back out of a
/// raw positional name.
spec fn raw_name_index(s: Seq<char>) -> int {
    if s.len() == 2 {
        char_digit_val(s[1])
    } else if s.len() == 3 {
        10 * char_digit_val(s[1]) + char_digit_val(s[2])
    } else {
        -1
    }
}

/// A left inverse of [`spec_abi_name`]: reads the index back out of an
/// ABI calling-convention name.
spec fn abi_name_index(s: Seq<char>) -> int {
    if s.len() < 2 {
        -1
    } else if s[0] == 'z' {
        0
    } else if s[0] == 'r' {
        1
    } else if s[0] == 'g' {
        3
    } else if s[0] == 't' {
        if s[1] == 'p' {
            4
        } else if char_digit_val(s[1]) <= 2 {
            5 + char_digit_val(s[1])
        } else {
            25 + char_digit_val(s[1])
        }
    } else if s[0] == 's' {
        if s[1] == 'p' {
            2
        } else if s.len() == 3 {
            16 + 10 * char_digit_val(s[1]) + char_digit_val(s[2])
        } else if char_digit_val(s[1]) <= 1 {
            8 + char_digit_val(s[1])
        } else {
            16 + char_digit_val(s[1])
        }
    } else if s[0] == 'a' {
        10 + char_digit_val(s[1])
    } else {
        -1
    }
}

/// Register naming is total and injective: under either policy every
/// register renders to a non-empty name, and no two distinct registers
/// share a name.
#[verifier::rlimit(100)]
pub proof fn lemma_register_names_distinct(a: AsmRegister, b: AsmRegister)
    ensures
        spec_raw_name(a).len() > 0,
        spec_abi_name(a).len() > 0,
        a != b ==> spec_raw_name(a) != spec_raw_name(b),
        a != b ==> spec_abi_name(a) != spec_abi_name(b),
{
    lemma_name_indices(a);
    lemma_name_indices(b);
}

/// Both naming tables round-trip through their index decoders.
proof fn lemma_name_indices(r: AsmRegister)
    ensures
        raw_name_index(spec_raw_name(r)) == r.spec_index(),
        abi_name_index(spec_abi_name(r)) == r.spec_index(),
        spec_raw_name(r).len() > 0,
        spec_abi_name(r).len() > 0,
{
    reveal_strlit("x0");
    reveal_strlit("x1");
    reveal_strlit("x2");
    reveal_strlit("x3");
    reveal_strlit("x4");
    reveal_strlit("x5");
    reveal_strlit("x6");
    reveal_strlit("x7");
    reveal_strlit("x8");
    reveal_strlit("x9");
    reveal_strlit("x10");
    reveal_strlit("x11");
    reveal_strlit("x12");
    reveal_strlit("x13");
    reveal_strlit("x14");
    reveal_strlit("x15");
    reveal_strlit("x16");
    reveal_strlit("x17");
    reveal_strlit("x18");
    reveal_strlit("x19");
    reveal_strlit("x20");
    reveal_strlit("x21");
    reveal_strlit("x22");
    reveal_strlit("x23");
    reveal_strlit("x24");
    reveal_strlit("x25");
    reveal_strlit("x26");
    reveal_strlit("x27");
    reveal_strlit("x28");
    reveal_strlit("x29");
    reveal_strlit("x30");
    reveal_strlit("x31");
    reveal_strlit("zero");
    reveal_strlit("ra");
    reveal_strlit("sp");
    reveal_strlit("gp");
    reveal_strlit("tp");
    reveal_strlit("t0");
    reveal_strlit("t1");
    reveal_strlit("t2");
    reveal_strlit("s0");
    reveal_strlit("s1");
    reveal_strlit("a0");
    reveal_strlit("a1");
    reveal_strlit("a2");
    reveal_strlit("a3");
    reveal_strlit("a4");
    reveal_strlit("a5");
    reveal_strlit("a6");
    reveal_strlit("a7");
    reveal_strlit("s2");
    reveal_strlit("s3");
    reveal_strlit("s4");
    reveal_strlit("s5");
    reveal_strlit("s6");
    reveal_strlit("s7");
    reveal_strlit("s8");
    reveal_strlit("s9");
    reveal_strlit("s10");
    reveal_strlit("s11");
    reveal_strlit("t3");
    reveal_strlit("t4");
    reveal_strlit("t5");
    reveal_strlit("t6");
}

} // verus!
