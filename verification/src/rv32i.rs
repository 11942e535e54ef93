//! The RV32I opcode-class shapes and their canonicalization rules.
//!
//! One struct per opcode class, each carrying the decoded fields that
//! class exposes, and one [`AsmInstruction`] impl per struct encoding
//! the disassembly convention for it: the mnemonic (with pseudo-op
//! substitution where the field values match a recognized special
//! case) and the ordered, filtered operand list.

use vstd::prelude::*;

use crate::AsmArgument;
use crate::AsmFormatOptions;
use crate::AsmInstruction;
use crate::registers::AsmRegister;
use crate::spec_render;

verus! {

/// Load upper immediate.
///
/// The encoder stores the field shifted twelve bits left; the rendered
/// immediate is the field shifted back down, the architectural
/// twenty-bit value.
#[derive(Debug, Clone, Copy, PartialEq, Eq, Structural)]
pub struct Lui {
    /// Destination register.
    pub rd: AsmRegister,
    /// Immediate field value, stored pre-shifted twelve bits left by the encoder.
    pub imm: i64,
}

impl AsmInstruction for Lui {
    open spec fn spec_verb(&self) -> Seq<char> {
        "lui"@
    }

    open spec fn spec_args(&self) -> Seq<AsmArgument<'_>> {
        seq![AsmArgument::Register(self.rd), AsmArgument::Immediate(self.imm >> 12)]
    }

    fn verb(&self) -> (r: &'static str) {
        "lui"
    }

    fn arguments(&self) -> (r: Vec<AsmArgument<'_>>) {
        vec![AsmArgument::Register(self.rd), AsmArgument::Immediate(self.imm >> 12)]
    }
}

/// Add upper immediate to the program counter.
///
/// The encoder stores the field shifted twelve bits left; the rendered
/// immediate is the field shifted back down, the architectural
/// twenty-bit value.
#[derive(Debug, Clone, Copy, PartialEq, Eq, Structural)]
pub struct AuiPc {
    /// Destination register.
    pub rd: AsmRegister,
    /// Immediate field value, stored pre-shifted twelve bits left by the encoder.
    pub imm: i64,
}

impl AsmInstruction for AuiPc {
    open spec fn spec_verb(&self) -> Seq<char> {
        "auipc"@
    }

    open spec fn spec_args(&self) -> Seq<AsmArgument<'_>> {
        seq![AsmArgument::Register(self.rd), AsmArgument::Immediate(self.imm >> 12)]
    }

    fn verb(&self) -> (r: &'static str) {
        "auipc"
    }

    fn arguments(&self) -> (r: Vec<AsmArgument<'_>>) {
        vec![AsmArgument::Register(self.rd), AsmArgument::Immediate(self.imm >> 12)]
    }
}

/// Jump and link.
///
/// Collapses to the link-free `j` with only the target when the
/// destination is the discard register `x0`; any other destination,
/// the link register included, keeps the full two-operand form.
#[derive(Debug, Clone, Copy, PartialEq, Eq, Structural)]
pub struct Jal {
    /// Destination register.
    pub rd: AsmRegister,
    /// Sign-extended jump offset.
    pub imm: i64,
}

impl AsmInstruction for Jal {
    open spec fn spec_verb(&self) -> Seq<char> {
        if self.rd == AsmRegister::R0 {
            "j"@
        } else {
            "jal"@
        }
    }

    open spec fn spec_args(&self) -> Seq<AsmArgument<'_>> {
        if self.rd == AsmRegister::R0 {
            seq![AsmArgument::Immediate(self.imm)]
        } else {
            seq![AsmArgument::Register(self.rd), AsmArgument::Immediate(self.imm)]
        }
    }

    fn verb(&self) -> (r: &'static str) {
        if self.rd == AsmRegister::R0 {
            "j"
        } else {
            "jal"
        }
    }

    fn arguments(&self) -> (r: Vec<AsmArgument<'_>>) {
        if self.rd == AsmRegister::R0 {
            vec![AsmArgument::Immediate(self.imm)]
        } else {
            vec![AsmArgument::Register(self.rd), AsmArgument::Immediate(self.imm)]
        }
    }
}

/// Indirect jump and link.
///
/// The (offset 0, destination `ra`, source `ra`) triple collapses to
/// the zero-operand `ret`; offset 0 with the discard destination `x0`
/// collapses to `jr` with only the source register; every other
/// combination keeps the full three-operand form.
#[derive(Debug, Clone, Copy, PartialEq, Eq, Structural)]
pub struct JalR {
    /// Destination register.
    pub rd: AsmRegister,
    /// First source register.
    pub rs1: AsmRegister,
    /// Sign-extended target offset.
    pub imm: i64,
}

impl AsmInstruction for JalR {
    open spec fn spec_verb(&self) -> Seq<char> {
        if self.imm == 0 && self.rd == AsmRegister::R1 && self.rs1 == AsmRegister::R1 {
            "ret"@
        } else if self.imm == 0 && self.rd == AsmRegister::R0 {
            "jr"@
        } else {
            "jalr"@
        }
    }

    open spec fn spec_args(&self) -> Seq<AsmArgument<'_>> {
        if self.imm == 0 && self.rd == AsmRegister::R1 && self.rs1 == AsmRegister::R1 {
            Seq::empty()
        } else if self.imm == 0 && self.rd == AsmRegister::R0 {
            seq![AsmArgument::Register(self.rs1)]
        } else {
            seq![AsmArgument::Register(self.rd), AsmArgument::Register(self.rs1), AsmArgument::Immediate(self.imm)]
        }
    }

    fn verb(&self) -> (r: &'static str) {
        if self.imm == 0 && self.rd == AsmRegister::R1 && self.rs1 == AsmRegister::R1 {
            "ret"
        } else if self.imm == 0 && self.rd == AsmRegister::R0 {
            "jr"
        } else {
            "jalr"
        }
    }

    fn arguments(&self) -> (r: Vec<AsmArgument<'_>>) {
        if self.imm == 0 && self.rd == AsmRegister::R1 && self.rs1 == AsmRegister::R1 {
            Vec::new()
        } else if self.imm == 0 && self.rd == AsmRegister::R0 {
            vec![AsmArgument::Register(self.rs1)]
        } else {
            vec![AsmArgument::Register(self.rd), AsmArgument::Register(self.rs1), AsmArgument::Immediate(self.imm)]
        }
    }
}

/// Conditional branch: equal.
///
/// When either compared register is `x0` the mnemonic becomes `beqz`
/// and the zero register is dropped from the operands.
#[derive(Debug, Clone, Copy, PartialEq, Eq, Structural)]
pub struct Beq {
    /// First source register.
    pub rs1: AsmRegister,
    /// Second source register.
    pub rs2: AsmRegister,
    /// Sign-extended branch offset.
    pub imm: i64,
}

impl AsmInstruction for Beq {
    open spec fn spec_verb(&self) -> Seq<char> {
        if self.rs1 == AsmRegister::R0 {
            "beqz"@
        } else if self.rs2 == AsmRegister::R0 {
            "beqz"@
        } else {
            "beq"@
        }
    }

    open spec fn spec_args(&self) -> Seq<AsmArgument<'_>> {
        if self.rs1 == AsmRegister::R0 {
            seq![AsmArgument::Register(self.rs2), AsmArgument::Immediate(self.imm)]
        } else if self.rs2 == AsmRegister::R0 {
            seq![AsmArgument::Register(self.rs1), AsmArgument::Immediate(self.imm)]
        } else {
            seq![AsmArgument::Register(self.rs1), AsmArgument::Register(self.rs2), AsmArgument::Immediate(self.imm)]
        }
    }

    fn verb(&self) -> (r: &'static str) {
        if self.rs1 == AsmRegister::R0 {
            "beqz"
        } else if self.rs2 == AsmRegister::R0 {
            "beqz"
        } else {
            "beq"
        }
    }

    fn arguments(&self) -> (r: Vec<AsmArgument<'_>>) {
        if self.rs1 == AsmRegister::R0 {
            vec![AsmArgument::Register(self.rs2), AsmArgument::Immediate(self.imm)]
        } else if self.rs2 == AsmRegister::R0 {
            vec![AsmArgument::Register(self.rs1), AsmArgument::Immediate(self.imm)]
        } else {
            vec![AsmArgument::Register(self.rs1), AsmArgument::Register(self.rs2), AsmArgument::Immediate(self.imm)]
        }
    }
}

/// Conditional branch: not equal.
///
/// When either compared register is `x0` the mnemonic becomes `bnez`
/// and the zero register is dropped from the operands.
#[derive(Debug, Clone, Copy, PartialEq, Eq, Structural)]
pub struct Bne {
    /// First source register.
    pub rs1: AsmRegister,
    /// Second source register.
    pub rs2: AsmRegister,
    /// Sign-extended branch offset.
    pub imm: i64,
}

impl AsmInstruction for Bne {
    open spec fn spec_verb(&self) -> Seq<char> {
        if self.rs1 == AsmRegister::R0 {
            "bnez"@
        } else if self.rs2 == AsmRegister::R0 {
            "bnez"@
        } else {
            "bne"@
        }
    }

    open spec fn spec_args(&self) -> Seq<AsmArgument<'_>> {
        if self.rs1 == AsmRegister::R0 {
            seq![AsmArgument::Register(self.rs2), AsmArgument::Immediate(self.imm)]
        } else if self.rs2 == AsmRegister::R0 {
            seq![AsmArgument::Register(self.rs1), AsmArgument::Immediate(self.imm)]
        } else {
            seq![AsmArgument::Register(self.rs1), AsmArgument::Register(self.rs2), AsmArgument::Immediate(self.imm)]
        }
    }

    fn verb(&self) -> (r: &'static str) {
        if self.rs1 == AsmRegister::R0 {
            "bnez"
        } else if self.rs2 == AsmRegister::R0 {
            "bnez"
        } else {
            "bne"
        }
    }

    fn arguments(&self) -> (r: Vec<AsmArgument<'_>>) {
        if self.rs1 == AsmRegister::R0 {
            vec![AsmArgument::Register(self.rs2), AsmArgument::Immediate(self.imm)]
        } else if self.rs2 == AsmRegister::R0 {
            vec![AsmArgument::Register(self.rs1), AsmArgument::Immediate(self.imm)]
        } else {
            vec![AsmArgument::Register(self.rs1), AsmArgument::Register(self.rs2), AsmArgument::Immediate(self.imm)]
        }
    }
}

/// Conditional branch: signed less than.
///
/// A `x0` on the left collapses to `bgtz`, on the right to `bltz`:
/// which side is zero changes the comparison sense, not merely the
/// operand count.
#[derive(Debug, Clone, Copy, PartialEq, Eq, Structural)]
pub struct Blt {
    /// First source register.
    pub rs1: AsmRegister,
    /// Second source register.
    pub rs2: AsmRegister,
    /// Sign-extended branch offset.
    pub imm: i64,
}

impl AsmInstruction for Blt {
    open spec fn spec_verb(&self) -> Seq<char> {
        if self.rs1 == AsmRegister::R0 {
            "bgtz"@
        } else if self.rs2 == AsmRegister::R0 {
            "bltz"@
        } else {
            "blt"@
        }
    }

    open spec fn spec_args(&self) -> Seq<AsmArgument<'_>> {
        if self.rs1 == AsmRegister::R0 {
            seq![AsmArgument::Register(self.rs2), AsmArgument::Immediate(self.imm)]
        } else if self.rs2 == AsmRegister::R0 {
            seq![AsmArgument::Register(self.rs1), AsmArgument::Immediate(self.imm)]
        } else {
            seq![AsmArgument::Register(self.rs1), AsmArgument::Register(self.rs2), AsmArgument::Immediate(self.imm)]
        }
    }

    fn verb(&self) -> (r: &'static str) {
        if self.rs1 == AsmRegister::R0 {
            "bgtz"
        } else if self.rs2 == AsmRegister::R0 {
            "bltz"
        } else {
            "blt"
        }
    }

    fn arguments(&self) -> (r: Vec<AsmArgument<'_>>) {
        if self.rs1 == AsmRegister::R0 {
            vec![AsmArgument::Register(self.rs2), AsmArgument::Immediate(self.imm)]
        } else if self.rs2 == AsmRegister::R0 {
            vec![AsmArgument::Register(self.rs1), AsmArgument::Immediate(self.imm)]
        } else {
            vec![AsmArgument::Register(self.rs1), AsmArgument::Register(self.rs2), AsmArgument::Immediate(self.imm)]
        }
    }
}

/// Conditional branch: signed greater or equal.
///
/// A `x0` on the left collapses to `blez`, on the right to `bgez`:
/// which side is zero changes the comparison sense, not merely the
/// operand count.
#[derive(Debug, Clone, Copy, PartialEq, Eq, Structural)]
pub struct Bge {
    /// First source register.
    pub rs1: AsmRegister,
    /// Second source register.
    pub rs2: AsmRegister,
    /// Sign-extended branch offset.
    pub imm: i64,
}

impl AsmInstruction for Bge {
    open spec fn spec_verb(&self) -> Seq<char> {
        if self.rs1 == AsmRegister::R0 {
            "blez"@
        } else if self.rs2 == AsmRegister::R0 {
            "bgez"@
        } else {
            "bge"@
        }
    }

    open spec fn spec_args(&self) -> Seq<AsmArgument<'_>> {
        if self.rs1 == AsmRegister::R0 {
            seq![AsmArgument::Register(self.rs2), AsmArgument::Immediate(self.imm)]
        } else if self.rs2 == AsmRegister::R0 {
            seq![AsmArgument::Register(self.rs1), AsmArgument::Immediate(self.imm)]
        } else {
            seq![AsmArgument::Register(self.rs1), AsmArgument::Register(self.rs2), AsmArgument::Immediate(self.imm)]
        }
    }

    fn verb(&self) -> (r: &'static str) {
        if self.rs1 == AsmRegister::R0 {
            "blez"
        } else if self.rs2 == AsmRegister::R0 {
            "bgez"
        } else {
            "bge"
        }
    }

    fn arguments(&self) -> (r: Vec<AsmArgument<'_>>) {
        if self.rs1 == AsmRegister::R0 {
            vec![AsmArgument::Register(self.rs2), AsmArgument::Immediate(self.imm)]
        } else if self.rs2 == AsmRegister::R0 {
            vec![AsmArgument::Register(self.rs1), AsmArgument::Immediate(self.imm)]
        } else {
            vec![AsmArgument::Register(self.rs1), AsmArgument::Register(self.rs2), AsmArgument::Immediate(self.imm)]
        }
    }
}

/// Conditional branch: unsigned less than. Never collapses: only the
/// signed branches have zero-register special cases.
#[derive(Debug, Clone, Copy, PartialEq, Eq, Structural)]
pub struct Bltu {
    /// First source register.
    pub rs1: AsmRegister,
    /// Second source register.
    pub rs2: AsmRegister,
    /// Sign-extended branch offset.
    pub imm: i64,
}

impl AsmInstruction for Bltu {
    open spec fn spec_verb(&self) -> Seq<char> {
        "bltu"@
    }

    open spec fn spec_args(&self) -> Seq<AsmArgument<'_>> {
        seq![AsmArgument::Register(self.rs1), AsmArgument::Register(self.rs2), AsmArgument::Immediate(self.imm)]
    }

    fn verb(&self) -> (r: &'static str) {
        "bltu"
    }

    fn arguments(&self) -> (r: Vec<AsmArgument<'_>>) {
        vec![AsmArgument::Register(self.rs1), AsmArgument::Register(self.rs2), AsmArgument::Immediate(self.imm)]
    }
}

/// Conditional branch: unsigned greater or equal. Never collapses: only
/// the signed branches have zero-register special cases.
#[derive(Debug, Clone, Copy, PartialEq, Eq, Structural)]
pub struct Bgeu {
    /// First source register.
    pub rs1: AsmRegister,
    /// Second source register.
    pub rs2: AsmRegister,
    /// Sign-extended branch offset.
    pub imm: i64,
}

impl AsmInstruction for Bgeu {
    open spec fn spec_verb(&self) -> Seq<char> {
        "bgeu"@
    }

    open spec fn spec_args(&self) -> Seq<AsmArgument<'_>> {
        seq![AsmArgument::Register(self.rs1), AsmArgument::Register(self.rs2), AsmArgument::Immediate(self.imm)]
    }

    fn verb(&self) -> (r: &'static str) {
        "bgeu"
    }

    fn arguments(&self) -> (r: Vec<AsmArgument<'_>>) {
        vec![AsmArgument::Register(self.rs1), AsmArgument::Register(self.rs2), AsmArgument::Immediate(self.imm)]
    }
}

/// Load byte, sign-extending.
#[derive(Debug, Clone, Copy, PartialEq, Eq, Structural)]
pub struct Lb {
    /// Destination register.
    pub rd: AsmRegister,
    /// Base address register.
    pub rs1: AsmRegister,
    /// Sign-extended load offset.
    pub imm: i64,
}

impl AsmInstruction for Lb {
    open spec fn spec_verb(&self) -> Seq<char> {
        "lb"@
    }

    open spec fn spec_args(&self) -> Seq<AsmArgument<'_>> {
        seq![AsmArgument::Register(self.rd), AsmArgument::OffsetImmediate(self.imm, self.rs1)]
    }

    fn verb(&self) -> (r: &'static str) {
        "lb"
    }

    fn arguments(&self) -> (r: Vec<AsmArgument<'_>>) {
        vec![AsmArgument::Register(self.rd), AsmArgument::OffsetImmediate(self.imm, self.rs1)]
    }
}

/// Load halfword, sign-extending.
#[derive(Debug, Clone, Copy, PartialEq, Eq, Structural)]
pub struct Lh {
    /// Destination register.
    pub rd: AsmRegister,
    /// Base address register.
    pub rs1: AsmRegister,
    /// Sign-extended load offset.
    pub imm: i64,
}

impl AsmInstruction for Lh {
    open spec fn spec_verb(&self) -> Seq<char> {
        "lh"@
    }

    open spec fn spec_args(&self) -> Seq<AsmArgument<'_>> {
        seq![AsmArgument::Register(self.rd), AsmArgument::OffsetImmediate(self.imm, self.rs1)]
    }

    fn verb(&self) -> (r: &'static str) {
        "lh"
    }

    fn arguments(&self) -> (r: Vec<AsmArgument<'_>>) {
        vec![AsmArgument::Register(self.rd), AsmArgument::OffsetImmediate(self.imm, self.rs1)]
    }
}

/// Load word.
#[derive(Debug, Clone, Copy, PartialEq, Eq, Structural)]
pub struct Lw {
    /// Destination register.
    pub rd: AsmRegister,
    /// Base address register.
    pub rs1: AsmRegister,
    /// Sign-extended load offset.
    pub imm: i64,
}

impl AsmInstruction for Lw {
    open spec fn spec_verb(&self) -> Seq<char> {
        "lw"@
    }

    open spec fn spec_args(&self) -> Seq<AsmArgument<'_>> {
        seq![AsmArgument::Register(self.rd), AsmArgument::OffsetImmediate(self.imm, self.rs1)]
    }

    fn verb(&self) -> (r: &'static str) {
        "lw"
    }

    fn arguments(&self) -> (r: Vec<AsmArgument<'_>>) {
        vec![AsmArgument::Register(self.rd), AsmArgument::OffsetImmediate(self.imm, self.rs1)]
    }
}

/// Load byte, zero-extending.
#[derive(Debug, Clone, Copy, PartialEq, Eq, Structural)]
pub struct Lbu {
    /// Destination register.
    pub rd: AsmRegister,
    /// Base address register.
    pub rs1: AsmRegister,
    /// Sign-extended load offset.
    pub imm: i64,
}

impl AsmInstruction for Lbu {
    open spec fn spec_verb(&self) -> Seq<char> {
        "lbu"@
    }

    open spec fn spec_args(&self) -> Seq<AsmArgument<'_>> {
        seq![AsmArgument::Register(self.rd), AsmArgument::OffsetImmediate(self.imm, self.rs1)]
    }

    fn verb(&self) -> (r: &'static str) {
        "lbu"
    }

    fn arguments(&self) -> (r: Vec<AsmArgument<'_>>) {
        vec![AsmArgument::Register(self.rd), AsmArgument::OffsetImmediate(self.imm, self.rs1)]
    }
}

/// Load halfword, zero-extending.
#[derive(Debug, Clone, Copy, PartialEq, Eq, Structural)]
pub struct Lhu {
    /// Destination register.
    pub rd: AsmRegister,
    /// Base address register.
    pub rs1: AsmRegister,
    /// Sign-extended load offset.
    pub imm: i64,
}

impl AsmInstruction for Lhu {
    open spec fn spec_verb(&self) -> Seq<char> {
        "lhu"@
    }

    open spec fn spec_args(&self) -> Seq<AsmArgument<'_>> {
        seq![AsmArgument::Register(self.rd), AsmArgument::OffsetImmediate(self.imm, self.rs1)]
    }

    fn verb(&self) -> (r: &'static str) {
        "lhu"
    }

    fn arguments(&self) -> (r: Vec<AsmArgument<'_>>) {
        vec![AsmArgument::Register(self.rd), AsmArgument::OffsetImmediate(self.imm, self.rs1)]
    }
}

/// Store byte.
#[derive(Debug, Clone, Copy, PartialEq, Eq, Structural)]
pub struct Sb {
    /// Base address register.
    pub rs1: AsmRegister,
    /// Register holding the value to store.
    pub rs2: AsmRegister,
    /// Sign-extended store offset.
    pub imm: i64,
}

impl AsmInstruction for Sb {
    open spec fn spec_verb(&self) -> Seq<char> {
        "sb"@
    }

    open spec fn spec_args(&self) -> Seq<AsmArgument<'_>> {
        seq![AsmArgument::Register(self.rs2), AsmArgument::OffsetImmediate(self.imm, self.rs1)]
    }

    fn verb(&self) -> (r: &'static str) {
        "sb"
    }

    fn arguments(&self) -> (r: Vec<AsmArgument<'_>>) {
        vec![AsmArgument::Register(self.rs2), AsmArgument::OffsetImmediate(self.imm, self.rs1)]
    }
}

/// Store halfword.
#[derive(Debug, Clone, Copy, PartialEq, Eq, Structural)]
pub struct Sh {
    /// Base address register.
    pub rs1: AsmRegister,
    /// Register holding the value to store.
    pub rs2: AsmRegister,
    /// Sign-extended store offset.
    pub imm: i64,
}

impl AsmInstruction for Sh {
    open spec fn spec_verb(&self) -> Seq<char> {
        "sh"@
    }

    open spec fn spec_args(&self) -> Seq<AsmArgument<'_>> {
        seq![AsmArgument::Register(self.rs2), AsmArgument::OffsetImmediate(self.imm, self.rs1)]
    }

    fn verb(&self) -> (r: &'static str) {
        "sh"
    }

    fn arguments(&self) -> (r: Vec<AsmArgument<'_>>) {
        vec![AsmArgument::Register(self.rs2), AsmArgument::OffsetImmediate(self.imm, self.rs1)]
    }
}

/// Store word.
#[derive(Debug, Clone, Copy, PartialEq, Eq, Structural)]
pub struct Sw {
    /// Base address register.
    pub rs1: AsmRegister,
    /// Register holding the value to store.
    pub rs2: AsmRegister,
    /// Sign-extended store offset.
    pub imm: i64,
}

impl AsmInstruction for Sw {
    open spec fn spec_verb(&self) -> Seq<char> {
        "sw"@
    }

    open spec fn spec_args(&self) -> Seq<AsmArgument<'_>> {
        seq![AsmArgument::Register(self.rs2), AsmArgument::OffsetImmediate(self.imm, self.rs1)]
    }

    fn verb(&self) -> (r: &'static str) {
        "sw"
    }

    fn arguments(&self) -> (r: Vec<AsmArgument<'_>>) {
        vec![AsmArgument::Register(self.rs2), AsmArgument::OffsetImmediate(self.imm, self.rs1)]
    }
}

/// Add immediate.
///
/// Three-way collapse: everything zero is the canonical no-operation
/// `nop` with no operands; a zero source with a non-zero immediate is
/// the load-immediate alias `li`; a zero immediate with a non-zero
/// source is the register-move alias `mv`; anything else keeps the
/// full three-operand form.
#[derive(Debug, Clone, Copy, PartialEq, Eq, Structural)]
pub struct Addi {
    /// Destination register.
    pub rd: AsmRegister,
    /// First source register.
    pub rs1: AsmRegister,
    /// Sign-extended immediate field value.
    pub imm: i64,
}

impl AsmInstruction for Addi {
    open spec fn spec_verb(&self) -> Seq<char> {
        if self.rd == AsmRegister::R0 && self.rs1 == AsmRegister::R0 && self.imm == 0 {
            "nop"@
        } else if self.rs1 == AsmRegister::R0 && self.imm != 0 {
            "li"@
        } else if self.rs1 != AsmRegister::R0 && self.imm == 0 {
            "mv"@
        } else {
            "addi"@
        }
    }

    open spec fn spec_args(&self) -> Seq<AsmArgument<'_>> {
        if self.rd == AsmRegister::R0 && self.rs1 == AsmRegister::R0 && self.imm == 0 {
            Seq::empty()
        } else if self.rs1 == AsmRegister::R0 && self.imm != 0 {
            seq![AsmArgument::Register(self.rd), AsmArgument::Immediate(self.imm)]
        } else if self.rs1 != AsmRegister::R0 && self.imm == 0 {
            seq![AsmArgument::Register(self.rd), AsmArgument::Register(self.rs1)]
        } else {
            seq![AsmArgument::Register(self.rd), AsmArgument::Register(self.rs1), AsmArgument::Immediate(self.imm)]
        }
    }

    fn verb(&self) -> (r: &'static str) {
        if self.rd == AsmRegister::R0 && self.rs1 == AsmRegister::R0 && self.imm == 0 {
            "nop"
        } else if self.rs1 == AsmRegister::R0 && self.imm != 0 {
            "li"
        } else if self.rs1 != AsmRegister::R0 && self.imm == 0 {
            "mv"
        } else {
            "addi"
        }
    }

    fn arguments(&self) -> (r: Vec<AsmArgument<'_>>) {
        if self.rd == AsmRegister::R0 && self.rs1 == AsmRegister::R0 && self.imm == 0 {
            Vec::new()
        } else if self.rs1 == AsmRegister::R0 && self.imm != 0 {
            vec![AsmArgument::Register(self.rd), AsmArgument::Immediate(self.imm)]
        } else if self.rs1 != AsmRegister::R0 && self.imm == 0 {
            vec![AsmArgument::Register(self.rd), AsmArgument::Register(self.rs1)]
        } else {
            vec![AsmArgument::Register(self.rd), AsmArgument::Register(self.rs1), AsmArgument::Immediate(self.imm)]
        }
    }
}

/// Set if signed less than immediate.
#[derive(Debug, Clone, Copy, PartialEq, Eq, Structural)]
pub struct Slti {
    /// Destination register.
    pub rd: AsmRegister,
    /// First source register.
    pub rs1: AsmRegister,
    /// Sign-extended immediate field value.
    pub imm: i64,
}

impl AsmInstruction for Slti {
    open spec fn spec_verb(&self) -> Seq<char> {
        "slti"@
    }

    open spec fn spec_args(&self) -> Seq<AsmArgument<'_>> {
        seq![AsmArgument::Register(self.rd), AsmArgument::Register(self.rs1), AsmArgument::Immediate(self.imm)]
    }

    fn verb(&self) -> (r: &'static str) {
        "slti"
    }

    fn arguments(&self) -> (r: Vec<AsmArgument<'_>>) {
        vec![AsmArgument::Register(self.rd), AsmArgument::Register(self.rs1), AsmArgument::Immediate(self.imm)]
    }
}

/// Set if unsigned less than immediate.
///
/// Collapses to the set-if-equal-to-zero alias `seqz`, dropping the
/// immediate, exactly when the immediate equals one.
#[derive(Debug, Clone, Copy, PartialEq, Eq, Structural)]
pub struct Sltiu {
    /// Destination register.
    pub rd: AsmRegister,
    /// First source register.
    pub rs1: AsmRegister,
    /// Sign-extended immediate field value.
    pub imm: i64,
}

impl AsmInstruction for Sltiu {
    open spec fn spec_verb(&self) -> Seq<char> {
        if self.imm == 1 {
            "seqz"@
        } else {
            "sltiu"@
        }
    }

    open spec fn spec_args(&self) -> Seq<AsmArgument<'_>> {
        if self.imm == 1 {
            seq![AsmArgument::Register(self.rd), AsmArgument::Register(self.rs1)]
        } else {
            seq![AsmArgument::Register(self.rd), AsmArgument::Register(self.rs1), AsmArgument::Immediate(self.imm)]
        }
    }

    fn verb(&self) -> (r: &'static str) {
        if self.imm == 1 {
            "seqz"
        } else {
            "sltiu"
        }
    }

    fn arguments(&self) -> (r: Vec<AsmArgument<'_>>) {
        if self.imm == 1 {
            vec![AsmArgument::Register(self.rd), AsmArgument::Register(self.rs1)]
        } else {
            vec![AsmArgument::Register(self.rd), AsmArgument::Register(self.rs1), AsmArgument::Immediate(self.imm)]
        }
    }
}

/// Exclusive-or immediate.
///
/// Collapses to the bitwise-not alias `not`, dropping the immediate,
/// exactly when the immediate field is all ones across its twelve-bit
/// width.
#[derive(Debug, Clone, Copy, PartialEq, Eq, Structural)]
pub struct Xori {
    /// Destination register.
    pub rd: AsmRegister,
    /// First source register.
    pub rs1: AsmRegister,
    /// Sign-extended immediate field value.
    pub imm: i64,
}

impl AsmInstruction for Xori {
    open spec fn spec_verb(&self) -> Seq<char> {
        if self.imm == 0xFFF {
            "not"@
        } else {
            "xori"@
        }
    }

    open spec fn spec_args(&self) -> Seq<AsmArgument<'_>> {
        if self.imm == 0xFFF {
            seq![AsmArgument::Register(self.rd), AsmArgument::Register(self.rs1)]
        } else {
            seq![AsmArgument::Register(self.rd), AsmArgument::Register(self.rs1), AsmArgument::Immediate(self.imm)]
        }
    }

    fn verb(&self) -> (r: &'static str) {
        if self.imm == 0xFFF {
            "not"
        } else {
            "xori"
        }
    }

    fn arguments(&self) -> (r: Vec<AsmArgument<'_>>) {
        if self.imm == 0xFFF {
            vec![AsmArgument::Register(self.rd), AsmArgument::Register(self.rs1)]
        } else {
            vec![AsmArgument::Register(self.rd), AsmArgument::Register(self.rs1), AsmArgument::Immediate(self.imm)]
        }
    }
}

/// Or immediate.
#[derive(Debug, Clone, Copy, PartialEq, Eq, Structural)]
pub struct Ori {
    /// Destination register.
    pub rd: AsmRegister,
    /// First source register.
    pub rs1: AsmRegister,
    /// Sign-extended immediate field value.
    pub imm: i64,
}

impl AsmInstruction for Ori {
    open spec fn spec_verb(&self) -> Seq<char> {
        "ori"@
    }

    open spec fn spec_args(&self) -> Seq<AsmArgument<'_>> {
        seq![AsmArgument::Register(self.rd), AsmArgument::Register(self.rs1), AsmArgument::Immediate(self.imm)]
    }

    fn verb(&self) -> (r: &'static str) {
        "ori"
    }

    fn arguments(&self) -> (r: Vec<AsmArgument<'_>>) {
        vec![AsmArgument::Register(self.rd), AsmArgument::Register(self.rs1), AsmArgument::Immediate(self.imm)]
    }
}

/// And immediate.
#[derive(Debug, Clone, Copy, PartialEq, Eq, Structural)]
pub struct Andi {
    /// Destination register.
    pub rd: AsmRegister,
    /// First source register.
    pub rs1: AsmRegister,
    /// Sign-extended immediate field value.
    pub imm: i64,
}

impl AsmInstruction for Andi {
    open spec fn spec_verb(&self) -> Seq<char> {
        "andi"@
    }

    open spec fn spec_args(&self) -> Seq<AsmArgument<'_>> {
        seq![AsmArgument::Register(self.rd), AsmArgument::Register(self.rs1), AsmArgument::Immediate(self.imm)]
    }

    fn verb(&self) -> (r: &'static str) {
        "andi"
    }

    fn arguments(&self) -> (r: Vec<AsmArgument<'_>>) {
        vec![AsmArgument::Register(self.rd), AsmArgument::Register(self.rs1), AsmArgument::Immediate(self.imm)]
    }
}

/// Shift left logical by immediate.
#[derive(Debug, Clone, Copy, PartialEq, Eq, Structural)]
pub struct Slli {
    /// Destination register.
    pub rd: AsmRegister,
    /// First source register.
    pub rs1: AsmRegister,
    /// Shift amount, the low five bits of the immediate field.
    pub shamt: u8,
}

impl AsmInstruction for Slli {
    open spec fn spec_verb(&self) -> Seq<char> {
        "slli"@
    }

    open spec fn spec_args(&self) -> Seq<AsmArgument<'_>> {
        seq![AsmArgument::Register(self.rd), AsmArgument::Register(self.rs1), AsmArgument::Immediate(self.shamt as i64)]
    }

    fn verb(&self) -> (r: &'static str) {
        "slli"
    }

    fn arguments(&self) -> (r: Vec<AsmArgument<'_>>) {
        vec![AsmArgument::Register(self.rd), AsmArgument::Register(self.rs1), AsmArgument::Immediate(self.shamt as i64)]
    }
}

/// Shift right logical by immediate.
#[derive(Debug, Clone, Copy, PartialEq, Eq, Structural)]
pub struct Srli {
    /// Destination register.
    pub rd: AsmRegister,
    /// First source register.
    pub rs1: AsmRegister,
    /// Shift amount, the low five bits of the immediate field.
    pub shamt: u8,
}

impl AsmInstruction for Srli {
    open spec fn spec_verb(&self) -> Seq<char> {
        "srli"@
    }

    open spec fn spec_args(&self) -> Seq<AsmArgument<'_>> {
        seq![AsmArgument::Register(self.rd), AsmArgument::Register(self.rs1), AsmArgument::Immediate(self.shamt as i64)]
    }

    fn verb(&self) -> (r: &'static str) {
        "srli"
    }

    fn arguments(&self) -> (r: Vec<AsmArgument<'_>>) {
        vec![AsmArgument::Register(self.rd), AsmArgument::Register(self.rs1), AsmArgument::Immediate(self.shamt as i64)]
    }
}

/// Shift right arithmetic by immediate.
#[derive(Debug, Clone, Copy, PartialEq, Eq, Structural)]
pub struct Srai {
    /// Destination register.
    pub rd: AsmRegister,
    /// First source register.
    pub rs1: AsmRegister,
    /// Shift amount, the low five bits of the immediate field.
    pub shamt: u8,
}

impl AsmInstruction for Srai {
    open spec fn spec_verb(&self) -> Seq<char> {
        "srai"@
    }

    open spec fn spec_args(&self) -> Seq<AsmArgument<'_>> {
        seq![AsmArgument::Register(self.rd), AsmArgument::Register(self.rs1), AsmArgument::Immediate(self.shamt as i64)]
    }

    fn verb(&self) -> (r: &'static str) {
        "srai"
    }

    fn arguments(&self) -> (r: Vec<AsmArgument<'_>>) {
        vec![AsmArgument::Register(self.rd), AsmArgument::Register(self.rs1), AsmArgument::Immediate(self.shamt as i64)]
    }
}

/// Register addition.
#[derive(Debug, Clone, Copy, PartialEq, Eq, Structural)]
pub struct Add {
    /// Destination register.
    pub rd: AsmRegister,
    /// First source register.
    pub rs1: AsmRegister,
    /// Second source register.
    pub rs2: AsmRegister,
}

impl AsmInstruction for Add {
    open spec fn spec_verb(&self) -> Seq<char> {
        "add"@
    }

    open spec fn spec_args(&self) -> Seq<AsmArgument<'_>> {
        seq![AsmArgument::Register(self.rd), AsmArgument::Register(self.rs1), AsmArgument::Register(self.rs2)]
    }

    fn verb(&self) -> (r: &'static str) {
        "add"
    }

    fn arguments(&self) -> (r: Vec<AsmArgument<'_>>) {
        vec![AsmArgument::Register(self.rd), AsmArgument::Register(self.rs1), AsmArgument::Register(self.rs2)]
    }
}

/// Register subtraction.
#[derive(Debug, Clone, Copy, PartialEq, Eq, Structural)]
pub struct Sub {
    /// Destination register.
    pub rd: AsmRegister,
    /// First source register.
    pub rs1: AsmRegister,
    /// Second source register.
    pub rs2: AsmRegister,
}

impl AsmInstruction for Sub {
    open spec fn spec_verb(&self) -> Seq<char> {
        "sub"@
    }

    open spec fn spec_args(&self) -> Seq<AsmArgument<'_>> {
        seq![AsmArgument::Register(self.rd), AsmArgument::Register(self.rs1), AsmArgument::Register(self.rs2)]
    }

    fn verb(&self) -> (r: &'static str) {
        "sub"
    }

    fn arguments(&self) -> (r: Vec<AsmArgument<'_>>) {
        vec![AsmArgument::Register(self.rd), AsmArgument::Register(self.rs1), AsmArgument::Register(self.rs2)]
    }
}

/// Register exclusive-or.
#[derive(Debug, Clone, Copy, PartialEq, Eq, Structural)]
pub struct Xor {
    /// Destination register.
    pub rd: AsmRegister,
    /// First source register.
    pub rs1: AsmRegister,
    /// Second source register.
    pub rs2: AsmRegister,
}

impl AsmInstruction for Xor {
    open spec fn spec_verb(&self) -> Seq<char> {
        "xor"@
    }

    open spec fn spec_args(&self) -> Seq<AsmArgument<'_>> {
        seq![AsmArgument::Register(self.rd), AsmArgument::Register(self.rs1), AsmArgument::Register(self.rs2)]
    }

    fn verb(&self) -> (r: &'static str) {
        "xor"
    }

    fn arguments(&self) -> (r: Vec<AsmArgument<'_>>) {
        vec![AsmArgument::Register(self.rd), AsmArgument::Register(self.rs1), AsmArgument::Register(self.rs2)]
    }
}

/// Register or.
#[derive(Debug, Clone, Copy, PartialEq, Eq, Structural)]
pub struct Or {
    /// Destination register.
    pub rd: AsmRegister,
    /// First source register.
    pub rs1: AsmRegister,
    /// Second source register.
    pub rs2: AsmRegister,
}

impl AsmInstruction for Or {
    open spec fn spec_verb(&self) -> Seq<char> {
        "or"@
    }

    open spec fn spec_args(&self) -> Seq<AsmArgument<'_>> {
        seq![AsmArgument::Register(self.rd), AsmArgument::Register(self.rs1), AsmArgument::Register(self.rs2)]
    }

    fn verb(&self) -> (r: &'static str) {
        "or"
    }

    fn arguments(&self) -> (r: Vec<AsmArgument<'_>>) {
        vec![AsmArgument::Register(self.rd), AsmArgument::Register(self.rs1), AsmArgument::Register(self.rs2)]
    }
}

/// Register and.
#[derive(Debug, Clone, Copy, PartialEq, Eq, Structural)]
pub struct And {
    /// Destination register.
    pub rd: AsmRegister,
    /// First source register.
    pub rs1: AsmRegister,
    /// Second source register.
    pub rs2: AsmRegister,
}

impl AsmInstruction for And {
    open spec fn spec_verb(&self) -> Seq<char> {
        "and"@
    }

    open spec fn spec_args(&self) -> Seq<AsmArgument<'_>> {
        seq![AsmArgument::Register(self.rd), AsmArgument::Register(self.rs1), AsmArgument::Register(self.rs2)]
    }

    fn verb(&self) -> (r: &'static str) {
        "and"
    }

    fn arguments(&self) -> (r: Vec<AsmArgument<'_>>) {
        vec![AsmArgument::Register(self.rd), AsmArgument::Register(self.rs1), AsmArgument::Register(self.rs2)]
    }
}

/// Set if signed less than.
#[derive(Debug, Clone, Copy, PartialEq, Eq, Structural)]
pub struct Slt {
    /// Destination register.
    pub rd: AsmRegister,
    /// First source register.
    pub rs1: AsmRegister,
    /// Second source register.
    pub rs2: AsmRegister,
}

impl AsmInstruction for Slt {
    open spec fn spec_verb(&self) -> Seq<char> {
        "slt"@
    }

    open spec fn spec_args(&self) -> Seq<AsmArgument<'_>> {
        seq![AsmArgument::Register(self.rd), AsmArgument::Register(self.rs1), AsmArgument::Register(self.rs2)]
    }

    fn verb(&self) -> (r: &'static str) {
        "slt"
    }

    fn arguments(&self) -> (r: Vec<AsmArgument<'_>>) {
        vec![AsmArgument::Register(self.rd), AsmArgument::Register(self.rs1), AsmArgument::Register(self.rs2)]
    }
}

/// Set if unsigned less than.
#[derive(Debug, Clone, Copy, PartialEq, Eq, Structural)]
pub struct Sltu {
    /// Destination register.
    pub rd: AsmRegister,
    /// First source register.
    pub rs1: AsmRegister,
    /// Second source register.
    pub rs2: AsmRegister,
}

impl AsmInstruction for Sltu {
    open spec fn spec_verb(&self) -> Seq<char> {
        "sltu"@
    }

    open spec fn spec_args(&self) -> Seq<AsmArgument<'_>> {
        seq![AsmArgument::Register(self.rd), AsmArgument::Register(self.rs1), AsmArgument::Register(self.rs2)]
    }

    fn verb(&self) -> (r: &'static str) {
        "sltu"
    }

    fn arguments(&self) -> (r: Vec<AsmArgument<'_>>) {
        vec![AsmArgument::Register(self.rd), AsmArgument::Register(self.rs1), AsmArgument::Register(self.rs2)]
    }
}

/// Shift left logical.
#[derive(Debug, Clone, Copy, PartialEq, Eq, Structural)]
pub struct Sll {
    /// Destination register.
    pub rd: AsmRegister,
    /// First source register.
    pub rs1: AsmRegister,
    /// Second source register.
    pub rs2: AsmRegister,
}

impl AsmInstruction for Sll {
    open spec fn spec_verb(&self) -> Seq<char> {
        "sll"@
    }

    open spec fn spec_args(&self) -> Seq<AsmArgument<'_>> {
        seq![AsmArgument::Register(self.rd), AsmArgument::Register(self.rs1), AsmArgument::Register(self.rs2)]
    }

    fn verb(&self) -> (r: &'static str) {
        "sll"
    }

    fn arguments(&self) -> (r: Vec<AsmArgument<'_>>) {
        vec![AsmArgument::Register(self.rd), AsmArgument::Register(self.rs1), AsmArgument::Register(self.rs2)]
    }
}

/// Shift right logical.
#[derive(Debug, Clone, Copy, PartialEq, Eq, Structural)]
pub struct Srl {
    /// Destination register.
    pub rd: AsmRegister,
    /// First source register.
    pub rs1: AsmRegister,
    /// Second source register.
    pub rs2: AsmRegister,
}

impl AsmInstruction for Srl {
    open spec fn spec_verb(&self) -> Seq<char> {
        "srl"@
    }

    open spec fn spec_args(&self) -> Seq<AsmArgument<'_>> {
        seq![AsmArgument::Register(self.rd), AsmArgument::Register(self.rs1), AsmArgument::Register(self.rs2)]
    }

    fn verb(&self) -> (r: &'static str) {
        "srl"
    }

    fn arguments(&self) -> (r: Vec<AsmArgument<'_>>) {
        vec![AsmArgument::Register(self.rd), AsmArgument::Register(self.rs1), AsmArgument::Register(self.rs2)]
    }
}

/// Shift right arithmetic.
#[derive(Debug, Clone, Copy, PartialEq, Eq, Structural)]
pub struct Sra {
    /// Destination register.
    pub rd: AsmRegister,
    /// First source register.
    pub rs1: AsmRegister,
    /// Second source register.
    pub rs2: AsmRegister,
}

impl AsmInstruction for Sra {
    open spec fn spec_verb(&self) -> Seq<char> {
        "sra"@
    }

    open spec fn spec_args(&self) -> Seq<AsmArgument<'_>> {
        seq![AsmArgument::Register(self.rd), AsmArgument::Register(self.rs1), AsmArgument::Register(self.rs2)]
    }

    fn verb(&self) -> (r: &'static str) {
        "sra"
    }

    fn arguments(&self) -> (r: Vec<AsmArgument<'_>>) {
        vec![AsmArgument::Register(self.rd), AsmArgument::Register(self.rs1), AsmArgument::Register(self.rs2)]
    }
}

/// Memory ordering fence.
#[derive(Debug, Clone, Copy, PartialEq, Eq, Structural)]
pub struct Fence;

impl AsmInstruction for Fence {
    open spec fn spec_verb(&self) -> Seq<char> {
        "fence"@
    }

    open spec fn spec_args(&self) -> Seq<AsmArgument<'_>> {
        Seq::empty()
    }

    fn verb(&self) -> (r: &'static str) {
        "fence"
    }

    fn arguments(&self) -> (r: Vec<AsmArgument<'_>>) {
        Vec::new()
    }
}

/// Memory fence with total store ordering.
#[derive(Debug, Clone, Copy, PartialEq, Eq, Structural)]
pub struct FenceTso;

impl AsmInstruction for FenceTso {
    open spec fn spec_verb(&self) -> Seq<char> {
        "fence.tso"@
    }

    open spec fn spec_args(&self) -> Seq<AsmArgument<'_>> {
        Seq::empty()
    }

    fn verb(&self) -> (r: &'static str) {
        "fence.tso"
    }

    fn arguments(&self) -> (r: Vec<AsmArgument<'_>>) {
        Vec::new()
    }
}

/// Spin-wait hint.
#[derive(Debug, Clone, Copy, PartialEq, Eq, Structural)]
pub struct Pause;

impl AsmInstruction for Pause {
    open spec fn spec_verb(&self) -> Seq<char> {
        "pause"@
    }

    open spec fn spec_args(&self) -> Seq<AsmArgument<'_>> {
        Seq::empty()
    }

    fn verb(&self) -> (r: &'static str) {
        "pause"
    }

    fn arguments(&self) -> (r: Vec<AsmArgument<'_>>) {
        Vec::new()
    }
}

/// Environment (system) call.
#[derive(Debug, Clone, Copy, PartialEq, Eq, Structural)]
pub struct ECall;

impl AsmInstruction for ECall {
    open spec fn spec_verb(&self) -> Seq<char> {
        "ecall"@
    }

    open spec fn spec_args(&self) -> Seq<AsmArgument<'_>> {
        Seq::empty()
    }

    fn verb(&self) -> (r: &'static str) {
        "ecall"
    }

    fn arguments(&self) -> (r: Vec<AsmArgument<'_>>) {
        Vec::new()
    }
}

/// Debugger breakpoint.
#[derive(Debug, Clone, Copy, PartialEq, Eq, Structural)]
pub struct EBreak;

impl AsmInstruction for EBreak {
    open spec fn spec_verb(&self) -> Seq<char> {
        "ebreak"@
    }

    open spec fn spec_args(&self) -> Seq<AsmArgument<'_>> {
        Seq::empty()
    }

    fn verb(&self) -> (r: &'static str) {
        "ebreak"
    }

    fn arguments(&self) -> (r: Vec<AsmArgument<'_>>) {
        Vec::new()
    }
}

/// One decoded RV32I instruction: exactly one opcode-class shape is
/// live per instance, fixed at decode time.
#[derive(Debug, Clone, Copy, PartialEq, Eq, Structural)]
pub enum Rv32IInstruction {
    /// See [`Lui`].
    Lui(Lui),
    /// See [`AuiPc`].
    AuiPc(AuiPc),
    /// See [`Jal`].
    Jal(Jal),
    /// See [`JalR`].
    JalR(JalR),
    /// See [`Beq`].
    Beq(Beq),
    /// See [`Bne`].
    Bne(Bne),
    /// See [`Blt`].
    Blt(Blt),
    /// See [`Bge`].
    Bge(Bge),
    /// See [`Bltu`].
    Bltu(Bltu),
    /// See [`Bgeu`].
    Bgeu(Bgeu),
    /// See [`Lb`].
    Lb(Lb),
    /// See [`Lh`].
    Lh(Lh),
    /// See [`Lw`].
    Lw(Lw),
    /// See [`Lbu`].
    Lbu(Lbu),
    /// See [`Lhu`].
    Lhu(Lhu),
    /// See [`Sb`].
    Sb(Sb),
    /// See [`Sh`].
    Sh(Sh),
    /// See [`Sw`].
    Sw(Sw),
    /// See [`Addi`].
    Addi(Addi),
    /// See [`Slti`].
    Slti(Slti),
    /// See [`Sltiu`].
    Sltiu(Sltiu),
    /// See [`Xori`].
    Xori(Xori),
    /// See [`Ori`].
    Ori(Ori),
    /// See [`Andi`].
    Andi(Andi),
    /// See [`Slli`].
    Slli(Slli),
    /// See [`Srli`].
    Srli(Srli),
    /// See [`Srai`].
    Srai(Srai),
    /// See [`Add`].
    Add(Add),
    /// See [`Sub`].
    Sub(Sub),
    /// See [`Xor`].
    Xor(Xor),
    /// See [`Or`].
    Or(Or),
    /// See [`And`].
    And(And),
    /// See [`Slt`].
    Slt(Slt),
    /// See [`Sltu`].
    Sltu(Sltu),
    /// See [`Sll`].
    Sll(Sll),
    /// See [`Srl`].
    Srl(Srl),
    /// See [`Sra`].
    Sra(Sra),
    /// See [`Fence`].
    Fence(Fence),
    /// See [`FenceTso`].
    FenceTso(FenceTso),
    /// See [`Pause`].
    Pause(Pause),
    /// See [`ECall`].
    ECall(ECall),
    /// See [`EBreak`].
    EBreak(EBreak),
}

impl AsmInstruction for Rv32IInstruction {
    open spec fn spec_verb(&self) -> Seq<char> {
        match self {
            Rv32IInstruction::Lui(i) => i.spec_verb(),
            Rv32IInstruction::AuiPc(i) => i.spec_verb(),
            Rv32IInstruction::Jal(i) => i.spec_verb(),
            Rv32IInstruction::JalR(i) => i.spec_verb(),
            Rv32IInstruction::Beq(i) => i.spec_verb(),
            Rv32IInstruction::Bne(i) => i.spec_verb(),
            Rv32IInstruction::Blt(i) => i.spec_verb(),
            Rv32IInstruction::Bge(i) => i.spec_verb(),
            Rv32IInstruction::Bltu(i) => i.spec_verb(),
            Rv32IInstruction::Bgeu(i) => i.spec_verb(),
            Rv32IInstruction::Lb(i) => i.spec_verb(),
            Rv32IInstruction::Lh(i) => i.spec_verb(),
            Rv32IInstruction::Lw(i) => i.spec_verb(),
            Rv32IInstruction::Lbu(i) => i.spec_verb(),
            Rv32IInstruction::Lhu(i) => i.spec_verb(),
            Rv32IInstruction::Sb(i) => i.spec_verb(),
            Rv32IInstruction::Sh(i) => i.spec_verb(),
            Rv32IInstruction::Sw(i) => i.spec_verb(),
            Rv32IInstruction::Addi(i) => i.spec_verb(),
            Rv32IInstruction::Slti(i) => i.spec_verb(),
            Rv32IInstruction::Sltiu(i) => i.spec_verb(),
            Rv32IInstruction::Xori(i) => i.spec_verb(),
            Rv32IInstruction::Ori(i) => i.spec_verb(),
            Rv32IInstruction::Andi(i) => i.spec_verb(),
            Rv32IInstruction::Slli(i) => i.spec_verb(),
            Rv32IInstruction::Srli(i) => i.spec_verb(),
            Rv32IInstruction::Srai(i) => i.spec_verb(),
            Rv32IInstruction::Add(i) => i.spec_verb(),
            Rv32IInstruction::Sub(i) => i.spec_verb(),
            Rv32IInstruction::Xor(i) => i.spec_verb(),
            Rv32IInstruction::Or(i) => i.spec_verb(),
            Rv32IInstruction::And(i) => i.spec_verb(),
            Rv32IInstruction::Slt(i) => i.spec_verb(),
            Rv32IInstruction::Sltu(i) => i.spec_verb(),
            Rv32IInstruction::Sll(i) => i.spec_verb(),
            Rv32IInstruction::Srl(i) => i.spec_verb(),
            Rv32IInstruction::Sra(i) => i.spec_verb(),
            Rv32IInstruction::Fence(i) => i.spec_verb(),
            Rv32IInstruction::FenceTso(i) => i.spec_verb(),
            Rv32IInstruction::Pause(i) => i.spec_verb(),
            Rv32IInstruction::ECall(i) => i.spec_verb(),
            Rv32IInstruction::EBreak(i) => i.spec_verb(),
        }
    }

    open spec fn spec_args(&self) -> Seq<AsmArgument<'_>> {
        match self {
            Rv32IInstruction::Lui(i) => i.spec_args(),
            Rv32IInstruction::AuiPc(i) => i.spec_args(),
            Rv32IInstruction::Jal(i) => i.spec_args(),
            Rv32IInstruction::JalR(i) => i.spec_args(),
            Rv32IInstruction::Beq(i) => i.spec_args(),
            Rv32IInstruction::Bne(i) => i.spec_args(),
            Rv32IInstruction::Blt(i) => i.spec_args(),
            Rv32IInstruction::Bge(i) => i.spec_args(),
            Rv32IInstruction::Bltu(i) => i.spec_args(),
            Rv32IInstruction::Bgeu(i) => i.spec_args(),
            Rv32IInstruction::Lb(i) => i.spec_args(),
            Rv32IInstruction::Lh(i) => i.spec_args(),
            Rv32IInstruction::Lw(i) => i.spec_args(),
            Rv32IInstruction::Lbu(i) => i.spec_args(),
            Rv32IInstruction::Lhu(i) => i.spec_args(),
            Rv32IInstruction::Sb(i) => i.spec_args(),
            Rv32IInstruction::Sh(i) => i.spec_args(),
            Rv32IInstruction::Sw(i) => i.spec_args(),
            Rv32IInstruction::Addi(i) => i.spec_args(),
            Rv32IInstruction::Slti(i) => i.spec_args(),
            Rv32IInstruction::Sltiu(i) => i.spec_args(),
            Rv32IInstruction::Xori(i) => i.spec_args(),
            Rv32IInstruction::Ori(i) => i.spec_args(),
            Rv32IInstruction::Andi(i) => i.spec_args(),
            Rv32IInstruction::Slli(i) => i.spec_args(),
            Rv32IInstruction::Srli(i) => i.spec_args(),
            Rv32IInstruction::Srai(i) => i.spec_args(),
            Rv32IInstruction::Add(i) => i.spec_args(),
            Rv32IInstruction::Sub(i) => i.spec_args(),
            Rv32IInstruction::Xor(i) => i.spec_args(),
            Rv32IInstruction::Or(i) => i.spec_args(),
            Rv32IInstruction::And(i) => i.spec_args(),
            Rv32IInstruction::Slt(i) => i.spec_args(),
            Rv32IInstruction::Sltu(i) => i.spec_args(),
            Rv32IInstruction::Sll(i) => i.spec_args(),
            Rv32IInstruction::Srl(i) => i.spec_args(),
            Rv32IInstruction::Sra(i) => i.spec_args(),
            Rv32IInstruction::Fence(i) => i.spec_args(),
            Rv32IInstruction::FenceTso(i) => i.spec_args(),
            Rv32IInstruction::Pause(i) => i.spec_args(),
            Rv32IInstruction::ECall(i) => i.spec_args(),
            Rv32IInstruction::EBreak(i) => i.spec_args(),
        }
    }

    fn verb(&self) -> (r: &'static str) {
        match self {
            Rv32IInstruction::Lui(i) => i.verb(),
            Rv32IInstruction::AuiPc(i) => i.verb(),
            Rv32IInstruction::Jal(i) => i.verb(),
            Rv32IInstruction::JalR(i) => i.verb(),
            Rv32IInstruction::Beq(i) => i.verb(),
            Rv32IInstruction::Bne(i) => i.verb(),
            Rv32IInstruction::Blt(i) => i.verb(),
            Rv32IInstruction::Bge(i) => i.verb(),
            Rv32IInstruction::Bltu(i) => i.verb(),
            Rv32IInstruction::Bgeu(i) => i.verb(),
            Rv32IInstruction::Lb(i) => i.verb(),
            Rv32IInstruction::Lh(i) => i.verb(),
            Rv32IInstruction::Lw(i) => i.verb(),
            Rv32IInstruction::Lbu(i) => i.verb(),
            Rv32IInstruction::Lhu(i) => i.verb(),
            Rv32IInstruction::Sb(i) => i.verb(),
            Rv32IInstruction::Sh(i) => i.verb(),
            Rv32IInstruction::Sw(i) => i.verb(),
            Rv32IInstruction::Addi(i) => i.verb(),
            Rv32IInstruction::Slti(i) => i.verb(),
            Rv32IInstruction::Sltiu(i) => i.verb(),
            Rv32IInstruction::Xori(i) => i.verb(),
            Rv32IInstruction::Ori(i) => i.verb(),
            Rv32IInstruction::Andi(i) => i.verb(),
            Rv32IInstruction::Slli(i) => i.verb(),
            Rv32IInstruction::Srli(i) => i.verb(),
            Rv32IInstruction::Srai(i) => i.verb(),
            Rv32IInstruction::Add(i) => i.verb(),
            Rv32IInstruction::Sub(i) => i.verb(),
            Rv32IInstruction::Xor(i) => i.verb(),
            Rv32IInstruction::Or(i) => i.verb(),
            Rv32IInstruction::And(i) => i.verb(),
            Rv32IInstruction::Slt(i) => i.verb(),
            Rv32IInstruction::Sltu(i) => i.verb(),
            Rv32IInstruction::Sll(i) => i.verb(),
            Rv32IInstruction::Srl(i) => i.verb(),
            Rv32IInstruction::Sra(i) => i.verb(),
            Rv32IInstruction::Fence(i) => i.verb(),
            Rv32IInstruction::FenceTso(i) => i.verb(),
            Rv32IInstruction::Pause(i) => i.verb(),
            Rv32IInstruction::ECall(i) => i.verb(),
            Rv32IInstruction::EBreak(i) => i.verb(),
        }
    }

    fn arguments(&self) -> (r: Vec<AsmArgument<'_>>) {
        match self {
            Rv32IInstruction::Lui(i) => i.arguments(),
            Rv32IInstruction::AuiPc(i) => i.arguments(),
            Rv32IInstruction::Jal(i) => i.arguments(),
            Rv32IInstruction::JalR(i) => i.arguments(),
            Rv32IInstruction::Beq(i) => i.arguments(),
            Rv32IInstruction::Bne(i) => i.arguments(),
            Rv32IInstruction::Blt(i) => i.arguments(),
            Rv32IInstruction::Bge(i) => i.arguments(),
            Rv32IInstruction::Bltu(i) => i.arguments(),
            Rv32IInstruction::Bgeu(i) => i.arguments(),
            Rv32IInstruction::Lb(i) => i.arguments(),
            Rv32IInstruction::Lh(i) => i.arguments(),
            Rv32IInstruction::Lw(i) => i.arguments(),
            Rv32IInstruction::Lbu(i) => i.arguments(),
            Rv32IInstruction::Lhu(i) => i.arguments(),
            Rv32IInstruction::Sb(i) => i.arguments(),
            Rv32IInstruction::Sh(i) => i.arguments(),
            Rv32IInstruction::Sw(i) => i.arguments(),
            Rv32IInstruction::Addi(i) => i.arguments(),
            Rv32IInstruction::Slti(i) => i.arguments(),
            Rv32IInstruction::Sltiu(i) => i.arguments(),
            Rv32IInstruction::Xori(i) => i.arguments(),
            Rv32IInstruction::Ori(i) => i.arguments(),
            Rv32IInstruction::Andi(i) => i.arguments(),
            Rv32IInstruction::Slli(i) => i.arguments(),
            Rv32IInstruction::Srli(i) => i.arguments(),
            Rv32IInstruction::Srai(i) => i.arguments(),
            Rv32IInstruction::Add(i) => i.arguments(),
            Rv32IInstruction::Sub(i) => i.arguments(),
            Rv32IInstruction::Xor(i) => i.arguments(),
            Rv32IInstruction::Or(i) => i.arguments(),
            Rv32IInstruction::And(i) => i.arguments(),
            Rv32IInstruction::Slt(i) => i.arguments(),
            Rv32IInstruction::Sltu(i) => i.arguments(),
            Rv32IInstruction::Sll(i) => i.arguments(),
            Rv32IInstruction::Srl(i) => i.arguments(),
            Rv32IInstruction::Sra(i) => i.arguments(),
            Rv32IInstruction::Fence(i) => i.arguments(),
            Rv32IInstruction::FenceTso(i) => i.arguments(),
            Rv32IInstruction::Pause(i) => i.arguments(),
            Rv32IInstruction::ECall(i) => i.arguments(),
            Rv32IInstruction::EBreak(i) => i.arguments(),
        }
    }
}

/// Every opcode-class shape selects a non-empty mnemonic, whatever its
/// field values.
pub proof fn lemma_instruction_verb_nonempty(i: &Rv32IInstruction)
    ensures
        i.spec_verb().len() > 0,
{
    reveal_strlit("lui");
    reveal_strlit("auipc");
    reveal_strlit("j");
    reveal_strlit("jal");
    reveal_strlit("ret");
    reveal_strlit("jr");
    reveal_strlit("jalr");
    reveal_strlit("beqz");
    reveal_strlit("beq");
    reveal_strlit("bnez");
    reveal_strlit("bne");
    reveal_strlit("bgtz");
    reveal_strlit("bltz");
    reveal_strlit("blt");
    reveal_strlit("blez");
    reveal_strlit("bgez");
    reveal_strlit("bge");
    reveal_strlit("bltu");
    reveal_strlit("bgeu");
    reveal_strlit("lb");
    reveal_strlit("lh");
    reveal_strlit("lw");
    reveal_strlit("lbu");
    reveal_strlit("lhu");
    reveal_strlit("sb");
    reveal_strlit("sh");
    reveal_strlit("sw");
    reveal_strlit("nop");
    reveal_strlit("li");
    reveal_strlit("mv");
    reveal_strlit("addi");
    reveal_strlit("slti");
    reveal_strlit("seqz");
    reveal_strlit("sltiu");
    reveal_strlit("not");
    reveal_strlit("xori");
    reveal_strlit("ori");
    reveal_strlit("andi");
    reveal_strlit("slli");
    reveal_strlit("srli");
    reveal_strlit("srai");
    reveal_strlit("add");
    reveal_strlit("sub");
    reveal_strlit("xor");
    reveal_strlit("or");
    reveal_strlit("and");
    reveal_strlit("slt");
    reveal_strlit("sltu");
    reveal_strlit("sll");
    reveal_strlit("srl");
    reveal_strlit("sra");
    reveal_strlit("fence");
    reveal_strlit("fence.tso");
    reveal_strlit("pause");
    reveal_strlit("ecall");
    reveal_strlit("ebreak");
}

/// For every opcode-class shape and all field values, the rendered line
/// is non-empty and starts with the mnemonic selected for that shape and
/// those fields.
pub proof fn lemma_rendered_line_starts_with_verb(i: &Rv32IInstruction, opts: AsmFormatOptions)
    ensures
        spec_render(i.spec_verb(), i.spec_args(), opts).len() > 0,
        spec_render(i.spec_verb(), i.spec_args(), opts).subrange(
            0,
            i.spec_verb().len() as int,
        ) == i.spec_verb(),
{
    lemma_instruction_verb_nonempty(i);
    crate::lemma_render_starts_with_verb(i.spec_verb(), i.spec_args(), opts);
}

} // verus!
