//! Rendering of decoded RV32I instructions into canonical assembly text.
//!
//! Given the already-decoded fields of one instruction (opcode class,
//! register indices, sign-extended immediate, shift amount), this crate
//! produces the exact mnemonic and operand line a reference assembler
//! would accept, including the conventional pseudo-instruction
//! abbreviations (`nop`, `li`, `mv`, `ret`, `beqz`, ...) that real
//! toolchains emit in place of raw encodings.

use vstd::prelude::*;

pub mod numerals;
pub mod registers;
pub mod rv32i;

pub use registers::AsmRegister;

use crate::numerals::push_radix_digits;
use crate::numerals::radix_digits;
use crate::registers::register_name;
use crate::registers::spec_register_name;

verus! {

/// Number base used when an immediate operand is turned into text.
#[derive(Debug, Clone, Copy, PartialEq, Eq, Structural)]
pub enum AsmImmediateFormat {
    /// The value reinterpreted as an unsigned 64-bit integer, in decimal.
    UnsignedDecimal,
    /// The signed value in decimal, with a leading `-` when negative.
    SignedDecimal,
    /// `0x` followed by the lowercase hex digits of the 64-bit bit pattern.
    Hex,
    /// `0b` followed by the binary digits of the 64-bit bit pattern.
    Bin,
}

/// Immutable formatting configuration, passed by reference through every
/// render call. Each field is independently settable.
#[derive(Debug, Clone)]
pub struct AsmFormatOptions {
    /// `true` renders registers by positional name (`x0`..`x31`),
    /// `false` by ABI calling-convention name (`zero`, `ra`, `sp`, ...).
    pub raw_reg_names: bool,
    /// Text between the mnemonic and the first operand.
    pub verb_arg_spacing: &'static str,
    /// Text after the `,` between two adjacent operands.
    pub arg_spacing: &'static str,
    /// Number base for immediate operands.
    pub immediate_format: AsmImmediateFormat,
}

impl Default for AsmFormatOptions {
    /// Tab between mnemonic and operands, bare commas between operands,
    /// hexadecimal immediates, ABI register names.
    fn default() -> (r: Self)
        ensures
            r.raw_reg_names == false,
            r.verb_arg_spacing@ == "\t"@,
            r.arg_spacing@ == ""@,
            r.immediate_format == AsmImmediateFormat::Hex,
    {
        AsmFormatOptions {
            raw_reg_names: false,
            verb_arg_spacing: "\t",
            arg_spacing: "",
            immediate_format: AsmImmediateFormat::Hex,
        }
    }
}

/// The text of an immediate value under one number-base mode.
///
/// Hex and binary show the 64-bit two's-complement bit pattern of the
/// value, so a negative value prints as a large magnitude; unsigned
/// decimal reinterprets the bit pattern as an unsigned integer; signed
/// decimal prints a leading `-` for negative values.
pub open spec fn spec_immediate_text(v: i64, f: AsmImmediateFormat) -> Seq<char> {
    match f {
        AsmImmediateFormat::Hex => seq!['0', 'x'] + radix_digits((v as u64) as nat, 16),
        AsmImmediateFormat::Bin => seq!['0', 'b'] + radix_digits((v as u64) as nat, 2),
        AsmImmediateFormat::UnsignedDecimal => radix_digits((v as u64) as nat, 10),
        AsmImmediateFormat::SignedDecimal => if v >= 0 {
            radix_digits(v as nat, 10)
        } else {
            seq!['-'] + radix_digits((-(v as int)) as nat, 10)
        },
    }
}

/// Appends the text of an immediate value under the chosen mode. Total:
/// every value is representable in every mode.
pub fn push_immediate(out: &mut String, v: i64, f: AsmImmediateFormat)
    ensures
        final(out)@ == old(out)@ + spec_immediate_text(v, f),
{
    match f {
        AsmImmediateFormat::Hex => {
            out.append("0x");
            push_radix_digits(out, v as u64, 16);
            proof {
                reveal_strlit("0x");
                assert(final(out)@ =~= old(out)@ + spec_immediate_text(v, f));
            }
        },
        AsmImmediateFormat::Bin => {
            out.append("0b");
            push_radix_digits(out, v as u64, 2);
            proof {
                reveal_strlit("0b");
                assert(final(out)@ =~= old(out)@ + spec_immediate_text(v, f));
            }
        },
        AsmImmediateFormat::UnsignedDecimal => {
            push_radix_digits(out, v as u64, 10);
        },
        AsmImmediateFormat::SignedDecimal => {
            if v >= 0 {
                push_radix_digits(out, v as u64, 10);
            } else {
                out.append("-");
                let magnitude: u64 = if v == i64::MIN {
                    9223372036854775808
                } else {
                    (-v) as u64
                };
                push_radix_digits(out, magnitude, 10);
                proof {
                    reveal_strlit("-");
                    assert(magnitude as nat == (-(v as int)) as nat);
                    assert(final(out)@ =~= old(out)@ + spec_immediate_text(v, f));
                }
            }
        },
    }
}

/// One operand of a rendered instruction.
pub enum AsmArgument<'a> {
    /// An opaque symbolic or absolute target, rendered verbatim.
    Label(&'a str),
    /// A sign-extended immediate value, rendered per the number-base mode.
    Immediate(i64),
    /// A register, rendered per the naming policy.
    Register(AsmRegister),
    /// A memory reference, rendered as `immediate(register)`.
    OffsetImmediate(i64, AsmRegister),
}

impl<'a> AsmArgument<'a> {
    /// A register operand for the given raw index, or `None` when the
    /// index is outside the 5-bit register-field range.
    pub fn reg(num: u8) -> (r: Option<AsmArgument<'a>>)
        ensures
            r is Some <==> num < 32,
            r is Some ==> (r.unwrap() matches AsmArgument::Register(g) && g.spec_index()
                == num),
    {
        match AsmRegister::from_index(num) {
            Some(g) => Some(AsmArgument::Register(g)),
            None => None,
        }
    }

    /// The text of this operand under the given options.
    pub open spec fn spec_text(self, opts: AsmFormatOptions) -> Seq<char> {
        match self {
            AsmArgument::Label(label) => label@,
            AsmArgument::Immediate(v) => spec_immediate_text(v, opts.immediate_format),
            AsmArgument::Register(r) => spec_register_name(r, opts.raw_reg_names),
            AsmArgument::OffsetImmediate(v, r) => spec_immediate_text(v, opts.immediate_format)
                + seq!['('] + spec_register_name(r, opts.raw_reg_names) + seq![')'],
        }
    }

    /// Appends the text of this operand. Total: labels are opaque
    /// pre-validated text, and every immediate and register renders.
    pub fn push_text(&self, opts: &AsmFormatOptions, out: &mut String)
        ensures
            final(out)@ == old(out)@ + self.spec_text(*opts),
    {
        match self {
            AsmArgument::Label(label) => {
                out.append(label);
            },
            AsmArgument::Immediate(v) => {
                push_immediate(out, *v, opts.immediate_format);
            },
            AsmArgument::Register(r) => {
                out.append(register_name(*r, opts.raw_reg_names));
            },
            AsmArgument::OffsetImmediate(v, r) => {
                push_immediate(out, *v, opts.immediate_format);
                out.append("(");
                out.append(register_name(*r, opts.raw_reg_names));
                out.append(")");
                proof {
                    reveal_strlit("(");
                    reveal_strlit(")");
                    assert(final(out)@ =~= old(out)@ + self.spec_text(*opts));
                }
            },
        }
    }

    /// The text of this operand under the given options, as a fresh string.
    pub fn text(&self, opts: &AsmFormatOptions) -> (r: String)
        ensures
            r@ == self.spec_text(*opts),
    {
        let mut out = String::new();
        self.push_text(opts, &mut out);
        proof {
            assert(out@ =~= self.spec_text(*opts));
        }
        out
    }
}

/// The operand list joined with `,` plus the configured spacing between
/// every pair of adjacent operands, and never after the last one.
pub open spec fn spec_joined_args<'a>(args: Seq<AsmArgument<'a>>, opts: AsmFormatOptions) -> Seq<
    char,
>
    decreases args.len(),
{
    if args.len() == 0 {
        Seq::empty()
    } else if args.len() == 1 {
        args[0].spec_text(opts)
    } else {
        spec_joined_args(args.drop_last(), opts) + seq![','] + opts.arg_spacing@
            + args.last().spec_text(opts)
    }
}

/// One full line of rendered text: the mnemonic, then — only when there
/// are operands — the mnemonic/operand spacing and the joined operands.
pub open spec fn spec_render<'a>(
    verb: Seq<char>,
    args: Seq<AsmArgument<'a>>,
    opts: AsmFormatOptions,
) -> Seq<char> {
    if args.len() == 0 {
        verb
    } else {
        verb + opts.verb_arg_spacing@ + spec_joined_args(args, opts)
    }
}

/// The rendering capability every opcode-class shape implements: a
/// mnemonic that may depend on the decoded field values (pseudo-op
/// selection) and an ordered, filtered operand list.
pub trait AsmInstruction: Sized {
    /// The canonical mnemonic for this instruction's field values.
    spec fn spec_verb(&self) -> Seq<char>;

    /// The canonical operand list for this instruction's field values.
    spec fn spec_args(&self) -> Seq<AsmArgument<'_>>;

    /// The canonical mnemonic for this instruction's field values.
    fn verb(&self) -> (r: &'static str)
        ensures
            r@ == self.spec_verb(),
    ;

    /// The canonical operand list for this instruction's field values.
    fn arguments(&self) -> (r: Vec<AsmArgument<'_>>)
        ensures
            r@ == self.spec_args(),
    ;

    /// Pairs the instruction with formatting options, ready to render.
    fn display(&self, options: AsmFormatOptions) -> (d: AsmDisplayInstruction<'_, Self>)
        ensures
            d.options == options,
            d.instruction == self,
    {
        AsmDisplayInstruction { options, instruction: self }
    }
}

/// An instruction paired with the formatting options to render it under.
pub struct AsmDisplayInstruction<'a, I> {
    /// The formatting options for this render.
    pub options: AsmFormatOptions,
    /// The instruction to render.
    pub instruction: &'a I,
}

impl<'a, I: AsmInstruction> AsmDisplayInstruction<'a, I> {
    /// Renders the instruction into one line of text, with no trailing
    /// newline and no trailing separator: the canonicalized mnemonic,
    /// then each operand, comma-plus-spacing between adjacent operands.
    pub fn render(&self) -> (r: String)
        ensures
            r@ == spec_render(
                self.instruction.spec_verb(),
                self.instruction.spec_args(),
                self.options,
            ),
    {
        let mut out = String::new();
        out.append(self.instruction.verb());
        let args = self.instruction.arguments();
        if args.len() > 0 {
            out.append(self.options.verb_arg_spacing);
            let ghost base = out@;
            proof {
                assert(base =~= self.instruction.spec_verb() + self.options.verb_arg_spacing@);
            }
            let mut i: usize = 0;
            while i < args.len()
                invariant
                    i <= args.len(),
                    args@ == self.instruction.spec_args(),
                    base == self.instruction.spec_verb() + self.options.verb_arg_spacing@,
                    out@ == base + spec_joined_args(args@.take(i as int), self.options),
                decreases args.len() - i,
            {
                if i > 0 {
                    out.append(",");
                    out.append(self.options.arg_spacing);
                }
                args[i].push_text(&self.options, &mut out);
                proof {
                    reveal_strlit(",");
                    let s = args@;
                    let o = self.options;
                    assert(s.take(i + 1).drop_last() =~= s.take(i as int));
                    assert(s.take(i + 1).last() == s[i as int]);
                    if i == 0 {
                        assert(spec_joined_args(s.take(1), o) == s.take(1)[0].spec_text(o));
                    }
                    assert(out@ =~= base + spec_joined_args(s.take(i + 1), o));
                }
                i += 1;
            }
            proof {
                assert(args@.take(args@.len() as int) =~= args@);
            }
        } else {
            proof {
                assert(out@ =~= self.instruction.spec_verb());
            }
        }
        out
    }
}

/// The rendered line always begins with the mnemonic, whatever the
/// operands and options.
pub proof fn lemma_render_starts_with_verb<'a>(
    verb: Seq<char>,
    args: Seq<AsmArgument<'a>>,
    opts: AsmFormatOptions,
)
    ensures
        spec_render(verb, args, opts).len() >= verb.len(),
        spec_render(verb, args, opts).subrange(0, verb.len() as int) == verb,
{
    assert(spec_render(verb, args, opts).subrange(0, verb.len() as int) =~= verb);
}

/// The line as a sequence of tokens: the mnemonic, then the text of each
/// operand in order.
pub open spec fn spec_tokens<'a>(
    verb: Seq<char>,
    args: Seq<AsmArgument<'a>>,
    opts: AsmFormatOptions,
) -> Seq<Seq<char>> {
    seq![verb] + args.map_values(|a: AsmArgument<'a>| a.spec_text(opts))
}

/// Separator configuration only moves tokens apart: two option bundles
/// that differ at most in their spacing fields yield the same tokens,
/// with the same content in the same order.
pub proof fn lemma_separators_change_spacing_only<'a>(
    verb: Seq<char>,
    args: Seq<AsmArgument<'a>>,
    o1: AsmFormatOptions,
    o2: AsmFormatOptions,
)
    requires
        o1.raw_reg_names == o2.raw_reg_names,
        o1.immediate_format == o2.immediate_format,
    ensures
        spec_tokens(verb, args, o1) == spec_tokens(verb, args, o2),
{
    assert forall|i: int| 0 <= i < args.len() implies args[i].spec_text(o1) == args[i].spec_text(
        o2,
    ) by {
        assert(args[i].spec_text(o1) == args[i].spec_text(o2));
    }
    assert(spec_tokens(verb, args, o1) =~= spec_tokens(verb, args, o2));
}

/// The joined operand text is determined by the operand texts and the
/// inter-operand spacing alone.
proof fn lemma_joined_args_from_texts<'a, 'b>(
    args1: Seq<AsmArgument<'a>>,
    args2: Seq<AsmArgument<'b>>,
    o1: AsmFormatOptions,
    o2: AsmFormatOptions,
)
    requires
        args1.len() == args2.len(),
        forall|i: int|
            0 <= i < args1.len() ==> args1[i].spec_text(o1) == args2[i].spec_text(o2),
        o1.arg_spacing@ == o2.arg_spacing@,
    ensures
        spec_joined_args(args1, o1) == spec_joined_args(args2, o2),
    decreases args1.len(),
{
    if args1.len() > 1 {
        lemma_joined_args_from_texts(args1.drop_last(), args2.drop_last(), o1, o2);
        assert(args1.last().spec_text(o1) == args2.last().spec_text(o2));
    }
}

/// The rendered line is determined by its tokens and the two separators
/// alone: whatever else the options change, equal tokens and equal
/// spacing give equal text.
pub proof fn lemma_render_from_tokens<'a, 'b>(
    verb: Seq<char>,
    args1: Seq<AsmArgument<'a>>,
    args2: Seq<AsmArgument<'b>>,
    o1: AsmFormatOptions,
    o2: AsmFormatOptions,
)
    requires
        spec_tokens(verb, args1, o1) == spec_tokens(verb, args2, o2),
        o1.verb_arg_spacing@ == o2.verb_arg_spacing@,
        o1.arg_spacing@ == o2.arg_spacing@,
    ensures
        spec_render(verb, args1, o1) == spec_render(verb, args2, o2),
{
    let tk1 = spec_tokens(verb, args1, o1);
    let tk2 = spec_tokens(verb, args2, o2);
    assert(tk1.len() == 1 + args1.len());
    assert(tk2.len() == 1 + args2.len());
    assert forall|i: int| 0 <= i < args1.len() implies args1[i].spec_text(o1) == args2[i].spec_text(
        o2,
    ) by {
        assert(tk1[i + 1] == args1[i].spec_text(o1));
        assert(tk2[i + 1] == args2[i].spec_text(o2));
    }
    if args1.len() > 0 {
        lemma_joined_args_from_texts(args1, args2, o1, o2);
    }
}

/// Rendering an immediate under a fixed mode is deterministic: the text
/// is a function of the value and the mode alone, so repeated renders of
/// the same immediate are identical.
pub proof fn lemma_immediate_text_deterministic(
    v: i64,
    f: AsmImmediateFormat,
    r1: Seq<char>,
    r2: Seq<char>,
)
    requires
        r1 == spec_immediate_text(v, f),
        r2 == spec_immediate_text(v, f),
    ensures
        r1 == r2,
{
}

} // verus!

