use rv32i_asm::AsmArgument;
use rv32i_asm::AsmFormatOptions;
use rv32i_asm::AsmImmediateFormat;
use rv32i_asm::AsmRegister;

fn opts(raw: bool, format: AsmImmediateFormat) -> AsmFormatOptions {
    let mut o = AsmFormatOptions::default();
    o.raw_reg_names = raw;
    o.immediate_format = format;
    o
}

fn imm_text(v: i64, format: AsmImmediateFormat) -> String {
    AsmArgument::Immediate(v).text(&opts(false, format))
}

#[test]
fn signed_decimal_of_minus_one() {
    assert_eq!(imm_text(-1, AsmImmediateFormat::SignedDecimal), "-1");
}

#[test]
fn unsigned_decimal_of_minus_one_is_its_bit_pattern() {
    assert_eq!(
        imm_text(-1, AsmImmediateFormat::UnsignedDecimal),
        "18446744073709551615"
    );
}

#[test]
fn hex_of_negative_values_shows_the_bit_pattern() {
    assert_eq!(imm_text(-1, AsmImmediateFormat::Hex), "0xffffffffffffffff");
    assert_eq!(imm_text(-2, AsmImmediateFormat::Hex), "0xfffffffffffffffe");
}

#[test]
fn binary_of_negative_values_shows_the_bit_pattern() {
    assert_eq!(
        imm_text(-2, AsmImmediateFormat::Bin),
        format!("0b{:b}", -2i64 as u64)
    );
}

#[test]
fn each_mode_matches_std_formatting() {
    for v in [0i64, 1, 9, 10, 16, 255, 4096, -1, -10, 7_777_777, i64::MAX, i64::MIN] {
        assert_eq!(imm_text(v, AsmImmediateFormat::Hex), format!("0x{:x}", v));
        assert_eq!(imm_text(v, AsmImmediateFormat::Bin), format!("0b{:b}", v));
        assert_eq!(
            imm_text(v, AsmImmediateFormat::UnsignedDecimal),
            format!("{}", v as u64)
        );
        assert_eq!(
            imm_text(v, AsmImmediateFormat::SignedDecimal),
            format!("{}", v)
        );
    }
}

#[test]
fn immediate_rendering_is_stable_across_repeated_calls() {
    for format in [
        AsmImmediateFormat::Hex,
        AsmImmediateFormat::Bin,
        AsmImmediateFormat::UnsignedDecimal,
        AsmImmediateFormat::SignedDecimal,
    ] {
        assert_eq!(imm_text(-123, format), imm_text(-123, format));
    }
}

#[test]
fn labels_render_verbatim() {
    let arg = AsmArgument::Label("main+0x10");
    assert_eq!(arg.text(&AsmFormatOptions::default()), "main+0x10");
}

#[test]
fn offset_immediate_renders_value_then_parenthesized_register() {
    let arg = AsmArgument::OffsetImmediate(-4, AsmRegister::R2);
    assert_eq!(
        arg.text(&opts(false, AsmImmediateFormat::SignedDecimal)),
        "-4(sp)"
    );
    assert_eq!(
        arg.text(&opts(true, AsmImmediateFormat::Hex)),
        "0xfffffffffffffffc(x2)"
    );
}

#[test]
fn register_argument_construction_is_fallible_only_out_of_range() {
    for num in 0u8..32 {
        assert!(AsmArgument::reg(num).is_some());
    }
    assert!(AsmArgument::reg(32).is_none());
    assert!(AsmArgument::reg(255).is_none());
}

#[test]
fn register_index_round_trips() {
    for num in 0u8..32 {
        let reg = AsmRegister::from_index(num).unwrap();
        assert_eq!(reg.index(), num);
        assert_eq!(u8::from(reg), num);
    }
    assert!(AsmRegister::from_index(32).is_none());
}

#[test]
fn raw_register_names_are_positional_and_distinct() {
    let o = opts(true, AsmImmediateFormat::Hex);
    let mut names: Vec<String> = Vec::new();
    for num in 0u8..32 {
        let reg = AsmRegister::from_index(num).unwrap();
        let name = AsmArgument::Register(reg).text(&o);
        assert_eq!(name, format!("x{}", num));
        assert!(!names.contains(&name));
        names.push(name);
    }
}

#[test]
fn abi_register_names_match_the_calling_convention_and_are_distinct() {
    let expected = [
        "zero", "ra", "sp", "gp", "tp", "t0", "t1", "t2", "s0", "s1", "a0", "a1", "a2",
        "a3", "a4", "a5", "a6", "a7", "s2", "s3", "s4", "s5", "s6", "s7", "s8", "s9",
        "s10", "s11", "t3", "t4", "t5", "t6",
    ];
    let o = opts(false, AsmImmediateFormat::Hex);
    let mut names: Vec<String> = Vec::new();
    for num in 0u8..32 {
        let reg = AsmRegister::from_index(num).unwrap();
        let name = AsmArgument::Register(reg).text(&o);
        assert_eq!(name, expected[num as usize]);
        assert!(!name.is_empty());
        assert!(!names.contains(&name));
        names.push(name);
    }
}
