use rv32i_asm::rv32i::Add;
use rv32i_asm::rv32i::Addi;
use rv32i_asm::rv32i::And;
use rv32i_asm::rv32i::Andi;
use rv32i_asm::rv32i::AuiPc;
use rv32i_asm::rv32i::Beq;
use rv32i_asm::rv32i::Bge;
use rv32i_asm::rv32i::Bgeu;
use rv32i_asm::rv32i::Blt;
use rv32i_asm::rv32i::Bltu;
use rv32i_asm::rv32i::Bne;
use rv32i_asm::rv32i::EBreak;
use rv32i_asm::rv32i::ECall;
use rv32i_asm::rv32i::Fence;
use rv32i_asm::rv32i::FenceTso;
use rv32i_asm::rv32i::Jal;
use rv32i_asm::rv32i::JalR;
use rv32i_asm::rv32i::Lb;
use rv32i_asm::rv32i::Lbu;
use rv32i_asm::rv32i::Lh;
use rv32i_asm::rv32i::Lhu;
use rv32i_asm::rv32i::Lui;
use rv32i_asm::rv32i::Lw;
use rv32i_asm::rv32i::Or;
use rv32i_asm::rv32i::Ori;
use rv32i_asm::rv32i::Pause;
use rv32i_asm::rv32i::Rv32IInstruction;
use rv32i_asm::rv32i::Sb;
use rv32i_asm::rv32i::Sh;
use rv32i_asm::rv32i::Sll;
use rv32i_asm::rv32i::Slli;
use rv32i_asm::rv32i::Slt;
use rv32i_asm::rv32i::Slti;
use rv32i_asm::rv32i::Sltiu;
use rv32i_asm::rv32i::Sltu;
use rv32i_asm::rv32i::Sra;
use rv32i_asm::rv32i::Srai;
use rv32i_asm::rv32i::Srl;
use rv32i_asm::rv32i::Srli;
use rv32i_asm::rv32i::Sub;
use rv32i_asm::rv32i::Sw;
use rv32i_asm::rv32i::Xor;
use rv32i_asm::rv32i::Xori;
use rv32i_asm::AsmFormatOptions;
use rv32i_asm::AsmImmediateFormat;
use rv32i_asm::AsmInstruction;
use rv32i_asm::AsmRegister;

fn opts(raw: bool, format: AsmImmediateFormat) -> AsmFormatOptions {
    let mut o = AsmFormatOptions::default();
    o.raw_reg_names = raw;
    o.immediate_format = format;
    o
}

fn line<I: AsmInstruction>(i: &I, o: AsmFormatOptions) -> String {
    i.display(o).render()
}

fn default_line<I: AsmInstruction>(i: &I) -> String {
    line(i, AsmFormatOptions::default())
}

#[test]
fn li_alias_for_addi_from_zero() {
    let i = Addi { rd: AsmRegister::R5, rs1: AsmRegister::R0, imm: 7 };
    assert_eq!(line(&i, opts(true, AsmImmediateFormat::Hex)), "li\tx5,0x7");
}

#[test]
fn nop_alias_is_bare_mnemonic() {
    let i = Addi { rd: AsmRegister::R0, rs1: AsmRegister::R0, imm: 0 };
    assert_eq!(default_line(&i), "nop");
}

#[test]
fn mv_alias_for_addi_of_zero() {
    let i = Addi { rd: AsmRegister::R5, rs1: AsmRegister::R6, imm: 0 };
    assert_eq!(default_line(&i), "mv\tt0,t1");
}

#[test]
fn addi_to_nonzero_from_zero_of_zero_keeps_full_form() {
    let i = Addi { rd: AsmRegister::R5, rs1: AsmRegister::R0, imm: 0 };
    assert_eq!(default_line(&i), "addi\tt0,zero,0x0");
}

#[test]
fn addi_full_form() {
    let i = Addi { rd: AsmRegister::R10, rs1: AsmRegister::R11, imm: -3 };
    assert_eq!(
        line(&i, opts(false, AsmImmediateFormat::SignedDecimal)),
        "addi\ta0,a1,-3"
    );
}

#[test]
fn ret_alias_for_link_register_jalr() {
    let i = JalR { rd: AsmRegister::R1, rs1: AsmRegister::R1, imm: 0 };
    assert_eq!(default_line(&i), "ret");
}

#[test]
fn jr_alias_for_discarded_jalr() {
    let i = JalR { rd: AsmRegister::R0, rs1: AsmRegister::R5, imm: 0 };
    assert_eq!(default_line(&i), "jr\tt0");
}

#[test]
fn jalr_with_link_register_keeps_full_form() {
    let i = JalR { rd: AsmRegister::R1, rs1: AsmRegister::R5, imm: 0 };
    assert_eq!(default_line(&i), "jalr\tra,t0,0x0");
}

#[test]
fn jalr_with_offset_keeps_full_form() {
    let i = JalR { rd: AsmRegister::R1, rs1: AsmRegister::R1, imm: 4 };
    assert_eq!(default_line(&i), "jalr\tra,ra,0x4");
}

#[test]
fn j_alias_for_discarded_jal() {
    let i = Jal { rd: AsmRegister::R0, imm: 16 };
    assert_eq!(default_line(&i), "j\t0x10");
}

#[test]
fn jal_keeps_full_form_for_any_link_register() {
    let i = Jal { rd: AsmRegister::R1, imm: 16 };
    assert_eq!(default_line(&i), "jal\tra,0x10");
}

#[test]
fn beqz_alias_drops_the_zero_register() {
    let i = Beq { rs1: AsmRegister::R0, rs2: AsmRegister::R6, imm: 100 };
    assert_eq!(
        line(&i, opts(true, AsmImmediateFormat::SignedDecimal)),
        "beqz\tx6,100"
    );
}

#[test]
fn beqz_alias_for_right_zero_register() {
    let i = Beq { rs1: AsmRegister::R6, rs2: AsmRegister::R0, imm: 100 };
    assert_eq!(
        line(&i, opts(true, AsmImmediateFormat::SignedDecimal)),
        "beqz\tx6,100"
    );
}

#[test]
fn beq_full_form() {
    let i = Beq { rs1: AsmRegister::R5, rs2: AsmRegister::R6, imm: 8 };
    assert_eq!(default_line(&i), "beq\tt0,t1,0x8");
}

#[test]
fn bnez_alias_drops_the_zero_register() {
    let i = Bne { rs1: AsmRegister::R7, rs2: AsmRegister::R0, imm: 8 };
    assert_eq!(default_line(&i), "bnez\tt2,0x8");
}

#[test]
fn blt_zero_register_side_picks_the_comparison_sense() {
    let left = Blt { rs1: AsmRegister::R0, rs2: AsmRegister::R5, imm: 8 };
    let right = Blt { rs1: AsmRegister::R5, rs2: AsmRegister::R0, imm: 8 };
    assert_eq!(default_line(&left), "bgtz\tt0,0x8");
    assert_eq!(default_line(&right), "bltz\tt0,0x8");
}

#[test]
fn bge_zero_register_side_picks_the_comparison_sense() {
    let left = Bge { rs1: AsmRegister::R0, rs2: AsmRegister::R5, imm: 8 };
    let right = Bge { rs1: AsmRegister::R5, rs2: AsmRegister::R0, imm: 8 };
    assert_eq!(default_line(&left), "blez\tt0,0x8");
    assert_eq!(default_line(&right), "bgez\tt0,0x8");
}

#[test]
fn unsigned_branches_never_collapse() {
    let ltu = Bltu { rs1: AsmRegister::R0, rs2: AsmRegister::R5, imm: 8 };
    let geu = Bgeu { rs1: AsmRegister::R5, rs2: AsmRegister::R0, imm: 8 };
    assert_eq!(default_line(&ltu), "bltu\tzero,t0,0x8");
    assert_eq!(default_line(&geu), "bgeu\tt0,zero,0x8");
}

#[test]
fn not_alias_for_xori_with_all_ones_field() {
    let i = Xori { rd: AsmRegister::R5, rs1: AsmRegister::R6, imm: 0xFFF };
    assert_eq!(default_line(&i), "not\tt0,t1");
}

#[test]
fn xori_full_form() {
    let i = Xori { rd: AsmRegister::R5, rs1: AsmRegister::R6, imm: 0xFF };
    assert_eq!(default_line(&i), "xori\tt0,t1,0xff");
}

#[test]
fn seqz_alias_for_sltiu_against_one() {
    let i = Sltiu { rd: AsmRegister::R5, rs1: AsmRegister::R6, imm: 1 };
    assert_eq!(default_line(&i), "seqz\tt0,t1");
}

#[test]
fn sltiu_full_form() {
    let i = Sltiu { rd: AsmRegister::R5, rs1: AsmRegister::R6, imm: 2 };
    assert_eq!(default_line(&i), "sltiu\tt0,t1,0x2");
}

#[test]
fn slti_ori_andi_never_collapse() {
    let slti = Slti { rd: AsmRegister::R5, rs1: AsmRegister::R6, imm: 1 };
    let ori = Ori { rd: AsmRegister::R5, rs1: AsmRegister::R6, imm: 0xFFF };
    let andi = Andi { rd: AsmRegister::R5, rs1: AsmRegister::R6, imm: 0 };
    assert_eq!(default_line(&slti), "slti\tt0,t1,0x1");
    assert_eq!(default_line(&ori), "ori\tt0,t1,0xfff");
    assert_eq!(default_line(&andi), "andi\tt0,t1,0x0");
}

#[test]
fn lui_displays_the_field_shifted_back_down() {
    let i = Lui { rd: AsmRegister::R10, imm: 0xdeadc000 };
    assert_eq!(default_line(&i), "lui\ta0,0xdeadc");
}

#[test]
fn auipc_displays_the_field_shifted_back_down() {
    let i = AuiPc { rd: AsmRegister::R10, imm: 0x1000 };
    assert_eq!(default_line(&i), "auipc\ta0,0x1");
}

#[test]
fn loads_render_offset_immediate_operands() {
    let lw = Lw { rd: AsmRegister::R10, rs1: AsmRegister::R2, imm: -4 };
    assert_eq!(
        line(&lw, opts(false, AsmImmediateFormat::SignedDecimal)),
        "lw\ta0,-4(sp)"
    );
    let lb = Lb { rd: AsmRegister::R10, rs1: AsmRegister::R2, imm: 3 };
    let lh = Lh { rd: AsmRegister::R10, rs1: AsmRegister::R2, imm: 2 };
    let lbu = Lbu { rd: AsmRegister::R10, rs1: AsmRegister::R2, imm: 1 };
    let lhu = Lhu { rd: AsmRegister::R10, rs1: AsmRegister::R2, imm: 0 };
    assert_eq!(default_line(&lb), "lb\ta0,0x3(sp)");
    assert_eq!(default_line(&lh), "lh\ta0,0x2(sp)");
    assert_eq!(default_line(&lbu), "lbu\ta0,0x1(sp)");
    assert_eq!(default_line(&lhu), "lhu\ta0,0x0(sp)");
}

#[test]
fn stores_render_the_stored_register_first() {
    let sw = Sw { rs1: AsmRegister::R2, rs2: AsmRegister::R10, imm: 8 };
    let sh = Sh { rs1: AsmRegister::R2, rs2: AsmRegister::R10, imm: 4 };
    let sb = Sb { rs1: AsmRegister::R2, rs2: AsmRegister::R10, imm: 2 };
    assert_eq!(default_line(&sw), "sw\ta0,0x8(sp)");
    assert_eq!(default_line(&sh), "sh\ta0,0x4(sp)");
    assert_eq!(default_line(&sb), "sb\ta0,0x2(sp)");
}

#[test]
fn shift_immediates_display_the_shift_amount_field() {
    let slli = Slli { rd: AsmRegister::R5, rs1: AsmRegister::R6, shamt: 31 };
    let srli = Srli { rd: AsmRegister::R5, rs1: AsmRegister::R6, shamt: 1 };
    let srai = Srai { rd: AsmRegister::R5, rs1: AsmRegister::R6, shamt: 4 };
    assert_eq!(default_line(&slli), "slli\tt0,t1,0x1f");
    assert_eq!(default_line(&srli), "srli\tt0,t1,0x1");
    assert_eq!(default_line(&srai), "srai\tt0,t1,0x4");
}

#[test]
fn register_register_forms() {
    let rd = AsmRegister::R5;
    let rs1 = AsmRegister::R6;
    let rs2 = AsmRegister::R7;
    assert_eq!(default_line(&Add { rd, rs1, rs2 }), "add\tt0,t1,t2");
    assert_eq!(default_line(&Sub { rd, rs1, rs2 }), "sub\tt0,t1,t2");
    assert_eq!(default_line(&Xor { rd, rs1, rs2 }), "xor\tt0,t1,t2");
    assert_eq!(default_line(&Or { rd, rs1, rs2 }), "or\tt0,t1,t2");
    assert_eq!(default_line(&And { rd, rs1, rs2 }), "and\tt0,t1,t2");
    assert_eq!(default_line(&Slt { rd, rs1, rs2 }), "slt\tt0,t1,t2");
    assert_eq!(default_line(&Sltu { rd, rs1, rs2 }), "sltu\tt0,t1,t2");
    assert_eq!(default_line(&Sll { rd, rs1, rs2 }), "sll\tt0,t1,t2");
    assert_eq!(default_line(&Srl { rd, rs1, rs2 }), "srl\tt0,t1,t2");
}

#[test]
fn sra_renders_its_own_mnemonic() {
    let i = Sra { rd: AsmRegister::R5, rs1: AsmRegister::R6, rs2: AsmRegister::R7 };
    assert_eq!(default_line(&i), "sra\tt0,t1,t2");
}

#[test]
fn system_classes_render_the_bare_mnemonic() {
    assert_eq!(default_line(&Fence), "fence");
    assert_eq!(default_line(&FenceTso), "fence.tso");
    assert_eq!(default_line(&Pause), "pause");
    assert_eq!(default_line(&ECall), "ecall");
    assert_eq!(default_line(&EBreak), "ebreak");
}

#[test]
fn sum_type_dispatches_to_the_live_variant() {
    let i = Rv32IInstruction::Addi(Addi {
        rd: AsmRegister::R5,
        rs1: AsmRegister::R0,
        imm: 7,
    });
    assert_eq!(line(&i, opts(true, AsmImmediateFormat::Hex)), "li\tx5,0x7");
    let j = Rv32IInstruction::EBreak(EBreak);
    assert_eq!(default_line(&j), "ebreak");
}

#[test]
fn separators_change_only_whitespace_between_tokens() {
    let i = Add {
        rd: AsmRegister::R5,
        rs1: AsmRegister::R6,
        rs2: AsmRegister::R7,
    };
    let mut spaced = AsmFormatOptions::default();
    spaced.verb_arg_spacing = " ";
    spaced.arg_spacing = " ";
    assert_eq!(default_line(&i), "add\tt0,t1,t2");
    assert_eq!(line(&i, spaced), "add t0, t1, t2");
}

#[test]
fn rendering_is_deterministic_across_repeated_calls() {
    let i = Lui { rd: AsmRegister::R10, imm: 0xdeadc000 };
    let first = default_line(&i);
    let second = default_line(&i);
    assert_eq!(first, second);
}
