use msp430_asm::decode;
use msp430_asm::decode_error::DecodeError;
use msp430_asm::emulate::{Emulate, Emulated};
use msp430_asm::instruction::Instruction;
use msp430_asm::jxx::{jxx_fix_offset, Jxx};
use msp430_asm::operand::{AddressingMode, Operand, OperandWidth};
use msp430_asm::single_operand::{Call, Push, Reti, Rrc, SingleOperand};
use msp430_asm::two_operand::TwoOperand;

fn text_of(data: &[u8]) -> String {
    decode(data).unwrap().to_string()
}

#[test]
fn scenario_jnz_zero() {
    let inst = decode(&[0x00, 0x20]).unwrap();
    assert_eq!(inst, Instruction::Jnz(Jxx::new(0)));
    assert_eq!(inst.size(), 2);
    assert_eq!(inst.to_string(), "jnz #0x0");
}

#[test]
fn scenario_jnz_negative_is_twos_complement() {
    let inst = decode(&[0xf9, 0x23]).unwrap();
    assert_eq!(inst, Instruction::Jnz(Jxx::new(-7)));
    assert_eq!(inst.size(), 2);
    assert_eq!(inst.to_string(), "jnz #-0x7");
}

#[test]
fn scenario_rrc_register_direct() {
    let inst = decode(&[0x09, 0x10]).unwrap();
    assert_eq!(
        inst,
        Instruction::Rrc(Rrc::new(Operand::RegisterDirect(9), Some(OperandWidth::Word)))
    );
    assert_eq!(inst.size(), 2);
    assert_eq!(inst.to_string(), "rrc r9");
}

#[test]
fn scenario_rrc_indexed_negative() {
    let inst = decode(&[0x19, 0x10, 0xfb, 0xff]).unwrap();
    assert_eq!(
        inst,
        Instruction::Rrc(Rrc::new(Operand::Indexed((9, -5)), Some(OperandWidth::Word)))
    );
    assert_eq!(inst.size(), 4);
    assert_eq!(inst.to_string(), "rrc -0x5(r9)");
}

#[test]
fn scenario_reti() {
    let inst = decode(&[0x00, 0x13]).unwrap();
    assert_eq!(inst, Instruction::Reti(Reti::new()));
    assert_eq!(inst.size(), 2);
    assert_eq!(inst.to_string(), "reti");
}

#[test]
fn scenario_push_absolute() {
    let inst = decode(&[0x12, 0x12, 0x00, 0x44]).unwrap();
    assert_eq!(
        inst,
        Instruction::Push(Push::new(Operand::Absolute(0x4400), Some(OperandWidth::Word)))
    );
    assert_eq!(inst.size(), 4);
    assert_eq!(inst.to_string(), "push &0x4400");
}

#[test]
fn scenario_call_immediate() {
    let inst = decode(&[0xb0, 0x12, 0x02, 0x00]).unwrap();
    assert_eq!(inst, Instruction::Call(Call::new(Operand::Immediate(2), None)));
    assert_eq!(inst.size(), 4);
    assert_eq!(inst.to_string(), "call #0x2");
}

#[test]
fn scenario_mov_register_to_itself_is_not_emulated() {
    let inst = decode(&[0x0f, 0x4f]).unwrap();
    assert_eq!(
        inst,
        Instruction::Mov(TwoOperand::new(
            Operand::RegisterDirect(15),
            OperandWidth::Word,
            Operand::RegisterDirect(15)
        ))
    );
    assert_eq!(inst.size(), 2);
    assert_eq!(inst.to_string(), "mov r15, r15");
}

#[test]
fn scenario_mov_zero_to_cg_is_nop() {
    let inst = decode(&[0x03, 0x43]).unwrap();
    let original =
        TwoOperand::new(Operand::Constant(0), OperandWidth::Word, Operand::RegisterDirect(3));
    assert_eq!(inst, Instruction::Nop(Emulated::new(None, None, original)));
    assert_eq!(inst.size(), 2);
    assert_eq!(inst.to_string(), "nop");
}

#[test]
fn reti_ignores_source_bits() {
    // the source field asks for an extension word that is not there
    assert_eq!(decode(&[0x10, 0x13]), Ok(Instruction::Reti(Reti::new())));
    assert_eq!(decode(&[0x3f, 0x13]), Ok(Instruction::Reti(Reti::new())));
}

#[test]
fn single_operand_opcode_seven_is_invalid() {
    assert_eq!(decode(&[0x80, 0x03]), Err(DecodeError::InvalidOpcode(7)));
    // the source operand is parsed first
    assert_eq!(decode(&[0x90, 0x03]), Err(DecodeError::MissingSource));
}

#[test]
fn jump_offsets_at_the_edges() {
    assert_eq!(decode(&[0xff, 0x3d]), Ok(Instruction::Jmp(Jxx::new(511))));
    assert_eq!(decode(&[0x00, 0x3e]), Ok(Instruction::Jmp(Jxx::new(-512))));
    assert_eq!(decode(&[0xff, 0x3f]), Ok(Instruction::Jmp(Jxx::new(-1))));
    assert_eq!(text_of(&[0xff, 0x3d]), "jmp #0x1ff");
    assert_eq!(text_of(&[0x00, 0x3e]), "jmp #-0x200");
}

#[test]
fn fix_offset_values() {
    assert_eq!(jxx_fix_offset(0x3f9), -7);
    assert_eq!(jxx_fix_offset(0x1ff), 511);
    assert_eq!(jxx_fix_offset(0x200), -512);
    assert_eq!(jxx_fix_offset(0x3ff), -1);
    assert_eq!(jxx_fix_offset(0), 0);
    // bits above the ten-bit field are ignored
    assert_eq!(jxx_fix_offset(0x23f9), -7);
}

#[test]
fn jump_texts_per_condition() {
    let names = ["jnz", "jz", "jlo", "jc", "jn", "jge", "jl", "jmp"];
    for (c, name) in names.iter().enumerate() {
        let hi = 0x20 | ((c as u8) << 2);
        assert_eq!(text_of(&[0x05, hi]), format!("{} #0x5", name));
    }
}

#[test]
fn six_byte_two_operand() {
    let data = [0x95, 0x42, 0x00, 0x02, 0x04, 0x00];
    let inst = decode(&data).unwrap();
    assert_eq!(
        inst,
        Instruction::Mov(TwoOperand::new(
            Operand::Absolute(0x200),
            OperandWidth::Word,
            Operand::Indexed((5, 4))
        ))
    );
    assert_eq!(inst.size(), 6);
    assert_eq!(inst.len(), 6);
    assert_eq!(inst.to_string(), "mov &0x200, 0x4(r5)");
}

#[test]
fn two_operand_missing_extension_words() {
    assert_eq!(decode(&[0x95, 0x42, 0x00, 0x02]), Err(DecodeError::MissingDestination));
    assert_eq!(decode(&[0x95, 0x42, 0x00, 0x02, 0x04]), Err(DecodeError::MissingDestination));
    assert_eq!(decode(&[0x95, 0x42, 0x00]), Err(DecodeError::MissingSource));
    assert_eq!(decode(&[0x01]), Err(DecodeError::MissingInstruction));
}

#[test]
fn two_operand_byte_forms_and_modes() {
    let inst = decode(&[0xf6, 0xf5, 0x02, 0x00]).unwrap();
    assert_eq!(
        inst,
        Instruction::And(TwoOperand::new(
            Operand::RegisterIndirectAutoIncrement(5),
            OperandWidth::Byte,
            Operand::Indexed((6, 2))
        ))
    );
    assert_eq!(inst.to_string(), "and.b @r5+, 0x2(r6)");
    assert_eq!(text_of(&[0x06, 0xb5]), "bit r5, r6");
    assert_eq!(text_of(&[0x80, 0x45, 0xfe, 0xff]), "mov r5, #-0x2(pc)");
    assert_eq!(text_of(&[0x26, 0x95]), "cmp @r5, r6");
}

#[test]
fn two_operand_opcodes() {
    let names = [
        "mov", "add", "addc", "subc", "sub", "cmp", "dadd", "bit", "bic", "bis", "xor", "and",
    ];
    for (k, name) in names.iter().enumerate() {
        // r5 to r6: no alias applies to any opcode
        let hi = ((k as u8 + 4) << 4) | 0x05;
        assert_eq!(text_of(&[0x06, hi]), format!("{} r5, r6", name));
        assert_eq!(decode(&[0x06, hi]).unwrap().size(), 2);
    }
}

#[test]
fn mov_aliases() {
    assert_eq!(text_of(&[0x0f, 0x43]), "clr r15");
    let clr_imm = decode(&[0x3f, 0x40, 0x00, 0x00]).unwrap();
    assert_eq!(clr_imm.to_string(), "clr r15");
    assert_eq!(clr_imm.size(), 4);
    assert_eq!(
        clr_imm,
        Instruction::Clr(Emulated::new(
            Some(Operand::RegisterDirect(15)),
            None,
            TwoOperand::new(
                Operand::Immediate(0),
                OperandWidth::Word,
                Operand::RegisterDirect(15)
            )
        ))
    );
    assert_eq!(text_of(&[0x30, 0x41]), "ret");
    assert_eq!(text_of(&[0x3a, 0x41]), "pop r10");
    assert_eq!(text_of(&[0x7a, 0x41]), "pop.b r10");
    assert_eq!(text_of(&[0x00, 0x4a]), "br r10");
    let br = decode(&[0x30, 0x40, 0x00, 0x44]).unwrap();
    assert_eq!(br.to_string(), "br #0x4400");
    assert_eq!(br.size(), 4);
}

#[test]
fn arithmetic_aliases() {
    assert_eq!(text_of(&[0x1f, 0x53]), "inc r15");
    assert_eq!(text_of(&[0x2f, 0x53]), "incd r15");
    assert_eq!(text_of(&[0x0f, 0x5f]), "rla r15");
    assert_eq!(text_of(&[0x4f, 0x5f]), "rla.b r15");
    assert_eq!(text_of(&[0x0f, 0x63]), "adc r15");
    assert_eq!(text_of(&[0x0f, 0x6f]), "rlc r15");
    assert_eq!(text_of(&[0x0f, 0x73]), "sbc r15");
    assert_eq!(text_of(&[0x1f, 0x83]), "dec r15");
    assert_eq!(text_of(&[0x2f, 0x83]), "decd r15");
    assert_eq!(text_of(&[0x0f, 0x93]), "tst r15");
    assert_eq!(text_of(&[0x0f, 0xa3]), "dadc r15");
    assert_eq!(text_of(&[0x3f, 0xe3]), "inv r15");
    assert_eq!(text_of(&[0x7f, 0xe3]), "inv.b r15");
}

#[test]
fn status_register_aliases() {
    assert_eq!(text_of(&[0x12, 0xc3]), "clrc");
    assert_eq!(text_of(&[0x22, 0xc3]), "clrn");
    assert_eq!(text_of(&[0x22, 0xc2]), "clrz");
    assert_eq!(text_of(&[0x32, 0xc2]), "dint");
    assert_eq!(text_of(&[0x12, 0xd3]), "setc");
    assert_eq!(text_of(&[0x22, 0xd3]), "setz");
    assert_eq!(text_of(&[0x22, 0xd2]), "setn");
    assert_eq!(text_of(&[0x32, 0xd2]), "eint");
    // a constant other than 1, 2, 4, 8 is no alias
    assert_eq!(text_of(&[0x32, 0xc3]), "bic #-0x1, sr");
}

#[test]
fn emulation_keeps_the_original_and_its_size() {
    let t = TwoOperand::new(
        Operand::Indexed((5, 8)),
        OperandWidth::Byte,
        Operand::Indexed((5, 8)),
    );
    let add = Instruction::Add(t);
    let alias = add.emulate().unwrap();
    assert_eq!(alias, Instruction::Rla(Emulated::new(Some(t.destination), Some(t.operand_width), t)));
    assert_eq!(alias.size(), add.size());
    assert_eq!(alias.size(), 6);
    assert_eq!(alias.to_string(), "rla.b 0x8(r5)");
    assert_eq!(Instruction::Bit(t).emulate(), None);
    assert_eq!(Instruction::Jz(Jxx::new(1)).emulate(), None);
}

#[test]
fn size_never_exceeds_input_and_prefix_decides() {
    let buffers: [&[u8]; 6] = [
        &[0x95, 0x42, 0x00, 0x02, 0x04, 0x00, 0xaa, 0xbb],
        &[0x19, 0x10, 0xfb, 0xff, 0x01],
        &[0x3f, 0x40, 0x00, 0x00, 0x13],
        &[0xf9, 0x23, 0x55, 0x66],
        &[0x0f, 0x4f, 0x12],
        &[0x00, 0x13, 0x99, 0x98],
    ];
    for data in buffers.iter() {
        let inst = decode(data).unwrap();
        let n = inst.size();
        assert!(n == 2 || n == 4 || n == 6);
        assert!(n <= data.len());
        assert_eq!(decode(&data[..n]), Ok(inst));
        let mut changed = data.to_vec();
        for b in changed[n..].iter_mut() {
            *b = b.wrapping_add(0x5a);
        }
        assert_eq!(decode(&changed), Ok(inst));
    }
}

#[test]
fn width_bit_selects_width() {
    assert_eq!(decode(&[0x49, 0x11]).unwrap().operand_width(), Some(OperandWidth::Byte));
    assert_eq!(decode(&[0x09, 0x11]).unwrap().operand_width(), Some(OperandWidth::Word));
    // swpb, sxt and call carry no width, whatever bit 6 holds
    assert_eq!(decode(&[0xc9, 0x10]).unwrap().operand_width(), None);
    assert_eq!(decode(&[0xc9, 0x11]).unwrap().operand_width(), None);
    assert_eq!(decode(&[0xc9, 0x12]).unwrap().operand_width(), None);
    assert_eq!(decode(&[0x00, 0x13]).unwrap().operand_width(), None);
    assert_eq!(decode(&[0x00, 0x20]).unwrap().operand_width(), None);
    assert_eq!(decode(&[0x46, 0x45]).unwrap().operand_width(), Some(OperandWidth::Byte));
    assert_eq!(OperandWidth::from_bit(0), OperandWidth::Word);
    assert_eq!(OperandWidth::from_bit(1), OperandWidth::Byte);
}

#[test]
fn single_operand_accessors() {
    let rrc = Rrc::new(Operand::Indexed((9, -5)), Some(OperandWidth::Byte));
    assert_eq!(rrc.source(), Operand::Indexed((9, -5)));
    assert_eq!(rrc.operand_width(), Some(OperandWidth::Byte));
    assert_eq!(rrc.size(), 4);
    assert_eq!(rrc.addressing_mode(), AddressingMode::Indexed);
    let call = Call::new(Operand::Constant(4), None);
    assert_eq!(call.size(), 2);
    assert_eq!(call.addressing_mode(), AddressingMode::Constant);
    assert_eq!(Reti::new().size(), 2);
    assert_eq!(Jxx::new(-3).offset(), -3);
    assert_eq!(Jxx::new(-3).size(), 2);
}

#[test]
fn operand_sizes_and_modes() {
    assert_eq!(Operand::RegisterDirect(4).size(), 0);
    assert_eq!(Operand::Indexed((4, 1)).size(), 2);
    assert_eq!(Operand::RegisterIndirect(4).size(), 0);
    assert_eq!(Operand::RegisterIndirectAutoIncrement(4).size(), 0);
    assert_eq!(Operand::Symbolic(-1).size(), 2);
    assert_eq!(Operand::Immediate(1).size(), 2);
    assert_eq!(Operand::Absolute(1).size(), 2);
    assert_eq!(Operand::Constant(8).size(), 0);
    assert_eq!(
        Operand::RegisterIndirectAutoIncrement(4).addressing_mode(),
        AddressingMode::IndirectAutoIncrement
    );
}

#[test]
fn operand_texts() {
    assert_eq!(Operand::RegisterDirect(0).to_string(), "pc");
    assert_eq!(Operand::RegisterDirect(1).to_string(), "sp");
    assert_eq!(Operand::RegisterDirect(2).to_string(), "sr");
    assert_eq!(Operand::RegisterDirect(3).to_string(), "cg");
    assert_eq!(Operand::RegisterDirect(12).to_string(), "r12");
    assert_eq!(Operand::Indexed((1, 0x1234)).to_string(), "0x1234(sp)");
    assert_eq!(Operand::Indexed((4, -32768)).to_string(), "-0x8000(r4)");
    assert_eq!(Operand::RegisterIndirect(1).to_string(), "@sp");
    assert_eq!(Operand::RegisterIndirectAutoIncrement(15).to_string(), "@r15+");
    assert_eq!(Operand::Symbolic(2).to_string(), "#0x2(pc)");
    assert_eq!(Operand::Symbolic(-16).to_string(), "#-0x10(pc)");
    assert_eq!(Operand::Immediate(0xfffe).to_string(), "#0xfffe");
    assert_eq!(Operand::Absolute(0xabc).to_string(), "&0xabc");
    assert_eq!(Operand::Constant(-1).to_string(), "#-0x1");
    assert_eq!(Operand::Constant(8).to_string(), "#0x8");
}

#[test]
fn error_texts() {
    assert_eq!(DecodeError::MissingSource.to_string(), "source operand is missing");
    assert_eq!(DecodeError::MissingDestination.to_string(), "destination operand is missing");
    assert_eq!(
        DecodeError::InvalidSource((5, 0)).to_string(),
        "source addressing mode (5) for register (0) is invalid"
    );
    assert_eq!(
        DecodeError::InvalidDestination((3, 19)).to_string(),
        "destination addressing mode (3) for register (19) is invalid"
    );
    assert_eq!(
        DecodeError::MissingInstruction.to_string(),
        "not enough data to decode instruction"
    );
    assert_eq!(DecodeError::InvalidOpcode(7).to_string(), "invalid opcode 7");
    assert_eq!(DecodeError::InvalidJumpCondition(12).to_string(), "invalid jump condition 12");
}

#[test]
fn equal_decodes_render_equal_text() {
    let a = decode(&[0x09, 0x10, 0x00]).unwrap();
    let b = decode(&[0x09, 0x10, 0xff]).unwrap();
    assert_eq!(a, b);
    assert_eq!(a.to_string(), b.to_string());
    assert_eq!(text_of(&[0x49, 0x10]), "rrc.b r9");
    assert_eq!(text_of(&[0xb9, 0x10]), "swpb @r9+");
    assert_eq!(text_of(&[0x29, 0x11]), "rra @r9");
    assert_eq!(text_of(&[0xa9, 0x11]), "sxt @r9");
    assert_eq!(text_of(&[0x33, 0x12]), "push #-0x1");
    assert_eq!(text_of(&[0xb0, 0x12, 0xfe, 0xff]), "call #0xfffe");
}
