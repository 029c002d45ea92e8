use opcode_finder::decoder::{
    RawInstruction, RawOperand, INSN_CALL, INSN_JMP, INSN_LAST, INSN_MOV, REG_R8, REG_RAX,
};
use opcode_finder::disassemble::{
    collect_recognized, convert_all, convert_instruction, convert_operand, decoder_outcome,
    disassemble, disassemble_method, retain_recognized, Instruction, Mnemonic, Operand, Register,
};
use opcode_finder::error::AnalysisError;

const TABLE_LOAD: [u8; 8] = [0x41, 0x8b, 0x8c, 0x80, 0x00, 0x20, 0x00, 0x00];

fn immediate(value: i64) -> capstone::arch::x86::X86Operand {
    capstone::arch::x86::X86Operand {
        op_type: capstone::arch::x86::X86OperandType::Imm(value),
        ..Default::default()
    }
}

fn register(id: u32) -> capstone::arch::x86::X86Operand {
    capstone::arch::x86::X86Operand {
        op_type: capstone::arch::x86::X86OperandType::Reg(capstone::RegId(id as u16)),
        ..Default::default()
    }
}

#[test]
fn decode_method_stops_at_padding() {
    let mut code = TABLE_LOAD.to_vec();
    code.push(0x90);
    code.extend_from_slice(&[0xcc; 5]);
    code.push(0x90);
    let insns = disassemble_method(&code, 0x1000).unwrap();
    assert_eq!(insns.len(), 2);
    assert_eq!(insns[0].address, 0x1000);
    assert_eq!(insns[0].bytes, TABLE_LOAD.to_vec());
    assert_eq!(insns[0].mnemonic, Mnemonic::Mov);
    assert_eq!(insns[0].operands.len(), 2);
    assert!(matches!(insns[0].operands[0], Operand::Reg(Register::Other(_))));
    assert_eq!(
        insns[0].operands[1],
        Operand::Mem { base: Register::R8, index: Register::Rax, scale: 4, disp: 0x2000 }
    );
    assert_eq!(insns[1].address, 0x1008);
    assert_eq!(insns[1].bytes, vec![0x90]);
    assert!(matches!(insns[1].mnemonic, Mnemonic::Other(_)));
    assert!(insns[1].operands.is_empty());
}

#[test]
fn decode_method_returns_each_instruction_before_padding() {
    // push rbp; mov rbp, rsp; mov eax, 7; pop rbp; ret
    let body = [0x55, 0x48, 0x89, 0xe5, 0xb8, 0x07, 0x00, 0x00, 0x00, 0x5d, 0xc3];
    let mut code = body.to_vec();
    code.extend_from_slice(&[0xcc; 5]);
    code.extend_from_slice(&body);
    let insns = disassemble_method(&code, 0x40_0000).unwrap();
    let addresses: Vec<u64> = insns.iter().map(|insn| insn.address).collect();
    assert_eq!(addresses, vec![0x40_0000, 0x40_0001, 0x40_0004, 0x40_0009, 0x40_000a]);
    let lengths: Vec<usize> = insns.iter().map(|insn| insn.bytes.len()).collect();
    assert_eq!(lengths, vec![1, 3, 5, 1, 1]);
    assert_eq!(insns[1].mnemonic, Mnemonic::Mov);
    assert_eq!(insns[2].mnemonic, Mnemonic::Mov);
    assert_eq!(insns[2].operands[1], Operand::Imm(7));
    assert_eq!(insns, disassemble(&body, 0x40_0000).unwrap());
}

#[test]
fn decode_method_without_padding_fails() {
    let mut code = TABLE_LOAD.to_vec();
    code.extend_from_slice(&[0xcc; 4]);
    assert_eq!(disassemble_method(&code, 0x1000), Err(AnalysisError::NoMethodBoundaryError));
    assert_eq!(disassemble_method(&[], 0x1000), Err(AnalysisError::NoMethodBoundaryError));
}

#[test]
fn decode_method_of_padding_alone_is_empty() {
    assert_eq!(disassemble_method(&[0xcc; 5], 0x1000), Ok(Vec::new()));
}

#[test]
fn decode_method_cuts_at_first_padding_run() {
    // the immediate of `mov rax, imm64` holds a padding run
    let code = [0x90, 0x48, 0xb8, 0xcc, 0xcc, 0xcc, 0xcc, 0xcc, 0xcc, 0xcc, 0xcc];
    let whole = disassemble(&code, 0).unwrap();
    assert_eq!(whole.len(), 2);
    let cut = disassemble_method(&code, 0).unwrap();
    assert_eq!(cut, disassemble(&code[..3], 0).unwrap());
    assert_eq!(cut[0].bytes, vec![0x90]);
}

#[test]
fn decode_method_ignores_what_follows_the_padding() {
    let body = [0x55, 0x48, 0x89, 0xe5, 0xb8, 0x07, 0x00, 0x00, 0x00, 0x5d, 0xc3];
    let mut first = body.to_vec();
    first.extend_from_slice(&[0xcc; 5]);
    let mut second = first.clone();
    first.extend_from_slice(&[0x90, 0xe8, 0x00, 0x00, 0x00, 0x00]);
    second.extend_from_slice(&[0xcc, 0xcc, 0x06, 0xff, 0xe1]);
    let a = disassemble_method(&first, 0x7000).unwrap();
    let b = disassemble_method(&second, 0x7000).unwrap();
    assert_eq!(a.len(), 5);
    assert_eq!(a, b);
}

#[test]
fn decoded_instructions_stand_in_the_code_at_their_addresses() {
    // instructions with bytes between them that are no instruction
    let code = [
        0x06, 0x55, 0x48, 0x89, 0xe5, 0x06, 0x06, 0x41, 0x8b, 0x8c, 0x80, 0x00, 0x20, 0x00, 0x00,
        0xe8, 0x10, 0x00, 0x00, 0x00, 0x06, 0xc3,
    ];
    let addr = 0x1_4000_0000u64;
    let insns = disassemble(&code, addr).unwrap();
    let offsets: Vec<u64> = insns.iter().map(|insn| insn.address - addr).collect();
    assert_eq!(offsets, vec![1, 2, 7, 15, 21]);
    for insn in &insns {
        let at = (insn.address - addr) as usize;
        assert_eq!(insn.bytes, code[at..at + insn.bytes.len()].to_vec());
    }
    assert_eq!(insns[3].operands, vec![Operand::Imm((addr + 0x24) as i64)]);
}

#[test]
fn decoded_addresses_count_in_64_bits() {
    let insns = disassemble(&[0x90, 0x55, 0x90, 0xc3], u64::MAX - 1).unwrap();
    let addresses: Vec<u64> = insns.iter().map(|insn| insn.address).collect();
    assert_eq!(addresses, vec![u64::MAX - 1, u64::MAX, 0, 1]);
    let bytes: Vec<Vec<u8>> = insns.iter().map(|insn| insn.bytes.clone()).collect();
    assert_eq!(bytes, vec![vec![0x90], vec![0x55], vec![0x90], vec![0xc3]]);
}

#[test]
fn decoded_instructions_lie_in_order_in_any_buffer() {
    let mut state = 0x2545_f491_4f6c_dd1du64;
    for round in 0..200usize {
        let mut code = Vec::new();
        for _ in 0..(round % 97) + 1 {
            state ^= state << 13;
            state ^= state >> 7;
            state ^= state << 17;
            code.push((state >> 24) as u8);
        }
        let addr = state;
        let insns = disassemble(&code, addr).unwrap();
        let mut next = 0usize;
        for insn in &insns {
            let at = insn.address.wrapping_sub(addr) as usize;
            assert!(at >= next);
            assert!(!insn.bytes.is_empty());
            assert_eq!(insn.bytes, code[at..at + insn.bytes.len()].to_vec());
            assert_ne!(insn.mnemonic, Mnemonic::Invalid);
            next = at + insn.bytes.len();
        }
        assert!(next <= code.len());
    }
}

#[test]
fn decode_of_nothing_is_empty() {
    assert_eq!(disassemble(&[], 0x1000), Ok(Vec::new()));
}

#[test]
fn decode_drops_bytes_that_are_no_instruction() {
    // 0x06 is no instruction in 64-bit mode
    let code = [0x06, 0x90, 0x06, 0xe8, 0x00, 0x00, 0x00, 0x00];
    let insns: Vec<Instruction> = disassemble(&code, 0x2000).unwrap();
    assert_eq!(insns.len(), 2);
    assert_eq!(insns[0].address, 0x2001);
    assert_eq!(insns[1].address, 0x2003);
    assert_eq!(insns[1].mnemonic, Mnemonic::Call);
    assert_eq!(insns[1].operands, vec![Operand::Imm(0x2008)]);
    assert!(insns.iter().all(|insn| insn.mnemonic != Mnemonic::Invalid));
}

#[test]
fn decode_tells_jumps_apart() {
    // jmp +0; je +0; jmp rcx; call rax
    let code = [0xeb, 0x00, 0x74, 0x00, 0xff, 0xe1, 0xff, 0xd0];
    let insns = disassemble(&code, 0x10).unwrap();
    assert_eq!(insns.len(), 4);
    assert_eq!(insns[0].mnemonic, Mnemonic::Jmp);
    assert_eq!(insns[0].operands, vec![Operand::Imm(0x12)]);
    assert!(matches!(insns[1].mnemonic, Mnemonic::Other(_)));
    assert_eq!(insns[2].mnemonic, Mnemonic::Jmp);
    assert!(matches!(insns[2].operands[0], Operand::Reg(Register::Other(_))));
    assert_eq!(insns[3].mnemonic, Mnemonic::Call);
    assert_eq!(insns[3].operands, vec![Operand::Reg(Register::Rax)]);
}

#[test]
fn decode_reads_memory_operands() {
    // mov eax, [r8 + rcx*8 - 0x10]; mov rax, [rax]
    let code = [0x41, 0x8b, 0x44, 0xc8, 0xf0, 0x48, 0x8b, 0x00];
    let insns = disassemble(&code, 0).unwrap();
    assert_eq!(insns.len(), 2);
    assert!(matches!(
        insns[0].operands[1],
        Operand::Mem { base: Register::R8, index: Register::Other(_), scale: 8, disp: -0x10 }
    ));
    assert!(matches!(
        insns[1].operands[1],
        Operand::Mem { base: Register::Rax, index: Register::Other(0), scale: 1, disp: 0 }
    ));
    assert_eq!(insns[1].operands[0], Operand::Reg(Register::Rax));
}

#[test]
fn decoder_failure_is_decode_setup_error() {
    assert_eq!(
        decoder_outcome(Err(capstone::Error::OutOfMemory)),
        Err(AnalysisError::DecodeSetupError)
    );
    assert_eq!(
        decoder_outcome(Err(capstone::Error::UnsupportedArch)),
        Err(AnalysisError::DecodeSetupError)
    );
}

#[test]
fn decoder_items_without_mnemonic_are_dropped() {
    let call = capstone::arch::x86::X86Insn::X86_INS_CALL as u32;
    let nop = capstone::arch::x86::X86Insn::X86_INS_NOP as u32;
    let items = vec![
        RawInstruction { id: 0, address: 0x10, bytes: vec![0x06], operands: vec![] },
        RawInstruction {
            id: call,
            address: 0x11,
            bytes: vec![0xe8, 0, 0, 0, 0],
            operands: vec![immediate(0x16)],
        },
        RawInstruction { id: 0xffff_0000, address: 0x16, bytes: vec![0x07], operands: vec![] },
        RawInstruction { id: nop, address: 0x17, bytes: vec![0x90], operands: vec![] },
    ];
    let kept = collect_recognized(&items);
    assert_eq!(
        kept,
        vec![
            Instruction {
                address: 0x11,
                bytes: vec![0xe8, 0, 0, 0, 0],
                mnemonic: Mnemonic::Call,
                operands: vec![Operand::Imm(0x16)],
            },
            Instruction {
                address: 0x17,
                bytes: vec![0x90],
                mnemonic: Mnemonic::Other(nop),
                operands: vec![],
            },
        ]
    );
    assert_eq!(decoder_outcome(Ok(items)), Ok(kept));
}

#[test]
fn retain_recognized_drops_invalid_and_keeps_order() {
    let make = |address: u64, mnemonic: Mnemonic| Instruction {
        address,
        bytes: vec![address as u8],
        mnemonic,
        operands: vec![Operand::Imm(address as i64)],
    };
    let all = vec![
        make(1, Mnemonic::Invalid),
        make(2, Mnemonic::Jmp),
        make(3, Mnemonic::Invalid),
        make(4, Mnemonic::Invalid),
        make(5, Mnemonic::Other(0)),
        make(6, Mnemonic::Mov),
        make(7, Mnemonic::Invalid),
    ];
    let kept = retain_recognized(all);
    assert_eq!(
        kept,
        vec![make(2, Mnemonic::Jmp), make(5, Mnemonic::Other(0)), make(6, Mnemonic::Mov)]
    );
    assert_eq!(retain_recognized(kept.clone()), kept);
    assert_eq!(retain_recognized(vec![make(1, Mnemonic::Invalid)]), vec![]);
    assert_eq!(retain_recognized(vec![]), vec![]);
}

#[test]
fn convert_all_keeps_every_item() {
    let mov = capstone::arch::x86::X86Insn::X86_INS_MOV as u32;
    let items = vec![
        RawInstruction { id: 0, address: 0x10, bytes: vec![0x06], operands: vec![] },
        RawInstruction {
            id: mov,
            address: 0x11,
            bytes: vec![0xb8, 7, 0, 0, 0],
            operands: vec![
                register(capstone::arch::x86::X86Reg::X86_REG_RAX),
                immediate(7),
            ],
        },
    ];
    assert_eq!(
        convert_all(&items),
        vec![
            Instruction {
                address: 0x10,
                bytes: vec![0x06],
                mnemonic: Mnemonic::Invalid,
                operands: vec![],
            },
            Instruction {
                address: 0x11,
                bytes: vec![0xb8, 7, 0, 0, 0],
                mnemonic: Mnemonic::Mov,
                operands: vec![Operand::Reg(Register::Rax), Operand::Imm(7)],
            },
        ]
    );
    assert_eq!(convert_all(&[]), vec![]);
}

#[test]
fn convert_instruction_keeps_every_field() {
    let jmp = capstone::arch::x86::X86Insn::X86_INS_JMP as u32;
    let r8 = capstone::arch::x86::X86Reg::X86_REG_R8;
    let raw = RawInstruction {
        id: jmp,
        address: 0xdead_0000,
        bytes: vec![1, 2, 3],
        operands: vec![immediate(-4), register(r8)],
    };
    assert_eq!(
        convert_instruction(&raw),
        Instruction {
            address: 0xdead_0000,
            bytes: vec![1, 2, 3],
            mnemonic: Mnemonic::Jmp,
            operands: vec![Operand::Imm(-4), Operand::Reg(Register::R8)],
        }
    );
    let skipped = RawInstruction { id: 0, address: 1, bytes: vec![6], operands: vec![] };
    assert_eq!(convert_instruction(&skipped).mnemonic, Mnemonic::Invalid);
}

#[test]
fn convert_operand_names_the_registers() {
    let rax = capstone::arch::x86::X86Reg::X86_REG_RAX as u16;
    let r8 = capstone::arch::x86::X86Reg::X86_REG_R8 as u16;
    let ecx = capstone::arch::x86::X86Reg::X86_REG_ECX as u16;
    assert_eq!(convert_operand(RawOperand::Reg(rax)), Operand::Reg(Register::Rax));
    assert_eq!(convert_operand(RawOperand::Reg(r8)), Operand::Reg(Register::R8));
    assert_eq!(convert_operand(RawOperand::Reg(ecx)), Operand::Reg(Register::Other(ecx)));
    assert_eq!(convert_operand(RawOperand::Imm(-1)), Operand::Imm(-1));
    assert_eq!(convert_operand(RawOperand::Invalid), Operand::Invalid);
    assert_eq!(
        convert_operand(RawOperand::Mem { base: r8, index: rax, scale: 4, disp: 0x2000 }),
        Operand::Mem { base: Register::R8, index: Register::Rax, scale: 4, disp: 0x2000 }
    );
    assert_eq!(
        convert_operand(RawOperand::Mem { base: rax, index: 0, scale: 1, disp: -8 }),
        Operand::Mem { base: Register::Rax, index: Register::Other(0), scale: 1, disp: -8 }
    );
}

#[test]
fn numbers_are_those_of_the_decoder() {
    assert_eq!(capstone::arch::x86::X86Insn::X86_INS_INVALID as u32, 0);
    assert_eq!(capstone::arch::x86::X86Insn::X86_INS_CALL as u32, INSN_CALL);
    assert_eq!(capstone::arch::x86::X86Insn::X86_INS_JMP as u32, INSN_JMP);
    assert_eq!(capstone::arch::x86::X86Insn::X86_INS_MOV as u32, INSN_MOV);
    assert_eq!(capstone::arch::x86::X86Insn::X86_INS_ENDING as u32, INSN_LAST);
    assert_eq!(capstone::arch::x86::X86Reg::X86_REG_RAX, REG_RAX as u32);
    assert_eq!(capstone::arch::x86::X86Reg::X86_REG_R8, REG_R8 as u32);
}

#[test]
fn every_instruction_number_has_its_mnemonic() {
    let expected = |id: u32| {
        if id == 0 || id > 1524 {
            Mnemonic::Invalid
        } else if id == 460 {
            Mnemonic::Mov
        } else if id == 62 {
            Mnemonic::Call
        } else if id == 172 {
            Mnemonic::Jmp
        } else {
            Mnemonic::Other(id)
        }
    };
    let ids = (0..=4096u32).chain([0xffff, 0x1_0000, 0x1_0000 + 460, u32::MAX - 1, u32::MAX]);
    for id in ids {
        let raw = RawInstruction { id, address: 0, bytes: vec![], operands: vec![] };
        assert_eq!(convert_instruction(&raw).mnemonic, expected(id), "number {}", id);
    }
}

#[test]
fn every_register_number_has_its_register() {
    for id in 0..=u16::MAX {
        let expected = match id {
            35 => Register::Rax,
            106 => Register::R8,
            _ => Register::Other(id),
        };
        assert_eq!(convert_operand(RawOperand::Reg(id)), Operand::Reg(expected));
    }
}

#[test]
fn mnemonic_predicates() {
    assert!(!Mnemonic::Invalid.is_recognized());
    assert!(Mnemonic::Mov.is_recognized());
    assert!(Mnemonic::Other(7).is_recognized());
    assert!(Mnemonic::Call.is_transfer());
    assert!(Mnemonic::Jmp.is_transfer());
    assert!(!Mnemonic::Mov.is_transfer());
    assert!(!Mnemonic::Other(7).is_transfer());
    assert!(Mnemonic::Jmp.is_jmp());
    assert!(!Mnemonic::Call.is_jmp());
    assert!(Mnemonic::Mov.is_mov());
    assert!(!Mnemonic::Jmp.is_mov());
}
