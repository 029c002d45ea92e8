use capstone::arch::x86::{ArchMode, X86Insn, X86Operand, X86OperandType, X86Reg};
use capstone::arch::{BuildsCapstone, DetailsArchInsn};
use capstone::Capstone;
use vstd::prelude::*;

use crate::instruction::{Mnemonic, Register};

verus! {

/// The error that capstone reports; it is handed on unread.
#[verifier::external_type_specification]
#[verifier::external_body]
pub struct ExCapstoneError(capstone::Error);

/// Capstone's record of one operand; `operand_of` reads it.
#[verifier::external_type_specification]
#[verifier::external_body]
pub struct ExX86Operand(capstone::arch::x86::X86Operand);

/// An operand as the decoder reports it, registers by their numbers.
#[derive(Clone, Copy, Debug, PartialEq, Eq, Structural)]
pub enum RawOperand {
    Reg(u16),
    Imm(i64),
    Mem { base: u16, index: u16, scale: i32, disp: i64 },
    Invalid,
}

/// One item of the decoder's output: an instruction, or skipped bytes.
pub struct RawInstruction {
    /// The decoder's number for the instruction; 0 for skipped bytes.
    pub id: u32,
    pub address: u64,
    pub bytes: Vec<u8>,
    /// The decoder's operand records; none for skipped bytes.
    pub operands: Vec<X86Operand>,
}

/// One item of the decoder's output as a mathematical value.
pub ghost struct RawInstructionView {
    pub id: u32,
    pub address: u64,
    pub bytes: Seq<u8>,
    pub operands: Seq<RawOperand>,
}

/// What an operand record of the decoder holds.
pub uninterp spec fn operand_parts(op: X86Operand) -> RawOperand;

/// The decoder's output for `code` placed at address `addr`: x86 in 64-bit
/// mode, with operand details, skipping bytes that decode to nothing.
pub uninterp spec fn decoded(code: Seq<u8>, addr: u64) -> Seq<RawInstructionView>;

/// The number of bytes that the first `k` items hold.
pub open spec fn bytes_before(items: Seq<RawInstructionView>, k: int) -> int
    decreases k,
{
    if k <= 0 {
        0
    } else {
        bytes_before(items, k - 1) + items[k - 1].bytes.len()
    }
}

/// The items lie end to end in `code`, from its first byte on: each holds
/// the bytes that follow those of the item before it, and has the address
/// of its first byte, which is `addr` plus the offset of that byte, counted
/// in 64 bits.
pub open spec fn laid_end_to_end(items: Seq<RawInstructionView>, code: Seq<u8>, addr: u64) -> bool {
    forall|k: int|
        #![trigger items[k]]
        0 <= k < items.len() ==> {
            &&& bytes_before(items, k + 1) <= code.len()
            &&& items[k].bytes == code.subrange(
                bytes_before(items, k),
                bytes_before(items, k + 1),
            )
            &&& items[k].address == (addr + bytes_before(items, k)) % 0x1_0000_0000_0000_0000
        }
}

/// The decoder's number for `call`.
pub const INSN_CALL: u32 = 62;

/// The decoder's number for the unconditional `jmp`.
pub const INSN_JMP: u32 = 172;

/// The decoder's number for `mov`.
pub const INSN_MOV: u32 = 460;

/// The highest number that the decoder has for an instruction.
pub const INSN_LAST: u32 = 1524;

/// The decoder's number for `rax`.
pub const REG_RAX: u16 = 35;

/// The decoder's number for `r8`.
pub const REG_R8: u16 = 106;

/// The library's mnemonic for the decoder's instruction number. The
/// decoder numbers its instructions from 1; 0 stands for no instruction.
pub open spec fn mnemonic_class(id: u32) -> Mnemonic {
    if id == 0 || id > INSN_LAST {
        Mnemonic::Invalid
    } else if id == INSN_MOV {
        Mnemonic::Mov
    } else if id == INSN_CALL {
        Mnemonic::Call
    } else if id == INSN_JMP {
        Mnemonic::Jmp
    } else {
        Mnemonic::Other(id)
    }
}

/// The library's register for the decoder's register number.
pub open spec fn register_class(id: u16) -> Register {
    if id == REG_RAX {
        Register::Rax
    } else if id == REG_R8 {
        Register::R8
    } else {
        Register::Other(id)
    }
}

impl View for RawInstruction {
    type V = RawInstructionView;

    open spec fn view(&self) -> RawInstructionView {
        RawInstructionView {
            id: self.id,
            address: self.address,
            bytes: self.bytes@,
            operands: self.operands@.map_values(|op: X86Operand| operand_parts(op)),
        }
    }
}

impl DeepView for RawInstruction {
    type V = RawInstructionView;

    open spec fn deep_view(&self) -> RawInstructionView {
        self@
    }
}

/// Runs capstone over `code`: builds a decoder for x86 in 64-bit mode with
/// details (`Capstone::new` and its builder), switches on skipping of
/// undecodable bytes (`Capstone::set_skipdata`), decodes the whole buffer
/// (`Capstone::disasm_all`) and copies out of each item its number, address,
/// bytes and operand records (`Capstone::insn_detail`; an item without
/// details, as skipped bytes are, gets no operands). An error is whatever
/// capstone reported.
///
/// The contract claims two things of the items. They are a function of the
/// bytes and the address. And they lie end to end in the buffer: the
/// decoder's loop (`cs_disasm` in capstone's `cs.c`) gives each item the
/// address that it has reached, copies the item's bytes from the place in
/// the buffer that it has reached (`fill_insn` for an instruction, which
/// on x86 has 15 bytes at most and so fits an item whole; the loop itself
/// for skipped bytes), and moves both on by the item's size, the address
/// as a 64-bit number.
#[verifier::external_body]
pub(crate) fn decode_stream(code: &[u8], addr: u64) -> (r: Result<Vec<RawInstruction>, capstone::Error>)
    ensures
        r matches Ok(items) ==> items.deep_view() == decoded(code@, addr),
        r matches Ok(items) ==> laid_end_to_end(items.deep_view(), code@, addr),
{
    let mut cs = Capstone::new().x86().mode(ArchMode::Mode64).detail(true).build()?;
    cs.set_skipdata(true)?;
    let insns = cs.disasm_all(code, addr)?;
    Ok(insns.iter().map(|x| RawInstruction {
        id: x.id().0,
        address: x.address(),
        bytes: x.bytes().to_vec(),
        operands: cs.insn_detail(x).map_or(Vec::new(), |d|
            d.arch_detail().x86().map_or(Vec::new(), |a| a.operands().collect())),
    }).collect())
}

/// Reads one operand record of capstone: tells the variants of
/// `X86OperandType` apart and copies their fields (`X86OpMem::base`,
/// `index`, `scale`, `disp` for a memory operand).
#[verifier::external_body]
pub(crate) fn operand_of(op: &X86Operand) -> (r: RawOperand)
    ensures
        r == operand_parts(*op),
{
    match op.op_type {
        X86OperandType::Reg(reg) => RawOperand::Reg(reg.0),
        X86OperandType::Imm(value) => RawOperand::Imm(value),
        X86OperandType::Mem(mem) => RawOperand::Mem {
            base: mem.base().0,
            index: mem.index().0,
            scale: mem.scale(),
            disp: mem.disp(),
        },
        X86OperandType::Invalid => RawOperand::Invalid,
    }
}

/// Maps an instruction number to capstone's `X86Insn` (`X86Insn::from`,
/// which gives the variant with that number, and `X86_INS_INVALID` for a
/// number above the last variant's) and tells apart the variants that the
/// analysis reads. The contract holds the numbers of these variants:
/// `X86_INS_INVALID` is 0, `X86_INS_CALL` 62, `X86_INS_JMP` 172,
/// `X86_INS_MOV` 460, and the last variant has 1524.
#[verifier::external_body]
pub(crate) fn mnemonic_of(id: u32) -> (r: Mnemonic)
    ensures
        r == mnemonic_class(id),
{
    match X86Insn::from(id) {
        X86Insn::X86_INS_INVALID => Mnemonic::Invalid,
        X86Insn::X86_INS_MOV => Mnemonic::Mov,
        X86Insn::X86_INS_CALL => Mnemonic::Call,
        X86Insn::X86_INS_JMP => Mnemonic::Jmp,
        _ => Mnemonic::Other(id),
    }
}

/// Tells apart, among capstone's register numbers (`X86Reg`), the two
/// registers that the analysis reads. The contract holds their numbers:
/// `X86_REG_RAX` is 35 and `X86_REG_R8` is 106.
#[verifier::external_body]
pub(crate) fn register_of(id: u16) -> (r: Register)
    ensures
        r == register_class(id),
{
    match u32::from(id) {
        X86Reg::X86_REG_RAX => Register::Rax,
        X86Reg::X86_REG_R8 => Register::R8,
        _ => Register::Other(id),
    }
}

} // verus!
