use vstd::prelude::*;

verus! {

/// What an instruction does, as far as the analysis tells instructions apart.
#[derive(Clone, Copy, Debug, PartialEq, Eq, Structural)]
pub enum Mnemonic {
    /// Bytes that decode to no instruction.
    Invalid,
    /// `mov`
    Mov,
    /// `call`
    Call,
    /// The unconditional `jmp`.
    Jmp,
    /// Any other instruction, with the decoder's number for it.
    Other(u32),
}

/// A register, as far as the analysis tells registers apart.
#[derive(Clone, Copy, Debug, PartialEq, Eq, Structural)]
pub enum Register {
    /// `rax`, which holds the row index when the jump table is read.
    Rax,
    /// `r8`, which holds the image base when the jump table is read.
    R8,
    /// Any other register, or none, with the decoder's number for it.
    Other(u16),
}

/// One operand of an instruction.
#[derive(Clone, Copy, Debug, PartialEq, Eq, Structural)]
pub enum Operand {
    /// A register.
    Reg(Register),
    /// An immediate value.
    Imm(i64),
    /// A memory operand `[base + index * scale + disp]`.
    Mem { base: Register, index: Register, scale: i32, disp: i64 },
    /// An operand the decoder could not classify.
    Invalid,
}

/// One decoded instruction.
#[derive(Clone, Debug, PartialEq, Eq)]
pub struct Instruction {
    /// Virtual address of the first byte.
    pub address: u64,
    /// The bytes of the instruction.
    pub bytes: Vec<u8>,
    pub mnemonic: Mnemonic,
    /// The operands, in the decoder's order.
    pub operands: Vec<Operand>,
}

/// An instruction as a mathematical value.
pub ghost struct InstructionView {
    pub address: u64,
    pub bytes: Seq<u8>,
    pub mnemonic: Mnemonic,
    pub operands: Seq<Operand>,
}

impl View for Instruction {
    type V = InstructionView;

    open spec fn view(&self) -> InstructionView {
        InstructionView {
            address: self.address,
            bytes: self.bytes@,
            mnemonic: self.mnemonic,
            operands: self.operands@,
        }
    }
}

impl DeepView for Instruction {
    type V = InstructionView;

    open spec fn deep_view(&self) -> InstructionView {
        self@
    }
}

impl Mnemonic {
    /// The mnemonic names an instruction.
    pub open spec fn recognized(self) -> bool {
        !(self is Invalid)
    }

    /// The instruction transfers control to its operand: `call` or `jmp`.
    pub open spec fn transfers(self) -> bool {
        self is Call || self is Jmp
    }

    pub fn is_recognized(&self) -> (b: bool)
        ensures
            b == self.recognized(),
    {
        match self {
            Mnemonic::Invalid => false,
            _ => true,
        }
    }

    pub fn is_transfer(&self) -> (b: bool)
        ensures
            b == self.transfers(),
    {
        match self {
            Mnemonic::Call => true,
            Mnemonic::Jmp => true,
            _ => false,
        }
    }

    pub fn is_jmp(&self) -> (b: bool)
        ensures
            b == (*self is Jmp),
    {
        match self {
            Mnemonic::Jmp => true,
            _ => false,
        }
    }

    pub fn is_mov(&self) -> (b: bool)
        ensures
            b == (*self is Mov),
    {
        match self {
            Mnemonic::Mov => true,
            _ => false,
        }
    }
}

} // verus!
