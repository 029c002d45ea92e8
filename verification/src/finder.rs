use vstd::prelude::*;
use vstd::slice::slice_subrange;

use crate::decoder::decoded;
use crate::disassemble::{
    disassemble_method, instruction_models, lemma_only_recognized_holds, method_listing, sentinel,
    Instruction, InstructionView, Operand, Register,
};
use crate::error::AnalysisError;
use crate::first::{first_true, lemma_first_true, lemma_first_true_is, lemma_first_true_none};
use crate::image::{parsed_image, BinaryImage, ImageView};
use crate::pattern::{find, first_occurrence};

verus! {

/// The displacement of the memory operand, where the instruction is the
/// load from the jump table: a `mov` whose second operand is
/// `[r8 + rax * 4 + disp]`.
pub open spec fn table_load_disp(insn: InstructionView) -> Option<i64> {
    if insn.mnemonic is Mov && insn.operands.len() >= 2 {
        match insn.operands[1] {
            Operand::Mem { base, index, scale, disp } => if base == Register::R8 && index
                == Register::Rax && scale == 4 {
                Some(disp)
            } else {
                None
            },
            _ => None,
        }
    } else {
        None
    }
}

/// For each instruction, whether it is the load from the jump table.
pub open spec fn table_loads(insns: Seq<InstructionView>) -> Seq<bool> {
    Seq::new(insns.len(), |i: int| table_load_disp(insns[i]) is Some)
}

/// The virtual address of the jump table: the image base plus the
/// displacement of the first load from the table. `None` where no
/// instruction is such a load, or where that sum is no 64-bit address.
pub open spec fn jump_table_address(image_base: u64, insns: Seq<InstructionView>) -> Option<u64> {
    match first_true(table_loads(insns)) {
        Some(i) => {
            let address = image_base + table_load_disp(insns[i])->Some_0;
            if 0 <= address <= u64::MAX {
                Some(address as u64)
            } else {
                None
            }
        },
        None => None,
    }
}

/// An immediate operand read as a 64-bit address: the number itself, or,
/// for a negative number, its two's complement.
pub open spec fn immediate_address(imm: i64) -> int {
    if imm >= 0 {
        imm as int
    } else {
        imm + 0x1_0000_0000_0000_0000
    }
}

/// The instruction transfers control to `target`: a `call` or `jmp` whose
/// only operand is an immediate that, read as a 64-bit address, is `target`.
pub open spec fn is_xref(insn: InstructionView, target: int) -> bool {
    &&& insn.mnemonic.transfers()
    &&& insn.operands.len() == 1
    &&& insn.operands[0] matches Operand::Imm(imm)
    &&& immediate_address(imm) == target
}

/// For each instruction, whether it transfers control to `target`.
pub open spec fn xrefs(insns: Seq<InstructionView>, target: int) -> Seq<bool> {
    Seq::new(insns.len(), |i: int| is_xref(insns[i], target))
}

/// The index of the first instruction of the block that ends with the
/// instruction at index `call`: the walk back from `call` stops behind the
/// nearest `jmp`, or at the start of the routine. Where the call site is
/// first in the routine or stands right behind a `jmp`, the block is the
/// call site alone.
pub open spec fn block_start(insns: Seq<InstructionView>, call: int) -> int
    decreases call,
{
    if call <= 0 || insns[call - 1].mnemonic is Jmp {
        call
    } else {
        block_start(insns, call - 1)
    }
}

/// The address that the jump table holds for the call site at index `call`:
/// that of the first instruction of the call site's block. Where the
/// compiler put setup code before the call site, that is the first
/// instruction of the setup code; where it put none, it is the call site
/// itself.
pub open spec fn jump_target(insns: Seq<InstructionView>, call: int) -> u64 {
    insns[block_start(insns, call)].address
}

/// The 32-bit little-endian number that the four bytes at offset `at` hold.
pub open spec fn le_u32(bytes: Seq<u8>, at: int) -> int {
    bytes[at] + 0x100 * bytes[at + 1] + 0x1_0000 * bytes[at + 2] + 0x100_0000 * bytes[at + 3]
}

/// How many entries of a table at file offset `position` are scanned: those
/// that lie in the file, and `limit` at most. None where the position is no
/// offset in the file.
pub open spec fn scanned_entries(file_len: int, position: int, limit: int) -> int {
    if position < 0 || position > file_len || limit < 0 {
        0
    } else if limit <= (file_len - position) / 4 {
        limit
    } else {
        (file_len - position) / 4
    }
}

/// For each scanned entry of the table, whether the image base plus the
/// entry is `target`.
pub open spec fn entry_hits(
    file: Seq<u8>,
    position: int,
    image_base: u64,
    target: u64,
    limit: int,
) -> Seq<bool> {
    Seq::new(
        scanned_entries(file.len() as int, position, limit) as nat,
        |i: int| image_base + le_u32(file, position + 4 * i) == target,
    )
}

/// The instructions of the dispatch routine of an image: the routine starts
/// where its signature first occurs in the code section and ends before the
/// first padding run behind that.
pub open spec fn dispatch_listing(image: ImageView, dispatch_pattern: Seq<u8>) -> Result<
    Seq<InstructionView>,
    AnalysisError,
> {
    match first_occurrence(image.code(), dispatch_pattern) {
        None => Err(AnalysisError::DispatchNotFoundError),
        Some(start) => match method_listing(
            image.code().skip(start),
            (image.code_address + start) as u64,
        ) {
            None => Err(AnalysisError::NoMethodBoundaryError),
            Some(dispatch) => Ok(dispatch),
        },
    }
}

/// What the analysis has found in one executable: where the pieces stand
/// that every query reads.
pub ghost struct FinderView {
    pub image: ImageView,
    /// The instructions of the dispatch routine.
    pub dispatch: Seq<InstructionView>,
    /// Virtual address of the jump table's first entry.
    pub table_address: u64,
    /// How many entries of the jump table a query scans at most.
    pub max_entries: int,
    /// The opcode of the table's entry 0.
    pub opcode_base: int,
}

impl FinderView {
    /// The image is valid, and every opcode that a query can return fits in
    /// 16 bits.
    pub open spec fn wf(self) -> bool {
        &&& self.image.wf()
        &&& 0 <= self.max_entries
        &&& 0 <= self.opcode_base
        &&& self.max_entries + self.opcode_base <= 0x1_0000
    }

    /// The offset of the jump table's first entry in the file; negative
    /// where the table stands before the file's first byte.
    pub open spec fn table_position(self) -> int {
        self.table_address - self.image.va_offset
    }

    /// For each entry of the jump table that a query scans, whether it leads
    /// to the address `target`.
    pub open spec fn entry_flags(self, target: u64) -> Seq<bool> {
        entry_hits(
            self.image.file,
            self.table_position(),
            self.image.image_base,
            target,
            self.max_entries,
        )
    }

    /// The opcode of the handler whose signature is `pattern`.
    ///
    /// The handler stands where its signature first occurs in the file. The
    /// call site is the first instruction of the dispatch routine that
    /// transfers control there. The jump table is scanned for the first
    /// entry that leads to the block of the call site, and the opcode is
    /// the index of that entry plus the opcode base.
    pub open spec fn resolved(self, pattern: Seq<u8>) -> Result<u16, AnalysisError> {
        match first_occurrence(self.image.file, pattern) {
            None => Err(AnalysisError::HandlerNotFoundError),
            Some(offset) => match first_true(xrefs(self.dispatch, self.image.va_offset + offset)) {
                None => Err(AnalysisError::XrefNotFoundError),
                Some(call) => match first_true(self.entry_flags(jump_target(self.dispatch, call))) {
                    None => Err(AnalysisError::EntryNotFoundError),
                    Some(index) => Ok((index + self.opcode_base) as u16),
                },
            },
        }
    }
}

/// What the analysis finds in the bytes of an executable, given the
/// signature of its dispatch routine: the image, the dispatch routine, and
/// the jump table that the routine's first load from a table points to.
/// Queries scan 1000 entries at most and count opcodes from 101.
pub open spec fn located(file: Seq<u8>, dispatch_pattern: Seq<u8>) -> Result<
    FinderView,
    AnalysisError,
> {
    match parsed_image(file) {
        Err(e) => Err(e),
        Ok(image) => match dispatch_listing(image, dispatch_pattern) {
            Err(e) => Err(e),
            Ok(dispatch) => match jump_table_address(image.image_base, dispatch) {
                None => Err(AnalysisError::JumpTableNotFoundError),
                Some(table_address) => Ok(
                    FinderView {
                        image,
                        dispatch,
                        table_address,
                        max_entries: 1000,
                        opcode_base: 101,
                    },
                ),
            },
        },
    }
}

/// Where the block of a call site begins: at or before the call site, with
/// no `jmp` from there up to the call site, and at the start of the routine
/// or right behind a `jmp`.
pub proof fn lemma_block_start(insns: Seq<InstructionView>, call: int)
    requires
        0 <= call <= insns.len(),
    ensures
        0 <= block_start(insns, call) <= call,
        forall|k: int| block_start(insns, call) <= k < call ==> !(insns[k].mnemonic is Jmp),
        block_start(insns, call) == 0 || insns[block_start(insns, call) - 1].mnemonic is Jmp,
    decreases call,
{
    if call > 0 && !(insns[call - 1].mnemonic is Jmp) {
        lemma_block_start(insns, call - 1);
    }
}

/// A call site without setup code is its own block: where it is first in
/// the routine or stands right behind a `jmp`, the jump table leads to the
/// call site itself.
pub proof fn lemma_jump_target_of_lone_call_site(insns: Seq<InstructionView>, call: int)
    requires
        0 <= call < insns.len(),
        call == 0 || insns[call - 1].mnemonic is Jmp,
    ensures
        jump_target(insns, call) == insns[call].address,
{
}

/// The jump table leads to an instruction of the call site's block: the
/// jump target is the address of the block's first instruction, which
/// stands in the routine at or before the call site.
pub proof fn lemma_jump_target_in_routine(insns: Seq<InstructionView>, call: int)
    requires
        0 <= call < insns.len(),
    ensures
        0 <= block_start(insns, call) <= call,
        jump_target(insns, call) == insns[block_start(insns, call)].address,
{
    lemma_block_start(insns, call);
}

/// A query depends on nothing but what it is given: the same finder and
/// the same signature have the same result, whenever they are asked.
pub proof fn lemma_resolved_is_repeatable(
    first: FinderView,
    second: FinderView,
    first_pattern: Seq<u8>,
    second_pattern: Seq<u8>,
)
    requires
        first == second,
        first_pattern == second_pattern,
    ensures
        first.resolved(first_pattern) == second.resolved(second_pattern),
{
}

/// A query fails with `EntryNotFoundError` where the handler and its call
/// site are found and no scanned entry of the jump table leads to the block
/// of the call site.
pub proof fn lemma_entry_not_found(finder: FinderView, pattern: Seq<u8>, offset: int, call: int)
    requires
        first_occurrence(finder.image.file, pattern) == Some(offset),
        first_true(xrefs(finder.dispatch, finder.image.va_offset + offset)) == Some(call),
        forall|i: int|
            0 <= i < scanned_entries(
                finder.image.file.len() as int,
                finder.table_position(),
                finder.max_entries,
            ) ==> finder.image.image_base + #[trigger] le_u32(
                finder.image.file,
                finder.table_position() + 4 * i,
            ) != jump_target(finder.dispatch, call),
    ensures
        finder.resolved(pattern) == Err::<u16, AnalysisError>(AnalysisError::EntryNotFoundError),
{
    lemma_first_true_none(finder.entry_flags(jump_target(finder.dispatch, call)));
}

/// A query that fails leaves the finder as good as before: its errors are
/// those that end one query, never those that end the run.
pub proof fn lemma_resolved_errors_end_one_query(finder: FinderView, pattern: Seq<u8>)
    ensures
        finder.resolved(pattern) matches Err(e) ==> !e.fatal(),
{
}

/// An analysis that fails has no finder at all: its errors are those that
/// end the run.
pub proof fn lemma_located_errors_end_the_run(file: Seq<u8>, dispatch_pattern: Seq<u8>)
    ensures
        located(file, dispatch_pattern) matches Err(e) ==> e.fatal(),
{
}

/// No instruction without a recognized mnemonic reaches the finder: the
/// dispatch routine that the analysis finds holds recognized ones alone.
pub proof fn lemma_located_dispatch_recognized(file: Seq<u8>, dispatch_pattern: Seq<u8>)
    ensures
        located(file, dispatch_pattern) matches Ok(finder) ==> forall|i: int|
            0 <= i < finder.dispatch.len() ==> (#[trigger] finder.dispatch[i]).mnemonic.recognized(),
{
    if let Ok(finder) = located(file, dispatch_pattern) {
        let image = parsed_image(file)->Ok_0;
        let start = first_occurrence(image.code(), dispatch_pattern)->Some_0;
        let routine = image.code().skip(start);
        let end = first_occurrence(routine, sentinel())->Some_0;
        let address = (image.code_address + start) as u64;
        lemma_only_recognized_holds(instruction_models(decoded(routine.take(end), address)));
    }
}

/// An opcode that a query returns is the index of a scanned entry plus the
/// opcode base: it lies in the range that the finder's limits give.
pub proof fn lemma_resolved_opcode_range(finder: FinderView, pattern: Seq<u8>)
    requires
        finder.wf(),
    ensures
        finder.resolved(pattern) matches Ok(opcode) ==> finder.opcode_base <= opcode
            < finder.opcode_base + finder.max_entries,
{
    if let Some(offset) = first_occurrence(finder.image.file, pattern) {
        if let Some(call) = first_true(xrefs(finder.dispatch, finder.image.va_offset + offset)) {
            lemma_first_true(finder.entry_flags(jump_target(finder.dispatch, call)));
        }
    }
}

/// The displacement of the instruction's memory operand, where it is the
/// load from the jump table.
pub fn table_load(insn: &Instruction) -> (r: Option<i64>)
    ensures
        r == table_load_disp(insn@),
{
    if !insn.mnemonic.is_mov() || insn.operands.len() < 2 {
        return None;
    }
    match insn.operands[1] {
        Operand::Mem { base, index, scale, disp } => {
            let base_is_r8 = match base {
                Register::R8 => true,
                _ => false,
            };
            let index_is_rax = match index {
                Register::Rax => true,
                _ => false,
            };
            if base_is_r8 && index_is_rax && scale == 4 {
                Some(disp)
            } else {
                None
            }
        },
        _ => None,
    }
}

/// `base + disp` as a 64-bit address, where it is one.
pub fn offset_address(base: u64, disp: i64) -> (r: Option<u64>)
    ensures
        match r {
            Some(address) => address == base + disp,
            None => !(0 <= base + disp <= u64::MAX),
        },
{
    if disp >= 0 {
        base.checked_add(disp as u64)
    } else {
        // -(disp + 1) is at most i64::MAX, also for the least `disp`
        let back: u64 = (-(disp + 1)) as u64;
        match base.checked_sub(back) {
            Some(above) => above.checked_sub(1),
            None => None,
        }
    }
}

/// Reads an immediate operand as a 64-bit address.
pub fn address_of_immediate(imm: i64) -> (r: u64)
    ensures
        r == immediate_address(imm),
{
    if imm >= 0 {
        imm as u64
    } else {
        u64::MAX - (-(imm + 1)) as u64
    }
}

/// Whether the instruction transfers control to `target`.
pub fn transfers_to(insn: &Instruction, target: u64) -> (r: bool)
    ensures
        r == is_xref(insn@, target as int),
{
    if !insn.mnemonic.is_transfer() || insn.operands.len() != 1 {
        return false;
    }
    match insn.operands[0] {
        Operand::Imm(imm) => address_of_immediate(imm) == target,
        _ => false,
    }
}

/// Reads the 32-bit little-endian number at offset `at`, where four bytes
/// stand there.
pub fn read_le_u32(bytes: &[u8], at: usize) -> (r: Option<u32>)
    ensures
        match r {
            Some(value) => at + 4 <= bytes@.len() && value == le_u32(bytes@, at as int),
            None => at + 4 > bytes@.len(),
        },
{
    let len = bytes.len();
    if len < 4 || at > len - 4 {
        return None;
    }
    let b0 = bytes[at] as u32;
    let b1 = bytes[at + 1] as u32;
    let b2 = bytes[at + 2] as u32;
    let b3 = bytes[at + 3] as u32;
    Some(b0 + 0x100 * b1 + 0x1_0000 * b2 + 0x100_0000 * b3)
}

/// The opcode that is counted from when a finder is made.
pub const OPCODE_BASE: u16 = 101;

/// The number of jump table entries that are scanned when a finder is made.
pub const MAX_OPCODE: usize = 1000;

/// The result of analysing one executable: its bytes, the instructions of
/// its dispatch routine and the place of its jump table. Every query reads
/// these and changes nothing.
pub struct Finder {
    image: BinaryImage,
    dispatch_insns: Vec<Instruction>,
    jump_table_offset: u64,
    max_opcode: usize,
    opcode_base: u16,
}

impl View for Finder {
    type V = FinderView;

    closed spec fn view(&self) -> FinderView {
        FinderView {
            image: self.image@,
            dispatch: self.dispatch_insns.deep_view(),
            table_address: self.jump_table_offset,
            max_entries: self.max_opcode as int,
            opcode_base: self.opcode_base as int,
        }
    }
}

impl Finder {
    /// Every finder is valid.
    #[verifier::type_invariant]
    pub open spec fn wf(&self) -> bool {
        self@.wf()
    }

    /// Analyses the bytes of an executable: reads them as an object file,
    /// finds the dispatch routine by its signature, decodes it and finds its
    /// jump table. Queries scan 1000 entries at most and count opcodes from
    /// 101.
    ///
    /// Each failure names the step that failed. `DecodeSetupError` is the
    /// decoder's own failure and comes only where the decoder was run.
    pub fn new(file: Vec<u8>, dispatch_pattern: &[u8]) -> (r: Result<Finder, AnalysisError>)
        ensures
            match r {
                Ok(finder) => finder.wf() && located(file@, dispatch_pattern@) == Ok::<
                    FinderView,
                    AnalysisError,
                >(finder@),
                Err(e) => if e == AnalysisError::DecodeSetupError {
                    parsed_image(file@) matches Ok(image) && dispatch_listing(
                        image,
                        dispatch_pattern@,
                    ) is Ok
                } else {
                    located(file@, dispatch_pattern@) == Err::<FinderView, AnalysisError>(e)
                },
            },
            r matches Err(e) ==> e.fatal(),
    {
        proof {
            lemma_located_errors_end_the_run(file@, dispatch_pattern@);
        }
        let image = match BinaryImage::parse(file) {
            Ok(image) => image,
            Err(e) => {
                return Err(e);
            },
        };
        let dispatch_insns = match Finder::locate_dispatch(&image, dispatch_pattern) {
            Ok(insns) => insns,
            Err(e) => {
                return Err(e);
            },
        };
        let jump_table_offset = match Finder::find_jump_table(
            image.image_base(),
            dispatch_insns.as_slice(),
        ) {
            Some(table) => table,
            None => {
                return Err(AnalysisError::JumpTableNotFoundError);
            },
        };
        Ok(Finder::from_parts(image, dispatch_insns, jump_table_offset))
    }

    /// Makes a finder from pieces that were found before. Queries scan 1000
    /// entries at most and count opcodes from 101.
    pub fn from_parts(
        image: BinaryImage,
        dispatch_insns: Vec<Instruction>,
        jump_table_offset: u64,
    ) -> (r: Finder)
        ensures
            r.wf(),
            r@ == (FinderView {
                image: image@,
                dispatch: dispatch_insns.deep_view(),
                table_address: jump_table_offset,
                max_entries: 1000,
                opcode_base: 101,
            }),
    {
        proof {
            use_type_invariant(&image);
        }
        Finder {
            image,
            dispatch_insns,
            jump_table_offset,
            max_opcode: MAX_OPCODE,
            opcode_base: OPCODE_BASE,
        }
    }

    /// The same finder with other limits: queries scan `max_opcode` entries
    /// at most and count opcodes from `opcode_base`. `None` where an opcode
    /// within these limits would not fit in 16 bits.
    pub fn with_limits(self, max_opcode: usize, opcode_base: u16) -> (r: Option<Finder>)
        ensures
            match r {
                Some(finder) => finder.wf() && finder@ == (FinderView {
                    max_entries: max_opcode as int,
                    opcode_base: opcode_base as int,
                    ..self@
                }),
                None => max_opcode + opcode_base > 0x1_0000,
            },
    {
        proof {
            use_type_invariant(&self);
        }
        if max_opcode <= 0x1_0000 && opcode_base as usize <= 0x1_0000 - max_opcode {
            Some(
                Finder {
                    image: self.image,
                    dispatch_insns: self.dispatch_insns,
                    jump_table_offset: self.jump_table_offset,
                    max_opcode,
                    opcode_base,
                },
            )
        } else {
            None
        }
    }

    /// The executable that was analysed.
    pub fn image(&self) -> (r: &BinaryImage)
        ensures
            r@ == self@.image,
    {
        &self.image
    }

    /// The instructions of the dispatch routine.
    pub fn dispatch_insns(&self) -> (r: &[Instruction])
        ensures
            r.deep_view() == self@.dispatch,
    {
        self.dispatch_insns.as_slice()
    }

    /// Virtual address of the jump table's first entry.
    pub fn jump_table_offset(&self) -> (r: u64)
        ensures
            r == self@.table_address,
    {
        self.jump_table_offset
    }

    /// What is added to a file offset to get a virtual address.
    pub fn va_offset(&self) -> (r: u64)
        ensures
            r == self@.image.va_offset,
    {
        self.image.va_offset()
    }

    /// The base that jump table entries count from.
    pub fn base_address(&self) -> (r: u64)
        ensures
            r == self@.image.image_base,
    {
        self.image.image_base()
    }

    /// How many entries of the jump table a query scans at most.
    pub fn max_opcode(&self) -> (r: usize)
        ensures
            r == self@.max_entries,
    {
        self.max_opcode
    }

    /// The opcode of the table's entry 0.
    pub fn opcode_base(&self) -> (r: u16)
        ensures
            r == self@.opcode_base,
    {
        self.opcode_base
    }

    /// Exact search for a byte sequence: the offset of its leftmost
    /// occurrence in `code`.
    pub fn search_pattern(code: &[u8], pattern: &[u8]) -> (r: Option<usize>)
        ensures
            match r {
                Some(i) => first_occurrence(code@, pattern@) == Some(i as int),
                None => first_occurrence(code@, pattern@) is None,
            },
    {
        find(code, pattern)
    }

    /// Finds the dispatch routine of an image and decodes it: the routine
    /// starts where `dispatch_pattern` first occurs in the code section, and
    /// its first instruction has the virtual address of that place.
    ///
    /// Fails with `DispatchNotFoundError` where the signature does not occur
    /// in the code section, with `NoMethodBoundaryError` where no padding
    /// run follows it, and with `DecodeSetupError` where the decoder, run on
    /// the routine, fails.
    pub fn locate_dispatch(image: &BinaryImage, dispatch_pattern: &[u8]) -> (r: Result<
        Vec<Instruction>,
        AnalysisError,
    >)
        ensures
            match r {
                Ok(insns) => dispatch_listing(image@, dispatch_pattern@) == Ok::<
                    Seq<InstructionView>,
                    AnalysisError,
                >(insns.deep_view()),
                Err(e) => if e == AnalysisError::DecodeSetupError {
                    dispatch_listing(image@, dispatch_pattern@) is Ok
                } else {
                    dispatch_listing(image@, dispatch_pattern@) == Err::<
                        Seq<InstructionView>,
                        AnalysisError,
                    >(e)
                },
            },
            r matches Ok(insns) ==> forall|i: int|
                0 <= i < insns@.len() ==> (#[trigger] insns@[i]).mnemonic.recognized(),
    {
        proof {
            use_type_invariant(image);
        }
        let code = image.code();
        let start = match Finder::search_pattern(code, dispatch_pattern) {
            Some(start) => start,
            None => {
                return Err(AnalysisError::DispatchNotFoundError);
            },
        };
        proof {
            crate::pattern::lemma_first_occurrence(code@, dispatch_pattern@);
        }
        let address = image.code_address() + start as u64;
        let routine = slice_subrange(code, start, code.len());
        disassemble_method(routine, address)
    }

    /// Finds the jump table of a dispatch routine: scans its instructions in
    /// order for the first load from the table and adds the displacement of
    /// that load to the image base.
    pub fn find_jump_table(image_base: u64, insns: &[Instruction]) -> (r: Option<u64>)
        ensures
            r == jump_table_address(image_base, insns.deep_view()),
    {
        let ghost flags = table_loads(insns.deep_view());
        let n = insns.len();
        let mut i: usize = 0;
        while i < n
            invariant
                n == insns@.len(),
                i <= n,
                flags == table_loads(insns.deep_view()),
                forall|j: int| 0 <= j < i ==> !flags[j],
            decreases n - i,
        {
            if let Some(disp) = table_load(&insns[i]) {
                proof {
                    lemma_first_true_is(flags, i as int);
                }
                return offset_address(image_base, disp);
            }
            i += 1;
        }
        proof {
            lemma_first_true_none(flags);
        }
        None
    }

    /// The index of the first instruction of the dispatch routine that
    /// transfers control to the address `handler_base`.
    pub fn find_dispatch_xref_insn(&self, handler_base: u64) -> (r: Option<usize>)
        ensures
            match r {
                Some(i) => first_true(xrefs(self@.dispatch, handler_base as int)) == Some(i as int),
                None => first_true(xrefs(self@.dispatch, handler_base as int)) is None,
            },
    {
        let ghost flags = xrefs(self@.dispatch, handler_base as int);
        let n = self.dispatch_insns.len();
        let mut i: usize = 0;
        while i < n
            invariant
                n == self.dispatch_insns@.len(),
                i <= n,
                flags == xrefs(self@.dispatch, handler_base as int),
                forall|j: int| 0 <= j < i ==> !flags[j],
            decreases n - i,
        {
            if transfers_to(&self.dispatch_insns[i], handler_base) {
                proof {
                    lemma_first_true_is(flags, i as int);
                }
                return Some(i);
            }
            i += 1;
        }
        proof {
            lemma_first_true_none(flags);
        }
        None
    }

    /// The address that the jump table holds for the call site at index
    /// `call`: walks back from the call site to the nearest `jmp` and takes
    /// the address of the instruction behind it, which is the call site
    /// itself where nothing stands between the two. `None` where `call` is
    /// no index of the dispatch routine.
    ///
    /// The walk takes the instructions from the nearest `jmp` to the call
    /// site for one block of straight-line code. Where the compiler laid
    /// out more than that between the place the table leads to and the call
    /// site, the address found is not the one in the table.
    pub fn find_jump_target(&self, call: usize) -> (r: Option<u64>)
        ensures
            match r {
                Some(target) => call < self@.dispatch.len() && target == jump_target(
                    self@.dispatch,
                    call as int,
                ),
                None => call >= self@.dispatch.len(),
            },
    {
        if call >= self.dispatch_insns.len() {
            return None;
        }
        let mut target: u64 = self.dispatch_insns[call].address;
        let mut i: usize = call;
        while i > 0
            invariant
                i <= call,
                call < self.dispatch_insns@.len(),
                block_start(self@.dispatch, call as int) == block_start(self@.dispatch, i as int),
                target == self@.dispatch[i as int].address,
            ensures
                i == 0 || self@.dispatch[i - 1].mnemonic is Jmp,
            decreases i,
        {
            let insn = &self.dispatch_insns[i - 1];
            if insn.mnemonic.is_jmp() {
                break;
            }
            target = insn.address;
            i -= 1;
        }
        Some(target)
    }

    /// Scans the jump table, from its first entry on, for the first entry
    /// that leads to the address `target`, and returns its index. Entries
    /// that do not lie in the file are not scanned, nor more entries than
    /// the finder's limit.
    pub fn find_table_entry(&self, target: u64) -> (r: Option<usize>)
        ensures
            match r {
                Some(i) => first_true(self@.entry_flags(target)) == Some(i as int),
                None => first_true(self@.entry_flags(target)) is None,
            },
    {
        let file = self.image.file();
        let va_offset = self.image.va_offset();
        let image_base = self.image.image_base();
        let len = file.len();
        let ghost flags = self@.entry_flags(target);
        if self.jump_table_offset < va_offset || self.jump_table_offset - va_offset > len as u64 {
            proof {
                lemma_first_true_none(flags);
            }
            return None;
        }
        let start = (self.jump_table_offset - va_offset) as usize;
        let available = (len - start) / 4;
        let count = if self.max_opcode <= available {
            self.max_opcode
        } else {
            available
        };
        let mut i: usize = 0;
        while i < count
            invariant
                i <= count,
                count <= (len - start) / 4,
                start <= len,
                len == file@.len(),
                file@ == self@.image.file,
                start == self@.table_position(),
                image_base == self@.image.image_base,
                flags == self@.entry_flags(target),
                flags.len() == count,
                forall|j: int| 0 <= j < i ==> !flags[j],
            decreases count - i,
        {
            let hit = match read_le_u32(file, start + 4 * i) {
                Some(entry) => match image_base.checked_add(entry as u64) {
                    Some(candidate) => candidate == target,
                    None => false,
                },
                None => false,
            };
            if hit {
                proof {
                    lemma_first_true_is(flags, i as int);
                }
                return Some(i);
            }
            i += 1;
        }
        proof {
            lemma_first_true_none(flags);
        }
        None
    }

    /// The opcode of the handler whose signature is `handler_pattern`, with
    /// the step that failed where there is none: `HandlerNotFoundError`
    /// where the signature does not occur in the file, `XrefNotFoundError`
    /// where no instruction of the dispatch routine transfers control to the
    /// handler, `EntryNotFoundError` where no scanned entry of the jump table
    /// leads to the block of that instruction.
    pub fn resolve(&self, handler_pattern: &[u8]) -> (r: Result<u16, AnalysisError>)
        ensures
            r == self@.resolved(handler_pattern@),
    {
        proof {
            use_type_invariant(self);
        }
        let offset = match Finder::search_pattern(self.image.file(), handler_pattern) {
            Some(offset) => offset,
            None => {
                return Err(AnalysisError::HandlerNotFoundError);
            },
        };
        let handler_base = match self.image.va_offset().checked_add(offset as u64) {
            Some(address) => address,
            None => {
                proof {
                    lemma_first_true_none(xrefs(self@.dispatch, self@.image.va_offset + offset));
                }
                return Err(AnalysisError::XrefNotFoundError);
            },
        };
        let call = match self.find_dispatch_xref_insn(handler_base) {
            Some(call) => call,
            None => {
                return Err(AnalysisError::XrefNotFoundError);
            },
        };
        proof {
            lemma_first_true(xrefs(self@.dispatch, handler_base as int));
        }
        let target = match self.find_jump_target(call) {
            Some(target) => target,
            None => {
                return Err(AnalysisError::XrefNotFoundError);
            },
        };
        match self.find_table_entry(target) {
            Some(index) => {
                proof {
                    lemma_first_true(self@.entry_flags(target));
                }
                Ok((index + self.opcode_base as usize) as u16)
            },
            None => Err(AnalysisError::EntryNotFoundError),
        }
    }

    /// The opcode of the handler whose signature is `handler_pattern`, or
    /// `None` where `resolve` fails.
    pub fn find_opcode(&self, handler_pattern: &[u8]) -> (r: Option<u16>)
        ensures
            r == (match self@.resolved(handler_pattern@) {
                Ok(opcode) => Some(opcode),
                Err(_) => None,
            }),
    {
        match self.resolve(handler_pattern) {
            Ok(opcode) => Some(opcode),
            Err(_) => None,
        }
    }
}

} // verus!
