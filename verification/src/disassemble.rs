use vstd::prelude::*;
use vstd::slice::{slice_subrange, slice_to_vec};

use crate::decoder::{
    bytes_before, decode_stream, decoded, laid_end_to_end, mnemonic_class, mnemonic_of, operand_of,
    register_class, register_of, RawInstruction, RawInstructionView, RawOperand,
};
use crate::error::AnalysisError;
pub use crate::instruction::{Instruction, InstructionView, Mnemonic, Operand, Register};
use crate::pattern::{find, first_occurrence, is_first_occurrence, occurs_at};

verus! {

/// The padding run that the toolchain puts between functions: five bytes `0xCC`.
pub open spec fn sentinel() -> Seq<u8> {
    seq![0xCCu8, 0xCCu8, 0xCCu8, 0xCCu8, 0xCCu8]
}

/// The library's operand for an operand of the decoder.
pub open spec fn operand_model(raw: RawOperand) -> Operand {
    match raw {
        RawOperand::Reg(id) => Operand::Reg(register_class(id)),
        RawOperand::Imm(value) => Operand::Imm(value),
        RawOperand::Mem { base, index, scale, disp } => Operand::Mem {
            base: register_class(base),
            index: register_class(index),
            scale,
            disp,
        },
        RawOperand::Invalid => Operand::Invalid,
    }
}

/// The library's instruction for an item of the decoder's output.
pub open spec fn instruction_model(raw: RawInstructionView) -> InstructionView {
    InstructionView {
        address: raw.address,
        bytes: raw.bytes,
        mnemonic: mnemonic_class(raw.id),
        operands: raw.operands.map_values(|op: RawOperand| operand_model(op)),
    }
}

/// The instruction has a mnemonic that names an instruction.
pub open spec fn recognized(insn: InstructionView) -> bool {
    insn.mnemonic.recognized()
}

/// Each item of the decoder's output as the library's instruction.
pub open spec fn instruction_models(raw: Seq<RawInstructionView>) -> Seq<InstructionView> {
    raw.map_values(|item: RawInstructionView| instruction_model(item))
}

/// The recognized instructions of a sequence, in order.
pub open spec fn only_recognized(insns: Seq<InstructionView>) -> Seq<InstructionView> {
    insns.filter(|insn: InstructionView| recognized(insn))
}

/// The instructions among the decoder's items, in order: each item as the
/// library's instruction, without those whose mnemonic names nothing.
pub open spec fn recognized_instructions(raw: Seq<RawInstructionView>) -> Seq<InstructionView> {
    only_recognized(instruction_models(raw))
}

/// The instructions that `code`, placed at address `addr`, decodes to.
pub open spec fn listing(code: Seq<u8>, addr: u64) -> Seq<InstructionView> {
    recognized_instructions(decoded(code, addr))
}

/// What every run of the decoder on `code` shows of its output: the items
/// lie end to end in `code` and have the addresses of their first bytes.
pub open spec fn decoded_end_to_end(code: Seq<u8>, addr: u64) -> bool {
    laid_end_to_end(decoded(code, addr), code, addr)
}

/// The instruction stands in `code` at offset `at`: its bytes are those
/// from there on, and its address is `addr` plus `at`, counted in 64 bits.
pub open spec fn stands_at(insn: InstructionView, code: Seq<u8>, addr: u64, at: int) -> bool {
    &&& occurs_at(code, insn.bytes, at)
    &&& insn.address == (addr + at) % 0x1_0000_0000_0000_0000
}

/// The instruction stands somewhere in `code`, with the address of that
/// place.
pub open spec fn stands_in(insn: InstructionView, code: Seq<u8>, addr: u64) -> bool {
    exists|at: int| stands_at(insn, code, addr, at)
}

/// The bytes of the routine that starts `code`: those before the first
/// padding run.
pub open spec fn method_bytes(code: Seq<u8>) -> Option<Seq<u8>> {
    match first_occurrence(code, sentinel()) {
        Some(end) => Some(code.take(end)),
        None => None,
    }
}

/// The instructions of the routine that starts `code`: those of the bytes
/// before the first padding run.
pub open spec fn method_listing(code: Seq<u8>, addr: u64) -> Option<Seq<InstructionView>> {
    match method_bytes(code) {
        Some(body) => Some(listing(body, addr)),
        None => None,
    }
}

/// What one more item adds to the recognized instructions: itself, where
/// it is recognized, and nothing else.
pub proof fn lemma_only_recognized_push(insns: Seq<InstructionView>, last: InstructionView)
    ensures
        only_recognized(insns.push(last)) == (if recognized(last) {
            only_recognized(insns).push(last)
        } else {
            only_recognized(insns)
        }),
{
    reveal(Seq::filter);
    assert(insns.push(last).drop_last() =~= insns);
}

/// Every instruction that is kept is recognized.
pub proof fn lemma_only_recognized_holds(insns: Seq<InstructionView>)
    ensures
        forall|i: int|
            0 <= i < only_recognized(insns).len() ==> recognized(
                #[trigger] only_recognized(insns)[i],
            ),
{
    let keep = |insn: InstructionView| recognized(insn);
    assert forall|i: int| 0 <= i < only_recognized(insns).len() implies recognized(
        #[trigger] only_recognized(insns)[i],
    ) by {
        insns.lemma_filter_pred(keep, i);
    }
}

/// A sequence whose instructions are all recognized is kept whole.
pub proof fn lemma_all_recognized(insns: Seq<InstructionView>)
    requires
        forall|i: int| 0 <= i < insns.len() ==> recognized(#[trigger] insns[i]),
    ensures
        only_recognized(insns) == insns,
    decreases insns.len(),
{
    if insns.len() == 0 {
        reveal(Seq::filter);
    } else {
        lemma_all_recognized(insns.drop_last());
        lemma_only_recognized_push(insns.drop_last(), insns.last());
        assert(insns.drop_last().push(insns.last()) =~= insns);
    }
}

/// The routine's instructions are those of the bytes before the padding:
/// where `body` is followed by the padding run and no such run starts
/// inside `body`, what stands behind the run has no part in the result.
pub proof fn lemma_method_listing_ends_at_padding(body: Seq<u8>, rest: Seq<u8>, addr: u64)
    requires
        forall|j: int| 0 <= j < body.len() ==> !occurs_at(body + sentinel() + rest, sentinel(), j),
    ensures
        method_listing(body + sentinel() + rest, addr) == Some(listing(body, addr)),
{
    let code = body + sentinel() + rest;
    let end = body.len() as int;
    assert(code.subrange(end, end + 5) =~= sentinel());
    crate::pattern::lemma_first_occurrence_is(code, sentinel(), end);
    assert(code.take(end) =~= body);
}

/// Bytes at or behind the padding have no part in the result: two buffers
/// that have their first padding run at the same offset, and the same bytes
/// before it, have the same routine.
pub proof fn lemma_method_listing_of_same_prefix(
    first: Seq<u8>,
    second: Seq<u8>,
    end: int,
    addr: u64,
)
    requires
        first_occurrence(first, sentinel()) == Some(end),
        first_occurrence(second, sentinel()) == Some(end),
        first.take(end) == second.take(end),
    ensures
        method_listing(first, addr) == method_listing(second, addr),
        method_listing(first, addr) == Some(listing(first.take(end), addr)),
{
}

/// A routine of well-formed instructions is decoded whole: where every
/// item that the decoder reports for `body` is an instruction, and `body`
/// is followed by the padding run with no such run starting inside it, the
/// result holds exactly those items, in order, and nothing else.
pub proof fn lemma_method_listing_of_well_formed(body: Seq<u8>, rest: Seq<u8>, addr: u64)
    requires
        forall|j: int| 0 <= j < body.len() ==> !occurs_at(body + sentinel() + rest, sentinel(), j),
        forall|i: int|
            0 <= i < decoded(body, addr).len() ==> mnemonic_class(
                (#[trigger] decoded(body, addr)[i]).id,
            ).recognized(),
    ensures
        method_listing(body + sentinel() + rest, addr) matches Some(insns) && insns.len()
            == decoded(body, addr).len() && forall|i: int|
            0 <= i < insns.len() ==> #[trigger] insns[i] == instruction_model(
                decoded(body, addr)[i],
            ),
{
    lemma_method_listing_ends_at_padding(body, rest, addr);
    lemma_all_recognized(instruction_models(decoded(body, addr)));
}

/// The bytes before an item are none or more.
pub proof fn lemma_bytes_before_not_negative(items: Seq<RawInstructionView>, k: int)
    ensures
        0 <= bytes_before(items, k),
    decreases k,
{
    if k > 0 {
        lemma_bytes_before_not_negative(items, k - 1);
    }
}

/// Every instruction that is decoded stands in the code at its address:
/// where the decoder's items lie end to end, as every run of the decoder
/// shows, each instruction of the listing holds bytes of `code`, and its
/// address is `addr` plus the offset of these bytes.
pub proof fn lemma_listing_stands_in_code(code: Seq<u8>, addr: u64)
    requires
        decoded_end_to_end(code, addr),
    ensures
        forall|i: int|
            0 <= i < listing(code, addr).len() ==> stands_in(
                #[trigger] listing(code, addr)[i],
                code,
                addr,
            ),
{
    let items = decoded(code, addr);
    let all = instruction_models(items);
    let keep = |insn: InstructionView| recognized(insn);
    assert forall|i: int| 0 <= i < listing(code, addr).len() implies stands_in(
        #[trigger] listing(code, addr)[i],
        code,
        addr,
    ) by {
        let insn = listing(code, addr)[i];
        assert(all.filter(keep).contains(insn));
        all.lemma_filter_contains_rev(keep, insn);
        let k = choose|k: int| 0 <= k < all.len() && all[k] == insn;
        assert(all[k] == instruction_model(items[k]));
        lemma_bytes_before_not_negative(items, k);
        assert(stands_at(insn, code, addr, bytes_before(items, k)));
    }
}

/// The instructions of a routine of well-formed instructions lie end to
/// end in it: under the conditions of `lemma_method_listing_of_well_formed`,
/// and where the decoder's items lie end to end, as every run of the decoder
/// shows, each instruction of the result holds the bytes that follow those
/// of the one before it, and its address is `addr` plus the number of bytes
/// before it, counted in 64 bits.
pub proof fn lemma_method_listing_lies_end_to_end(body: Seq<u8>, rest: Seq<u8>, addr: u64)
    requires
        forall|j: int| 0 <= j < body.len() ==> !occurs_at(body + sentinel() + rest, sentinel(), j),
        forall|i: int|
            0 <= i < decoded(body, addr).len() ==> mnemonic_class(
                (#[trigger] decoded(body, addr)[i]).id,
            ).recognized(),
        decoded_end_to_end(body, addr),
    ensures
        method_listing(body + sentinel() + rest, addr) matches Some(insns) && insns.len()
            == decoded(body, addr).len() && forall|k: int|
            0 <= k < insns.len() ==> {
                &&& (#[trigger] insns[k]).address == (addr + bytes_before(decoded(body, addr), k))
                    % 0x1_0000_0000_0000_0000
                &&& insns[k].bytes == body.subrange(
                    bytes_before(decoded(body, addr), k),
                    bytes_before(decoded(body, addr), k + 1),
                )
                &&& bytes_before(decoded(body, addr), k + 1) == bytes_before(
                    decoded(body, addr),
                    k,
                ) + insns[k].bytes.len()
            },
{
    lemma_method_listing_of_well_formed(body, rest, addr);
    let items = decoded(body, addr);
    let insns = method_listing(body + sentinel() + rest, addr)->Some_0;
    assert forall|k: int| 0 <= k < insns.len() implies {
        &&& (#[trigger] insns[k]).address == (addr + bytes_before(items, k))
            % 0x1_0000_0000_0000_0000
        &&& insns[k].bytes == body.subrange(bytes_before(items, k), bytes_before(items, k + 1))
        &&& bytes_before(items, k + 1) == bytes_before(items, k) + insns[k].bytes.len()
    } by {
        assert(insns[k] == instruction_model(items[k]));
    }
}

/// Converts one operand of the decoder.
pub fn convert_operand(raw: RawOperand) -> (r: Operand)
    ensures
        r == operand_model(raw),
{
    match raw {
        RawOperand::Reg(id) => Operand::Reg(register_of(id)),
        RawOperand::Imm(value) => Operand::Imm(value),
        RawOperand::Mem { base, index, scale, disp } => Operand::Mem {
            base: register_of(base),
            index: register_of(index),
            scale,
            disp,
        },
        RawOperand::Invalid => Operand::Invalid,
    }
}

/// Converts one item of the decoder's output, whatever its mnemonic.
pub fn convert_instruction(raw: &RawInstruction) -> (r: Instruction)
    ensures
        r@ == instruction_model(raw@),
{
    let mut operands: Vec<Operand> = Vec::new();
    let n = raw.operands.len();
    let mut k: usize = 0;
    while k < n
        invariant
            n == raw.operands@.len(),
            k <= n,
            operands@.len() == k,
            forall|j: int| 0 <= j < k ==> operands@[j] == operand_model(#[trigger] raw@.operands[j]),
        decreases n - k,
    {
        let part = operand_of(&raw.operands[k]);
        operands.push(convert_operand(part));
        k += 1;
    }
    let r = Instruction {
        address: raw.address,
        bytes: slice_to_vec(raw.bytes.as_slice()),
        mnemonic: mnemonic_of(raw.id),
        operands,
    };
    assert(r@.operands =~= instruction_model(raw@).operands);
    r
}

/// Converts every item of the decoder's output, in order.
pub fn convert_all(raw: &[RawInstruction]) -> (r: Vec<Instruction>)
    ensures
        r.deep_view() == instruction_models(raw.deep_view()),
{
    let mut out: Vec<Instruction> = Vec::new();
    let n = raw.len();
    let mut i: usize = 0;
    while i < n
        invariant
            n == raw@.len(),
            i <= n,
            out@.len() == i,
            forall|j: int| 0 <= j < i ==> (#[trigger] out@[j])@ == instruction_model(raw@[j]@),
        decreases n - i,
    {
        out.push(convert_instruction(&raw[i]));
        i += 1;
    }
    out
}

/// Keeps, in order, the instructions whose mnemonic is recognized, and
/// drops the others.
pub fn retain_recognized(all: Vec<Instruction>) -> (r: Vec<Instruction>)
    ensures
        r.deep_view() == only_recognized(all.deep_view()),
        forall|i: int| 0 <= i < r@.len() ==> (#[trigger] r@[i]).mnemonic.recognized(),
{
    let ghost views = all.deep_view();
    let mut out: Vec<Instruction> = Vec::new();
    proof {
        lemma_all_recognized(Seq::<InstructionView>::empty());
    }
    for insn in it: all
        invariant
            views == all.deep_view(),
            it.seq() == all@,
            out.deep_view() == only_recognized(views.take(it.index() as int)),
            forall|j: int| 0 <= j < out@.len() ==> (#[trigger] out@[j]).mnemonic.recognized(),
    {
        proof {
            let k = it.index() as int;
            assert(views.take(k + 1) =~= views.take(k).push(insn@));
            lemma_only_recognized_push(views.take(k), insn@);
        }
        if insn.mnemonic.is_recognized() {
            out.push(insn);
        }
    }
    proof {
        assert(views.take(views.len() as int) =~= views);
    }
    out
}

/// Keeps, in order, the items of the decoder's output that are instructions.
pub fn collect_recognized(raw: &[RawInstruction]) -> (r: Vec<Instruction>)
    ensures
        r.deep_view() == recognized_instructions(raw.deep_view()),
        forall|i: int| 0 <= i < r@.len() ==> (#[trigger] r@[i]).mnemonic.recognized(),
{
    retain_recognized(convert_all(raw))
}

/// What the decoder's outcome amounts to: its instructions, or the error
/// that stands for every failure of the decoder.
pub fn decoder_outcome(outcome: Result<Vec<RawInstruction>, capstone::Error>) -> (r: Result<
    Vec<Instruction>,
    AnalysisError,
>)
    ensures
        match outcome {
            Ok(items) => r is Ok && r->Ok_0.deep_view() == recognized_instructions(
                items.deep_view(),
            ),
            Err(_) => r == Err::<Vec<Instruction>, AnalysisError>(AnalysisError::DecodeSetupError),
        },
        r matches Ok(insns) ==> forall|i: int|
            0 <= i < insns@.len() ==> (#[trigger] insns@[i]).mnemonic.recognized(),
{
    match outcome {
        Ok(items) => Ok(collect_recognized(items.as_slice())),
        Err(_) => Err(AnalysisError::DecodeSetupError),
    }
}

/// Decodes as many instructions as fit in `code`, the first at address
/// `addr`. Bytes that decode to nothing are skipped, and no instruction
/// without a recognized mnemonic is returned. The only failure is that of
/// the decoder itself.
pub fn disassemble(code: &[u8], addr: u64) -> (r: Result<Vec<Instruction>, AnalysisError>)
    ensures
        match r {
            Ok(insns) => insns.deep_view() == listing(code@, addr),
            Err(e) => e == AnalysisError::DecodeSetupError,
        },
        r is Ok ==> decoded_end_to_end(code@, addr),
        r matches Ok(insns) ==> forall|i: int|
            0 <= i < insns@.len() ==> (#[trigger] insns@[i]).mnemonic.recognized(),
        r matches Ok(insns) ==> forall|i: int|
            0 <= i < insns@.len() ==> stands_in((#[trigger] insns@[i])@, code@, addr),
{
    let r = decoder_outcome(decode_stream(code, addr));
    proof {
        if r is Ok {
            let insns = r->Ok_0;
            lemma_listing_stands_in_code(code@, addr);
            assert forall|i: int| 0 <= i < insns@.len() implies stands_in(
                (#[trigger] insns@[i])@,
                code@,
                addr,
            ) by {
                assert(listing(code@, addr)[i] == insns@[i]@);
            }
        }
    }
    r
}

/// Decodes the routine that starts `code`: the bytes before the first run
/// of five padding bytes, the first at address `addr`. Nothing that stands
/// at or after the padding is decoded. Without such a run the routine has no
/// end that can be found, and nothing is decoded at all.
pub fn disassemble_method(code: &[u8], addr: u64) -> (r: Result<Vec<Instruction>, AnalysisError>)
    ensures
        match r {
            Ok(insns) => method_listing(code@, addr) == Some(insns.deep_view()),
            Err(e) => e == (if method_listing(code@, addr) is None {
                AnalysisError::NoMethodBoundaryError
            } else {
                AnalysisError::DecodeSetupError
            }),
        },
        first_occurrence(code@, sentinel()) is None ==> r == Err::<Vec<Instruction>, AnalysisError>(
            AnalysisError::NoMethodBoundaryError,
        ),
        r is Ok ==> (method_bytes(code@) matches Some(body) && decoded_end_to_end(body, addr)),
        r matches Ok(insns) ==> forall|i: int|
            0 <= i < insns@.len() ==> stands_in(
                (#[trigger] insns@[i])@,
                method_bytes(code@)->Some_0,
                addr,
            ),
        r matches Ok(insns) ==> forall|i: int|
            0 <= i < insns@.len() ==> (#[trigger] insns@[i]).mnemonic.recognized(),
{
    let padding: [u8; 5] = [0xCC, 0xCC, 0xCC, 0xCC, 0xCC];
    match find(code, padding.as_slice()) {
        Some(end) => disassemble(slice_subrange(code, 0, end), addr),
        None => Err(AnalysisError::NoMethodBoundaryError),
    }
}

} // verus!
