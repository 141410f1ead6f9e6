//! Data model of a SPIR-V module: instructions made of an opcode, an optional
//! result type, an optional result id and a list of operands, grouped into
//! basic blocks and functions. The model is what the code generator emits and
//! what the structural comparison walks.

use vstd::prelude::*;

verus! {

/// One operand of a SPIR-V instruction. Ids that participate in the module's
/// id namespace are kept apart from plain literals: the structural comparison
/// matches ids through a renaming and literals by value.
#[derive(Clone, Copy, Debug)]
pub enum SpirvOperand {
    /// A reference to another instruction's result id.
    IdRef(u32),
    /// An id used as a memory-scope operand.
    IdScope(u32),
    /// An id used as a memory-semantics operand.
    IdMemorySemantics(u32),
    /// A literal that occupies one word (enum values, small integers).
    LiteralU32(u32),
    /// A literal that occupies two words (64-bit immediates).
    LiteralU64(u64),
}

/// One SPIR-V instruction.
#[derive(Debug)]
pub struct SpirvInstruction {
    pub opcode: u16,
    pub result_type: Option<u32>,
    pub result_id: Option<u32>,
    pub operands: Vec<SpirvOperand>,
}

/// A basic block: an optional label instruction followed by its body.
#[derive(Debug)]
pub struct SpirvBlock {
    pub label: Option<SpirvInstruction>,
    pub instructions: Vec<SpirvInstruction>,
}

/// A function: its defining instruction, parameters, blocks and terminator.
#[derive(Debug)]
pub struct SpirvFunction {
    pub def: Option<SpirvInstruction>,
    pub parameters: Vec<SpirvInstruction>,
    pub blocks: Vec<SpirvBlock>,
    pub end: Option<SpirvInstruction>,
}

/// A whole SPIR-V module: the id bound, the instructions of the header
/// sections (capabilities through annotations), the type and constant
/// declarations, the module-scope variables, and the functions.
#[derive(Debug)]
pub struct SpirvModule {
    pub bound: u32,
    pub header: Vec<SpirvInstruction>,
    pub decls: Vec<SpirvInstruction>,
    pub globals: Vec<SpirvInstruction>,
    pub functions: Vec<SpirvFunction>,
}

/// The magic number that opens every SPIR-V binary.
pub const SPIRV_MAGIC: u32 = 0x0723_0203;

/// The version word of the emitted binaries.
pub const SPIRV_VERSION: u32 = 0x0001_0300;

/// The words one operand encodes to: ids and 32-bit literals take one
/// word; a 64-bit literal takes its low word then its high word.
pub open spec fn operand_words(o: SpirvOperand) -> Seq<u32> {
    match o {
        SpirvOperand::IdRef(w) => seq![w],
        SpirvOperand::IdScope(w) => seq![w],
        SpirvOperand::IdMemorySemantics(w) => seq![w],
        SpirvOperand::LiteralU32(w) => seq![w],
        SpirvOperand::LiteralU64(v) => seq![(v & 0xffff_ffff) as u32, (v >> 32) as u32],
    }
}

/// The words of an operand list, in order.
pub open spec fn operands_words(s: Seq<SpirvOperand>) -> Seq<u32>
    decreases s.len(),
{
    if s.len() == 0 {
        Seq::<u32>::empty()
    } else {
        operands_words(s.drop_last()) + operand_words(s.last())
    }
}

/// The word count of one instruction: its first word plus the optional
/// result type and result id plus its operand words.
pub open spec fn instr_word_count(i: SpirvInstruction) -> int {
    1 + (if i.result_type is Some {
        1int
    } else {
        0int
    }) + (if i.result_id is Some {
        1int
    } else {
        0int
    }) + operands_words(i.operands@).len()
}

/// The words of one instruction: the word count in the upper half-word and
/// the opcode in the lower, then the result type, the result id and the
/// operands.
pub open spec fn instr_words(i: SpirvInstruction) -> Seq<u32> {
    let word0 = (((instr_word_count(i) as u32) << 16) | (i.opcode as u32)) as u32;
    let tw = match i.result_type {
        Some(t) => seq![t],
        None => Seq::<u32>::empty(),
    };
    let rw = match i.result_id {
        Some(t) => seq![t],
        None => Seq::<u32>::empty(),
    };
    seq![word0] + tw + rw + operands_words(i.operands@)
}

/// The words of an instruction list, in order.
pub open spec fn instrs_words(s: Seq<SpirvInstruction>) -> Seq<u32>
    decreases s.len(),
{
    if s.len() == 0 {
        Seq::<u32>::empty()
    } else {
        instrs_words(s.drop_last()) + instr_words(s.last())
    }
}

/// The words of an optional instruction.
pub open spec fn opt_instr_words(o: Option<SpirvInstruction>) -> Seq<u32> {
    match o {
        Some(i) => instr_words(i),
        None => Seq::<u32>::empty(),
    }
}

/// The words of one block: its label, then its instructions.
pub open spec fn block_words(b: SpirvBlock) -> Seq<u32> {
    opt_instr_words(b.label) + instrs_words(b.instructions@)
}

/// The words of a block list, in order.
pub open spec fn blocks_words(s: Seq<SpirvBlock>) -> Seq<u32>
    decreases s.len(),
{
    if s.len() == 0 {
        Seq::<u32>::empty()
    } else {
        blocks_words(s.drop_last()) + block_words(s.last())
    }
}

/// The words of one function: its defining instruction, parameters,
/// blocks, and terminator.
pub open spec fn fn_words(f: SpirvFunction) -> Seq<u32> {
    opt_instr_words(f.def) + instrs_words(f.parameters@) + blocks_words(f.blocks@)
        + opt_instr_words(f.end)
}

/// The words of a function list, in order.
pub open spec fn fns_words(s: Seq<SpirvFunction>) -> Seq<u32>
    decreases s.len(),
{
    if s.len() == 0 {
        Seq::<u32>::empty()
    } else {
        fns_words(s.drop_last()) + fn_words(s.last())
    }
}

/// The full word stream of a module: the five header words (magic,
/// version, generator, id bound, schema), then every instruction of every
/// section in order.
pub open spec fn module_words(m: SpirvModule) -> Seq<u32> {
    seq![SPIRV_MAGIC, SPIRV_VERSION, 0u32, m.bound, 0u32] + instrs_words(m.header@)
        + instrs_words(m.decls@) + instrs_words(m.globals@) + fns_words(m.functions@)
}

/// An instruction fits the binary form when its word count fits the upper
/// half-word of its first word.
pub open spec fn instr_fits(i: SpirvInstruction) -> bool {
    instr_word_count(i) <= 0xffff
}

/// Every instruction of the list fits.
pub open spec fn instrs_fit(s: Seq<SpirvInstruction>) -> bool {
    forall|k: int| 0 <= k < s.len() ==> instr_fits(#[trigger] s[k])
}

/// An optional instruction fits.
pub open spec fn opt_instr_fits(o: Option<SpirvInstruction>) -> bool {
    match o {
        Some(i) => instr_fits(i),
        None => true,
    }
}

/// Every instruction of the function fits.
pub open spec fn fn_fits(f: SpirvFunction) -> bool {
    &&& opt_instr_fits(f.def)
    &&& instrs_fit(f.parameters@)
    &&& forall|k: int|
        0 <= k < f.blocks@.len() ==> opt_instr_fits((#[trigger] f.blocks@[k]).label) && instrs_fit(
            f.blocks@[k].instructions@,
        )
    &&& opt_instr_fits(f.end)
}

/// Every instruction of the module fits the binary form.
pub open spec fn module_fits(m: SpirvModule) -> bool {
    &&& instrs_fit(m.header@)
    &&& instrs_fit(m.decls@)
    &&& instrs_fit(m.globals@)
    &&& forall|k: int| 0 <= k < m.functions@.len() ==> fn_fits(#[trigger] m.functions@[k])
}

/// A prefix of the operand list encodes to no more words than the whole.
proof fn lemma_operand_words_prefix(s: Seq<SpirvOperand>, k: int)
    requires
        0 <= k <= s.len(),
    ensures
        operands_words(s.take(k)).len() <= operands_words(s).len(),
    decreases s.len() - k,
{
    if k == s.len() {
        assert(s.take(k) =~= s);
    } else {
        lemma_operand_words_prefix(s, k + 1);
        assert(s.take(k + 1).drop_last() =~= s.take(k));
        assert(s.take(k + 1).last() == s[k]);
    }
}

/// Appends the words of one operand.
fn push_operand_words(out: &mut Vec<u32>, o: &SpirvOperand)
    ensures
        final(out)@ == old(out)@ + operand_words(*o),
{
    match o {
        SpirvOperand::IdRef(w) => {
            out.push(*w);
        },
        SpirvOperand::IdScope(w) => {
            out.push(*w);
        },
        SpirvOperand::IdMemorySemantics(w) => {
            out.push(*w);
        },
        SpirvOperand::LiteralU32(w) => {
            out.push(*w);
        },
        SpirvOperand::LiteralU64(v) => {
            out.push(#[verifier::truncate] ((*v & 0xffff_ffff) as u32));
            out.push(#[verifier::truncate] ((*v >> 32) as u32));
        },
    }
    proof {
        assert(final(out)@ =~= old(out)@ + operand_words(*o));
    }
}

/// The number of words an operand occupies.
fn operand_width(o: &SpirvOperand) -> (r: usize)
    ensures
        r == operand_words(*o).len(),
{
    match o {
        SpirvOperand::LiteralU64(_) => 2,
        _ => 1,
    }
}

/// Appends the words of one instruction, or fails when the instruction
/// would not fit the sixteen-bit word count.
#[verifier::loop_isolation(false)]
fn push_instr_words(out: &mut Vec<u32>, i: &SpirvInstruction) -> (r: Result<(), ()>)
    ensures
        r is Ok ==> final(out)@ == old(out)@ + instr_words(*i),
        r is Err ==> final(out)@ == old(out)@,
        r is Ok <==> instr_fits(*i),
{
    let mut count: usize = 1;
    if i.result_type.is_some() {
        count += 1;
    }
    if i.result_id.is_some() {
        count += 1;
    }
    let n = i.operands.len();
    let mut k: usize = 0;
    while k < n
        invariant
            k <= n,
            n == i.operands@.len(),
            count == 1 + (if i.result_type is Some {
                1int
            } else {
                0int
            }) + (if i.result_id is Some {
                1int
            } else {
                0int
            }) + operands_words(i.operands@.take(k as int)).len(),
            count <= 0xffff + 2 * k,
            count <= 0x2ffff,
        decreases n - k,
    {
        if count > 0xffff {
            proof {
                lemma_operand_words_prefix(i.operands@, k as int);
            }
            return Err(());
        }
        let ghost pre = i.operands@.take(k as int);
        proof {
            assert(i.operands@.take(k + 1).drop_last() =~= pre);
            assert(i.operands@.take(k + 1).last() == i.operands@[k as int]);
        }
        count += operand_width(&i.operands[k]);
        k += 1;
    }
    proof {
        assert(i.operands@.take(n as int) =~= i.operands@);
    }
    if count > 0xffff {
        return Err(());
    }
    let word0: u32 = ((count as u32) << 16) | (i.opcode as u32);
    out.push(word0);
    if let Some(t) = i.result_type {
        out.push(t);
    }
    if let Some(t) = i.result_id {
        out.push(t);
    }
    let ghost mid = out@;
    let mut k2: usize = 0;
    while k2 < n
        invariant
            k2 <= n,
            out@ == mid + operands_words(i.operands@.take(k2 as int)),
        decreases n - k2,
    {
        let ghost pre = i.operands@.take(k2 as int);
        proof {
            assert(i.operands@.take(k2 + 1).drop_last() =~= pre);
            assert(i.operands@.take(k2 + 1).last() == i.operands@[k2 as int]);
        }
        push_operand_words(out, &i.operands[k2]);
        k2 += 1;
    }
    proof {
        assert(i.operands@.take(n as int) =~= i.operands@);
        assert(final(out)@ =~= old(out)@ + instr_words(*i));
    }
    Ok(())
}

/// Appends the words of an instruction list.
#[verifier::loop_isolation(false)]
fn push_instrs_words(out: &mut Vec<u32>, s: &Vec<SpirvInstruction>) -> (r: Result<(), ()>)
    ensures
        r is Ok ==> final(out)@ == old(out)@ + instrs_words(s@),
        r is Ok <==> instrs_fit(s@),
{
    let n = s.len();
    let mut k: usize = 0;
    while k < n
        invariant
            k <= n,
            out@ == old(out)@ + instrs_words(s@.take(k as int)),
            forall|p: int| 0 <= p < k ==> instr_fits(#[trigger] s@[p]),
        decreases n - k,
    {
        let ghost pre = s@.take(k as int);
        proof {
            assert(s@.take(k + 1).drop_last() =~= pre);
            assert(s@.take(k + 1).last() == s@[k as int]);
        }
        match push_instr_words(out, &s[k]) {
            Ok(()) => {},
            Err(()) => {
                return Err(());
            },
        }
        k += 1;
    }
    proof {
        assert(s@.take(n as int) =~= s@);
    }
    Ok(())
}

/// Appends the words of an optional instruction.
fn push_opt_instr_words(out: &mut Vec<u32>, o: &Option<SpirvInstruction>) -> (r: Result<(), ()>)
    ensures
        r is Ok ==> final(out)@ == old(out)@ + opt_instr_words(*o),
        r is Ok <==> opt_instr_fits(*o),
{
    match o {
        Some(i) => push_instr_words(out, i),
        None => Ok(()),
    }
}

/// Assembles the module into its binary word stream: the five header
/// words, then every instruction of every section in order, each encoded
/// as its word count and opcode followed by its words. Fails only when an
/// instruction overflows the sixteen-bit word count.
#[verifier::loop_isolation(false)]
#[verifier::rlimit(100)]
#[verifier::spinoff_prover]
pub fn assemble(m: &SpirvModule) -> (r: Result<Vec<u32>, ()>)
    ensures
        r is Ok ==> r.unwrap()@ == module_words(*m),
        r is Ok <==> module_fits(*m),
{
    let mut out: Vec<u32> = Vec::new();
    out.push(SPIRV_MAGIC);
    out.push(SPIRV_VERSION);
    out.push(0);
    out.push(m.bound);
    out.push(0);
    proof {
        assert(out@ =~= seq![SPIRV_MAGIC, SPIRV_VERSION, 0u32, m.bound, 0u32]);
    }
    match push_instrs_words(&mut out, &m.header) {
        Ok(()) => {},
        Err(()) => {
            return Err(());
        },
    }
    match push_instrs_words(&mut out, &m.decls) {
        Ok(()) => {},
        Err(()) => {
            return Err(());
        },
    }
    match push_instrs_words(&mut out, &m.globals) {
        Ok(()) => {},
        Err(()) => {
            return Err(());
        },
    }
    let nf = m.functions.len();
    let ghost base = out@;
    let mut k: usize = 0;
    while k < nf
        invariant
            k <= nf,
            nf == m.functions@.len(),
            out@ == base + fns_words(m.functions@.take(k as int)),
            forall|p: int| 0 <= p < k ==> fn_fits(#[trigger] m.functions@[p]),
        decreases nf - k,
    {
        let ghost pre = m.functions@.take(k as int);
        proof {
            assert(m.functions@.take(k + 1).drop_last() =~= pre);
            assert(m.functions@.take(k + 1).last() == m.functions@[k as int]);
        }
        let f = &m.functions[k];
        match push_opt_instr_words(&mut out, &f.def) {
            Ok(()) => {},
            Err(()) => {
                return Err(());
            },
        }
        match push_instrs_words(&mut out, &f.parameters) {
            Ok(()) => {},
            Err(()) => {
                return Err(());
            },
        }
        let nb = f.blocks.len();
        let ghost fbase = out@;
        let mut bi: usize = 0;
        while bi < nb
            invariant
                bi <= nb,
                k < nf,
                nb == m.functions@[k as int].blocks@.len(),
                out@ == fbase + blocks_words(m.functions@[k as int].blocks@.take(bi as int)),
                forall|p: int|
                    0 <= p < bi ==> opt_instr_fits(
                        (#[trigger] m.functions@[k as int].blocks@[p]).label,
                    ) && instrs_fit(m.functions@[k as int].blocks@[p].instructions@),
            decreases nb - bi,
        {
            let ghost bpre = m.functions@[k as int].blocks@.take(bi as int);
            proof {
                assert(m.functions@[k as int].blocks@.take(bi + 1).drop_last() =~= bpre);
                assert(m.functions@[k as int].blocks@.take(bi + 1).last()
                    == m.functions@[k as int].blocks@[bi as int]);
            }
            let blk = &f.blocks[bi];
            match push_opt_instr_words(&mut out, &blk.label) {
                Ok(()) => {},
                Err(()) => {
                    return Err(());
                },
            }
            match push_instrs_words(&mut out, &blk.instructions) {
                Ok(()) => {},
                Err(()) => {
                    return Err(());
                },
            }
            bi += 1;
        }
        proof {
            assert(m.functions@[k as int].blocks@.take(nb as int) =~= m.functions@[k as int].blocks@);
        }
        match push_opt_instr_words(&mut out, &f.end) {
            Ok(()) => {},
            Err(()) => {
                return Err(());
            },
        }
        k += 1;
    }
    proof {
        assert(m.functions@.take(nf as int) =~= m.functions@);
    }
    Ok(out)
}

} // verus!
