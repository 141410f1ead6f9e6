//! Structural comparison of SPIR-V functions modulo a consistent renaming of
//! ids. Two modules are considered equal when there is one bijective mapping
//! between their numeric ids under which every instruction (opcode, result
//! type, result id, operands) matches. The pairing is discovered greedily:
//! the first occurrence of a pair of ids fixes their pairing, and any later
//! occurrence that contradicts it makes the whole comparison fail.

use vstd::prelude::*;

use crate::spirv::SpirvBlock;
use crate::spirv::SpirvFunction;
use crate::spirv::SpirvInstruction;
use crate::spirv::SpirvOperand;

verus! {

/// A recorded pairing is well formed when it is a partial bijection: no left
/// id occurs in two pairs, and no right id does.
pub open spec fn pairing_wf(m: Seq<(u32, u32)>) -> bool {
    forall|i: int, j: int|
        0 <= i < m.len() && 0 <= j < m.len() && i != j ==> (#[trigger] m[i]).0 != (#[trigger] m[j]).0
            && m[i].1 != m[j].1
}

/// The left id `t1` is already paired with something.
pub open spec fn maps_left(m: Seq<(u32, u32)>, t1: u32) -> bool {
    exists|i: int| 0 <= i < m.len() && (#[trigger] m[i]).0 == t1
}

/// The right id `t2` is already paired with something.
pub open spec fn maps_right(m: Seq<(u32, u32)>, t2: u32) -> bool {
    exists|i: int| 0 <= i < m.len() && (#[trigger] m[i]).1 == t2
}

/// The exact pair `(t1, t2)` is recorded.
pub open spec fn has_pair(m: Seq<(u32, u32)>, t1: u32, t2: u32) -> bool {
    exists|i: int| 0 <= i < m.len() && #[trigger] m[i] == (t1, t2)
}

/// `(t1, t2)` is consistent with the pairing recorded so far: either it is
/// already recorded, or neither side has been paired with anything yet.
pub open spec fn pairing_consistent(m: Seq<(u32, u32)>, t1: u32, t2: u32) -> bool {
    has_pair(m, t1, t2) || (!maps_left(m, t1) && !maps_right(m, t2))
}

/// The pairing after `(t1, t2)` has been checked: it grows exactly when the
/// pair is new and consistent, and is unchanged otherwise.
pub open spec fn pairing_extend(m: Seq<(u32, u32)>, t1: u32, t2: u32) -> Seq<(u32, u32)> {
    if !has_pair(m, t1, t2) && pairing_consistent(m, t1, t2) {
        m.push((t1, t2))
    } else {
        m
    }
}

/// Once `(t1, t2)` is recorded, any pairing that reuses exactly one side of
/// it is inconsistent: an id never acquires a second partner, and the
/// comparison therefore rejects a module in which one id would have to map
/// to two different ids.
pub proof fn lemma_pairing_exclusive(m: Seq<(u32, u32)>, t1: u32, t2: u32, u1: u32, u2: u32)
    requires
        pairing_wf(m),
        has_pair(m, t1, t2),
        (u1 == t1) != (u2 == t2),
    ensures
        !pairing_consistent(m, u1, u2),
{
    let i = choose|i: int| 0 <= i < m.len() && #[trigger] m[i] == (t1, t2);
    if has_pair(m, u1, u2) {
        let j = choose|j: int| 0 <= j < m.len() && #[trigger] m[j] == (u1, u2);
        assert(i != j);
        assert(m[i].0 != m[j].0 && m[i].1 != m[j].1);
    }
}

/// A consistent extension keeps the pairing a partial bijection.
pub proof fn lemma_pairing_extend_wf(m: Seq<(u32, u32)>, t1: u32, t2: u32)
    requires
        pairing_wf(m),
    ensures
        pairing_wf(pairing_extend(m, t1, t2)),
{
    let m2 = pairing_extend(m, t1, t2);
    if !has_pair(m, t1, t2) && pairing_consistent(m, t1, t2) {
        assert forall|i: int, j: int|
            0 <= i < m2.len() && 0 <= j < m2.len() && i != j implies (#[trigger] m2[i]).0 != (
        #[trigger] m2[j]).0 && m2[i].1 != m2[j].1 by {
            if i < m.len() && j < m.len() {
                assert(m[i].0 != m[j].0 && m[i].1 != m[j].1);
            } else if i < m.len() {
                assert(m2[j] == (t1, t2));
                assert(!maps_left(m, t1) && !maps_right(m, t2));
                assert(m[i].0 != t1 && m[i].1 != t2);
            } else {
                assert(m2[i] == (t1, t2));
                assert(!maps_left(m, t1) && !maps_right(m, t2));
                assert(m[j].0 != t1 && m[j].1 != t2);
            }
        }
    }
}

/// The pairing of ids discovered while two functions are compared. It is a
/// partial bijection between the id namespaces of the two modules, built up
/// one pair at a time.
pub struct EqMap {
    pairs: Vec<(u32, u32)>,
}

impl EqMap {
    /// The recorded pairs, in the order they were established.
    pub closed spec fn view(&self) -> Seq<(u32, u32)> {
        self.pairs@
    }

    /// The pairing is a partial bijection.
    pub open spec fn wf(&self) -> bool {
        pairing_wf(self@)
    }

    /// An empty pairing: no id of either module has a partner yet.
    pub fn new() -> (r: EqMap)
        ensures
            r@ == Seq::<(u32, u32)>::empty(),
            r.wf(),
    {
        EqMap { pairs: Vec::new() }
    }

    /// Checks whether pairing `t1` with `t2` is consistent with everything
    /// recorded so far, and records the pair when both sides are fresh.
    pub fn is_equal(&mut self, t1: u32, t2: u32) -> (r: bool)
        requires
            old(self).wf(),
        ensures
            final(self).wf(),
            r == pairing_consistent(old(self)@, t1, t2),
            final(self)@ == pairing_extend(old(self)@, t1, t2),
    {
        let n = self.pairs.len();
        let mut i: usize = 0;
        while i < n
            invariant
                n == self.pairs.len(),
                0 <= i <= n,
                self == old(self),
                pairing_wf(self@),
                forall|j: int|
                    0 <= j < i ==> (#[trigger] self@[j]).0 != t1 && self@[j].1 != t2,
            decreases n - i,
        {
            let (a, b) = self.pairs[i];
            if a == t1 || b == t2 {
                let r = a == t1 && b == t2;
                proof {
                    if r {
                        assert(has_pair(self@, t1, t2));
                    } else {
                        assert(maps_left(self@, t1) || maps_right(self@, t2));
                        assert(!has_pair(self@, t1, t2)) by {
                            if has_pair(self@, t1, t2) {
                                let j = choose|j: int|
                                    0 <= j < self@.len() && #[trigger] self@[j] == (t1, t2);
                                assert(j != i as int);
                                assert(self@[i as int].0 != self@[j].0 && self@[i as int].1
                                    != self@[j].1);
                            }
                        }
                    }
                }
                return r;
            }
            i += 1;
        }
        proof {
            assert(!maps_left(self@, t1));
            assert(!maps_right(self@, t2));
            lemma_pairing_extend_wf(self@, t1, t2);
        }
        self.pairs.push((t1, t2));
        true
    }
}

/// How one pair of operands fares under the current pairing: whether they
/// match, and the pairing afterwards. Ids are matched through the pairing;
/// literals must be equal outright; operands of different kinds never match.
pub open spec fn operand_step(m: Seq<(u32, u32)>, o1: SpirvOperand, o2: SpirvOperand) -> (
    bool,
    Seq<(u32, u32)>,
) {
    match (o1, o2) {
        (SpirvOperand::IdRef(a), SpirvOperand::IdRef(b)) => (
            pairing_consistent(m, a, b),
            pairing_extend(m, a, b),
        ),
        (SpirvOperand::IdScope(a), SpirvOperand::IdScope(b)) => (
            pairing_consistent(m, a, b),
            pairing_extend(m, a, b),
        ),
        (SpirvOperand::IdMemorySemantics(a), SpirvOperand::IdMemorySemantics(b)) => (
            pairing_consistent(m, a, b),
            pairing_extend(m, a, b),
        ),
        (SpirvOperand::LiteralU32(a), SpirvOperand::LiteralU32(b)) => (a == b, m),
        (SpirvOperand::LiteralU64(a), SpirvOperand::LiteralU64(b)) => (a == b, m),
        _ => (false, m),
    }
}

/// Operand lists match elementwise, threading the pairing left to right and
/// stopping at the first mismatch. Lists of different lengths never match.
pub open spec fn operands_step(
    m: Seq<(u32, u32)>,
    s1: Seq<SpirvOperand>,
    s2: Seq<SpirvOperand>,
) -> (bool, Seq<(u32, u32)>)
    decreases s1.len(),
{
    if s1.len() != s2.len() {
        (false, m)
    } else if s1.len() == 0 {
        (true, m)
    } else {
        let (ok, m1) = operand_step(m, s1[0], s2[0]);
        if !ok {
            (false, m1)
        } else {
            operands_step(m1, s1.drop_first(), s2.drop_first())
        }
    }
}

/// Optional result ids match when both are absent, or both present and
/// consistently paired.
pub open spec fn option_word_step(m: Seq<(u32, u32)>, o1: Option<u32>, o2: Option<u32>) -> (
    bool,
    Seq<(u32, u32)>,
) {
    match (o1, o2) {
        (Some(a), Some(b)) => (pairing_consistent(m, a, b), pairing_extend(m, a, b)),
        (None, None) => (true, m),
        _ => (false, m),
    }
}

/// Two instructions match when their opcodes are equal and their result
/// types, result ids and operands match in order under the pairing.
pub open spec fn instr_step(m: Seq<(u32, u32)>, i1: SpirvInstruction, i2: SpirvInstruction) -> (
    bool,
    Seq<(u32, u32)>,
) {
    if i1.opcode != i2.opcode {
        (false, m)
    } else {
        let (ok_t, m_t) = option_word_step(m, i1.result_type, i2.result_type);
        if !ok_t {
            (false, m_t)
        } else {
            let (ok_r, m_r) = option_word_step(m_t, i1.result_id, i2.result_id);
            if !ok_r {
                (false, m_r)
            } else {
                operands_step(m_r, i1.operands@, i2.operands@)
            }
        }
    }
}

/// Instruction lists match elementwise under the threaded pairing.
pub open spec fn instrs_step(
    m: Seq<(u32, u32)>,
    s1: Seq<SpirvInstruction>,
    s2: Seq<SpirvInstruction>,
) -> (bool, Seq<(u32, u32)>)
    decreases s1.len(),
{
    if s1.len() != s2.len() {
        (false, m)
    } else if s1.len() == 0 {
        (true, m)
    } else {
        let (ok, m1) = instr_step(m, s1[0], s2[0]);
        if !ok {
            (false, m1)
        } else {
            instrs_step(m1, s1.drop_first(), s2.drop_first())
        }
    }
}

/// Optional instructions match when both are absent, or both present and
/// matching. One side present and the other absent is a structural mismatch
/// and the comparison rejects it.
pub open spec fn option_instr_step(
    m: Seq<(u32, u32)>,
    o1: Option<SpirvInstruction>,
    o2: Option<SpirvInstruction>,
) -> (bool, Seq<(u32, u32)>) {
    match (o1, o2) {
        (Some(a), Some(b)) => instr_step(m, a, b),
        (None, None) => (true, m),
        _ => (false, m),
    }
}

/// A block matches when its label and its instructions match in order.
pub open spec fn block_step(m: Seq<(u32, u32)>, b1: SpirvBlock, b2: SpirvBlock) -> (
    bool,
    Seq<(u32, u32)>,
) {
    let (ok, m1) = option_instr_step(m, b1.label, b2.label);
    if !ok {
        (false, m1)
    } else {
        instrs_step(m1, b1.instructions@, b2.instructions@)
    }
}

/// Block lists match elementwise under the threaded pairing.
pub open spec fn blocks_step(m: Seq<(u32, u32)>, s1: Seq<SpirvBlock>, s2: Seq<SpirvBlock>) -> (
    bool,
    Seq<(u32, u32)>,
)
    decreases s1.len(),
{
    if s1.len() != s2.len() {
        (false, m)
    } else if s1.len() == 0 {
        (true, m)
    } else {
        let (ok, m1) = block_step(m, s1[0], s2[0]);
        if !ok {
            (false, m1)
        } else {
            blocks_step(m1, s1.drop_first(), s2.drop_first())
        }
    }
}

/// Two functions are structurally equal when, starting from an empty pairing,
/// their defining instruction, terminator, parameters and blocks all match.
pub open spec fn fn_equal(f1: SpirvFunction, f2: SpirvFunction) -> bool {
    let m0 = Seq::<(u32, u32)>::empty();
    let (ok_d, m_d) = option_instr_step(m0, f1.def, f2.def);
    if !ok_d {
        false
    } else {
        let (ok_e, m_e) = option_instr_step(m_d, f1.end, f2.end);
        if !ok_e {
            false
        } else {
            let (ok_p, m_p) = instrs_step(m_e, f1.parameters@, f2.parameters@);
            if !ok_p {
                false
            } else {
                blocks_step(m_p, f1.blocks@, f2.blocks@).0
            }
        }
    }
}

/// Two function lists are structurally equal when they have the same length
/// and corresponding functions are structurally equal, each under its own
/// pairing.
pub open spec fn fns_equal(s1: Seq<SpirvFunction>, s2: Seq<SpirvFunction>) -> bool {
    s1.len() == s2.len() && forall|i: int| 0 <= i < s1.len() ==> fn_equal(#[trigger] s1[i], s2[i])
}

/// Matches two ids through the pairing.
pub fn is_word_equal(t1: &u32, t2: &u32, map: &mut EqMap) -> (r: bool)
    requires
        old(map).wf(),
    ensures
        final(map).wf(),
        r == pairing_consistent(old(map)@, *t1, *t2),
        final(map)@ == pairing_extend(old(map)@, *t1, *t2),
{
    map.is_equal(*t1, *t2)
}

/// Matches two optional ids through the pairing.
pub fn is_option_equal(o1: &Option<u32>, o2: &Option<u32>, map: &mut EqMap) -> (r: bool)
    requires
        old(map).wf(),
    ensures
        final(map).wf(),
        r == option_word_step(old(map)@, *o1, *o2).0,
        final(map)@ == option_word_step(old(map)@, *o1, *o2).1,
{
    match (o1, o2) {
        (Some(t1), Some(t2)) => map.is_equal(*t1, *t2),
        (None, None) => true,
        _ => false,
    }
}

/// Matches one pair of operands through the pairing.
fn is_operand_equal(o1: &SpirvOperand, o2: &SpirvOperand, map: &mut EqMap) -> (r: bool)
    requires
        old(map).wf(),
    ensures
        final(map).wf(),
        r == operand_step(old(map)@, *o1, *o2).0,
        final(map)@ == operand_step(old(map)@, *o1, *o2).1,
{
    match (o1, o2) {
        (SpirvOperand::IdRef(a), SpirvOperand::IdRef(b)) => map.is_equal(*a, *b),
        (SpirvOperand::IdScope(a), SpirvOperand::IdScope(b)) => map.is_equal(*a, *b),
        (SpirvOperand::IdMemorySemantics(a), SpirvOperand::IdMemorySemantics(b)) => map.is_equal(
            *a,
            *b,
        ),
        (SpirvOperand::LiteralU32(a), SpirvOperand::LiteralU32(b)) => a == b,
        (SpirvOperand::LiteralU64(a), SpirvOperand::LiteralU64(b)) => a == b,
        _ => false,
    }
}

/// Matches two instructions: opcode, result type, result id, then operands.
#[verifier::loop_isolation(false)]
pub fn is_instr_equal(instr1: &SpirvInstruction, instr2: &SpirvInstruction, map: &mut EqMap) -> (r:
    bool)
    requires
        old(map).wf(),
    ensures
        final(map).wf(),
        r == instr_step(old(map)@, *instr1, *instr2).0,
        final(map)@ == instr_step(old(map)@, *instr1, *instr2).1,
{
    if instr1.opcode != instr2.opcode {
        return false;
    }
    if !is_option_equal(&instr1.result_type, &instr2.result_type, map) {
        return false;
    }
    if !is_option_equal(&instr1.result_id, &instr2.result_id, map) {
        return false;
    }
    let ghost m_r = map@;
    if instr1.operands.len() != instr2.operands.len() {
        return false;
    }
    let n = instr1.operands.len();
    proof {
        assert(instr1.operands@.skip(0) =~= instr1.operands@);
        assert(instr2.operands@.skip(0) =~= instr2.operands@);
    }
    let mut i: usize = 0;
    while i < n
        invariant
            n == instr1.operands.len(),
            n == instr2.operands.len(),
            0 <= i <= n,
            map.wf(),
            operands_step(m_r, instr1.operands@, instr2.operands@) == operands_step(
                map@,
                instr1.operands@.skip(i as int),
                instr2.operands@.skip(i as int),
            ),
        decreases n - i,
    {
        let ghost s1 = instr1.operands@.skip(i as int);
        let ghost s2 = instr2.operands@.skip(i as int);
        proof {
            assert(s1[0] == instr1.operands@[i as int]);
            assert(s2[0] == instr2.operands@[i as int]);
        }
        let ghost m_pre = map@;
        let ok = is_operand_equal(&instr1.operands[i], &instr2.operands[i], map);
        if !ok {
            proof {
                assert(operands_step(m_pre, s1, s2) == (false, map@));
            }
            return false;
        }
        proof {
            assert(s1.drop_first() =~= instr1.operands@.skip(i + 1));
            assert(s2.drop_first() =~= instr2.operands@.skip(i + 1));
        }
        i += 1;
    }
    proof {
        assert(instr1.operands@.skip(n as int) =~= Seq::<SpirvOperand>::empty());
        assert(instr2.operands@.skip(n as int) =~= Seq::<SpirvOperand>::empty());
    }
    true
}

/// Matches two optional instructions; exactly one present is a mismatch.
fn is_option_instr_equal(
    o1: &Option<SpirvInstruction>,
    o2: &Option<SpirvInstruction>,
    map: &mut EqMap,
) -> (r: bool)
    requires
        old(map).wf(),
    ensures
        final(map).wf(),
        r == option_instr_step(old(map)@, *o1, *o2).0,
        final(map)@ == option_instr_step(old(map)@, *o1, *o2).1,
{
    match (o1, o2) {
        (Some(i1), Some(i2)) => is_instr_equal(i1, i2, map),
        (None, None) => true,
        _ => false,
    }
}

/// Matches two instruction lists elementwise.
#[verifier::loop_isolation(false)]
fn are_instrs_equal(s1: &Vec<SpirvInstruction>, s2: &Vec<SpirvInstruction>, map: &mut EqMap) -> (r:
    bool)
    requires
        old(map).wf(),
    ensures
        final(map).wf(),
        r == instrs_step(old(map)@, s1@, s2@).0,
        final(map)@ == instrs_step(old(map)@, s1@, s2@).1,
{
    if s1.len() != s2.len() {
        return false;
    }
    let ghost m0 = map@;
    let n = s1.len();
    proof {
        assert(s1@.skip(0) =~= s1@);
        assert(s2@.skip(0) =~= s2@);
    }
    let mut i: usize = 0;
    while i < n
        invariant
            n == s1.len(),
            n == s2.len(),
            0 <= i <= n,
            map.wf(),
            instrs_step(m0, s1@, s2@) == instrs_step(map@, s1@.skip(i as int), s2@.skip(i as int)),
        decreases n - i,
    {
        let ghost t1 = s1@.skip(i as int);
        let ghost t2 = s2@.skip(i as int);
        proof {
            assert(t1[0] == s1@[i as int]);
            assert(t2[0] == s2@[i as int]);
        }
        let ghost m_pre = map@;
        let ok = is_instr_equal(&s1[i], &s2[i], map);
        if !ok {
            proof {
                assert(instrs_step(m_pre, t1, t2) == (false, map@));
            }
            return false;
        }
        proof {
            assert(t1.drop_first() =~= s1@.skip(i + 1));
            assert(t2.drop_first() =~= s2@.skip(i + 1));
        }
        i += 1;
    }
    proof {
        assert(s1@.skip(n as int) =~= Seq::<SpirvInstruction>::empty());
        assert(s2@.skip(n as int) =~= Seq::<SpirvInstruction>::empty());
    }
    true
}

/// Matches two blocks: their labels, then their instructions in order.
pub fn is_block_equal(b1: &SpirvBlock, b2: &SpirvBlock, map: &mut EqMap) -> (r: bool)
    requires
        old(map).wf(),
    ensures
        final(map).wf(),
        r == block_step(old(map)@, *b1, *b2).0,
        final(map)@ == block_step(old(map)@, *b1, *b2).1,
{
    if !is_option_instr_equal(&b1.label, &b2.label, map) {
        return false;
    }
    are_instrs_equal(&b1.instructions, &b2.instructions, map)
}

/// Structural equality of two functions under a fresh pairing: the defining
/// instruction, the terminator, the parameters and every block must match
/// under one consistent renaming of ids.
#[verifier::loop_isolation(false)]
pub fn is_spirv_fn_equal(fn1: &SpirvFunction, fn2: &SpirvFunction) -> (r: bool)
    ensures
        r == fn_equal(*fn1, *fn2),
{
    let mut map = EqMap::new();
    if !is_option_instr_equal(&fn1.def, &fn2.def, &mut map) {
        return false;
    }
    if !is_option_instr_equal(&fn1.end, &fn2.end, &mut map) {
        return false;
    }
    if !are_instrs_equal(&fn1.parameters, &fn2.parameters, &mut map) {
        return false;
    }
    if fn1.blocks.len() != fn2.blocks.len() {
        return false;
    }
    let ghost m_p = map@;
    let n = fn1.blocks.len();
    proof {
        assert(fn1.blocks@.skip(0) =~= fn1.blocks@);
        assert(fn2.blocks@.skip(0) =~= fn2.blocks@);
    }
    let mut i: usize = 0;
    while i < n
        invariant
            n == fn1.blocks.len(),
            n == fn2.blocks.len(),
            0 <= i <= n,
            map.wf(),
            blocks_step(m_p, fn1.blocks@, fn2.blocks@) == blocks_step(
                map@,
                fn1.blocks@.skip(i as int),
                fn2.blocks@.skip(i as int),
            ),
        decreases n - i,
    {
        let ghost t1 = fn1.blocks@.skip(i as int);
        let ghost t2 = fn2.blocks@.skip(i as int);
        proof {
            assert(t1[0] == fn1.blocks@[i as int]);
            assert(t2[0] == fn2.blocks@[i as int]);
        }
        let ghost m_pre = map@;
        let ok = is_block_equal(&fn1.blocks[i], &fn2.blocks[i], &mut map);
        if !ok {
            proof {
                assert(blocks_step(m_pre, t1, t2) == (false, map@));
            }
            return false;
        }
        proof {
            assert(t1.drop_first() =~= fn1.blocks@.skip(i + 1));
            assert(t2.drop_first() =~= fn2.blocks@.skip(i + 1));
        }
        i += 1;
    }
    proof {
        assert(fn1.blocks@.skip(n as int) =~= Seq::<SpirvBlock>::empty());
        assert(fn2.blocks@.skip(n as int) =~= Seq::<SpirvBlock>::empty());
    }
    true
}

/// Structural equality of two function lists: same length, and every pair of
/// corresponding functions structurally equal under its own renaming.
#[verifier::loop_isolation(false)]
pub fn is_spirv_fns_equal(fns1: &Vec<SpirvFunction>, fns2: &Vec<SpirvFunction>) -> (r: bool)
    ensures
        r == fns_equal(fns1@, fns2@),
{
    if fns1.len() != fns2.len() {
        return false;
    }
    let n = fns1.len();
    let mut i: usize = 0;
    while i < n
        invariant
            n == fns1.len(),
            n == fns2.len(),
            0 <= i <= n,
            forall|j: int| 0 <= j < i ==> fn_equal(#[trigger] fns1@[j], fns2@[j]),
        decreases n - i,
    {
        if !is_spirv_fn_equal(&fns1[i], &fns2[i]) {
            return false;
        }
        i += 1;
    }
    true
}

} // verus!
