//! Id allocation and the type/constant pools of the code generator. A
//! logical type or constant is declared once: asking for it again returns
//! the id of the first declaration and adds nothing, so the emitted module
//! never holds two declarations of the same logical type.

use vstd::prelude::*;

verus! {

/// A logical SPIR-V type, flattened: compound types refer to the ids of
/// their component types, which are interned first.
#[derive(Clone, Copy, PartialEq, Eq, Structural)]
pub enum TypeKey {
    Void,
    Bool,
    /// An integer type of the given bit width; `signed` mirrors the PTX
    /// distinction even though SPIR-V kernels carry signedness on
    /// operations.
    Int { width: u32, signed: bool },
    Float { width: u32 },
    /// A vector of `count` elements of the interned element type.
    Vector { elem: u32, count: u32 },
    /// A pointer in the given storage class to the interned pointee type.
    Pointer { storage: u32, pointee: u32 },
}

/// The pool of interned types: each entry pairs a key with the id of its
/// one declaration.
pub struct TypePool {
    entries: Vec<(TypeKey, u32)>,
}

/// The pool entries hold pairwise distinct keys and pairwise distinct ids.
pub open spec fn pool_wf(entries: Seq<(TypeKey, u32)>) -> bool {
    forall|i: int, j: int|
        0 <= i < entries.len() && 0 <= j < entries.len() && i != j ==> (
        #[trigger] entries[i]).0 != (#[trigger] entries[j]).0 && entries[i].1 != entries[j].1
}

/// The key is already interned.
pub open spec fn pool_has(entries: Seq<(TypeKey, u32)>, key: TypeKey) -> bool {
    exists|i: int| 0 <= i < entries.len() && (#[trigger] entries[i]).0 == key
}

/// The id under which the key was interned.
pub open spec fn pool_id_of(entries: Seq<(TypeKey, u32)>, key: TypeKey) -> u32 {
    entries[choose|i: int| 0 <= i < entries.len() && (#[trigger] entries[i]).0 == key].1
}

impl TypePool {
    /// The interned entries in declaration order.
    pub closed spec fn view(&self) -> Seq<(TypeKey, u32)> {
        self.entries@
    }

    /// The pool never holds a key or an id twice.
    pub open spec fn wf(&self) -> bool {
        pool_wf(self@)
    }

    /// An empty pool.
    pub fn new() -> (r: TypePool)
        ensures
            r@ == Seq::<(TypeKey, u32)>::empty(),
            r.wf(),
    {
        TypePool { entries: Vec::new() }
    }

    /// How many types have been declared.
    pub fn len(&self) -> (r: usize)
        ensures
            r == self@.len(),
    {
        self.entries.len()
    }

    /// The entry at one position, for walking the pool when the type
    /// section is emitted.
    pub fn entry_at(&self, i: usize) -> (r: (TypeKey, u32))
        requires
            i < self@.len(),
        ensures
            r == self@[i as int],
    {
        self.entries[i]
    }

    /// Looks `key` up without changing anything.
    #[verifier::loop_isolation(false)]
    pub fn intern_probe(&self, key: TypeKey) -> (r: Option<u32>)
        requires
            self.wf(),
        ensures
            r is Some <==> pool_has(self@, key),
            r is Some ==> r.unwrap() == pool_id_of(self@, key),
    {
        let n = self.entries.len();
        let mut i: usize = 0;
        while i < n
            invariant
                i <= n,
                forall|j: int| 0 <= j < i ==> (#[trigger] self@[j]).0 != key,
            decreases n - i,
        {
            let (k, id) = self.entries[i];
            if k == key {
                proof {
                    assert(pool_has(self@, key));
                    let w = choose|w: int| 0 <= w < self@.len() && (#[trigger] self@[w]).0 == key;
                    if w != i as int {
                        assert(self@[w].0 != self@[i as int].0);
                    }
                }
                return Some(id);
            }
            i += 1;
        }
        None
    }

    /// Interns `key`: returns the id of its earlier declaration when there
    /// is one and changes nothing, and otherwise records the key under the
    /// fresh id `fresh` and returns that. The caller supplies a fresh id
    /// that no entry uses yet.
    #[verifier::loop_isolation(false)]
    pub fn intern(&mut self, key: TypeKey, fresh: u32) -> (r: (u32, bool))
        requires
            old(self).wf(),
            forall|i: int| 0 <= i < old(self)@.len() ==> (#[trigger] old(self)@[i]).1 != fresh,
        ensures
            final(self).wf(),
            pool_has(final(self)@, key),
            r.0 == pool_id_of(final(self)@, key),
            r.1 == !pool_has(old(self)@, key),
            pool_has(old(self)@, key) ==> final(self)@ == old(self)@ && r.0 == pool_id_of(
                old(self)@,
                key,
            ),
            !pool_has(old(self)@, key) ==> final(self)@ == old(self)@.push((key, fresh)) && r.0
                == fresh,
    {
        let n = self.entries.len();
        let mut i: usize = 0;
        while i < n
            invariant
                i <= n,
                n == self@.len(),
                self == old(self),
                forall|j: int| 0 <= j < i ==> (#[trigger] self@[j]).0 != key,
            decreases n - i,
        {
            let (k, id) = self.entries[i];
            if k == key {
                proof {
                    assert(pool_has(self@, key));
                    let w = choose|w: int| 0 <= w < self@.len() && (#[trigger] self@[w]).0 == key;
                    if w != i as int {
                        assert(self@[w].0 != self@[i as int].0);
                    }
                }
                return (id, false);
            }
            i += 1;
        }
        proof {
            assert(!pool_has(self@, key));
        }
        self.entries.push((key, fresh));
        proof {
            assert forall|a: int, b: int|
                0 <= a < self@.len() && 0 <= b < self@.len() && a != b implies (
            #[trigger] self@[a]).0 != (#[trigger] self@[b]).0 && self@[a].1 != self@[b].1 by {
                if a < self@.len() - 1 && b < self@.len() - 1 {
                    assert(old(self)@[a].0 != old(self)@[b].0 && old(self)@[a].1 != old(
                        self,
                    )@[b].1);
                }
            }
            assert(self@[self@.len() - 1].0 == key);
            assert(pool_has(self@, key));
            let w = choose|w: int| 0 <= w < self@.len() && (#[trigger] self@[w]).0 == key;
            if w != self@.len() - 1 {
                assert(self@[w] == old(self)@[w]);
            }
        }
        (fresh, true)
    }
}

/// Interning the same key twice yields the same id, and the second request
/// declares nothing new: one declaration serves every use site.
pub proof fn lemma_intern_idempotent(entries: Seq<(TypeKey, u32)>, key: TypeKey)
    requires
        pool_wf(entries),
        pool_has(entries, key),
    ensures
        forall|i: int|
            0 <= i < entries.len() && (#[trigger] entries[i]).0 == key ==> entries[i].1
                == pool_id_of(entries, key),
{
    let w = choose|w: int| 0 <= w < entries.len() && (#[trigger] entries[w]).0 == key;
    assert forall|i: int|
        0 <= i < entries.len() && (#[trigger] entries[i]).0 == key implies entries[i].1
        == pool_id_of(entries, key) by {
        if i != w {
            assert(entries[i].0 != entries[w].0);
        }
    }
}

/// The pool of interned scalar constants: (type id, raw bits) pairs mapped
/// to the id of their one declaration. It obeys the same discipline as the
/// type pool.
pub struct ConstPool {
    entries: Vec<((u32, u64), u32)>,
}

/// The constant pool entries hold pairwise distinct keys and ids.
pub open spec fn cpool_wf(entries: Seq<((u32, u64), u32)>) -> bool {
    forall|i: int, j: int|
        0 <= i < entries.len() && 0 <= j < entries.len() && i != j ==> (
        #[trigger] entries[i]).0 != (#[trigger] entries[j]).0 && entries[i].1 != entries[j].1
}

/// The (type, bits) key is already interned.
pub open spec fn cpool_has(entries: Seq<((u32, u64), u32)>, key: (u32, u64)) -> bool {
    exists|i: int| 0 <= i < entries.len() && (#[trigger] entries[i]).0 == key
}

/// The id under which the key was interned.
pub open spec fn cpool_id_of(entries: Seq<((u32, u64), u32)>, key: (u32, u64)) -> u32 {
    entries[choose|i: int| 0 <= i < entries.len() && (#[trigger] entries[i]).0 == key].1
}

impl ConstPool {
    /// The interned entries in declaration order.
    pub closed spec fn view(&self) -> Seq<((u32, u64), u32)> {
        self.entries@
    }

    /// The pool never holds a key or an id twice.
    pub open spec fn wf(&self) -> bool {
        cpool_wf(self@)
    }

    /// An empty pool.
    pub fn new() -> (r: ConstPool)
        ensures
            r@ == Seq::<((u32, u64), u32)>::empty(),
            r.wf(),
    {
        ConstPool { entries: Vec::new() }
    }

    /// How many constants have been declared.
    pub fn len(&self) -> (r: usize)
        ensures
            r == self@.len(),
    {
        self.entries.len()
    }

    /// The entry at one position.
    pub fn entry_at(&self, i: usize) -> (r: ((u32, u64), u32))
        requires
            i < self@.len(),
        ensures
            r == self@[i as int],
    {
        self.entries[i]
    }

    /// Looks `key` up without changing anything.
    #[verifier::loop_isolation(false)]
    pub fn intern_probe(&self, key: (u32, u64)) -> (r: Option<u32>)
        requires
            self.wf(),
        ensures
            r is Some <==> cpool_has(self@, key),
            r is Some ==> r.unwrap() == cpool_id_of(self@, key),
    {
        let n = self.entries.len();
        let mut i: usize = 0;
        while i < n
            invariant
                i <= n,
                forall|j: int| 0 <= j < i ==> (#[trigger] self@[j]).0 != key,
            decreases n - i,
        {
            let (k, id) = self.entries[i];
            if k.0 == key.0 && k.1 == key.1 {
                proof {
                    assert(self@[i as int].0 == key);
                    assert(cpool_has(self@, key));
                    let w = choose|w: int| 0 <= w < self@.len() && (#[trigger] self@[w]).0 == key;
                    if w != i as int {
                        assert(self@[w].0 != self@[i as int].0);
                    }
                }
                return Some(id);
            }
            proof {
                assert(self@[i as int].0 != key);
            }
            i += 1;
        }
        None
    }

    /// Interns the constant `key`, exactly as `TypePool::intern` does for
    /// types.
    #[verifier::loop_isolation(false)]
    pub fn intern(&mut self, key: (u32, u64), fresh: u32) -> (r: (u32, bool))
        requires
            old(self).wf(),
            forall|i: int| 0 <= i < old(self)@.len() ==> (#[trigger] old(self)@[i]).1 != fresh,
        ensures
            final(self).wf(),
            cpool_has(final(self)@, key),
            r.0 == cpool_id_of(final(self)@, key),
            r.1 == !cpool_has(old(self)@, key),
            cpool_has(old(self)@, key) ==> final(self)@ == old(self)@ && r.0 == cpool_id_of(
                old(self)@,
                key,
            ),
            !cpool_has(old(self)@, key) ==> final(self)@ == old(self)@.push((key, fresh)) && r.0
                == fresh,
    {
        let n = self.entries.len();
        let mut i: usize = 0;
        while i < n
            invariant
                i <= n,
                n == self@.len(),
                self == old(self),
                forall|j: int| 0 <= j < i ==> (#[trigger] self@[j]).0 != key,
            decreases n - i,
        {
            let (k, id) = self.entries[i];
            if k.0 == key.0 && k.1 == key.1 {
                proof {
                    assert(self@[i as int].0 == key);
                    assert(cpool_has(self@, key));
                    let w = choose|w: int| 0 <= w < self@.len() && (#[trigger] self@[w]).0 == key;
                    if w != i as int {
                        assert(self@[w].0 != self@[i as int].0);
                    }
                }
                return (id, false);
            }
            proof {
                assert(self@[i as int].0 != key);
            }
            i += 1;
        }
        proof {
            assert(!cpool_has(self@, key));
        }
        self.entries.push((key, fresh));
        proof {
            assert forall|a: int, b: int|
                0 <= a < self@.len() && 0 <= b < self@.len() && a != b implies (
            #[trigger] self@[a]).0 != (#[trigger] self@[b]).0 && self@[a].1 != self@[b].1 by {
                if a < self@.len() - 1 && b < self@.len() - 1 {
                    assert(old(self)@[a].0 != old(self)@[b].0 && old(self)@[a].1 != old(
                        self,
                    )@[b].1);
                }
            }
            assert(self@[self@.len() - 1].0 == key);
            assert(cpool_has(self@, key));
            let w = choose|w: int| 0 <= w < self@.len() && (#[trigger] self@[w]).0 == key;
            if w != self@.len() - 1 {
                assert(self@[w] == old(self)@[w]);
            }
        }
        (fresh, true)
    }
}

/// A function-type key: the interned parameter type ids and the interned
/// return type id.
pub open spec fn fkey_of(entry: (Vec<u32>, u32, u32)) -> (Seq<u32>, u32) {
    (entry.0@, entry.1)
}

/// The function-type pool entries hold pairwise distinct keys and ids.
pub open spec fn fpool_wf(entries: Seq<(Vec<u32>, u32, u32)>) -> bool {
    forall|i: int, j: int|
        0 <= i < entries.len() && 0 <= j < entries.len() && i != j ==> fkey_of(
            #[trigger] entries[i],
        ) != fkey_of(#[trigger] entries[j]) && entries[i].2 != entries[j].2
}

/// The (params, ret) key is already interned.
pub open spec fn fpool_has(entries: Seq<(Vec<u32>, u32, u32)>, key: (Seq<u32>, u32)) -> bool {
    exists|i: int| 0 <= i < entries.len() && fkey_of(#[trigger] entries[i]) == key
}

/// The id under which the key was interned.
pub open spec fn fpool_id_of(entries: Seq<(Vec<u32>, u32, u32)>, key: (Seq<u32>, u32)) -> u32 {
    entries[choose|i: int| 0 <= i < entries.len() && fkey_of(#[trigger] entries[i]) == key].2
}

/// Elementwise equality of two id lists.
fn ids_eq(a: &Vec<u32>, b: &Vec<u32>) -> (r: bool)
    ensures
        r == (a@ == b@),
{
    if a.len() != b.len() {
        return false;
    }
    let n = a.len();
    let mut i: usize = 0;
    while i < n
        invariant
            i <= n,
            n == a@.len() == b@.len(),
            forall|k: int| 0 <= k < i ==> a@[k] == b@[k],
        decreases n - i,
    {
        if a[i] != b[i] {
            return false;
        }
        i += 1;
    }
    proof {
        assert(a@ =~= b@);
    }
    true
}

/// The pool of interned function types, keyed by parameter type ids and
/// return type id, under the same one-declaration discipline as the other
/// pools.
pub struct FnTypePool {
    entries: Vec<(Vec<u32>, u32, u32)>,
}

impl FnTypePool {
    /// The interned entries in declaration order.
    pub closed spec fn view(&self) -> Seq<(Vec<u32>, u32, u32)> {
        self.entries@
    }

    /// The pool never holds a key or an id twice.
    pub open spec fn wf(&self) -> bool {
        fpool_wf(self@)
    }

    /// An empty pool.
    pub fn new() -> (r: FnTypePool)
        ensures
            r@ == Seq::<(Vec<u32>, u32, u32)>::empty(),
            r.wf(),
    {
        FnTypePool { entries: Vec::new() }
    }

    /// How many function types have been declared.
    pub fn len(&self) -> (r: usize)
        ensures
            r == self@.len(),
    {
        self.entries.len()
    }

    /// The entry at one position.
    pub fn entry_at(&self, i: usize) -> (r: &(Vec<u32>, u32, u32))
        requires
            i < self@.len(),
        ensures
            *r == self@[i as int],
    {
        &self.entries[i]
    }

    /// Looks the function type up without changing anything.
    #[verifier::loop_isolation(false)]
    pub fn intern_probe(&self, params: &Vec<u32>, ret: u32) -> (r: Option<u32>)
        requires
            self.wf(),
        ensures
            r is Some <==> fpool_has(self@, (params@, ret)),
            r is Some ==> r.unwrap() == fpool_id_of(self@, (params@, ret)),
    {
        let ghost key = (params@, ret);
        let n = self.entries.len();
        let mut i: usize = 0;
        while i < n
            invariant
                i <= n,
                forall|j: int| 0 <= j < i ==> fkey_of(#[trigger] self@[j]) != key,
            decreases n - i,
        {
            let same = ids_eq(&self.entries[i].0, params) && self.entries[i].1 == ret;
            if same {
                proof {
                    assert(fkey_of(self@[i as int]) == key);
                    assert(fpool_has(self@, key));
                    let w = choose|w: int|
                        0 <= w < self@.len() && fkey_of(#[trigger] self@[w]) == key;
                    if w != i as int {
                        assert(fkey_of(self@[w]) != fkey_of(self@[i as int]));
                    }
                }
                return Some(self.entries[i].2);
            }
            i += 1;
        }
        None
    }

    /// Interns the function type, exactly as `TypePool::intern` does.
    #[verifier::loop_isolation(false)]
    pub fn intern(&mut self, params: Vec<u32>, ret: u32, fresh: u32) -> (r: (u32, bool))
        requires
            old(self).wf(),
            forall|i: int| 0 <= i < old(self)@.len() ==> (#[trigger] old(self)@[i]).2 != fresh,
        ensures
            final(self).wf(),
            fpool_has(final(self)@, (params@, ret)),
            r.0 == fpool_id_of(final(self)@, (params@, ret)),
            r.1 == !fpool_has(old(self)@, (params@, ret)),
            fpool_has(old(self)@, (params@, ret)) ==> final(self)@ == old(self)@ && r.0
                == fpool_id_of(old(self)@, (params@, ret)),
            !fpool_has(old(self)@, (params@, ret)) ==> final(self)@ == old(self)@.push(
                (params, ret, fresh),
            ) && r.0 == fresh,
    {
        let ghost key = (params@, ret);
        let n = self.entries.len();
        let mut i: usize = 0;
        while i < n
            invariant
                i <= n,
                n == self@.len(),
                self == old(self),
                forall|j: int| 0 <= j < i ==> fkey_of(#[trigger] self@[j]) != key,
            decreases n - i,
        {
            let same = ids_eq(&self.entries[i].0, &params) && self.entries[i].1 == ret;
            if same {
                proof {
                    assert(fkey_of(self@[i as int]) == key);
                    assert(fpool_has(self@, key));
                    let w = choose|w: int|
                        0 <= w < self@.len() && fkey_of(#[trigger] self@[w]) == key;
                    if w != i as int {
                        assert(fkey_of(self@[w]) != fkey_of(self@[i as int]));
                    }
                }
                return (self.entries[i].2, false);
            }
            i += 1;
        }
        proof {
            assert(!fpool_has(self@, key));
        }
        self.entries.push((params, ret, fresh));
        proof {
            assert forall|a: int, b: int|
                0 <= a < self@.len() && 0 <= b < self@.len() && a != b implies fkey_of(
                #[trigger] self@[a],
            ) != fkey_of(#[trigger] self@[b]) && self@[a].2 != self@[b].2 by {
                if a < self@.len() - 1 && b < self@.len() - 1 {
                    assert(fkey_of(old(self)@[a]) != fkey_of(old(self)@[b]) && old(self)@[a].2
                        != old(self)@[b].2);
                }
            }
            assert(fkey_of(self@[self@.len() - 1]) == key);
            assert(fpool_has(self@, key));
            let w = choose|w: int| 0 <= w < self@.len() && fkey_of(#[trigger] self@[w]) == key;
            if w != self@.len() - 1 {
                assert(self@[w] == old(self)@[w]);
            }
        }
        (fresh, true)
    }
}

} // verus!
