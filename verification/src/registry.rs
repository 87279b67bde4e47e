//! The module registry and the invocation layer: a single map from a
//! stable identifier to a loaded sandbox instance together with its
//! isolated execution store, and the one-call-per-request protocol that
//! runs the swap export through the ABI layer.

use vstd::prelude::*;

use crate::abi;
use crate::dex::{Error, PoolPair, PoolPrice, SwapResult, TokenAmount};
use crate::sandbox;
use crate::sandbox::DexData;

verus! {

/// A loaded sandbox module: the instance handle and its exclusive
/// execution store, kept together so that registration is atomic.
pub struct DexModule {
    store: wasmtime::Store<DexData>,
    instance: wasmtime::Instance,
    memory: wasmtime::Memory,
    swap_fn: sandbox::SwapFn,
}

/// The registry of loaded modules.  An identifier maps to at most one
/// entry; registering an identifier again replaces instance and store
/// as one unit.
pub struct Registry {
    entries: Vec<(String, DexModule)>,
}

/// Whether some entry of the sequence carries this identifier.
spec fn seq_contains_key(s: Seq<(String, DexModule)>, k: Seq<char>) -> bool {
    exists|n: int| 0 <= n < s.len() && s[n].0@ == k
}

/// Whether the entries carry pairwise distinct identifiers.
spec fn seq_keys_unique(s: Seq<(String, DexModule)>) -> bool {
    forall|p: int, q: int| 0 <= p < q < s.len() ==> s[p].0@ != s[q].0@
}

impl Registry {
    /// Whether an entry with this identifier is registered.
    pub closed spec fn contains_id(&self, id: Seq<char>) -> bool {
        seq_contains_key(self.entries@, id)
    }

    /// Identifiers are unique: at most one entry per id.
    pub closed spec fn well_formed(&self) -> bool {
        seq_keys_unique(self.entries@)
    }

    /// An empty registry, holding no module under any identifier.
    pub fn new() -> (r: Registry)
        ensures
            r.well_formed(),
            forall|id: Seq<char>| !r.contains_id(id),
    {
        Registry { entries: Vec::new() }
    }

    /// The slot an identifier is registered in, if any.
    fn resolve(&self, id: &String) -> (r: Option<usize>)
        ensures
            r matches Some(i) ==> i < self.entries@.len() && self.entries@[i as int].0@ == id@,
            r is None ==> !self.contains_id(id@),
    {
        let mut i: usize = 0;
        while i < self.entries.len()
            invariant
                i <= self.entries@.len(),
                forall|j: int| 0 <= j < i ==> self.entries@[j].0@ != id@,
            decreases self.entries@.len() - i,
        {
            if self.entries[i].0 == *id {
                proof {
                    assert(seq_contains_key(self.entries@, id@));
                }
                return Some(i);
            }
            i = i + 1;
        }
        None
    }

    /// Whether this identifier is registered.
    pub fn contains(&self, id: &String) -> (r: bool)
        ensures
            r == self.contains_id(id@),
    {
        match self.resolve(id) {
            Some(i) => {
                proof {
                    assert(self.entries@[i as int].0@ == id@);
                }
                true
            },
            None => false,
        }
    }

    /// Loads and instantiates a sandbox module from its binary form and
    /// registers it under `id`, replacing any prior entry for that id as
    /// one unit.  On any engine failure nothing is registered and the
    /// registry is unchanged.
    pub fn register(&mut self, id: &String, module_bytes: &[u8]) -> (r: Result<(), Error>)
        requires
            old(self).well_formed(),
        ensures
            final(self).well_formed(),
            r is Ok ==> forall|k: Seq<char>|
                final(self).contains_id(k) <==> (old(self).contains_id(k) || k == id@),
            r is Err ==> *final(self) == *old(self) && r == Err::<(), Error>(
                Error::RuntimeError,
            ),
    {
        let engine = match sandbox::sandbox_engine() {
            Ok(e) => e,
            Err(_) => {
                return Err(Error::RuntimeError);
            },
        };
        let module = match sandbox::compile_module(&engine, module_bytes) {
            Ok(m) => m,
            Err(_) => {
                return Err(Error::RuntimeError);
            },
        };
        let linker = sandbox::linker_new(&engine);
        let mut store = sandbox::store_new(&engine);
        let instance = match sandbox::instantiate(&linker, &mut store, &module) {
            Ok(inst) => inst,
            Err(_) => {
                return Err(Error::RuntimeError);
            },
        };
        let memory = match sandbox::get_memory(&instance, &mut store, "memory") {
            Some(m) => m,
            None => {
                return Err(Error::RuntimeError);
            },
        };
        let swap_fn = match sandbox::get_swap_func(&instance, &mut store, "swap") {
            Ok(f) => f,
            Err(_) => {
                return Err(Error::RuntimeError);
            },
        };
        let entry = DexModule { store, instance, memory, swap_fn };

        match self.resolve(id) {
            Some(i) => {
                self.entries.remove(i);
                self.entries.insert(i, (id.clone(), entry));
                proof {
                    lemma_replace_at(old(self).entries@, self.entries@, i as int, id@);
                }
            },
            None => {
                self.entries.push((id.clone(), entry));
                proof {
                    lemma_append_new(old(self).entries@, self.entries@, id@);
                }
            },
        }
        Ok(())
    }

    /// Resolves the module registered under `id`, runs its swap export
    /// once on the flattened arguments, and decodes the discriminated
    /// result.  An unregistered identifier is `NotFoundError`; a trap,
    /// an unreadable result block or an undecodable one is
    /// `RuntimeError`; an error the sandboxed swap itself reports is
    /// carried through intact.  The set of registered identifiers never
    /// changes.
    pub fn invoke(
        &mut self,
        id: &String,
        poolpair: PoolPair,
        token_in: TokenAmount,
        max_price: PoolPrice,
        post_bayfront_gardens: bool,
    ) -> (r: Result<SwapResult, Error>)
        requires
            old(self).well_formed(),
        ensures
            final(self).well_formed(),
            forall|k: Seq<char>| final(self).contains_id(k) <==> old(self).contains_id(k),
            !old(self).contains_id(id@) ==> r == Err::<SwapResult, Error>(Error::NotFoundError),
    {
        let slot = match self.resolve(id) {
            Some(i) => i,
            None => {
                return Err(Error::NotFoundError);
            },
        };
        let (key, dm) = self.entries.remove(slot);
        let DexModule { mut store, instance, memory, swap_fn } = dm;

        let args = abi::encode_args(poolpair, token_in, max_price, post_bayfront_gardens);
        let outcome: Result<SwapResult, Error> = match sandbox::call_swap_func(
            &mut store,
            &swap_fn,
            &args,
        ) {
            Ok(ptr) => match sandbox::read_result_block(&memory, &store, ptr) {
                Ok(bytes) => match abi::decode_result(&bytes) {
                    Some(decoded) => decoded,
                    None => Err(Error::RuntimeError),
                },
                Err(_) => Err(Error::RuntimeError),
            },
            Err(_) => Err(Error::RuntimeError),
        };

        let entry = DexModule { store, instance, memory, swap_fn };
        self.entries.insert(slot, (key, entry));
        proof {
            lemma_replace_at(old(self).entries@, self.entries@, slot as int, id@);
        }
        outcome
    }
}

/// After removing the entry at `i` (whose key is `id`) and inserting a
/// fresh entry with the same key there, the key set and its uniqueness
/// are unchanged.
proof fn lemma_replace_at(
    before: Seq<(String, DexModule)>,
    after: Seq<(String, DexModule)>,
    i: int,
    id: Seq<char>,
)
    requires
        0 <= i < before.len(),
        before[i].0@ == id,
        after.len() == before.len(),
        after[i].0@ == id,
        forall|j: int| 0 <= j < before.len() && j != i ==> after[j].0 == before[j].0,
        seq_keys_unique(before),
    ensures
        seq_keys_unique(after),
        forall|k: Seq<char>| seq_contains_key(after, k) <==> seq_contains_key(before, k),
{
    assert forall|p: int, q: int| 0 <= p < q < after.len() implies after[p].0@ != after[q].0@ by {
        assert(before[p].0@ != before[q].0@);
    }
    assert forall|k: Seq<char>| seq_contains_key(after, k) <==> seq_contains_key(before, k) by {
        if seq_contains_key(after, k) {
            let n = choose|n: int| 0 <= n < after.len() && after[n].0@ == k;
            assert(before[n].0@ == k);
            assert(seq_contains_key(before, k));
        }
        if seq_contains_key(before, k) {
            let n = choose|n: int| 0 <= n < before.len() && before[n].0@ == k;
            assert(after[n].0@ == k);
            assert(seq_contains_key(after, k));
        }
    }
}

/// Appending an entry with a key not yet present keeps keys unique and
/// adds exactly that key.
proof fn lemma_append_new(
    before: Seq<(String, DexModule)>,
    after: Seq<(String, DexModule)>,
    id: Seq<char>,
)
    requires
        after.len() == before.len() + 1,
        after[before.len() as int].0@ == id,
        forall|j: int| 0 <= j < before.len() ==> after[j].0 == before[j].0,
        forall|j: int| 0 <= j < before.len() ==> before[j].0@ != id,
        seq_keys_unique(before),
    ensures
        seq_keys_unique(after),
        forall|k: Seq<char>|
            seq_contains_key(after, k) <==> (seq_contains_key(before, k) || k == id),
{
    assert forall|p: int, q: int| 0 <= p < q < after.len() implies after[p].0@ != after[q].0@ by {
        if q < before.len() {
            assert(before[p].0@ != before[q].0@);
        } else {
            assert(before[p].0@ != id);
        }
    }
    assert forall|k: Seq<char>|
        seq_contains_key(after, k) <==> (seq_contains_key(before, k) || k == id) by {
        if seq_contains_key(after, k) {
            let n = choose|n: int| 0 <= n < after.len() && after[n].0@ == k;
            if n < before.len() {
                assert(before[n].0@ == k);
                assert(seq_contains_key(before, k));
            }
        }
        if seq_contains_key(before, k) {
            let n = choose|n: int| 0 <= n < before.len() && before[n].0@ == k;
            assert(after[n].0@ == k);
            assert(seq_contains_key(after, k));
        }
        if k == id {
            assert(after[before.len() as int].0@ == k);
            assert(seq_contains_key(after, k));
        }
    }
}

/// Law: registering a module under one identifier leaves every other,
/// previously unregistered identifier unregistered, so resolving it
/// still reports `NotFoundError` rather than reaching any module.  The
/// first premise is `register`'s postcondition; `invoke`'s contract
/// turns the conclusion into that error.
pub proof fn lemma_register_keeps_other_ids_absent(
    before: Registry,
    after: Registry,
    registered: Seq<char>,
    other: Seq<char>,
)
    requires
        forall|k: Seq<char>| after.contains_id(k) <==> (before.contains_id(k) || k == registered),
        !before.contains_id(other),
        other != registered,
    ensures
        !after.contains_id(other),
{
}

} // verus!
