//! Name-to-capability resolution.
//!
//! The resolver holds every registered capability in first-registration
//! order; an entry's position in that order is the stable numeric index the
//! dispatcher later serves it under.  Resolution is deterministic: the same
//! (namespace, name) always maps to the first entry registered under it.

use vstd::prelude::*;
use crate::capability::{CapabilityProvider, HostImpl};
use crate::errors::RuntimeError;
use crate::signature::FunctionSignature;

verus! {

/// A registered capability: namespace, name, declared signature and the
/// native implementation behind them.  Its index in the resolver's entry
/// order is the handle the dispatcher serves it under.
#[derive(Debug)]
pub struct CapabilityEntry {
    pub namespace: String,
    pub name: String,
    pub signature: FunctionSignature,
    pub host_impl: HostImpl,
}

/// A resolved import: a stable numeric index plus the signature it was
/// resolved against.
#[derive(Debug)]
pub struct FunctionHandle {
    pub index: usize,
    pub signature: FunctionSignature,
}

/// The entry offers the requested namespace and name.
pub open spec fn entry_matches(e: CapabilityEntry, ns: Seq<char>, nm: Seq<char>) -> bool {
    e.namespace@ == ns && e.name@ == nm
}

/// Some registered entry offers the requested namespace and name.
pub open spec fn has_match(entries: Seq<CapabilityEntry>, ns: Seq<char>, nm: Seq<char>) -> bool {
    exists|k: int| 0 <= k < entries.len() && entry_matches(entries[k], ns, nm)
}

/// `k` is the position of the first registered entry offering the requested
/// namespace and name.
pub open spec fn is_first_match(
    entries: Seq<CapabilityEntry>,
    ns: Seq<char>,
    nm: Seq<char>,
    k: int,
) -> bool {
    &&& 0 <= k < entries.len()
    &&& entry_matches(entries[k], ns, nm)
    &&& forall|j: int| 0 <= j < k ==> !entry_matches(entries[j], ns, nm)
}

/// The first match is unique.
pub proof fn lemma_first_match_unique(
    entries: Seq<CapabilityEntry>,
    ns: Seq<char>,
    nm: Seq<char>,
    k1: int,
    k2: int,
)
    requires
        is_first_match(entries, ns, nm, k1),
        is_first_match(entries, ns, nm, k2),
    ensures
        k1 == k2,
{
    if k1 < k2 {
        assert(!entry_matches(entries[k1], ns, nm));
    }
    if k2 < k1 {
        assert(!entry_matches(entries[k2], ns, nm));
    }
}

/// Resolves import requests against the capabilities registered with it, in
/// first-registration order.
#[derive(Debug)]
pub struct ImportResolver {
    pub entries: Vec<CapabilityEntry>,
}

impl ImportResolver {
    /// A resolver with no capabilities registered.
    pub fn new() -> (r: ImportResolver)
        ensures
            r.entries@.len() == 0,
    {
        ImportResolver { entries: Vec::new() }
    }

    /// Registers every function of the provider, in the provider's own
    /// order, after everything registered before.
    pub fn register_provider(&mut self, p: &CapabilityProvider)
        ensures
            final(self).entries@.len() == old(self).entries@.len() + p.funcs@.len(),
            forall|j: int|
                0 <= j < old(self).entries@.len() ==> final(self).entries@[j] == old(
                    self,
                ).entries@[j],
            forall|k: int|
                0 <= k < p.funcs@.len() ==> {
                    let e = #[trigger] final(self).entries@[old(self).entries@.len() + k];
                    &&& e.namespace@ == p.namespace@
                    &&& e.name@ == p.funcs@[k].name@
                    &&& e.signature.spec_eq(p.funcs@[k].signature)
                    &&& e.host_impl == p.funcs@[k].host_impl
                },
    {
        let n: usize = p.funcs.len();
        let mut i: usize = 0;
        while i < n
            invariant
                0 <= i <= n,
                n == p.funcs@.len(),
                self.entries@.len() == old(self).entries@.len() + i,
                forall|j: int|
                    0 <= j < old(self).entries@.len() ==> self.entries@[j] == old(
                        self,
                    ).entries@[j],
                forall|k: int|
                    0 <= k < i ==> {
                        let e = #[trigger] self.entries@[old(self).entries@.len() + k];
                        &&& e.namespace@ == p.namespace@
                        &&& e.name@ == p.funcs@[k].name@
                        &&& e.signature.spec_eq(p.funcs@[k].signature)
                        &&& e.host_impl == p.funcs@[k].host_impl
                    },
            decreases n - i,
        {
            let f = &p.funcs[i];
            self.entries.push(
                CapabilityEntry {
                    namespace: p.namespace.clone(),
                    name: f.name.clone(),
                    signature: f.signature.duplicate(),
                    host_impl: f.host_impl,
                },
            );
            i += 1;
        }
    }

    /// Resolves an import request.
    ///
    /// Succeeds exactly when the first registered entry under the requested
    /// namespace and name carries the expected signature, and then hands out
    /// that entry's index.  A present entry with a differing signature fails
    /// with `SignatureMismatchError` naming both signatures; an absent
    /// namespace/name fails with `UnresolvedImportError`.
    pub fn resolve(
        &self,
        namespace: &str,
        name: &str,
        expected: &FunctionSignature,
    ) -> (r: Result<FunctionHandle, RuntimeError>)
        ensures
            (r is Ok) <==> (exists|k: int|
                #[trigger] is_first_match(self.entries@, namespace@, name@, k)
                    && self.entries@[k].signature.spec_eq(*expected)),
            r matches Ok(h) ==> is_first_match(self.entries@, namespace@, name@, h.index as int)
                && self.entries@[h.index as int].signature.spec_eq(*expected)
                && h.signature.spec_eq(*expected),
            r matches Err(e) ==> match e {
                RuntimeError::UnresolvedImportError { namespace: ns2, name: nm2 } => !has_match(
                    self.entries@,
                    namespace@,
                    name@,
                ) && ns2@ == namespace@ && nm2@ == name@,
                RuntimeError::SignatureMismatchError { expected: ex, found: fd } => (exists|k: int|
                    #[trigger] is_first_match(self.entries@, namespace@, name@, k)
                        && !self.entries@[k].signature.spec_eq(*expected)
                        && fd.spec_eq(self.entries@[k].signature)) && ex.spec_eq(*expected),
                _ => false,
            },
    {
        let ns: String = namespace.to_owned();
        let nm: String = name.to_owned();
        let n: usize = self.entries.len();
        let mut i: usize = 0;
        while i < n
            invariant
                0 <= i <= n,
                n == self.entries@.len(),
                ns@ == namespace@,
                nm@ == name@,
                forall|j: int| 0 <= j < i ==> !entry_matches(self.entries@[j], namespace@, name@),
            decreases n - i,
        {
            let e = &self.entries[i];
            if e.namespace == ns && e.name == nm {
                proof {
                    assert(is_first_match(self.entries@, namespace@, name@, i as int));
                }
                if e.signature.matches(expected) {
                    return Ok(FunctionHandle { index: i, signature: expected.duplicate() });
                } else {
                    proof {
                        assert forall|k: int|
                            #[trigger] is_first_match(self.entries@, namespace@, name@, k)
                                implies k == i as int by {
                            lemma_first_match_unique(
                                self.entries@,
                                namespace@,
                                name@,
                                k,
                                i as int,
                            );
                        }
                    }
                    return Err(
                        RuntimeError::SignatureMismatchError {
                            expected: expected.duplicate(),
                            found: e.signature.duplicate(),
                        },
                    );
                }
            }
            i += 1;
        }
        proof {
            assert(!has_match(self.entries@, namespace@, name@));
        }
        Err(RuntimeError::UnresolvedImportError { namespace: ns, name: nm })
    }
}

} // verus!
