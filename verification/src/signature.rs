//! Function signatures at the host/guest boundary.
//!
//! A signature is an ordered sequence of parameter kinds plus an optional
//! return kind.  Two signatures are equal exactly when their parameter
//! sequences and return kinds match; there is no coercion and no overload
//! resolution.

use vstd::prelude::*;
use crate::values::ValueKind;

verus! {

/// An ordered list of parameter kinds and an optional return kind.
#[derive(Debug)]
pub struct FunctionSignature {
    pub params: Vec<ValueKind>,
    pub ret: Option<ValueKind>,
}

impl FunctionSignature {
    /// Exact signature equality: same parameter sequence, same return kind.
    pub open spec fn spec_eq(self, other: FunctionSignature) -> bool {
        self.params@ == other.params@ && self.ret == other.ret
    }

    /// Decides exact signature equality.
    pub fn matches(&self, other: &FunctionSignature) -> (r: bool)
        ensures
            r == self.spec_eq(*other),
    {
        if self.params.len() != other.params.len() {
            proof {
                assert(self.params@.len() != other.params@.len());
            }
            return false;
        }
        let n: usize = self.params.len();
        let mut i: usize = 0;
        while i < n
            invariant
                0 <= i <= n,
                n == self.params@.len(),
                n == other.params@.len(),
                forall|j: int| 0 <= j < i ==> self.params@[j] == other.params@[j],
            decreases n - i,
        {
            if self.params[i] != other.params[i] {
                return false;
            }
            i += 1;
        }
        proof {
            assert(self.params@ =~= other.params@);
        }
        match (&self.ret, &other.ret) {
            (Some(a), Some(b)) => *a == *b,
            (None, None) => true,
            _ => false,
        }
    }

    /// Returns a value-equal copy of this signature.
    pub fn duplicate(&self) -> (r: FunctionSignature)
        ensures
            r.params@ == self.params@,
            r.ret == self.ret,
    {
        let mut params: Vec<ValueKind> = Vec::new();
        let n: usize = self.params.len();
        let mut i: usize = 0;
        while i < n
            invariant
                0 <= i <= n,
                n == self.params@.len(),
                params@.len() == i,
                forall|j: int| 0 <= j < i ==> params@[j] == self.params@[j],
            decreases n - i,
        {
            params.push(self.params[i]);
            i += 1;
        }
        proof {
            assert(params@ =~= self.params@);
        }
        let ret = match &self.ret {
            Some(k) => Some(*k),
            None => None,
        };
        FunctionSignature { params, ret }
    }
}

} // verus!
