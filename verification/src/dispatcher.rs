//! Index-keyed host dispatch.
//!
//! During guest execution, "guest calls import `i` with arguments" becomes
//! "invoke the native implementation at table position `i`".  The table is
//! built from a resolver in the resolver's own entry order, so the index a
//! handle carries is the index the dispatcher serves — the central
//! cross-component invariant of the runtime.

use vstd::prelude::*;
use crate::capability::HostImpl;
use crate::clock::wall_clock_year;
use crate::errors::RuntimeError;
use crate::resolver::{is_first_match, ImportResolver};
use crate::values::Value;

verus! {

/// An index-keyed table of native implementations.
#[derive(Debug)]
pub struct Dispatcher {
    pub table: Vec<HostImpl>,
}

impl Dispatcher {
    /// The dispatcher serves this index.
    pub open spec fn recognizes(self, index: usize) -> bool {
        index < self.table@.len()
    }

    /// No implementation in the table has an external dependence.
    pub open spec fn is_pure(self) -> bool {
        forall|i: int| 0 <= i < self.table@.len() ==> self.table@[i] is FixedYear
    }

    /// What invocation at `index` returns when no implementation in the
    /// table has an external dependence: a function of the table and the
    /// index alone.
    pub open spec fn pure_result(self, index: usize) -> Result<Option<Value>, RuntimeError> {
        if !self.recognizes(index) {
            Err(RuntimeError::DispatchIntegrityError { index })
        } else {
            match self.table@[index as int] {
                HostImpl::FixedYear(y) => Ok(Some(Value::I32(y))),
                HostImpl::WallClockYear => arbitrary(),
            }
        }
    }

    /// Builds the dispatch table from a resolver, one implementation per
    /// registered capability, in the resolver's entry order.
    pub fn from_resolver(r: &ImportResolver) -> (d: Dispatcher)
        ensures
            d.table@.len() == r.entries@.len(),
            forall|i: int|
                0 <= i < r.entries@.len() ==> d.table@[i] == r.entries@[i].host_impl,
    {
        let mut table: Vec<HostImpl> = Vec::new();
        let n: usize = r.entries.len();
        let mut i: usize = 0;
        while i < n
            invariant
                0 <= i <= n,
                n == r.entries@.len(),
                table@.len() == i,
                forall|j: int| 0 <= j < i ==> table@[j] == r.entries@[j].host_impl,
            decreases n - i,
        {
            table.push(r.entries[i].host_impl);
            i += 1;
        }
        Dispatcher { table }
    }

    /// Invokes the native implementation bound at `index`.
    ///
    /// An unrecognized index signals that the resolver's and the
    /// dispatcher's numbering diverged — a wiring bug, failed loudly as
    /// `DispatchIntegrityError`, never a silent default.  A recognized index
    /// answers with one I32 value, or — only for an implementation with an
    /// external dependence the host cannot read — fails as `ExecutionTrap`;
    /// an externally independent implementation answers with exactly its
    /// fixed year.
    pub fn invoke(&self, index: usize, _args: &Vec<Value>) -> (r: Result<
        Option<Value>,
        RuntimeError,
    >)
        ensures
            (r matches Err(RuntimeError::DispatchIntegrityError { index: i }) && i == index) <==> !self.recognizes(
                index,
            ),
            self.recognizes(index) ==> ((r matches Ok(o) && o matches Some(v) && v is I32) || (
            r matches Err(e) && e is ExecutionTrap)),
            (self.recognizes(index) && self.table@[index as int] is FixedYear) ==> (r == Ok::<
                Option<Value>,
                RuntimeError,
            >(Some(Value::I32(self.table@[index as int]->FixedYear_0))) && r == self.pure_result(
                index,
            )),
            self.is_pure() ==> r == self.pure_result(index),
    {
        if index >= self.table.len() {
            return Err(RuntimeError::DispatchIntegrityError { index });
        }
        match self.table[index] {
            HostImpl::FixedYear(y) => Ok(Some(Value::I32(y))),
            HostImpl::WallClockYear => match wall_clock_year() {
                Ok(year) => Ok(Some(Value::I32(year))),
                Err(msg) => Err(RuntimeError::ExecutionTrap(msg)),
            },
        }
    }
}

/// Invokes the implementation at `index` and hands its I32 answer back to
/// the engine boundary as a plain integer; a failure of either kind —
/// unrecognized index or an unreadable external dependence — becomes the
/// engine's trap message.
pub fn dispatch_i32(d: &Dispatcher, index: usize) -> (r: Result<i32, String>)
    ensures
        r is Ok ==> d.recognizes(index),
        (d.is_pure() && d.recognizes(index)) ==> r is Ok,
        (d.recognizes(index) && d.table@[index as int] is FixedYear) ==> (r == Ok::<i32, String>(
            d.table@[index as int]->FixedYear_0,
        )),
{
    let args: Vec<Value> = Vec::new();
    match d.invoke(index, &args) {
        Ok(Some(Value::I32(x))) => Ok(x),
        Ok(None) => Err("host capability returned no value".to_string()),
        Err(RuntimeError::ExecutionTrap(msg)) => Err(msg),
        Err(_) => Err("unknown host function index".to_string()),
    }
}

/// Resolver/dispatcher consistency: a handle index the resolver hands out
/// is always recognized by a dispatcher whose table was built from that
/// resolver, so invoking at a resolved index never raises
/// `DispatchIntegrityError`.
pub proof fn lemma_resolved_index_is_recognized(
    r: ImportResolver,
    d: Dispatcher,
    ns: Seq<char>,
    nm: Seq<char>,
    index: usize,
)
    requires
        d.table@.len() == r.entries@.len(),
        is_first_match(r.entries@, ns, nm, index as int),
    ensures
        d.recognizes(index),
{
}

/// Host-side idempotence: when no implementation in the table has an
/// external dependence, what invocation returns is a function of the table
/// and the index alone — `invoke` promises `pure_result` then — so two
/// invocations at the same index answer identically.
pub proof fn lemma_pure_invocation_deterministic(
    d: Dispatcher,
    index: usize,
    r1: Result<Option<Value>, RuntimeError>,
    r2: Result<Option<Value>, RuntimeError>,
)
    requires
        d.is_pure(),
        r1 == d.pure_result(index),
        r2 == d.pure_result(index),
    ensures
        r1 == r2,
{
}

} // verus!
