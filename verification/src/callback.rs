use vstd::prelude::*;

use crate::error::Error;
use crate::payload::{FromPayload, Payload};

verus! {

/// Unique identity of a registered callback: minted when the callback is
/// registered, never reused by the registry that minted it.
#[derive(Clone, Copy, PartialEq, Eq, Hash, Structural, Debug)]
pub struct CallbackId {
    pub id: u64,
}

/// The capability the registry stores: something that can be invoked, any
/// number of times, with a boundary-encoded payload. Callbacks of different
/// payload types all stand behind this one capability.
pub trait AsCallback {
    /// Which results an invocation on `payload` may produce. The relation
    /// depends only on the callback's value, never on how often it was
    /// invoked before.
    spec fn admits(&self, payload: Payload, r: Result<(), Error>) -> bool;

    /// Runs the owned handler once on `payload`. Takes `&self`: an invocation
    /// consumes nothing, so the callback stays invocable afterwards, and
    /// every invocation answers to the same relation.
    fn call_with(&self, payload: Payload) -> (r: Result<(), Error>)
        ensures
            self.admits(payload, r),
    ;
}

/// A callback that reports failures: it owns one application-supplied
/// closure, decodes each boundary payload and runs the closure on it,
/// surfacing both decode failures and the closure's own errors.
pub struct Callback<P, F> where P: FromPayload, F: Fn(P) -> Result<(), Error> {
    handler: F,
    marker: core::marker::PhantomData<P>,
}

impl<P, F> Callback<P, F> where P: FromPayload, F: Fn(P) -> Result<(), Error> {
    #[verifier::type_invariant]
    spec fn inv(self) -> bool {
        forall|v: P| call_requires(self.handler, (v,))
    }

    /// The wrapped closure.
    pub closed spec fn func(self) -> F {
        self.handler
    }

    /// Wraps `handler`; the handler must accept every payload value, since
    /// the host chooses when and with what to invoke it.
    pub fn new(handler: F) -> (r: Self)
        requires
            forall|v: P| call_requires(handler, (v,)),
        ensures
            r.func() == handler,
    {
        Callback { handler, marker: core::marker::PhantomData }
    }

    /// Runs the closure on an already-decoded payload. The relation between
    /// payload and result is the closure's own contract, the same on every
    /// invocation: nothing is consumed.
    pub fn call(&self, v: P) -> (r: Result<(), Error>)
        ensures
            call_ensures(self.func(), (v,), r),
    {
        proof {
            use_type_invariant(self);
        }
        (self.handler)(v)
    }

    /// Wraps `callback` and boxes it behind the registry's one capability.
    /// What the boxed callback admits is exactly what the closure's contract
    /// allows, with a payload that does not decode answered by that failure.
    pub fn boxed(callback: F) -> (h: Box<Callback<P, F>>)
        requires
            forall|v: P| call_requires(callback, (v,)),
        ensures
            (forall|payload: Payload, res: Result<(), Error>| #[trigger] h.admits(payload, res)
                <==> (match P::spec_from_payload(payload) {
                Ok(v) => call_ensures(callback, (v,), res),
                Err(e) => res == Err::<(), Error>(e),
            })),
    {
        Box::new(Callback::new(callback))
    }
}

impl<P, F> AsCallback for Callback<P, F> where P: FromPayload, F: Fn(P) -> Result<(), Error> {
    /// A decoded payload is answered as the closure's contract allows; a
    /// payload that does not decode is answered with exactly that failure.
    open spec fn admits(&self, payload: Payload, r: Result<(), Error>) -> bool {
        match P::spec_from_payload(payload) {
            Ok(v) => call_ensures(self.func(), (v,), r),
            Err(e) => r == Err::<(), Error>(e),
        }
    }

    fn call_with(&self, payload: Payload) -> (r: Result<(), Error>) {
        match P::from_payload(payload) {
            Ok(v) => self.call(v),
            Err(e) => Err(e),
        }
    }
}

/// A fire-and-forget callback: it owns one application-supplied closure,
/// decodes each boundary payload and runs the closure on it, swallowing a
/// decode failure into a no-op so that host dispatch never observes an error
/// from it.
pub struct CallbackNoResult<P, F> where P: FromPayload, F: Fn(P) {
    handler: F,
    marker: core::marker::PhantomData<P>,
}

impl<P, F> CallbackNoResult<P, F> where P: FromPayload, F: Fn(P) {
    #[verifier::type_invariant]
    spec fn inv(self) -> bool {
        forall|v: P| call_requires(self.handler, (v,))
    }

    /// The wrapped closure.
    pub closed spec fn func(self) -> F {
        self.handler
    }

    /// Wraps `handler`; the handler must accept every payload value, since
    /// the host chooses when and with what to invoke it.
    pub fn new(handler: F) -> (r: Self)
        requires
            forall|v: P| call_requires(handler, (v,)),
        ensures
            r.func() == handler,
    {
        CallbackNoResult { handler, marker: core::marker::PhantomData }
    }

    /// Runs the closure on an already-decoded payload.
    pub fn call(&self, v: P)
        ensures
            call_ensures(self.func(), (v,), ()),
    {
        proof {
            use_type_invariant(self);
        }
        (self.handler)(v);
    }

    /// Wraps `callback` and boxes it behind the registry's one capability.
    /// The boxed callback always answers success; a decoded payload also ran
    /// the closure once.
    pub fn boxed(callback: F) -> (h: Box<CallbackNoResult<P, F>>)
        requires
            forall|v: P| call_requires(callback, (v,)),
        ensures
            (forall|payload: Payload, res: Result<(), Error>| #[trigger] h.admits(payload, res)
                <==> (res == Ok::<(), Error>(()) && (match P::spec_from_payload(payload) {
                Ok(v) => call_ensures(callback, (v,), ()),
                Err(_) => true,
            }))),
    {
        Box::new(CallbackNoResult::new(callback))
    }
}

impl<P, F> AsCallback for CallbackNoResult<P, F> where P: FromPayload, F: Fn(P) {
    /// An invocation always succeeds: a decoded payload runs the closure, and
    /// a payload that does not decode is swallowed into a no-op.
    open spec fn admits(&self, payload: Payload, r: Result<(), Error>) -> bool {
        &&& r == Ok::<(), Error>(())
        &&& match P::spec_from_payload(payload) {
            Ok(v) => call_ensures(self.func(), (v,), ()),
            Err(_) => true,
        }
    }

    fn call_with(&self, payload: Payload) -> (r: Result<(), Error>) {
        match P::from_payload(payload) {
            Ok(v) => {
                self.call(v);
                Ok(())
            },
            Err(_) => Ok(()),
        }
    }
}

/// Every identity registered in `m` was minted before `n`.
pub open spec fn minted_before(m: Map<u64, Box<dyn AsCallback>>, n: u64) -> bool {
    forall|k: u64| #[trigger] m.contains_key(k) ==> k < n
}

/// Registering one more callback, whichever it is, under the identity minted
/// next keeps every registered identity below the next counter value, adds
/// exactly that identity to the domain, and touches no other entry.
///
/// The map axioms are applied by hand here: the verifier does not bring them
/// to bear on values behind `dyn` by itself.
proof fn lemma_insert_facts(m: Map<u64, Box<dyn AsCallback>>, n: u64)
    requires
        minted_before(m, n),
        n < u64::MAX,
    ensures
        (forall|e: Box<dyn AsCallback>|
            minted_before(#[trigger] m.insert(n, e), (n + 1) as u64)),
        (forall|e: Box<dyn AsCallback>| (#[trigger] m.insert(n, e)).dom() == m.dom().insert(n)),
        (forall|e: Box<dyn AsCallback>, k: u64|
            k != n && m.contains_key(k) ==> #[trigger] m.insert(n, e)[k] == m[k]),
{
    assert forall|e: Box<dyn AsCallback>| (#[trigger] m.insert(n, e)).dom() == m.dom().insert(
        n,
    ) by {
        vstd::map::axiom_map_insert_domain::<u64, Box<dyn AsCallback>>(m, n, e);
    }
    assert forall|e: Box<dyn AsCallback>|
        minted_before(#[trigger] m.insert(n, e), (n + 1) as u64) by {
        let m1 = m.insert(n, e);
        assert(m1.dom() == m.dom().insert(n));
        assert forall|k: u64| #[trigger] m1.contains_key(k) implies k < n + 1 by {
            assert(m1.dom().contains(k));
            if k != n {
                assert(m.dom().contains(k));
                assert(m.contains_key(k));
            }
        }
    }
    assert forall|e: Box<dyn AsCallback>, k: u64|
        k != n && m.contains_key(k) implies #[trigger] m.insert(n, e)[k] == m[k] by {
        vstd::map::axiom_map_insert_different::<u64, Box<dyn AsCallback>>(m, k, n, e);
    }
}

/// Removing an identity keeps every registered identity below the counter.
proof fn lemma_minted_before_remove(m: Map<u64, Box<dyn AsCallback>>, n: u64, id: u64)
    requires
        minted_before(m, n),
    ensures
        minted_before(m.remove(id), n),
{
    vstd::map::axiom_map_remove_domain::<u64, Box<dyn AsCallback>>(m, id);
    let m1 = m.remove(id);
    assert(m1.dom() == m.dom().remove(id));
    assert forall|k: u64| #[trigger] m1.contains_key(k) implies k < n by {
        assert(m1.dom().contains(k));
        assert(m.contains_key(k));
    }
}

/// The process-wide callback registry: an identity-indexed, removable store
/// of owned callbacks, each held behind the one invocation capability.
/// Identities are minted here and never reused by the same registry, so
/// inserting can never collide with a live entry.
pub struct CallbackMap {
    next_id: u64,
    map: std::collections::HashMap<u64, Box<dyn AsCallback>>,
}

impl View for CallbackMap {
    type V = Map<u64, Box<dyn AsCallback>>;

    /// The registry is a map from identity to owned callback.
    closed spec fn view(&self) -> Map<u64, Box<dyn AsCallback>> {
        self.map@
    }
}

impl CallbackMap {
    /// Well-formedness: every registered identity was minted earlier than the
    /// next one to be minted. Constructors establish it; every mutation keeps
    /// it.
    pub closed spec fn wf(&self) -> bool {
        minted_before(self.map@, self.next_id)
    }

    /// The identity the next insertion will be registered under.
    pub closed spec fn spec_next_id(&self) -> u64 {
        self.next_id
    }

    /// Whether a fresh identity can still be minted.
    pub open spec fn can_mint(&self) -> bool {
        self.spec_next_id() < u64::MAX
    }

    /// An empty registry.
    pub fn new() -> (r: Self)
        ensures
            r@ == Map::<u64, Box<dyn AsCallback>>::empty(),
            r.spec_next_id() == 0,
            r.wf(),
    {
        CallbackMap { next_id: 0, map: std::collections::HashMap::new() }
    }

    /// Whether `n` more identities can still be minted: the executable probe
    /// of the registry's remaining identity space.
    pub fn capacity_for(&self, n: u64) -> (r: bool)
        ensures
            r == (self.spec_next_id() + n <= u64::MAX),
    {
        u64::MAX - self.next_id >= n
    }

    /// How many callbacks are registered.
    pub fn len(&self) -> (r: usize)
        ensures
            r == self@.dom().len(),
    {
        self.map.len()
    }

    /// Registers `callback` under a freshly minted identity and returns that
    /// identity. The identity is fresh: nothing was registered under it, and
    /// nothing will be registered under it again by this registry; the new
    /// entry owns exactly the given callback.
    #[verifier::spinoff_prover]
    pub fn insert(&mut self, callback: Box<dyn AsCallback>) -> (r: CallbackId)
        requires
            old(self).can_mint(),
            old(self).wf(),
        ensures
            final(self).wf(),
            r.id == old(self).spec_next_id(),
            !old(self)@.contains_key(r.id),
            final(self)@ == old(self)@.insert(r.id, callback),
            (exists|e: Box<dyn AsCallback>|
                final(self)@ == #[trigger] old(self)@.insert(r.id, e) && (forall|
                    p: Payload,
                    res: Result<(), Error>,
                |
                    #[trigger] e.admits(p, res) <==> callback.admits(p, res))),
            final(self)@.dom() == old(self)@.dom().insert(r.id),
            (forall|k: u64|
                k != r.id && #[trigger] old(self)@.contains_key(k) ==> final(self)@[k]
                    == old(self)@[k]),
            final(self).spec_next_id() == old(self).spec_next_id() + 1,
    {
        let ghost m0 = self.map@;
        let id = CallbackId { id: self.next_id };
        self.next_id = self.next_id + 1;
        proof {
            lemma_insert_facts(m0, id.id);
        }
        self.map.insert(id.id, callback);
        id
    }

    /// Removes the callback registered under `id` and hands it back, now safe
    /// to drop; yields `None` when nothing is registered under `id`, so
    /// removing an unknown or already-removed identity is not an error.
    pub fn remove(&mut self, id: CallbackId) -> (r: Option<Box<dyn AsCallback>>)
        ensures
            final(self)@ == old(self)@.remove(id.id),
            final(self).spec_next_id() == old(self).spec_next_id(),
            old(self).wf() ==> final(self).wf(),
            match r {
                Some(cb) => old(self)@.contains_key(id.id) && cb == old(self)@[id.id],
                None => !old(self)@.contains_key(id.id),
            },
    {
        let ghost m0 = self.map@;
        let ghost n0 = self.next_id;
        let r = self.map.remove(&id.id);
        proof {
            if minted_before(m0, n0) {
                lemma_minted_before_remove(m0, n0, id.id);
            }
        }
        r
    }

    /// Looks up the callback registered under `id`: a read-only view for
    /// diagnostics and dispatch, present exactly when `id` is registered.
    pub fn get(&self, id: CallbackId) -> (r: Option<&Box<dyn AsCallback>>)
        ensures
            match r {
                Some(cb) => self@.contains_key(id.id) && *cb == self@[id.id],
                None => !self@.contains_key(id.id),
            },
    {
        self.map.get(&id.id)
    }
}

/// Identities are never reused: in a well-formed registry, every identity
/// still to be minted lies strictly above every registered one, so no future
/// insertion can collide with or revive an existing registration.
pub proof fn lemma_minted_ids_are_fresh(m: CallbackMap, k: u64)
    requires
        m.wf(),
        k >= m.spec_next_id(),
    ensures
        !m@.contains_key(k),
{
}

/// One operation on the registry: an insertion that minted the given
/// identity, or a removal of the given identity.
#[derive(Clone, Copy, PartialEq, Eq, Structural, Debug)]
pub enum RegistryOp {
    Insert(u64),
    Remove(u64),
}

/// The set of registered identities after `ops` were applied in order to a
/// registry whose registered identities were `ids`.
pub open spec fn registered_after(ops: Seq<RegistryOp>, ids: Set<u64>) -> Set<u64>
    decreases ops.len(),
{
    if ops.len() == 0 {
        ids
    } else {
        let rest = registered_after(ops.drop_last(), ids);
        match ops.last() {
            RegistryOp::Insert(i) => rest.insert(i),
            RegistryOp::Remove(i) => rest.remove(i),
        }
    }
}

/// One registry operation is one fold step: an insertion adds exactly the
/// inserted identity to the registered set, a removal deletes exactly the
/// removed identity. This is the step the executable registry's contracts
/// take on its map of entries.
pub proof fn lemma_registry_step(ids: Set<u64>, op: RegistryOp, ops: Seq<RegistryOp>)
    ensures
        registered_after(ops.push(op), ids) == (match op {
            RegistryOp::Insert(i) => registered_after(ops, ids).insert(i),
            RegistryOp::Remove(i) => registered_after(ops, ids).remove(i),
        }),
{
    assert(ops.push(op).drop_last() =~= ops);
    assert(ops.push(op).last() == op);
}

/// Whether position `j` of `ops` inserts `i` and no later operation removes
/// `i` again.
pub open spec fn witnesses(ops: Seq<RegistryOp>, i: u64, j: int) -> bool {
    0 <= j < ops.len() && ops[j] == RegistryOp::Insert(i) && (forall|k: int|
        j < k < ops.len() ==> ops[k] != RegistryOp::Remove(i))
}

/// Whether `ops` contains an insertion of `i` with no later removal of `i`.
pub open spec fn inserted_and_not_removed(ops: Seq<RegistryOp>, i: u64) -> bool {
    exists|j: int| witnesses(ops, i, j)
}

/// Liveness coupling: for every sequence of insert and remove operations
/// applied to a registry that starts empty, an identity is registered
/// afterwards if and only if it was inserted and not removed since.
pub proof fn lemma_registry_liveness(ops: Seq<RegistryOp>, i: u64)
    ensures
        registered_after(ops, Set::empty()).contains(i) <==> inserted_and_not_removed(ops, i),
    decreases ops.len(),
{
    if ops.len() == 0 {
    } else {
        let prefix = ops.drop_last();
        let last = ops.len() - 1;
        lemma_registry_liveness(prefix, i);
        assert(forall|k: int| 0 <= k < last ==> prefix[k] == #[trigger] ops[k]);
        if ops.last() == RegistryOp::Insert(i) {
            assert(witnesses(ops, i, last));
        } else {
            // The last operation neither inserts `i` nor leaves an earlier
            // insertion of `i` uncovered, so the witnesses carry over both
            // ways between `prefix` and `ops`.
            if ops.last() == RegistryOp::Remove(i) {
                if inserted_and_not_removed(ops, i) {
                    let j = choose|j: int| witnesses(ops, i, j);
                    assert(ops[last] != RegistryOp::Remove(i));
                }
            } else {
                if inserted_and_not_removed(prefix, i) {
                    let j = choose|j: int| witnesses(prefix, i, j);
                    assert forall|k: int| j < k < ops.len() implies ops[k]
                        != RegistryOp::Remove(i) by {
                        if k < last {
                            assert(prefix[k] == ops[k]);
                        }
                    }
                    assert(witnesses(ops, i, j));
                }
                if inserted_and_not_removed(ops, i) {
                    let j = choose|j: int| witnesses(ops, i, j);
                    assert(j != last);
                    assert(prefix[j] == ops[j]);
                    assert forall|k: int| j < k < prefix.len() implies prefix[k]
                        != RegistryOp::Remove(i) by {
                        assert(prefix[k] == ops[k]);
                    }
                    assert(witnesses(prefix, i, j));
                }
            }
        }
    }
}

/// Removing an identity twice is idempotent: the second removal finds nothing
/// registered under it and leaves the registry exactly as it was.
pub proof fn lemma_remove_idempotent(m: Map<u64, Box<dyn AsCallback>>, i: u64)
    ensures
        !m.remove(i).contains_key(i),
        m.remove(i).remove(i) == m.remove(i),
{
    vstd::map::axiom_map_remove_domain::<u64, Box<dyn AsCallback>>(m, i);
    vstd::map::axiom_map_remove_domain::<u64, Box<dyn AsCallback>>(m.remove(i), i);
    assert forall|k: u64| #[trigger] m.remove(i).remove(i).contains_key(k) implies m.remove(i
    ).remove(i)[k] == m.remove(i)[k] by {
        vstd::map::axiom_map_remove_different::<u64, Box<dyn AsCallback>>(m, k, i);
        vstd::map::axiom_map_remove_different::<u64, Box<dyn AsCallback>>(m.remove(i), k, i);
    }
    assert(m.remove(i).remove(i) =~= m.remove(i));
}

} // verus!
