//! Identity-keyed wrapper around `Rc`.
//!
//! `HashByRef<T>` wraps a shared handle (`std::rc::Rc<T>`) and hashes and
//! compares by the *identity* of the allocation the handle points to, never
//! by the contents of type `T`. Two wrappers are equal exactly when their
//! handles originate, directly or through cloning, from the same `Rc`
//! allocation. This lets a shared value serve as a key in hash-based
//! containers keyed by "which object" rather than "what value", with no
//! trait bounds on `T` at all.
//!
//! The allocation's address is captured once, at construction, as a plain
//! identity token; every later comparison and hash reads that token and
//! leaves the reference count untouched. Because a wrapper keeps its handle
//! alive for its whole lifetime, two live wrappers carry equal tokens if and
//! only if their handles share one allocation.
//!
//! `Rc` is single-threaded shared ownership: a `HashByRef` must not cross
//! threads without external synchronization.

use std::collections::hash_map::DefaultHasher;
use std::hash::{Hash, Hasher};
use std::rc::Rc;
use vstd::bytes::{spec_u64_to_le_bytes, u64_to_le_bytes};
use vstd::prelude::*;
use vstd::std_specs::hash::DefaultHasherAdditionalSpecFns;

verus! {

/// A key wrapper around a shared handle, equal and hashed by allocation
/// identity, not by the contents of `T`.
#[derive(Debug)]
pub struct HashByRef<T> {
    val: Rc<T>,
    token: usize,
}

/// Relies on `Rc::as_ptr`: returns the address of the allocation `val`
/// points into, without touching the reference count. The address is stable
/// for as long as the allocation lives; clones of one handle yield one
/// address, and handles of two allocations that are both live yield two
/// distinct addresses. Nothing about the returned value can be promised to
/// the verifier: an address depends on the allocator, not on the arguments.
#[verifier::external_body]
fn rc_identity_token<T>(val: &Rc<T>) -> usize {
    Rc::as_ptr(val).addr()
}

impl<T> HashByRef<T> {
    /// The handle this wrapper holds (at the specification level, the value
    /// it leads to).
    pub closed spec fn handle(self) -> Rc<T> {
        self.val
    }

    /// The identity token captured from the handle at construction.
    pub closed spec fn token(self) -> usize {
        self.token
    }

    /// Two wrappers are the same key exactly when they carry the same
    /// identity token.
    pub open spec fn same_identity(self, other: Self) -> bool {
        self.token() == other.token()
    }

    /// The byte string this wrapper feeds to a hasher: its identity token
    /// and nothing else. Contents of `T` never enter.
    pub open spec fn identity_bytes(self) -> Seq<u8> {
        spec_u64_to_le_bytes(self.token() as u64)
    }

    /// Wraps `val`, becoming one more owner of its allocation, and captures
    /// the allocation's identity token.
    pub fn new(val: Rc<T>) -> (result: Self)
        ensures
            result.handle() == val,
    {
        let token = rc_identity_token(&val);
        HashByRef { val, token }
    }

    /// Feeds this wrapper's identity into `state`: one write of the token's
    /// little-endian bytes, and nothing of the contents of `T`.
    pub fn write_identity(&self, state: &mut DefaultHasher)
        ensures
            final(state)@ == old(state)@.push(self.identity_bytes()),
    {
        let bytes = u64_to_le_bytes(self.token as u64);
        state.write(bytes.as_slice());
    }

    /// The wrapper's hash value under `DefaultHasher`: a function of the
    /// identity token alone, so repeated calls on one wrapper, and calls on
    /// any two wrappers that compare equal, return the same value.
    pub fn hash_value(&self) -> (r: u64)
        ensures
            r == DefaultHasher::spec_finish(seq![self.identity_bytes()]),
    {
        let mut state = DefaultHasher::new();
        self.write_identity(&mut state);
        proof {
            assert(state@ =~= seq![self.identity_bytes()]);
        }
        state.finish()
    }
}

/// Identity equality is a proper equivalence relation — reflexive,
/// symmetric and transitive — as a hash-based container requires of its
/// keys.
pub proof fn lemma_same_identity_equivalence<T>(
    a: HashByRef<T>,
    b: HashByRef<T>,
    c: HashByRef<T>,
)
    ensures
        a.same_identity(a),
        a.same_identity(b) == b.same_identity(a),
        a.same_identity(b) && b.same_identity(c) ==> a.same_identity(c),
{
}

/// Hash/eq coherence: wrappers that compare equal as keys feed identical
/// bytes to the hasher, so their hash values agree.
pub proof fn lemma_hash_eq_coherence<T>(a: HashByRef<T>, b: HashByRef<T>)
    requires
        a.same_identity(b),
    ensures
        a.identity_bytes() == b.identity_bytes(),
        DefaultHasher::spec_finish(seq![a.identity_bytes()]) == DefaultHasher::spec_finish(
            seq![b.identity_bytes()],
        ),
{
}

impl<T> PartialEq for HashByRef<T> {
    fn eq(&self, other: &Self) -> (r: bool) {
        self.token == other.token
    }
}

impl<T> vstd::std_specs::cmp::PartialEqSpecImpl for HashByRef<T> {
    open spec fn obeys_eq_spec() -> bool {
        true
    }

    open spec fn eq_spec(&self, other: &Self) -> bool {
        self.same_identity(*other)
    }
}

impl<T> Eq for HashByRef<T> {}

impl<T> Hash for HashByRef<T> {
    /// Relies on `usize::hash`: feeds the identity token, and nothing else,
    /// into `state`. The contents of `T` are never touched, and the
    /// reference count of the underlying allocation is left as it was.
    #[verifier::external_body]
    fn hash<H: Hasher>(&self, state: &mut H) {
        self.token.hash(state);
    }
}

} // verus!
