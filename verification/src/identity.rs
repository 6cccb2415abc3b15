//! Who is calling, and when.

use std::collections::hash_map::DefaultHasher;
use vstd::prelude::*;
use vstd::string::*;

verus! {

/// The textual form of the principal with the bytes `bytes`: a checksum and
/// the bytes in base 32, lower case, in groups of five.
pub uninterp spec fn principal_text_of(bytes: Seq<u8>) -> Seq<char>;

/// Calls `candid::Principal::from_slice` and then `to_text` on the result.
/// `from_slice` accepts at most 29 bytes and panics on more; the text depends
/// on the bytes alone and is named [`principal_text_of`].
#[verifier::external_body]
fn principal_text(bytes: &[u8]) -> (text: String)
    requires
        bytes@.len() <= 29,
    ensures
        text@ == principal_text_of(bytes@),
{
    candid::Principal::from_slice(bytes).to_text()
}

/// Feeds the principal with the bytes `bytes` to `state` through the `Hash`
/// impl of `candid::Principal`, after `candid::Principal::from_slice`, which
/// accepts at most 29 bytes. What the impl writes differs between machines,
/// so nothing is claimed of the hasher afterwards.
#[verifier::external_body]
fn hash_principal(state: &mut DefaultHasher, bytes: &[u8])
    requires
        bytes@.len() <= 29,
{
    std::hash::Hash::hash(&candid::Principal::from_slice(bytes), state)
}

/// The bytes of the anonymous principal.
pub open spec fn anonymous_bytes() -> Seq<u8> {
    seq![4u8]
}

/// The identity of a caller or of a service: at most 29 opaque bytes.
#[derive(Debug, PartialEq, Eq)]
pub struct PrincipalId {
    bytes: Vec<u8>,
}

impl View for PrincipalId {
    type V = Seq<u8>;

    closed spec fn view(&self) -> Seq<u8> {
        self.bytes@
    }
}

impl DeepView for PrincipalId {
    type V = Seq<u8>;

    open spec fn deep_view(&self) -> Seq<u8> {
        self@
    }
}

impl PrincipalId {
    #[verifier::type_invariant]
    spec fn bounded(self) -> bool {
        self.bytes@.len() <= 29
    }

    /// The identity with the given bytes, if they are at most 29.
    pub fn from_bytes(bytes: Vec<u8>) -> (r: Option<PrincipalId>)
        ensures
            r is Some <==> bytes@.len() <= 29,
            r is Some ==> r->0@ == bytes@,
    {
        if bytes.len() <= 29 {
            Some(PrincipalId { bytes })
        } else {
            None
        }
    }

    /// The anonymous identity, which no authenticated caller has.
    pub fn anonymous() -> (r: PrincipalId)
        ensures
            r@ == anonymous_bytes(),
    {
        let mut bytes: Vec<u8> = Vec::new();
        bytes.push(4u8);
        assert(bytes@ =~= anonymous_bytes());
        PrincipalId { bytes }
    }

    /// The bytes of the identity.
    pub fn as_bytes(&self) -> (r: &Vec<u8>)
        ensures
            r@ == self@,
            r@.len() <= 29,
    {
        proof {
            use_type_invariant(self);
        }
        &self.bytes
    }

    /// Whether this is the anonymous identity.
    pub fn is_anonymous(&self) -> (r: bool)
        ensures
            r == (self@ == anonymous_bytes()),
    {
        let r = self.bytes.len() == 1 && self.bytes[0] == 4u8;
        assert(r == (self.bytes@ =~= anonymous_bytes()));
        r
    }

    /// Whether both identities have the same bytes.
    pub fn same_as(&self, other: &PrincipalId) -> (r: bool)
        ensures
            r == (self@ == other@),
    {
        if self.bytes.len() != other.bytes.len() {
            return false;
        }
        let mut i: usize = 0;
        while i < self.bytes.len()
            invariant
                i <= self.bytes.len(),
                self.bytes.len() == other.bytes.len(),
                forall|j: int| 0 <= j < i ==> self.bytes@[j] == other.bytes@[j],
            decreases self.bytes.len() - i,
        {
            if self.bytes[i] != other.bytes[i] {
                return false;
            }
            i = i + 1;
        }
        assert(self.bytes@ =~= other.bytes@);
        true
    }

    /// Feeds the identity to a hasher.
    pub(crate) fn feed(&self, state: &mut DefaultHasher) {
        proof {
            use_type_invariant(self);
        }
        hash_principal(state, self.bytes.as_slice())
    }

    /// The textual form of the identity.
    pub fn to_text(&self) -> (text: String)
        ensures
            text@ == principal_text_of(self@),
    {
        proof {
            use_type_invariant(self);
        }
        principal_text(self.bytes.as_slice())
    }
}

impl Clone for PrincipalId {
    fn clone(&self) -> (r: PrincipalId)
        ensures
            r@ == self@,
    {
        proof {
            use_type_invariant(self);
        }
        let mut bytes: Vec<u8> = Vec::new();
        let mut i: usize = 0;
        while i < self.bytes.len()
            invariant
                i <= self.bytes.len(),
                self.bytes@.len() <= 29,
                bytes@ == self.bytes@.subrange(0, i as int),
            decreases self.bytes.len() - i,
        {
            bytes.push(self.bytes[i]);
            assert(self.bytes@.subrange(0, i as int + 1) =~= self.bytes@.subrange(0, i as int).push(
                self.bytes@[i as int],
            ));
            i = i + 1;
        }
        assert(self.bytes@.subrange(0, self.bytes.len() as int) =~= self.bytes@);
        PrincipalId { bytes }
    }
}

/// What the environment tells about one call: who makes it, which service
/// receives it, and the time in nanoseconds.
#[derive(Debug, PartialEq, Eq)]
pub struct CallContext {
    pub caller: PrincipalId,
    pub canister: PrincipalId,
    pub time: u64,
}

/// A caller is authenticated when it is neither anonymous nor the service
/// itself.
pub open spec fn is_authenticated(caller: Seq<u8>, canister: Seq<u8>) -> bool {
    caller != anonymous_bytes() && caller != canister
}

/// The call could not be attributed to an authenticated caller.
#[derive(Clone, Copy, Debug, PartialEq, Eq, Structural)]
pub struct Unauthenticated;

/// Admits authenticated callers and hands back the caller's textual
/// identity; anonymous calls and calls of the service to itself are turned
/// away.
pub fn authenticate_user(context: &CallContext) -> (r: Result<String, Unauthenticated>)
    ensures
        r is Ok <==> is_authenticated(context.caller@, context.canister@),
        r is Ok ==> r->Ok_0@ == principal_text_of(context.caller@),
{
    if context.caller.is_anonymous() || context.caller.same_as(&context.canister) {
        Err(Unauthenticated)
    } else {
        Ok(context.caller.to_text())
    }
}

} // verus!
