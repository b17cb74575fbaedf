//! The authoritative local set of valid credential codes.
//!
//! The in-memory set is the one consulted for access decisions; a
//! serialized mirror of it is handed to the caller after every
//! mutation so the surrounding runtime can persist it.  A failure to
//! produce or store the mirror never rolls the in-memory mutation
//! back: the store favours availability of the decision path over
//! durability.

use std::collections::BTreeSet;

use vstd::prelude::*;

use crate::protocol::UserAction;

verus! {

broadcast use vstd::laws_cmp::group_laws_cmp, vstd::prelude::Seq::lemma_push_to_set_commute;

/// The effect of one mutation message on the set of valid codes.
///
/// `Add` and `Del` are idempotent; `Replace` removes the old code and
/// installs the new one unconditionally; `Bulk` discards the prior
/// set entirely and installs exactly the listed codes.
pub open spec fn apply_action(codes: Set<i32>, action: UserAction) -> Set<i32> {
    match action {
        UserAction::Add(c) => codes.insert(c),
        UserAction::Del(c) => codes.remove(c),
        UserAction::Replace { old: o, new: n } => codes.remove(o).insert(n),
        UserAction::Bulk(v) => v@.to_set(),
    }
}

/// Why a serialized mirror could not be produced or read back.
#[derive(Clone, Copy, Debug, PartialEq, Eq, Structural)]
pub enum StoreError {
    /// The current set could not be encoded.
    Encoding,
    /// A stored mirror could not be decoded.
    Decoding,
}

/// The bytes that the serialization of a set of codes yields: the
/// element count followed by the elements in increasing order, a
/// function of the set alone.
pub uninterp spec fn codes_encoding(codes: Set<i32>) -> Seq<u8>;

/// The set of codes that decoding a serialized mirror yields.
pub uninterp spec fn codes_decoded(bytes: Seq<u8>) -> Set<i32>;

/// Whether a serialized mirror decodes at all; decoding walks the
/// bytes deterministically, so this is a function of the bytes alone.
pub uninterp spec fn codes_decode_ok(bytes: Seq<u8>) -> bool;

/// Relies on bincode's `encode_to_vec` with the standard
/// configuration: a `BTreeSet` encodes as its length followed by its
/// elements in iteration (increasing) order, so the bytes are a
/// function of the set of elements alone.  Encoding into a vector
/// cannot fail (the vector writer never errors), and decoding the
/// encoding yields the set back.
#[verifier::external_body]
fn encode_codes(codes: &BTreeSet<i32>) -> (r: Result<Vec<u8>, bincode::error::EncodeError>)
    ensures
        r is Ok,
        r->Ok_0@ == codes_encoding(codes@),
        codes_decode_ok(r->Ok_0@),
        codes_decoded(r->Ok_0@) == codes@,
{
    bincode::encode_to_vec(codes, bincode::config::standard())
}

/// Relies on bincode's `decode_from_slice` with the standard
/// configuration: whether a slice decodes, and to what, are
/// functions of the input bytes alone.
#[verifier::external_body]
fn decode_codes(bytes: &[u8]) -> (r: Result<BTreeSet<i32>, bincode::error::DecodeError>)
    ensures
        r is Ok <==> codes_decode_ok(bytes@),
        r is Ok ==> r->Ok_0@ == codes_decoded(bytes@),
{
    match bincode::decode_from_slice(bytes, bincode::config::standard()) {
        Ok((codes, _)) => Ok(codes),
        Err(e) => Err(e),
    }
}

/// The error type of bincode's encoding entry points.
#[verifier::external_type_specification]
#[verifier::external_body]
pub struct ExEncodeError(bincode::error::EncodeError);

/// The error type of bincode's decoding entry points.
#[verifier::external_type_specification]
#[verifier::external_body]
pub struct ExDecodeError(bincode::error::DecodeError);

/// The set of currently valid credential codes.
pub struct UserDB {
    codes: BTreeSet<i32>,
}

impl View for UserDB {
    type V = Set<i32>;

    closed spec fn view(&self) -> Set<i32> {
        self.codes@
    }
}

impl UserDB {
    /// An empty store, for a node with no durable mirror yet.
    pub fn new() -> (db: UserDB)
        ensures
            db@ == Set::<i32>::empty(),
    {
        UserDB { codes: BTreeSet::new() }
    }

    /// Rebuilds the store from the durable mirror: an absent blob
    /// starts blank, a present blob is rebuilt exactly when it
    /// decodes -- in particular, always from a mirror that
    /// [`Self::snapshot`] wrote.
    pub fn load(blob: Option<&[u8]>) -> (r: Result<UserDB, StoreError>)
        ensures
            blob is None ==> r is Ok && r->Ok_0@ == Set::<i32>::empty(),
            blob matches Some(bytes) ==> (r is Ok <==> codes_decode_ok(bytes@)),
            blob is Some && r is Ok ==> r->Ok_0@ == codes_decoded(blob->0@),
            r is Err ==> blob is Some && r->Err_0 == StoreError::Decoding,
    {
        match blob {
            None => Ok(UserDB::new()),
            Some(bytes) => match decode_codes(bytes) {
                Ok(codes) => Ok(UserDB { codes }),
                Err(_) => Err(StoreError::Decoding),
            },
        }
    }

    /// Whether a code currently grants access.  Reads only the
    /// in-memory set.
    pub fn contains(&self, code: i32) -> (r: bool)
        ensures
            r == self@.contains(code),
    {
        self.codes.contains(&code)
    }

    /// Makes a code valid; inserting a present code is a no-op.
    pub fn add(&mut self, code: i32)
        ensures
            final(self)@ == old(self)@.insert(code),
    {
        self.codes.insert(code);
    }

    /// Revokes a code; deleting an absent code is a no-op.
    pub fn delete(&mut self, code: i32)
        ensures
            final(self)@ == old(self)@.remove(code),
    {
        self.codes.remove(&code);
    }

    /// Removes `old_code` and installs `new_code` unconditionally: if
    /// `old_code` was absent the net effect equals adding `new_code`.
    pub fn replace(&mut self, old_code: i32, new_code: i32)
        ensures
            final(self)@ == old(self)@.remove(old_code).insert(new_code),
    {
        self.codes.remove(&old_code);
        self.codes.insert(new_code);
    }

    /// Discards the prior set entirely and installs exactly the given
    /// codes.
    pub fn bulk(&mut self, codes: Vec<i32>)
        ensures
            final(self)@ == codes@.to_set(),
    {
        let mut fresh: BTreeSet<i32> = BTreeSet::new();
        let n = codes.len();
        let mut i: usize = 0;
        proof {
            assert(fresh@ =~= codes@.take(0).to_set());
        }
        while i < n
            invariant
                n == codes@.len(),
                i <= n,
                fresh@ == codes@.take(i as int).to_set(),
            decreases n - i,
        {
            fresh.insert(codes[i]);
            proof {
                assert(codes@.take(i + 1) =~= codes@.take(i as int).push(codes@[i as int]));
            }
            i = i + 1;
        }
        proof {
            assert(codes@.take(n as int) =~= codes@);
        }
        self.codes = fresh;
    }

    /// Applies one mutation message.  This is the only way the set
    /// changes after startup; application order equals arrival order.
    pub fn apply(&mut self, action: UserAction)
        ensures
            final(self)@ == apply_action(old(self)@, action),
    {
        match action {
            UserAction::Add(code) => self.add(code),
            UserAction::Del(code) => self.delete(code),
            UserAction::Replace { old: old_code, new: new_code } => self.replace(
                old_code,
                new_code,
            ),
            UserAction::Bulk(codes) => self.bulk(codes),
        }
    }

    /// Applies one mutation and serializes the updated set for the
    /// durable mirror, as every successful mutation triggers a
    /// durable-write attempt.
    pub fn apply_and_snapshot(&mut self, action: UserAction) -> (r: Result<Vec<u8>, StoreError>)
        ensures
            final(self)@ == apply_action(old(self)@, action),
            r is Ok,
            r->Ok_0@ == codes_encoding(final(self)@),
            codes_decode_ok(codes_encoding(final(self)@)),
            codes_decoded(codes_encoding(final(self)@)) == final(self)@,
    {
        self.apply(action);
        self.snapshot()
    }

    /// Serializes the current set for the durable mirror.  Encoding
    /// a set into bytes cannot fail, and [`Self::load`] reads the
    /// mirror back as the same set.
    pub fn snapshot(&self) -> (r: Result<Vec<u8>, StoreError>)
        ensures
            r is Ok,
            r->Ok_0@ == codes_encoding(self@),
            codes_decode_ok(codes_encoding(self@)),
            codes_decoded(codes_encoding(self@)) == self@,
    {
        match encode_codes(&self.codes) {
            Ok(bytes) => Ok(bytes),
            Err(_) => Err(StoreError::Encoding),
        }
    }
}

/// Adding a code makes it valid: after `Add(c)`, looking up `c`
/// succeeds, whatever the prior set held.
pub proof fn lemma_add_then_lookup(codes: Set<i32>, c: i32)
    ensures
        apply_action(codes, UserAction::Add(c)).contains(c),
{
}

/// Deleting a code that is not present (in particular from an empty
/// set) leaves the set unchanged; `delete` has no failure case.
pub proof fn lemma_delete_absent_noop(codes: Set<i32>, c: i32)
    requires
        !codes.contains(c),
    ensures
        apply_action(codes, UserAction::Del(c)) == codes,
{
    assert(apply_action(codes, UserAction::Del(c)) =~= codes);
}

/// A bulk load installs exactly the listed codes: a code is valid
/// afterwards if and only if it appears in the list.
pub proof fn lemma_bulk_membership(codes: Set<i32>, list: Vec<i32>, x: i32)
    ensures
        apply_action(codes, UserAction::Bulk(list)).contains(x) <==> list@.contains(x),
{
}

/// Replacing an absent code has the same net effect as adding the new
/// code: documented non-error behaviour of `Replace`.
pub proof fn lemma_replace_absent_is_add(codes: Set<i32>, o: i32, n: i32)
    requires
        !codes.contains(o),
    ensures
        apply_action(codes, UserAction::Replace { old: o, new: n }) == apply_action(
            codes,
            UserAction::Add(n),
        ),
{
    assert(codes.remove(o).insert(n) =~= codes.insert(n));
}

} // verus!
