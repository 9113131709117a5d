//! The store handle and the decision half of every data operation.
//!
//! One handle stands for one open engine connection at a fixed filesystem
//! path. The engine's own work — the blocking filesystem I/O of open,
//! destroy and repair, and the keyed reads and writes — happens outside this
//! layer; each function here takes the engine's reply as a plain value,
//! turns it into the operation's tagged outcome, and keeps the handle's
//! ghost contents in step with every acknowledged write. The contracts tie
//! each outcome to the abstract store model of `crate::model`, so the laws
//! proved there carry over to runs of the real operations whenever the
//! engine replies consistently with what it acknowledged before.

use vstd::prelude::*;
use vstd::rwlock::RwLock;
use vstd::rwlock::RwLockPredicate;
use vstd::rwlock::WriteHandle;

use crate::errors::GetOutcome;
use crate::errors::GetTextOutcome;
use crate::errors::RockerError;
use crate::model::StoreModel;
use crate::model::store_delete;
use crate::model::store_lookup;
use crate::model::store_put;

verus! {

/// One open connection to a store. The path is immutable for the handle's
/// lifetime; the ghost contents are what the engine is obliged to hold,
/// given the write replies recorded so far.
pub struct StoreHandle {
    path: String,
    contents: Ghost<StoreModel>,
}

impl View for StoreHandle {
    type V = StoreModel;

    closed spec fn view(&self) -> StoreModel {
        self.contents@
    }
}

/// An engine reply to a keyed read agrees with contents `m` when it reports
/// exactly what `m` binds under `key`; an I/O failure is never ruled out.
pub open spec fn read_reply_consistent(
    m: StoreModel,
    key: Seq<u8>,
    reply: Result<Option<Vec<u8>>, String>,
) -> bool {
    match reply {
        Ok(found) => match found {
            Some(v) => store_lookup(m, key) == Some(v@),
            None => store_lookup(m, key) is None,
        },
        Err(_) => true,
    }
}

impl StoreHandle {
    /// The path this handle was opened from.
    pub closed spec fn spec_path(self) -> Seq<char> {
        self.path@
    }

    /// Concludes an open operation: a successful engine reply yields a live
    /// handle at `path` with unknown prior contents, and a failure surfaces
    /// as a structured `OpenFailed` instead of aborting the caller.
    pub fn open(path: String, reply: Result<(), String>) -> (r: Result<StoreHandle, RockerError>)
        ensures
            reply is Ok <==> r is Ok,
            r matches Ok(h) ==> h.spec_path() == path@,
            reply matches Err(m) ==> r == Err::<StoreHandle, RockerError>(
                RockerError::OpenFailed(m),
            ),
    {
        match reply {
            Ok(_) => Ok(StoreHandle { path, contents: Ghost(arbitrary()) }),
            Err(m) => Err(RockerError::OpenFailed(m)),
        }
    }

    /// The path the handle was opened with; pure and always succeeds.
    pub fn path(&self) -> (r: String)
        ensures
            r@ == self.spec_path(),
    {
        self.path.clone()
    }

    /// Releases the handle deterministically; the caller drops the engine
    /// connection when this returns. Returns the path the handle held.
    pub fn close(self) -> (r: String)
        ensures
            r@ == self.spec_path(),
    {
        self.path
    }

    /// The decision half of `put(handle, key, value)`: records an
    /// acknowledged insert in the contents and maps an engine failure to
    /// `WriteFailed`.
    pub fn put(&mut self, key: &[u8], value: &[u8], reply: Result<(), String>) -> (r: Result<
        (),
        RockerError,
    >)
        ensures
            final(self).spec_path() == old(self).spec_path(),
            reply is Ok <==> r is Ok,
            reply is Ok ==> final(self)@ == store_put(old(self)@, key@, value@),
            reply matches Err(m) ==> r == Err::<(), RockerError>(RockerError::WriteFailed(m))
                && final(self)@ == old(self)@,
    {
        match reply {
            Ok(_) => {
                proof {
                    self.contents@ = self.contents@.insert(key@, value@);
                }
                Ok(())
            },
            Err(m) => Err(RockerError::WriteFailed(m)),
        }
    }

    /// The decision half of `delete(handle, key)`: records an acknowledged
    /// removal — absence of the key is not an error — and maps an engine
    /// failure to `WriteFailed`.
    pub fn delete(&mut self, key: &[u8], reply: Result<(), String>) -> (r: Result<
        (),
        RockerError,
    >)
        ensures
            final(self).spec_path() == old(self).spec_path(),
            reply is Ok <==> r is Ok,
            reply is Ok ==> final(self)@ == store_delete(old(self)@, key@),
            reply matches Err(m) ==> r == Err::<(), RockerError>(RockerError::WriteFailed(m))
                && final(self)@ == old(self)@,
    {
        match reply {
            Ok(_) => {
                proof {
                    self.contents@ = self.contents@.remove(key@);
                }
                Ok(())
            },
            Err(m) => Err(RockerError::WriteFailed(m)),
        }
    }

    /// The decision half of `get(handle, key)`: a reported value is
    /// `Found`, a reported absence is the non-error `NotFound`, and an
    /// engine failure is `ReadFailed`. When the reply agrees with the
    /// handle's contents, the outcome is exactly `store_lookup`.
    pub fn get(&self, key: &[u8], reply: Result<Option<Vec<u8>>, String>) -> (r: Result<
        GetOutcome,
        RockerError,
    >)
        ensures
            reply matches Ok(Some(v)) ==> r matches Ok(GetOutcome::Found(b)) && b@ == v@,
            reply matches Ok(None) ==> r == Ok::<GetOutcome, RockerError>(GetOutcome::NotFound),
            reply matches Err(m) ==> r == Err::<GetOutcome, RockerError>(
                RockerError::ReadFailed(m),
            ),
            read_reply_consistent(self@, key@, reply) ==> match r {
                Ok(GetOutcome::Found(b)) => store_lookup(self@, key@) == Some(b@),
                Ok(GetOutcome::NotFound) => store_lookup(self@, key@) is None,
                Err(e) => e is ReadFailed,
            },
    {
        match reply {
            Ok(Some(v)) => Ok(GetOutcome::Found(v)),
            Ok(None) => Ok(GetOutcome::NotFound),
            Err(m) => Err(RockerError::ReadFailed(m)),
        }
    }

    /// The decision half of a `put` whose key and value arrive as text, as
    /// the host hands them over: the entry is recorded under the text's
    /// UTF-8 bytes.
    pub fn put_text(&mut self, key: &str, value: &str, reply: Result<(), String>) -> (r: Result<
        (),
        RockerError,
    >)
        ensures
            final(self).spec_path() == old(self).spec_path(),
            reply is Ok <==> r is Ok,
            reply is Ok ==> final(self)@ == store_put(
                old(self)@,
                vstd::utf8::encode_utf8(key@),
                vstd::utf8::encode_utf8(value@),
            ),
            reply matches Err(m) ==> r == Err::<(), RockerError>(RockerError::WriteFailed(m))
                && final(self)@ == old(self)@,
    {
        self.put(key.as_bytes(), value.as_bytes(), reply)
    }

    /// The decision half of a `get` with text semantics: a stored value
    /// that is not well-formed text is the distinct `DecodeFailed`
    /// condition, never a panic and never confused with `ReadFailed`.
    pub fn get_text(&self, key: &[u8], reply: Result<Option<Vec<u8>>, String>) -> (r: Result<
        GetTextOutcome,
        RockerError,
    >)
        ensures
            match reply {
                Ok(Some(v)) => if vstd::utf8::valid_utf8(v@) {
                    r matches Ok(GetTextOutcome::Found(s)) && s@ == vstd::utf8::decode_utf8(v@)
                } else {
                    r == Err::<GetTextOutcome, RockerError>(RockerError::DecodeFailed)
                },
                Ok(None) => r == Ok::<GetTextOutcome, RockerError>(GetTextOutcome::NotFound),
                Err(m) => r == Err::<GetTextOutcome, RockerError>(RockerError::ReadFailed(m)),
            },
    {
        match reply {
            Ok(Some(v)) => match bytes_to_text(v) {
                Some(s) => Ok(GetTextOutcome::Found(s)),
                None => Err(RockerError::DecodeFailed),
            },
            Ok(None) => Ok(GetTextOutcome::NotFound),
            Err(m) => Err(RockerError::ReadFailed(m)),
        }
    }
}

/// The invariant of a shared store's lock: every handle stored under the
/// lock keeps the path the store was opened with.
pub struct PathPred {
    pub path: Seq<char>,
}

impl RwLockPredicate<StoreHandle> for PathPred {
    open spec fn inv(self, h: StoreHandle) -> bool {
        h.spec_path() == self.path
    }
}

/// One open store shared by every concurrent caller that references it.
///
/// Every data operation is serialized through this single reader/writer
/// lock, acquired in exclusive mode even for reads: a caller takes the
/// handle with `acquire`, performs one engine operation and records its
/// reply, and gives the handle back by releasing the write handle. No two
/// operations on one store ever run at the same time, so no data race is
/// possible through this layer whatever the engine itself guarantees.
pub struct SharedHandle {
    path: String,
    lock: RwLock<StoreHandle, PathPred>,
}

impl SharedHandle {
    /// The path the store was opened with.
    pub closed spec fn spec_path(self) -> Seq<char> {
        self.path@
    }

    #[verifier::type_invariant]
    spec fn wf(self) -> bool {
        self.lock.pred() == (PathPred { path: self.path@ })
    }

    /// Wraps a freshly opened handle for shared, serialized use.
    pub fn share(handle: StoreHandle) -> (s: SharedHandle)
        ensures
            s.spec_path() == handle.spec_path(),
    {
        let path = handle.path();
        let ghost pred = PathPred { path: path@ };
        let lock = RwLock::new(handle, Ghost(pred));
        SharedHandle { path, lock }
    }

    /// The path the store was opened with; pure, no lock required.
    pub fn path(&self) -> (r: String)
        ensures
            r@ == self.spec_path(),
    {
        self.path.clone()
    }

    /// Takes the store's lock in exclusive mode and hands out the handle.
    /// The write handle must be released — with a store handle at the same
    /// path — for any other caller to proceed.
    pub fn acquire<'a>(&'a self) -> (r: (StoreHandle, WriteHandle<'a, StoreHandle, PathPred>))
        ensures
            r.0.spec_path() == self.spec_path(),
            r.1.rwlock().pred() == (PathPred { path: self.spec_path() }),
    {
        proof {
            use_type_invariant(self);
        }
        self.lock.acquire_write()
    }

    /// Releases the store, returning the handle held inside; the caller
    /// drops the engine connection when this returns.
    pub fn unshare(self) -> (r: StoreHandle)
        ensures
            r.spec_path() == self.spec_path(),
    {
        proof {
            use_type_invariant(&self);
        }
        self.lock.into_inner()
    }
}

/// Relies on std's `String::from_utf8`: it succeeds exactly on valid UTF-8
/// input and the resulting string's characters decode those bytes.
#[verifier::external_body]
fn bytes_to_text(v: Vec<u8>) -> (r: Option<String>)
    ensures
        r is Some <==> vstd::utf8::valid_utf8(v@),
        r matches Some(s) ==> s@ == vstd::utf8::decode_utf8(v@),
{
    String::from_utf8(v).ok()
}

/// The decision half of `destroy(path)`: success, or the engine's reason
/// wrapped as `DestroyFailed`. The removal itself is a path-level operation
/// that takes no live handle.
pub fn destroy(reply: Result<(), String>) -> (r: Result<(), RockerError>)
    ensures
        reply is Ok <==> r is Ok,
        reply matches Err(m) ==> r == Err::<(), RockerError>(RockerError::DestroyFailed(m)),
{
    match reply {
        Ok(_) => Ok(()),
        Err(m) => Err(RockerError::DestroyFailed(m)),
    }
}

/// The decision half of `repair(path)`: success, or the engine's reason
/// wrapped as `RepairFailed`. Repair takes no live handle.
pub fn repair(reply: Result<(), String>) -> (r: Result<(), RockerError>)
    ensures
        reply is Ok <==> r is Ok,
        reply matches Err(m) ==> r == Err::<(), RockerError>(RockerError::RepairFailed(m)),
{
    match reply {
        Ok(_) => Ok(()),
        Err(m) => Err(RockerError::RepairFailed(m)),
    }
}

/// Law (round trip): after an acknowledged `put` of `key -> value`, every
/// non-failing engine reply for `key` that is consistent with the recorded
/// contents reports exactly `value`.
pub proof fn lemma_round_trip(
    m: StoreModel,
    key: Seq<u8>,
    value: Seq<u8>,
    reply: Result<Option<Vec<u8>>, String>,
)
    requires
        read_reply_consistent(store_put(m, key, value), key, reply),
        reply is Ok,
    ensures
        reply matches Ok(Some(v)) && v@ == value,
{
}

/// Law (text round trip): a value stored as text is bound under the text's
/// bytes, those bytes are valid text on the way back, and they decode to
/// exactly the stored characters — so a text read after a text write yields
/// `Found` with the written text.
pub proof fn lemma_text_round_trip(m: StoreModel, key: Seq<char>, value: Seq<char>)
    ensures
        store_lookup(
            store_put(m, vstd::utf8::encode_utf8(key), vstd::utf8::encode_utf8(value)),
            vstd::utf8::encode_utf8(key),
        ) == Some(vstd::utf8::encode_utf8(value)),
        vstd::utf8::valid_utf8(vstd::utf8::encode_utf8(value)),
        vstd::utf8::decode_utf8(vstd::utf8::encode_utf8(value)) == value,
{
    broadcast use vstd::utf8::encode_utf8_valid_utf8;
    broadcast use vstd::utf8::encode_utf8_decode_utf8;
}

/// Law (never written, never found): a key the contents do not bind is
/// reported absent by every non-failing consistent reply.
pub proof fn lemma_absent_reply(m: StoreModel, key: Seq<u8>, reply: Result<Option<Vec<u8>>, String>)
    requires
        !m.contains_key(key),
        read_reply_consistent(m, key, reply),
        reply is Ok,
    ensures
        reply matches Ok(found) && found is None,
{
}

/// Law (delete, then read): after an acknowledged `delete` of `key`, every
/// non-failing consistent reply for `key` reports absence.
pub proof fn lemma_deleted_reply(
    m: StoreModel,
    key: Seq<u8>,
    reply: Result<Option<Vec<u8>>, String>,
)
    requires
        read_reply_consistent(store_delete(m, key), key, reply),
        reply is Ok,
    ensures
        reply matches Ok(found) && found is None,
{
}

} // verus!
