//! The keyfile store as the session sees it.
//!
//! A store maps keys to keyfiles, both plain bytes. The service asks of it
//! four things and makes no assumption on how it answers: every answer
//! that the signatures allow is provided for. So that what the service
//! asks can be stated all the same, it asks through a [`Recorded`] store,
//! which keeps, for proofs, the record of each question and its answer.

use crate::value::copy_bytes;
use vstd::prelude::*;

verus! {

/// Why the store could not do what was asked.
#[derive(Debug, PartialEq)]
pub enum KeyFileError {
    /// There is no keyfile under the key, which is handed back.
    Key(Vec<u8>),
    /// The store failed for a reason of its own.
    Other,
}

/// The answer of a store.
pub type KeyFileResult<V> = core::result::Result<V, KeyFileError>;

/// Opens a store.
pub trait KeyFileBuilder: Sized {
    /// Opens the store called `name`, in the directory `envpath` or, without
    /// one, in the place that the store itself prefers.
    fn new(name: &str, envpath: Option<&str>) -> Self;
}

/// What the session asks of a store.
pub trait KeyFileStore {
    /// Whether there is a keyfile under the key.
    fn key_exists(&self, k: &Vec<u8>) -> bool;

    /// The keyfile under the key.
    fn get(&self, k: &Vec<u8>) -> KeyFileResult<Vec<u8>>;

    /// Puts the keyfile under the key, in place of what was there.
    fn set(&mut self, k: &Vec<u8>, file: &Vec<u8>) -> KeyFileResult<()>;

    /// Removes the keyfile under the key.
    fn delete(&mut self, k: &Vec<u8>) -> KeyFileResult<()>;
}

/// One question to a store, with its arguments, and the answer.
pub enum Exchange {
    /// Whether there is a keyfile under the key.
    Found(Seq<u8>, bool),
    /// The keyfile under the key.
    Read(Seq<u8>, KeyFileResult<Vec<u8>>),
    /// The keyfile put under the key.
    Written(Seq<u8>, Seq<u8>, KeyFileResult<()>),
    /// The keyfile under the key removed.
    Removed(Seq<u8>, KeyFileResult<()>),
}

/// A store with the record of what it was asked and what it answered.
///
/// The record is kept for proofs alone. Nothing but the four methods below
/// adds to it, and each adds the one question that it has put to the
/// store, with the answer that the store gave: what a function says of the
/// record, it says of the store.
pub struct Recorded<S: KeyFileStore> {
    store: S,
    record: Ghost<Seq<Exchange>>,
}

/// What was added to a record that was `before` and is `after`.
pub open spec fn asked_since(before: Seq<Exchange>, after: Seq<Exchange>) -> Seq<Exchange> {
    after.subrange(before.len() as int, after.len() as int)
}

/// Whether a record that was `before` has only been added to.
pub open spec fn goes_on(before: Seq<Exchange>, after: Seq<Exchange>) -> bool {
    before.len() <= after.len() && after.subrange(0, before.len() as int) == before
}

impl<S: KeyFileStore> Recorded<S> {
    /// The store.
    pub closed spec fn store(&self) -> S {
        self.store
    }

    /// What the store was asked and what it answered, in order.
    pub closed spec fn record(&self) -> Seq<Exchange> {
        self.record@
    }

    /// The store with an empty record.
    pub fn new(store: S) -> (r: Self)
        ensures
            r.store() == store,
            r.record() == Seq::<Exchange>::empty(),
    {
        Recorded { store, record: Ghost(Seq::empty()) }
    }

    /// Gives up the record for the store.
    pub fn into_store(self) -> (store: S)
        ensures
            store == self.store(),
    {
        self.store
    }

    /// Asks the store whether there is a keyfile under the key.
    pub fn key_exists(&mut self, k: &Vec<u8>) -> (found: bool)
        ensures
            final(self).record() == old(self).record().push(Exchange::Found(k@, found)),
            final(self).store() == old(self).store(),
    {
        let found = self.store.key_exists(k);
        self.record = Ghost(self.record@.push(Exchange::Found(k@, found)));
        found
    }

    /// Asks the store for the keyfile under the key.
    pub fn get(&mut self, k: &Vec<u8>) -> (answer: KeyFileResult<Vec<u8>>)
        ensures
            final(self).record() == old(self).record().push(Exchange::Read(k@, answer)),
            final(self).store() == old(self).store(),
    {
        let answer = self.store.get(k);
        self.record = Ghost(self.record@.push(Exchange::Read(k@, answer)));
        answer
    }

    /// Asks the store to put the keyfile under the key.
    pub fn set(&mut self, k: &Vec<u8>, file: &Vec<u8>) -> (answer: KeyFileResult<()>)
        ensures
            final(self).record() == old(self).record().push(Exchange::Written(k@, file@, answer)),
    {
        let answer = self.store.set(k, file);
        self.record = Ghost(self.record@.push(Exchange::Written(k@, file@, answer)));
        answer
    }

    /// Asks the store to remove the keyfile under the key.
    pub fn delete(&mut self, k: &Vec<u8>) -> (answer: KeyFileResult<()>)
        ensures
            final(self).record() == old(self).record().push(Exchange::Removed(k@, answer)),
    {
        let answer = self.store.delete(k);
        self.record = Ghost(self.record@.push(Exchange::Removed(k@, answer)));
        answer
    }
}

/// Whether the answer of an exchange is the one that a store gives that
/// holds `files` and never fails: it finds and reads the keys that it
/// holds, it writes whatever it is asked to, and it removes the keys that
/// it holds; of a key that it lacks it says so, with the key.
pub open spec fn answered_by(files: Map<Seq<u8>, Seq<u8>>, e: Exchange) -> bool {
    match e {
        Exchange::Found(k, found) => found == files.contains_key(k),
        Exchange::Read(k, answer) => if files.contains_key(k) {
            answer is Ok && answer->Ok_0@ == files[k]
        } else {
            answer is Err && answer->Err_0 is Key && answer->Err_0->Key_0@ == k
        },
        Exchange::Written(_, _, answer) => answer is Ok,
        Exchange::Removed(k, answer) => if files.contains_key(k) {
            answer is Ok
        } else {
            answer is Err && answer->Err_0 is Key && answer->Err_0->Key_0@ == k
        },
    }
}

/// What such a store holds after an exchange, where it held `files`
/// before.
pub open spec fn files_after(files: Map<Seq<u8>, Seq<u8>>, e: Exchange) -> Map<Seq<u8>, Seq<u8>> {
    match e {
        Exchange::Written(k, file, _) => files.insert(k, file),
        Exchange::Removed(k, _) => files.remove(k),
        _ => files,
    }
}

/// Whether the exchanges are answered, one after the other, by a store
/// that holds `files` at first and never fails.
pub open spec fn all_answered_by(files: Map<Seq<u8>, Seq<u8>>, asked: Seq<Exchange>) -> bool
    decreases asked.len(),
{
    asked.len() == 0 || (answered_by(files, asked[0]) && all_answered_by(
        files_after(files, asked[0]),
        asked.drop_first(),
    ))
}

/// What such a store holds after the exchanges, where it held `files` at
/// first.
pub open spec fn files_after_all(files: Map<Seq<u8>, Seq<u8>>, asked: Seq<Exchange>) -> Map<
    Seq<u8>,
    Seq<u8>,
>
    decreases asked.len(),
{
    if asked.len() == 0 {
        files
    } else {
        files_after_all(files_after(files, asked[0]), asked.drop_first())
    }
}

/// What the engine behind a store said to one operation.
#[derive(Debug, PartialEq)]
pub enum EngineAnswer<V> {
    /// It did what was asked, with this result.
    Done(V),
    /// It has nothing under the key.
    NotFound,
    /// It failed for any other reason.
    Failed,
}

/// The answer of a store to `key_exists`, for an answer of the engine to a
/// read of the key: the key exists where the read found something.
pub fn exists_answer(answer: &EngineAnswer<Vec<u8>>) -> (found: bool)
    ensures
        found == (*answer is Done),
{
    match answer {
        EngineAnswer::Done(_) => true,
        _ => false,
    }
}

/// The answer of a store to `get` and to `delete`, for an answer of the
/// engine: nothing under the key is the error of that key, and every other
/// failure is `Other`.
pub fn keyed_answer<V>(k: &Vec<u8>, answer: EngineAnswer<V>) -> (r: KeyFileResult<V>)
    ensures
        match answer {
            EngineAnswer::Done(v) => r == Ok::<V, KeyFileError>(v),
            EngineAnswer::NotFound => r is Err && r->Err_0 is Key && r->Err_0->Key_0@ == k@,
            EngineAnswer::Failed => r == Err::<V, KeyFileError>(KeyFileError::Other),
        },
{
    match answer {
        EngineAnswer::Done(v) => Ok(v),
        EngineAnswer::NotFound => Err(KeyFileError::Key(copy_bytes(k.as_slice()))),
        EngineAnswer::Failed => Err(KeyFileError::Other),
    }
}

/// The answer of a store to `set`, for an answer of the engine: every
/// failure is `Other`.
pub fn set_answer(answer: EngineAnswer<()>) -> (r: KeyFileResult<()>)
    ensures
        r == (match answer {
            EngineAnswer::Done(_) => Ok::<(), KeyFileError>(()),
            _ => Err::<(), KeyFileError>(KeyFileError::Other),
        }),
{
    match answer {
        EngineAnswer::Done(_) => Ok(()),
        _ => Err(KeyFileError::Other),
    }
}

} // verus!
