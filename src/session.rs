use vstd::prelude::*;
use vstd::string::StringSliceAdditionalSpecFns;

use crate::marshal::{encode_key, encoded, has_nul, KeyError};
use crate::mode::{mode_code, mode_to_int, Mode};
use crate::slice::{read_result, ReadStep, SliceRead};

verus! {

/// What a session knows of the database's contents, keyed by a key's bytes:
/// `Some(v)` where the value `v` is stored, `None` where nothing is. A key
/// outside the domain is unknown.
pub type Knowledge = Map<Seq<u8>, Option<Seq<u8>>>;

/// What is known under `key`: `None` where nothing is known.
pub open spec fn known(w: Knowledge, key: Seq<u8>) -> Option<Option<Seq<u8>>> {
    if w.contains_key(key) {
        Some(w[key])
    } else {
        None
    }
}

/// What is known when a database has just been opened: a new one is empty;
/// of one that may already exist nothing is known.
pub open spec fn initial_knowledge(mode: Mode) -> Knowledge {
    if mode == Mode::New {
        Map::total(|k: Seq<u8>| None::<Seq<u8>>)
    } else {
        Map::empty()
    }
}

/// What is known after a write of `v` under `key`, which replaces any value.
/// A key that cannot be encoded never reaches the engine.
pub open spec fn after_put(w: Knowledge, key: Seq<u8>, v: Seq<u8>) -> Knowledge {
    if has_nul(key) {
        w
    } else {
        w.insert(key, Some(v))
    }
}

/// What is known after `key` is erased, whether or not it held a value.
pub open spec fn after_erase(w: Knowledge, key: Seq<u8>) -> Knowledge {
    if has_nul(key) {
        w
    } else {
        w.insert(key, None)
    }
}

/// Whether the engine's answer to a read agrees with what was known: a null
/// slice where nothing is stored, the stored bytes where a value is.
pub open spec fn honoured(expected: Option<Option<Seq<u8>>>, answer: Option<Seq<u8>>) -> bool {
    match expected {
        Some(e) => answer == e,
        None => true,
    }
}

/// What opening a database asks of the engine.
pub struct OpenCall {
    /// The database's name, null-terminated.
    pub name: Vec<u8>,
    /// The engine's code for the open mode.
    pub code: libc::c_int,
}

/// The decisions around one open database handle.
///
/// The owner of the native handle asks a session before each call. Operations
/// are valid only while the session is open; closing it asks for the handle's
/// release once, and never again.
pub struct Session {
    open: bool,
    releases: Ghost<nat>,
    knowledge: Ghost<Knowledge>,
}

impl Session {
    pub closed spec fn is_open(&self) -> bool {
        self.open
    }

    /// How many times the handle's release has been asked for.
    pub closed spec fn releases(&self) -> nat {
        self.releases@
    }

    /// What the calls made through this session let one know of the contents.
    pub closed spec fn knowledge(&self) -> Knowledge {
        self.knowledge@
    }

    /// An open session has not asked for the release; a closed one has, once.
    pub open spec fn wf(&self) -> bool {
        self.releases() == if self.is_open() {
            0nat
        } else {
            1nat
        }
    }

    /// Opens a session on the database `name`, and says what to hand the
    /// engine's open entry point. A name holding a zero byte is refused.
    pub fn open(name: &str, mode: Mode) -> (r: Result<(Session, OpenCall), KeyError>)
        ensures
            match encoded(name.spec_bytes()) {
                Err(e) => r is Err && r->Err_0 == e,
                Ok(c) => r is Ok && r->Ok_0.0.wf() && r->Ok_0.0.is_open()
                    && r->Ok_0.0.knowledge() == initial_knowledge(mode)
                    && r->Ok_0.1.name@ == c && r->Ok_0.1.code as int == mode_code(mode),
            },
    {
        match encode_key(name) {
            Err(e) => Err(e),
            Ok(c) => {
                let s = Session {
                    open: true,
                    releases: Ghost(0),
                    knowledge: Ghost(initial_knowledge(mode)),
                };
                Ok((s, OpenCall { name: c, code: mode_to_int(mode) }))
            },
        }
    }

    /// Decides a write of `value` under `key`: the encoded key to hand the
    /// write entry point, beside `value` itself, or the refusal of the key.
    pub fn put(&mut self, key: &str, value: &[u8]) -> (r: Result<Vec<u8>, KeyError>)
        requires
            old(self).wf(),
            old(self).is_open(),
        ensures
            final(self).wf(),
            final(self).is_open(),
            final(self).knowledge() == after_put(old(self).knowledge(), key.spec_bytes(), value@),
            match encoded(key.spec_bytes()) {
                Err(e) => r is Err && r->Err_0 == e,
                Ok(c) => r is Ok && r->Ok_0@ == c,
            },
    {
        let r = encode_key(key);
        if r.is_ok() {
            self.knowledge = Ghost(after_put(self.knowledge@, key.spec_bytes(), value@));
        }
        r
    }

    /// Decides an erase of `key`: the encoded key to hand the erase entry
    /// point, or the refusal of the key. Erasing an absent key is no error.
    pub fn erase(&mut self, key: &str) -> (r: Result<Vec<u8>, KeyError>)
        requires
            old(self).wf(),
            old(self).is_open(),
        ensures
            final(self).wf(),
            final(self).is_open(),
            final(self).knowledge() == after_erase(old(self).knowledge(), key.spec_bytes()),
            match encoded(key.spec_bytes()) {
                Err(e) => r is Err && r->Err_0 == e,
                Ok(c) => r is Ok && r->Ok_0@ == c,
            },
    {
        let r = encode_key(key);
        if r.is_ok() {
            self.knowledge = Ghost(after_erase(self.knowledge@, key.spec_bytes()));
        }
        r
    }

    /// Starts a read of `key`; see `SliceRead` for the steps that follow.
    pub fn read(&self, key: &str) -> (r: (SliceRead, ReadStep))
        requires
            self.wf(),
            self.is_open(),
        ensures
            r.0.wf(),
            r.0.key() == key.spec_bytes(),
            r.0.expected() == known(self.knowledge(), key.spec_bytes()),
            match encoded(key.spec_bytes()) {
                Err(e) => r.0.is_finished() && r.0.issued() == Seq::<crate::slice::NativeOp>::empty()
                    && crate::slice::finishes(r.1, Err(e))
                    && crate::slice::finishes(r.1, read_result(r.0.key(), r.0.answer())),
                Ok(c) => r.0.awaiting_lookup() && crate::slice::calls(
                    r.1,
                    crate::slice::NativeOp::Lookup(c),
                ),
            },
    {
        SliceRead::begin(key, Ghost(known(self.knowledge@, key.spec_bytes())))
    }

    /// Closes the session: true the first time, when the handle must be
    /// released, and false on every later call.
    pub fn close(&mut self) -> (r: bool)
        requires
            old(self).wf(),
        ensures
            final(self).wf(),
            !final(self).is_open(),
            r == old(self).is_open(),
            final(self).releases() == 1,
            final(self).knowledge() == old(self).knowledge(),
    {
        if self.open {
            self.open = false;
            self.releases = Ghost(1);
            true
        } else {
            false
        }
    }
}

/// Reading a key back after writing a value under it yields exactly that
/// value, wherever the engine keeps its contract.
pub proof fn lemma_round_trip(w: Knowledge, key: Seq<u8>, v: Seq<u8>, answer: Option<Seq<u8>>)
    requires
        !has_nul(key),
        honoured(known(after_put(w, key, v), key), answer),
    ensures
        read_result(key, answer) == Ok::<Option<Seq<u8>>, KeyError>(Some(v)),
{
}

/// A key that nothing was ever written under, in a new database, or that was
/// erased, reads as a miss: no error, and no empty value either.
pub proof fn lemma_miss(w: Knowledge, key: Seq<u8>, answer: Option<Seq<u8>>)
    requires
        !has_nul(key),
        honoured(known(initial_knowledge(Mode::New), key), answer) || honoured(
            known(after_erase(w, key), key),
            answer,
        ),
    ensures
        read_result(key, answer) == Ok::<Option<Seq<u8>>, KeyError>(None),
{
}

/// A second write under a key replaces the first: reading yields the second.
pub proof fn lemma_overwrite(
    w: Knowledge,
    key: Seq<u8>,
    v1: Seq<u8>,
    v2: Seq<u8>,
    answer: Option<Seq<u8>>,
)
    requires
        !has_nul(key),
        honoured(known(after_put(after_put(w, key, v1), key, v2), key), answer),
    ensures
        read_result(key, answer) == Ok::<Option<Seq<u8>>, KeyError>(Some(v2)),
{
}

/// Erasing a valid key succeeds whether or not it held a value, and erasing it
/// again at once succeeds too and changes nothing more.
pub proof fn lemma_erase_idempotent(w: Knowledge, key: Seq<u8>)
    requires
        !has_nul(key),
    ensures
        encoded(key) is Ok,
        after_erase(after_erase(w, key), key) == after_erase(w, key),
{
    assert(after_erase(after_erase(w, key), key) =~= after_erase(w, key));
}

/// A write followed by an erase of the same key leaves a miss behind.
pub proof fn lemma_erase_after_put(w: Knowledge, key: Seq<u8>, v: Seq<u8>, answer: Option<Seq<u8>>)
    requires
        !has_nul(key),
        honoured(known(after_erase(after_put(w, key, v), key), key), answer),
    ensures
        read_result(key, answer) == Ok::<Option<Seq<u8>>, KeyError>(None),
{
}

/// A key holding a zero byte is refused by every operation before any native
/// call: reads issue none, and writes and erases change nothing.
pub proof fn lemma_invalid_key(w: Knowledge, key: Seq<u8>, v: Seq<u8>, answer: Option<Seq<u8>>)
    requires
        has_nul(key),
    ensures
        encoded(key) == Err::<Seq<u8>, KeyError>(KeyError::InvalidKey),
        crate::slice::read_trace(key, answer).len() == 0,
        read_result(key, answer) == Err::<Option<Seq<u8>>, KeyError>(KeyError::InvalidKey),
        after_put(w, key, v) == w,
        after_erase(w, key) == w,
{
}

} // verus!
