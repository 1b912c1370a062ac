use vstd::prelude::*;
use vstd::string::StringSliceAdditionalSpecFns;

use crate::marshal::{c_string, encoded, has_nul, KeyError};

verus! {

/// A native call as the contracts speak of it.
pub enum NativeOp {
    /// The read entry point, on a null-terminated key.
    Lookup(Seq<u8>),
    /// The slice-length entry point.
    Length,
    /// A copy of this many bytes out of the slice's data.
    Copy(nat),
    /// The slice-release entry point.
    Release,
}

/// A native call that the driver of a read must make next.
pub enum SliceCall {
    /// Call the read entry point with this null-terminated key.
    Lookup(Vec<u8>),
    /// Ask the slice in hand for its length.
    Length,
    /// Copy this many bytes of the slice's data into memory of one's own.
    Copy(usize),
    /// Release the slice in hand; it must not be touched afterwards.
    Release,
}

impl SliceCall {
    pub open spec fn op(&self) -> NativeOp {
        match self {
            SliceCall::Lookup(k) => NativeOp::Lookup(k@),
            SliceCall::Length => NativeOp::Length,
            SliceCall::Copy(n) => NativeOp::Copy(*n as nat),
            SliceCall::Release => NativeOp::Release,
        }
    }
}

/// What a read asks of its driver: one more native call, or the end.
pub enum ReadStep {
    Call(SliceCall),
    /// The read is over: an invalid key, a miss (`None`) or the copied bytes.
    Done(Result<Option<Vec<u8>>, KeyError>),
}

/// Whether a step is the call `op`.
pub open spec fn calls(step: ReadStep, op: NativeOp) -> bool {
    match step {
        ReadStep::Call(c) => c.op() == op,
        ReadStep::Done(_) => false,
    }
}

/// The view of a read's outcome.
pub open spec fn outcome_view(r: Result<Option<Vec<u8>>, KeyError>) -> Result<Option<Seq<u8>>, KeyError> {
    match r {
        Ok(Some(d)) => Ok(Some(d@)),
        Ok(None) => Ok(None),
        Err(e) => Err(e),
    }
}

/// Whether a step ends the read with the given outcome.
pub open spec fn finishes(step: ReadStep, out: Result<Option<Seq<u8>>, KeyError>) -> bool {
    match step {
        ReadStep::Call(_) => false,
        ReadStep::Done(r) => outcome_view(r) == out,
    }
}

/// The native calls that one whole read makes, given the key's bytes and what
/// the engine answered (`None` for a null slice, else the slice's bytes).
pub open spec fn read_trace(key: Seq<u8>, answer: Option<Seq<u8>>) -> Seq<NativeOp> {
    if has_nul(key) {
        seq![]
    } else {
        match answer {
            None => seq![NativeOp::Lookup(c_string(key))],
            Some(d) => seq![
                NativeOp::Lookup(c_string(key)),
                NativeOp::Length,
                NativeOp::Copy(d.len()),
                NativeOp::Release,
            ],
        }
    }
}

/// What one whole read returns, given the key's bytes and the engine's answer.
pub open spec fn read_result(key: Seq<u8>, answer: Option<Seq<u8>>) -> Result<Option<Seq<u8>>, KeyError> {
    match encoded(key) {
        Err(e) => Err(e),
        Ok(_) => Ok(answer),
    }
}

enum ReadPhase {
    Lookup,
    Length,
    Copy(usize),
    Release(Vec<u8>),
    Finished,
}

/// One read in progress: the decisions of the slice transfer protocol.
///
/// The driver performs each call that a step names and reports what came
/// back. A null slice ends the read as a miss; a non-null one is measured,
/// copied out, and released exactly once, after the copy and before the read
/// returns the copy.
pub struct SliceRead {
    phase: ReadPhase,
    key: Ghost<Seq<u8>>,
    expected: Ghost<Option<Option<Seq<u8>>>>,
    answer: Ghost<Option<Seq<u8>>>,
    issued: Ghost<Seq<NativeOp>>,
}

impl SliceRead {
    /// The key's bytes, without a terminator.
    pub closed spec fn key(&self) -> Seq<u8> {
        self.key@
    }

    /// What the engine's contract lets one expect under the key, where it is
    /// known: `Some(None)` for a miss, `Some(Some(v))` for the value `v`.
    pub closed spec fn expected(&self) -> Option<Option<Seq<u8>>> {
        self.expected@
    }

    /// What the engine has answered so far: `None` for a null slice, else the
    /// bytes copied out of it.
    pub closed spec fn answer(&self) -> Option<Seq<u8>> {
        self.answer@
    }

    /// The native calls issued so far, in order.
    pub closed spec fn issued(&self) -> Seq<NativeOp> {
        self.issued@
    }

    pub closed spec fn awaiting_lookup(&self) -> bool {
        self.phase is Lookup
    }

    pub closed spec fn awaiting_length(&self) -> bool {
        self.phase is Length
    }

    /// Waiting for a copy of `n` bytes.
    pub closed spec fn awaiting_copy(&self, n: nat) -> bool {
        match self.phase {
            ReadPhase::Copy(len) => len as nat == n,
            _ => false,
        }
    }

    pub closed spec fn awaiting_release(&self) -> bool {
        self.phase is Release
    }

    pub closed spec fn is_finished(&self) -> bool {
        self.phase is Finished
    }

    /// The calls issued so far are a prefix of the protocol, in the order it
    /// prescribes, and a finished read has made exactly the calls of a whole one.
    pub closed spec fn wf(&self) -> bool {
        let c = NativeOp::Lookup(c_string(self.key@));
        match self.phase {
            ReadPhase::Lookup => !has_nul(self.key@) && self.issued@ == seq![c],
            ReadPhase::Length => !has_nul(self.key@) && self.issued@ == seq![c],
            ReadPhase::Copy(_) => !has_nul(self.key@) && self.issued@ == seq![c, NativeOp::Length],
            ReadPhase::Release(d) => !has_nul(self.key@) && self.answer@ == Some(d@)
                && self.issued@ == seq![c, NativeOp::Length, NativeOp::Copy(d@.len())],
            ReadPhase::Finished => self.issued@ == read_trace(self.key@, self.answer@),
        }
    }

    /// Starts a read of `key`. An invalid key ends it at once, before any
    /// native call; otherwise the first step is the lookup.
    pub(crate) fn begin(key: &str, expected: Ghost<Option<Option<Seq<u8>>>>) -> (r: (
        SliceRead,
        ReadStep,
    ))
        ensures
            r.0.wf(),
            r.0.key() == key.spec_bytes(),
            r.0.expected() == expected@,
            match encoded(key.spec_bytes()) {
                Err(e) => r.0.is_finished() && r.0.issued() == Seq::<NativeOp>::empty()
                    && finishes(r.1, Err(e))
                    && finishes(r.1, read_result(r.0.key(), r.0.answer())),
                Ok(c) => r.0.awaiting_lookup() && calls(r.1, NativeOp::Lookup(c)),
            },
    {
        let kb = Ghost(key.spec_bytes());
        match crate::marshal::encode_key(key) {
            Err(e) => {
                let read = SliceRead {
                    phase: ReadPhase::Finished,
                    key: kb,
                    expected,
                    answer: Ghost(None),
                    issued: Ghost(Seq::empty()),
                };
                (read, ReadStep::Done(Err(e)))
            },
            Ok(c) => {
                let ghost issued = seq![NativeOp::Lookup(c@)];
                let read = SliceRead {
                    phase: ReadPhase::Lookup,
                    key: kb,
                    expected,
                    answer: Ghost(None),
                    issued: Ghost(issued),
                };
                (read, ReadStep::Call(SliceCall::Lookup(c)))
            },
        }
    }

    /// Takes the read entry point's result: `found` is false for a null slice.
    /// A null slice is a miss, not an error, and nothing is released for it.
    pub fn on_lookup(&mut self, found: bool) -> (step: ReadStep)
        requires
            old(self).wf(),
            old(self).awaiting_lookup(),
        ensures
            final(self).wf(),
            final(self).key() == old(self).key(),
            final(self).expected() == old(self).expected(),
            if found {
                final(self).awaiting_length() && final(self).issued() == old(self).issued()
                    && calls(step, NativeOp::Length)
            } else {
                final(self).is_finished() && final(self).answer() == None::<Seq<u8>>
                    && final(self).issued() == old(self).issued() && finishes(step, Ok(None))
                    && finishes(step, read_result(final(self).key(), final(self).answer()))
            },
    {
        if found {
            self.phase = ReadPhase::Length;
            ReadStep::Call(SliceCall::Length)
        } else {
            self.phase = ReadPhase::Finished;
            self.answer = Ghost(None);
            ReadStep::Done(Ok(None))
        }
    }

    /// Takes the slice's length; the next step copies exactly that many bytes.
    pub fn on_length(&mut self, len: usize) -> (step: ReadStep)
        requires
            old(self).wf(),
            old(self).awaiting_length(),
        ensures
            final(self).wf(),
            final(self).key() == old(self).key(),
            final(self).expected() == old(self).expected(),
            final(self).awaiting_copy(len as nat),
            final(self).issued() == old(self).issued().push(NativeOp::Length),
            calls(step, NativeOp::Copy(len as nat)),
    {
        self.phase = ReadPhase::Copy(len);
        self.issued = Ghost(self.issued@.push(NativeOp::Length));
        assert(self.issued@ =~= seq![NativeOp::Lookup(c_string(self.key@)), NativeOp::Length]);
        ReadStep::Call(SliceCall::Copy(len))
    }

    /// Takes the bytes copied out of the slice; only now is the slice released.
    pub fn on_copied(&mut self, data: Vec<u8>) -> (step: ReadStep)
        requires
            old(self).wf(),
            exists|n: nat| old(self).awaiting_copy(n) && data@.len() == n,
        ensures
            final(self).wf(),
            final(self).key() == old(self).key(),
            final(self).expected() == old(self).expected(),
            final(self).awaiting_release(),
            final(self).answer() == Some(data@),
            final(self).issued() == old(self).issued().push(NativeOp::Copy(data@.len())),
            calls(step, NativeOp::Release),
    {
        let ghost n = data@.len();
        self.answer = Ghost(Some(data@));
        self.issued = Ghost(self.issued@.push(NativeOp::Copy(n)));
        self.phase = ReadPhase::Release(data);
        assert(self.issued@ =~= seq![
            NativeOp::Lookup(c_string(self.key@)),
            NativeOp::Length,
            NativeOp::Copy(n),
        ]);
        ReadStep::Call(SliceCall::Release)
    }

    /// Takes word that the slice was released, and ends the read with the copy.
    pub fn on_released(&mut self) -> (step: ReadStep)
        requires
            old(self).wf(),
            old(self).awaiting_release(),
        ensures
            final(self).wf(),
            final(self).key() == old(self).key(),
            final(self).expected() == old(self).expected(),
            final(self).is_finished(),
            final(self).answer() == old(self).answer(),
            final(self).issued() == old(self).issued().push(NativeOp::Release),
            old(self).answer() is Some,
            finishes(step, Ok(old(self).answer())),
            finishes(step, read_result(final(self).key(), final(self).answer())),
    {
        let mut phase = ReadPhase::Finished;
        std::mem::swap(&mut phase, &mut self.phase);
        self.issued = Ghost(self.issued@.push(NativeOp::Release));
        assert(self.issued@ =~= read_trace(self.key@, self.answer@));
        match phase {
            ReadPhase::Release(data) => ReadStep::Done(Ok(Some(data))),
            _ => ReadStep::Done(Ok(None)),
        }
    }

    /// A finished read has made exactly the calls of one whole read, and
    /// returned what a whole read returns, for what the engine answered.
    pub proof fn lemma_finished(&self)
        requires
            self.wf(),
            self.is_finished(),
        ensures
            self.issued() == read_trace(self.key(), self.answer()),
    {
    }
}

/// How many slice releases a sequence of native calls holds.
pub open spec fn releases_in(t: Seq<NativeOp>) -> nat
    decreases t.len(),
{
    if t.len() == 0 {
        0
    } else {
        releases_in(t.drop_last()) + if t.last() is Release {
            1nat
        } else {
            0nat
        }
    }
}

/// Whether a read of `key` that got `answer` was given a non-null slice.
pub open spec fn is_hit(key: Seq<u8>, answer: Option<Seq<u8>>) -> bool {
    !has_nul(key) && answer is Some
}

/// The native calls of a run of whole reads, one after another; each read is
/// a key's bytes and what the engine answered.
pub open spec fn reads_trace(reads: Seq<(Seq<u8>, Option<Seq<u8>>)>) -> Seq<NativeOp>
    decreases reads.len(),
{
    if reads.len() == 0 {
        seq![]
    } else {
        let r = reads.last();
        reads_trace(reads.drop_last()) + read_trace(r.0, r.1)
    }
}

/// How many reads of a run were given a non-null slice.
pub open spec fn hits(reads: Seq<(Seq<u8>, Option<Seq<u8>>)>) -> nat
    decreases reads.len(),
{
    if reads.len() == 0 {
        0
    } else {
        let r = reads.last();
        hits(reads.drop_last()) + if is_hit(r.0, r.1) {
            1nat
        } else {
            0nat
        }
    }
}

proof fn lemma_releases_concat(a: Seq<NativeOp>, b: Seq<NativeOp>)
    ensures
        releases_in(a + b) == releases_in(a) + releases_in(b),
    decreases b.len(),
{
    if b.len() == 0 {
        assert(a + b =~= a);
    } else {
        lemma_releases_concat(a, b.drop_last());
        assert((a + b).drop_last() =~= a + b.drop_last());
    }
}

/// One whole read releases the slice once if the engine gave a non-null one
/// and never otherwise, and the release is its last call, right after the copy.
/// An invalid key makes no native call at all.
pub proof fn lemma_one_release_per_hit(key: Seq<u8>, answer: Option<Seq<u8>>)
    ensures
        releases_in(read_trace(key, answer)) == if is_hit(key, answer) {
            1nat
        } else {
            0nat
        },
        is_hit(key, answer) ==> read_trace(key, answer).len() == 4
            && read_trace(key, answer)[3] is Release && read_trace(key, answer)[2] is Copy,
        has_nul(key) ==> read_trace(key, answer).len() == 0,
{
    if !has_nul(key) {
        let s1 = seq![NativeOp::Lookup(c_string(key))];
        assert(releases_in(Seq::<NativeOp>::empty()) == 0);
        assert(s1.drop_last() =~= Seq::<NativeOp>::empty());
        assert(s1.last() == NativeOp::Lookup(c_string(key)));
        assert(releases_in(s1) == 0);
        if let Some(d) = answer {
            let s2 = s1.push(NativeOp::Length);
            let s3 = s2.push(NativeOp::Copy(d.len()));
            let s4 = s3.push(NativeOp::Release);
            assert(s2.drop_last() =~= s1);
            assert(s3.drop_last() =~= s2);
            assert(s4.drop_last() =~= s3);
            assert(releases_in(s2) == 0);
            assert(releases_in(s3) == 0);
            assert(read_trace(key, answer) =~= s4);
        }
    }
}

/// Over any run of whole reads, the slice releases number exactly the reads
/// that were given a non-null slice: nothing leaks and nothing is freed twice.
pub proof fn lemma_releases_match_hits(reads: Seq<(Seq<u8>, Option<Seq<u8>>)>)
    ensures
        releases_in(reads_trace(reads)) == hits(reads),
    decreases reads.len(),
{
    if reads.len() > 0 {
        let r = reads.last();
        lemma_releases_match_hits(reads.drop_last());
        lemma_releases_concat(reads_trace(reads.drop_last()), read_trace(r.0, r.1));
        lemma_one_release_per_hit(r.0, r.1);
    }
}

} // verus!
