//! The session controller: at most one capture/transcription pair at a time,
//! started, stopped and restarted on request. Each start opens a new
//! generation; the pair it launches tags its updates with that generation,
//! and the session shows only updates of the generation that is running, so
//! a pair that has been replaced cannot bring back stale text.
use vstd::prelude::*;
use crate::transcript::{DisplayPolicy, Transcript, displayed_after};

verus! {

/// The lifecycle state and generation of a session, as contracts see them.
pub struct SessionModel {
    pub capturing: bool,
    pub generation: nat,
}

/// After `start`: a no-op while capturing, else capturing under a new generation.
pub open spec fn started(m: SessionModel) -> SessionModel {
    if m.capturing {
        m
    } else {
        SessionModel { capturing: true, generation: m.generation + 1 }
    }
}

/// After `stop`: idle, with the generation kept.
pub open spec fn stopped(m: SessionModel) -> SessionModel {
    SessionModel { capturing: false, generation: m.generation }
}

/// After `restart`: a new pair, always capturing.
pub open spec fn restarted(m: SessionModel) -> SessionModel {
    SessionModel { capturing: true, generation: m.generation + 1 }
}

/// An update of the given generation is shown.
pub open spec fn accepted(m: SessionModel, generation: nat) -> bool {
    m.capturing && generation == m.generation
}

/// The session: its lifecycle and the transcript on display.
pub struct Session {
    capturing: bool,
    generation: u64,
    transcript: Transcript,
}

impl Session {
    /// Lifecycle state and generation.
    pub closed spec fn model(&self) -> SessionModel {
        SessionModel { capturing: self.capturing, generation: self.generation as nat }
    }

    /// The text on display.
    pub closed spec fn shown(&self) -> Seq<char> {
        self.transcript@
    }

    /// How updates change the text on display.
    pub closed spec fn spec_policy(&self) -> DisplayPolicy {
        self.transcript.spec_policy()
    }

    /// An idle session at generation zero, with nothing on display.
    pub fn new(policy: DisplayPolicy) -> (r: Session)
        ensures
            r.model() == (SessionModel { capturing: false, generation: 0 }),
            r.shown() == Seq::<char>::empty(),
            r.spec_policy() == policy,
    {
        Session { capturing: false, generation: 0, transcript: Transcript::new(policy) }
    }

    /// Whether a pair is running.
    pub fn is_capturing(&self) -> (r: bool)
        ensures
            r == self.model().capturing,
    {
        self.capturing
    }

    /// The current generation.
    pub fn generation(&self) -> (r: u64)
        ensures
            r == self.model().generation,
    {
        self.generation
    }

    /// Starts a session. While one is running this does nothing and returns
    /// `None`; otherwise the session becomes capturing under a new generation,
    /// which is returned for the caller to launch the pair with.
    pub fn start(&mut self) -> (r: Option<u64>)
        requires
            old(self).model().generation < u64::MAX,
        ensures
            final(self).model() == started(old(self).model()),
            r == if old(self).model().capturing {
                Option::<u64>::None
            } else {
                Option::Some(final(self).model().generation as u64)
            },
            final(self).shown() == old(self).shown(),
            final(self).spec_policy() == old(self).spec_policy(),
    {
        if self.capturing {
            Option::None
        } else {
            self.capturing = true;
            self.generation = self.generation + 1;
            Option::Some(self.generation)
        }
    }

    /// Ends the running session, if any; the session is idle afterwards.
    pub fn stop(&mut self)
        ensures
            final(self).model() == stopped(old(self).model()),
            final(self).shown() == old(self).shown(),
            final(self).spec_policy() == old(self).spec_policy(),
    {
        self.capturing = false;
    }

    /// Replaces the running pair (or starts one when idle) under a new
    /// generation, which is returned.
    pub fn restart(&mut self) -> (r: u64)
        requires
            old(self).model().generation < u64::MAX,
        ensures
            final(self).model() == restarted(old(self).model()),
            r == final(self).model().generation,
            final(self).shown() == old(self).shown(),
            final(self).spec_policy() == old(self).spec_policy(),
    {
        self.stop();
        match self.start() {
            Option::Some(g) => g,
            Option::None => self.generation,
        }
    }

    /// Whether an update of the given generation would be shown.
    pub fn accepts(&self, generation: u64) -> (r: bool)
        ensures
            r == accepted(self.model(), generation as nat),
    {
        self.capturing && generation == self.generation
    }

    /// Takes in an update of the given generation: shown under the policy if the
    /// generation is the running one, dropped otherwise. Returns whether it was shown.
    pub fn receive(&mut self, generation: u64, update: &str) -> (r: bool)
        ensures
            r == accepted(old(self).model(), generation as nat),
            final(self).shown() == if r {
                displayed_after(old(self).spec_policy(), old(self).shown(), update@)
            } else {
                old(self).shown()
            },
            final(self).model() == old(self).model(),
            final(self).spec_policy() == old(self).spec_policy(),
    {
        if self.accepts(generation) {
            self.transcript.apply(update);
            true
        } else {
            false
        }
    }

    /// The text on display.
    pub fn transcript_text(&self) -> (r: String)
        ensures
            r@ == self.shown(),
    {
        self.transcript.text()
    }

    /// Empties the text on display.
    pub fn clear_transcript(&mut self)
        ensures
            final(self).shown() == Seq::<char>::empty(),
            final(self).model() == old(self).model(),
            final(self).spec_policy() == old(self).spec_policy(),
    {
        self.transcript.clear();
    }
}

/// A restart is a stop followed at once by a start.
pub proof fn lemma_restart_is_stop_then_start(m: SessionModel)
    ensures
        restarted(m) == started(stopped(m)),
{
}

/// Starting while a session runs changes nothing; stopping while idle
/// changes nothing.
pub proof fn lemma_start_stop_idempotent(m: SessionModel)
    ensures
        m.capturing ==> started(m) == m,
        !m.capturing ==> stopped(m) == m,
{
}

/// After a stop and a start (however often repeated), no update tagged with
/// the generation of an earlier session, or any older one, is shown: stale
/// text from a replaced pair cannot come back.
pub proof fn lemma_no_stale_updates(m: SessionModel, generation: nat)
    requires
        generation <= m.generation,
    ensures
        !accepted(started(stopped(m)), generation),
        !accepted(started(stopped(started(stopped(m)))), generation),
        !accepted(restarted(m), generation),
{
}

} // verus!
