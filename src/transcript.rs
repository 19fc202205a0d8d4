//! Transcript updates: how a backend's output becomes one update string, and
//! how updates change the text on display.
use vstd::prelude::*;

verus! {

/// What a transcription backend made of one chunk.
pub enum BackendOutcome {
    /// A batch decoder's segments, in order; `None` where a segment's text could
    /// not be read.
    Segments(Vec<Option<String>>),
    /// A streaming recognizer's running (or final) result after the chunk.
    Running(String),
    /// Inference failed on the chunk.
    Failed,
}

/// The text of each segment, as character sequences.
pub open spec fn segment_texts(segments: Seq<Option<String>>) -> Seq<Option<Seq<char>>> {
    segments.map_values(
        |o: Option<String>|
            match o {
                Option::Some(t) => Option::Some(t@),
                Option::None => Option::None,
            },
    )
}

/// The segments that could be read, each followed by one space, end to end.
pub open spec fn joined(segments: Seq<Option<Seq<char>>>) -> Seq<char>
    decreases segments.len(),
{
    if segments.len() == 0 {
        Seq::empty()
    } else {
        joined(segments.drop_last()) + match segments.last() {
            Option::Some(t) => t.push(' '),
            Option::None => Seq::empty(),
        }
    }
}

/// The update that an outcome gives rise to: none after a failure, and none
/// when the text would be empty.
pub open spec fn update_of(outcome: BackendOutcome) -> Option<Seq<char>> {
    match outcome {
        BackendOutcome::Segments(v) => {
            let t = joined(segment_texts(v@));
            if t.len() == 0 {
                Option::None
            } else {
                Option::Some(t)
            }
        },
        BackendOutcome::Running(t) => {
            if t@.len() == 0 {
                Option::None
            } else {
                Option::Some(t@)
            }
        },
        BackendOutcome::Failed => Option::None,
    }
}

/// Concatenates the readable segments, each followed by one space, skipping
/// those whose text could not be read.
pub fn join_segments(segments: &Vec<Option<String>>) -> (r: String)
    ensures
        r@ == joined(segment_texts(segments@)),
{
    let mut out = String::new();
    let mut i: usize = 0;
    while i < segments.len()
        invariant
            i <= segments@.len(),
            out@ == joined(segment_texts(segments@.subrange(0, i as int))),
        decreases segments@.len() - i,
    {
        proof {
            let next = segments@.subrange(0, i + 1);
            assert(segment_texts(next).drop_last() =~= segment_texts(segments@.subrange(0, i as int)));
            assert(segment_texts(next).last() == segment_texts(segments@)[i as int]);
        }
        match &segments[i] {
            Option::Some(t) => {
                out.append(t.as_str());
                proof {
                    reveal_strlit(" ");
                }
                out.append(" ");
                assert(out@ =~= joined(segment_texts(segments@.subrange(0, i + 1))));
            },
            Option::None => {
                assert(out@ =~= joined(segment_texts(segments@.subrange(0, i + 1))));
            },
        }
        i += 1;
    }
    assert(segments@.subrange(0, segments@.len() as int) =~= segments@);
    out
}

/// The update to emit for an outcome, if any.
pub fn update_text(outcome: &BackendOutcome) -> (r: Option<String>)
    ensures
        match r {
            Option::Some(t) => update_of(*outcome) == Option::Some(t@),
            Option::None => update_of(*outcome) is None,
        },
{
    match outcome {
        BackendOutcome::Segments(v) => {
            let t = join_segments(v);
            if t.as_str().unicode_len() == 0 {
                Option::None
            } else {
                Option::Some(t)
            }
        },
        BackendOutcome::Running(t) => {
            if t.as_str().unicode_len() == 0 {
                Option::None
            } else {
                Option::Some(t.clone())
            }
        },
        BackendOutcome::Failed => Option::None,
    }
}

/// How an update changes the text on display.
#[derive(Clone, Copy, Debug, PartialEq, Eq, Structural)]
pub enum DisplayPolicy {
    /// The update takes the place of what was shown.
    Replace,
    /// The update is added after what was shown.
    Accumulate,
}

/// The text on display after an update arrives.
pub open spec fn displayed_after(policy: DisplayPolicy, shown: Seq<char>, update: Seq<char>) -> Seq<
    char,
> {
    match policy {
        DisplayPolicy::Replace => update,
        DisplayPolicy::Accumulate => shown + update,
    }
}

/// The text on display, under a fixed policy.
pub struct Transcript {
    policy: DisplayPolicy,
    text: String,
}

impl View for Transcript {
    type V = Seq<char>;

    closed spec fn view(&self) -> Seq<char> {
        self.text@
    }
}

impl Transcript {
    /// The policy the transcript was made with.
    pub closed spec fn spec_policy(&self) -> DisplayPolicy {
        self.policy
    }

    /// An empty transcript under the given policy.
    pub fn new(policy: DisplayPolicy) -> (r: Transcript)
        ensures
            r@ == Seq::<char>::empty(),
            r.spec_policy() == policy,
    {
        Transcript { policy, text: String::new() }
    }

    /// The policy the transcript was made with.
    pub fn policy(&self) -> (r: DisplayPolicy)
        ensures
            r == self.spec_policy(),
    {
        self.policy
    }

    /// The text on display.
    pub fn text(&self) -> (r: String)
        ensures
            r@ == self@,
    {
        self.text.clone()
    }

    /// Applies one update under the transcript's policy.
    pub fn apply(&mut self, update: &str)
        ensures
            final(self)@ == displayed_after(old(self).spec_policy(), old(self)@, update@),
            final(self).spec_policy() == old(self).spec_policy(),
    {
        match self.policy {
            DisplayPolicy::Replace => {
                self.text = String::from_str(update);
            },
            DisplayPolicy::Accumulate => {
                self.text.append(update);
            },
        }
    }

    /// Empties the text on display.
    pub fn clear(&mut self)
        ensures
            final(self)@ == Seq::<char>::empty(),
            final(self).spec_policy() == old(self).spec_policy(),
    {
        self.text = String::new();
    }
}

} // verus!
