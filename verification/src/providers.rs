//! Scripted collaborators for the pipeline: a transcript provider and a
//! narration provider given as finite answer tables, and a set of output
//! paths on which the audio concatenator is scripted to fail. An input
//! outside a table stands for a failed provider call.

use crate::fsmodel::clone_bytes;
use crate::strings::str_eq;
use crate::strmap::StrMap;
use vstd::prelude::*;

verus! {

/// What the scripted collaborators answer.
pub struct ProvidersView {
    /// Dialogue transcript returned for each document text the transcript
    /// provider accepts.
    pub transcripts: Map<Seq<char>, Seq<char>>,
    /// Audio bytes returned for each text the narration provider accepts.
    pub narrations: Map<Seq<char>, Seq<u8>>,
    /// Output paths on which the audio concatenator fails.
    pub concat_failures: Set<Seq<char>>,
}

/// Deterministic, in-memory stand-ins for the three external collaborators.
pub struct ScriptedProviders {
    transcripts: StrMap<String>,
    narrations: StrMap<Vec<u8>>,
    concat_failures: Vec<String>,
}

impl View for ScriptedProviders {
    type V = ProvidersView;

    closed spec fn view(&self) -> ProvidersView {
        ProvidersView {
            transcripts: self.transcripts@,
            narrations: self.narrations@,
            concat_failures: Set::new(
                |p: Seq<char>|
                    exists|i: int|
                        0 <= i < self.concat_failures@.len() && self.concat_failures@[i]@ == p,
            ),
        }
    }
}

impl ScriptedProviders {
    pub closed spec fn wf(&self) -> bool {
        self.transcripts.wf() && self.narrations.wf()
    }

    /// Providers that answer nothing: every call fails, no concatenation
    /// does.
    pub fn new() -> (r: Self)
        ensures
            r.wf(),
            r@.transcripts == Map::<Seq<char>, Seq<char>>::empty(),
            r@.narrations == Map::<Seq<char>, Seq<u8>>::empty(),
            r@.concat_failures == Set::<Seq<char>>::empty(),
    {
        let r = ScriptedProviders {
            transcripts: StrMap::new(),
            narrations: StrMap::new(),
            concat_failures: Vec::new(),
        };
        proof {
            assert(r@.concat_failures =~= Set::<Seq<char>>::empty());
        }
        r
    }

    /// Scripts the transcript provider to answer `output` on `input`.
    pub fn add_transcript(&mut self, input: &str, output: &str)
        requires
            old(self).wf(),
        ensures
            final(self).wf(),
            final(self)@.transcripts == old(self)@.transcripts.insert(input@, output@),
            final(self)@.narrations == old(self)@.narrations,
            final(self)@.concat_failures == old(self)@.concat_failures,
    {
        self.transcripts.insert(input, String::from_str(output));
        proof {
            assert(self@.concat_failures =~= old(self)@.concat_failures);
        }
    }

    /// Scripts the narration provider to answer `output` on `input`.
    pub fn add_narration(&mut self, input: &str, output: Vec<u8>)
        requires
            old(self).wf(),
        ensures
            final(self).wf(),
            final(self)@.narrations == old(self)@.narrations.insert(input@, output@),
            final(self)@.transcripts == old(self)@.transcripts,
            final(self)@.concat_failures == old(self)@.concat_failures,
    {
        self.narrations.insert(input, output);
        proof {
            assert(self@.concat_failures =~= old(self)@.concat_failures);
        }
    }

    /// Scripts the concatenator to fail when asked to produce `out_path`.
    pub fn add_concat_failure(&mut self, out_path: &str)
        requires
            old(self).wf(),
        ensures
            final(self).wf(),
            final(self)@.concat_failures == old(self)@.concat_failures.insert(out_path@),
            final(self)@.transcripts == old(self)@.transcripts,
            final(self)@.narrations == old(self)@.narrations,
    {
        self.concat_failures.push(String::from_str(out_path));
        proof {
            let n = old(self).concat_failures@.len() as int;
            assert(self.concat_failures@[n]@ == out_path@);
            assert forall|t: int| 0 <= t < n implies self.concat_failures@[t]
                == old(self).concat_failures@[t] by {}
            assert(self@.concat_failures =~= old(self)@.concat_failures.insert(out_path@));
        }
    }

    /// One transcript provider call: the scripted answer, or `None` for a
    /// failed call.
    pub fn lookup_transcript(&self, input: &str) -> (r: Option<String>)
        requires
            self.wf(),
        ensures
            match r {
                Some(s) => self@.transcripts.dom().contains(input@) && s@
                    == self@.transcripts[input@],
                None => !self@.transcripts.dom().contains(input@),
            },
    {
        match self.transcripts.get(input) {
            Some(s) => Some(s.clone()),
            None => None,
        }
    }

    /// One narration provider call: the scripted answer, or `None` for a
    /// failed call.
    pub fn lookup_narration(&self, input: &str) -> (r: Option<Vec<u8>>)
        requires
            self.wf(),
        ensures
            match r {
                Some(b) => self@.narrations.dom().contains(input@) && b@
                    == self@.narrations[input@],
                None => !self@.narrations.dom().contains(input@),
            },
    {
        match self.narrations.get(input) {
            Some(b) => Some(clone_bytes(b)),
            None => None,
        }
    }

    /// Whether the concatenator is scripted to fail on this output path.
    pub fn concat_fails(&self, out_path: &str) -> (r: bool)
        ensures
            r == self@.concat_failures.contains(out_path@),
    {
        let mut i: usize = 0;
        while i < self.concat_failures.len()
            invariant
                i <= self.concat_failures@.len(),
                forall|t: int| 0 <= t < i ==> self.concat_failures@[t]@ != out_path@,
            decreases self.concat_failures@.len() - i,
        {
            if str_eq(self.concat_failures[i].as_str(), out_path) {
                proof {
                    assert(self.concat_failures@[i as int]@ == out_path@);
                }
                return true;
            }
            i = i + 1;
        }
        false
    }
}

} // verus!
