//! Resolution of a writable destination directory: an ordered list of
//! candidates is probed one by one with a create-and-delete probe file, the
//! first directory that accepts the probe wins, a system temp directory is
//! the last resort, and only when even that refuses does resolution fail.
//! The probes themselves are filesystem work done by the caller; the session
//! decides what to probe next and what the outcomes mean.

use vstd::prelude::*;
use crate::errors::ResolveError;

verus! {

/// What one probe outcome decided.
#[derive(Debug, PartialEq, Eq)]
pub enum ResolveStep {
    /// This directory accepted the probe; resolution ends with it.
    Resolved(String),
    /// This directory refused the probe; probe the next target.
    Continue,
    /// Every candidate and the temp fallback refused; resolution fails.
    Failed(ResolveError),
}

/// One resolution in progress over an ordered candidate list.
pub struct ResolverSession {
    /// The candidate directories, most preferred first.
    pub candidates: Vec<String>,
    /// The system temp directory, probed after every candidate refused.
    pub temp_dir: String,
    /// The name of the file a home is sought for; names the failure.
    pub file_name: String,
    /// Which target the next probe is for: an index into the candidates, or
    /// one past them for the temp fallback.
    pub idx: usize,
    /// Whether resolution has ended, in either outcome.
    pub done: bool,
    /// The outcomes of the probes made so far, in order.
    pub history: Ghost<Seq<bool>>,
}

impl ResolverSession {
    /// The directory the next probe is for.
    pub open spec fn target_spec(&self) -> Seq<char> {
        if self.idx < self.candidates@.len() {
            self.candidates@[self.idx as int]@
        } else {
            self.temp_dir@
        }
    }

    /// A live resolution stands right after its recorded probes, all of which
    /// were refusals — a single acceptance would have ended it.
    pub open spec fn wf(&self) -> bool {
        !self.done ==> {
            &&& self.idx == self.history@.len()
            &&& self.idx <= self.candidates@.len()
            &&& forall|j: int| 0 <= j < self.history@.len() ==> !self.history@[j]
        }
    }

    /// Starts a resolution: no probe made yet, the first candidate (or, with
    /// no candidates at all, the temp fallback) up next.
    pub fn new(candidates: Vec<String>, temp_dir: String, file_name: String) -> (s: Self)
        ensures
            s.wf(),
            !s.done,
            s.idx == 0,
            s.history@ =~= Seq::<bool>::empty(),
            s.candidates == candidates,
            s.temp_dir == temp_dir,
            s.file_name == file_name,
    {
        ResolverSession {
            candidates,
            temp_dir,
            file_name,
            idx: 0,
            done: false,
            history: Ghost(Seq::empty()),
        }
    }

    /// The directory to probe next.
    pub fn next_target(&self) -> (t: &String)
        requires
            self.wf(),
            !self.done,
        ensures
            t@ == self.target_spec(),
    {
        if self.idx < self.candidates.len() {
            &self.candidates[self.idx]
        } else {
            &self.temp_dir
        }
    }

    /// Takes the outcome of the probe of the current target. An acceptance
    /// resolves to exactly that target; a refusal moves on to the next
    /// candidate, then to the temp fallback, and after the fallback's refusal
    /// the resolution fails. A directory that was not probed successfully is
    /// never returned.
    pub fn on_probe(&mut self, ok: bool) -> (step: ResolveStep)
        requires
            old(self).wf(),
            !old(self).done,
        ensures
            final(self).wf(),
            final(self).history@ == old(self).history@.push(ok),
            final(self).candidates == old(self).candidates,
            final(self).temp_dir == old(self).temp_dir,
            final(self).file_name == old(self).file_name,
            if ok {
                &&& step matches ResolveStep::Resolved(p) && p@ == old(self).target_spec()
                &&& final(self).done
            } else if old(self).idx < old(self).candidates@.len() {
                &&& step == ResolveStep::Continue
                &&& !final(self).done
                &&& final(self).idx == old(self).idx + 1
            } else {
                &&& step matches ResolveStep::Failed(e) && e == ResolveError::NoWritableLocation(
                    old(self).file_name,
                )
                &&& final(self).done
            },
    {
        self.history = Ghost(self.history@.push(ok));
        if ok {
            self.done = true;
            let p = if self.idx < self.candidates.len() {
                self.candidates[self.idx].clone()
            } else {
                self.temp_dir.clone()
            };
            ResolveStep::Resolved(p)
        } else if self.idx < self.candidates.len() {
            self.idx = self.idx + 1;
            ResolveStep::Continue
        } else {
            self.done = true;
            ResolveStep::Failed(ResolveError::NoWritableLocation(self.file_name.clone()))
        }
    }
}

/// First acceptance wins: while a resolution is still probing, every
/// directory probed so far has refused, so the directory an acceptance
/// resolves to is always the first one to accept — and `on_probe` resolves
/// only to the target whose probe succeeded, never to an unprobed one.
pub proof fn lemma_first_acceptance(s: ResolverSession)
    requires
        s.wf(),
        !s.done,
    ensures
        forall|j: int| 0 <= j < s.history@.len() ==> !s.history@[j],
{
}

} // verus!
