//! Detectors and the engine that runs them.
//!
//! A detector is anything that implements [`FingerPrint`]: it states, as a
//! mathematical function of the configuration, the output directory and the
//! process, which action it proposes, and its executable method is proved to
//! return exactly that. The [`DispatchEngine`] tries its detectors in the
//! order in which they were registered and returns the first proposal.

use crate::config::{Config, ConfigView};
use crate::fingerprint::java::Java;
use crate::process::{ContainerProcess, ProcessView};
use crate::text::{first_index, lemma_first_index, lemma_first_index_is};
use vstd::prelude::*;

pub mod java;
pub mod java_theorems;

verus! {

/// The mathematical value of a detector's answer: the argument vector of the
/// helper program to run, or `None` when the detector declines.
pub open spec fn action_view(action: Option<Vec<String>>) -> Option<Seq<Seq<char>>> {
    match action {
        Some(argv) => Some(argv.deep_view()),
        None => None,
    }
}

/// A detector for one runtime family.
///
/// An action is the invocation of an external helper program:
/// `[helper path, output directory, helper arguments...]`. A detector never
/// runs it. Declining is not an error: a command line that is malformed or
/// not recognised yields `None`.
pub trait FingerPrint {
    /// The action this detector proposes for `process`, as a function of its
    /// inputs alone.
    spec fn detection(
        &self,
        config: ConfigView,
        out_dir: Seq<char>,
        process: ProcessView,
    ) -> Option<Seq<Seq<char>>>;

    /// Decides whether `process` belongs to this detector's family and, if it
    /// does, which helper to run on it.
    fn can_apply_to(
        &self,
        config: &Config,
        out_dir: &String,
        process: &ContainerProcess,
    ) -> (action: Option<Vec<String>>)
        ensures
            action_view(action) == self.detection(config@, out_dir@, process@),
    ;
}

/// The closed set of detectors that ship with the engine.
#[derive(Debug)]
pub enum Detector {
    Java(Java),
}

impl FingerPrint for Detector {
    open spec fn detection(
        &self,
        config: ConfigView,
        out_dir: Seq<char>,
        process: ProcessView,
    ) -> Option<Seq<Seq<char>>> {
        match self {
            Detector::Java(java) => java.detection(config, out_dir, process),
        }
    }

    fn can_apply_to(
        &self,
        config: &Config,
        out_dir: &String,
        process: &ContainerProcess,
    ) -> (action: Option<Vec<String>>) {
        match self {
            Detector::Java(java) => java.can_apply_to(config, out_dir, process),
        }
    }
}

/// The predicate "proposes an action for this process".
pub open spec fn proposes<D: FingerPrint>(
    config: ConfigView,
    out_dir: Seq<char>,
    process: ProcessView,
) -> spec_fn(D) -> bool {
    |d: D| d.detection(config, out_dir, process) is Some
}

/// What a list of detectors decides: the proposal of the first detector that
/// makes one, `None` when every detector declines.
pub open spec fn dispatched<D: FingerPrint>(
    detectors: Seq<D>,
    config: ConfigView,
    out_dir: Seq<char>,
    process: ProcessView,
) -> Option<Seq<Seq<char>>> {
    let i = first_index(detectors, proposes::<D>(config, out_dir, process));
    if i < detectors.len() {
        detectors[i].detection(config, out_dir, process)
    } else {
        None
    }
}

/// An ordered registry of detectors. Earlier detectors have priority.
pub struct DispatchEngine<D: FingerPrint> {
    pub detectors: Vec<D>,
}

impl<D: FingerPrint> DispatchEngine<D> {
    /// An engine without detectors; it declines every process.
    pub fn new() -> (engine: Self)
        ensures
            engine.detectors@ == Seq::<D>::empty(),
    {
        DispatchEngine { detectors: Vec::new() }
    }

    /// Adds `detector` behind those already registered.
    pub fn register(&mut self, detector: D)
        ensures
            final(self).detectors@ == old(self).detectors@.push(detector),
    {
        self.detectors.push(detector);
    }

    /// Tries each detector in order and returns the first proposal.
    pub fn dispatch(
        &self,
        config: &Config,
        out_dir: &String,
        process: &ContainerProcess,
    ) -> (action: Option<Vec<String>>)
        ensures
            action_view(action) == dispatched(self.detectors@, config@, out_dir@, process@),
    {
        let ghost p = proposes::<D>(config@, out_dir@, process@);
        let mut i: usize = 0;
        while i < self.detectors.len()
            invariant
                i <= self.detectors.len(),
                p == proposes::<D>(config@, out_dir@, process@),
                forall|j: int| 0 <= j < i ==> !p(#[trigger] self.detectors@[j]),
            decreases self.detectors.len() - i,
        {
            let action = self.detectors[i].can_apply_to(config, out_dir, process);
            if action.is_some() {
                proof {
                    lemma_first_index_is(self.detectors@, p, i as int);
                }
                return action;
            }
            i += 1;
        }
        proof {
            lemma_first_index_is(self.detectors@, p, i as int);
        }
        None
    }
}

/// The engine declines exactly when every detector declines, and otherwise
/// returns the proposal of a detector before which every detector declines.
pub proof fn theorem_first_proposal_is_dispatched<D: FingerPrint>(
    detectors: Seq<D>,
    config: ConfigView,
    out_dir: Seq<char>,
    process: ProcessView,
)
    ensures
        dispatched(detectors, config, out_dir, process) is None <==> forall|j: int|
            0 <= j < detectors.len() ==> (#[trigger] detectors[j]).detection(
                config,
                out_dir,
                process,
            ) is None,
        dispatched(detectors, config, out_dir, process) is Some ==> exists|i: int|
            0 <= i < detectors.len() && (#[trigger] detectors[i]).detection(
                config,
                out_dir,
                process,
            ) == dispatched(detectors, config, out_dir, process) && forall|j: int|
                0 <= j < i ==> (#[trigger] detectors[j]).detection(config, out_dir, process) is None,
{
    let p = proposes::<D>(config, out_dir, process);
    lemma_first_index(detectors, p);
    let i = first_index(detectors, p);
    if i < detectors.len() {
        assert(p(detectors[i]));
    } else {
        assert forall|j: int| 0 <= j < detectors.len() implies (#[trigger] detectors[j]).detection(
            config,
            out_dir,
            process,
        ) is None by {
            assert(!p(detectors[j]));
        }
    }
}

} // verus!
