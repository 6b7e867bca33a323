use vstd::prelude::*;
use crate::errors::{ResolveError, ErrorModel};

verus! {

/// One phase of hook execution: an ordered list of hook names, run
/// fail-fast. `idx` counts the hooks that have finished successfully;
/// `failed` holds the name of the hook that exited non-zero or could not be
/// spawned, if any. Once a hook has failed, the phase offers no further
/// hook.
pub struct HookPhase {
    pub names: Vec<String>,
    pub idx: usize,
    pub failed: Option<String>,
}

impl HookPhase {
    pub open spec fn wf(&self) -> bool {
        &&& self.idx <= self.names@.len()
        &&& match self.failed {
            Some(n) => self.idx < self.names@.len() && n == self.names@[self.idx as int],
            None => true,
        }
    }

    /// The index of the hook to run next, if the phase is still live.
    pub open spec fn spec_next(&self) -> Option<int> {
        if self.failed is None && self.idx < self.names@.len() {
            Some(self.idx as int)
        } else {
            None
        }
    }

    pub fn new(names: Vec<String>) -> (r: HookPhase)
        ensures
            r.wf(),
            r.names == names,
            r.idx == 0,
            r.failed is None,
    {
        HookPhase { names, idx: 0, failed: None }
    }

    /// The next hook to run, by its position in the list; `None` once every
    /// hook has run or one has failed.
    pub fn next_index(&self) -> (r: Option<usize>)
        ensures
            match r {
                Some(i) => self.spec_next() == Some(i as int),
                None => self.spec_next() is None,
            },
    {
        if self.failed.is_none() && self.idx < self.names.len() {
            Some(self.idx)
        } else {
            None
        }
    }

    /// Records the exit status of the hook just run. A failure is terminal
    /// for the phase: the remaining hooks are never offered.
    pub fn record(&mut self, ok: bool)
        requires
            old(self).wf(),
            old(self).spec_next() is Some,
        ensures
            final(self).wf(),
            final(self).names == old(self).names,
            ok ==> final(self).idx == old(self).idx + 1 && final(self).failed is None,
            !ok ==> final(self).idx == old(self).idx && match final(self).failed {
                Some(n) => n == old(self).names@[old(self).idx as int],
                None => false,
            },
    {
        if ok {
            let n = self.names.len();
            assert(self.idx < n);
            self.idx = self.idx + 1;
        } else {
            self.failed = Some(self.names[self.idx].clone());
        }
    }

    /// The phase's outcome so far: the first failing hook's name, or
    /// success.
    pub fn outcome(&self) -> (r: Result<(), ResolveError>)
        ensures
            match self.failed {
                Some(n) => r matches Err(e) && e@ == ErrorModel::HookFailed(n@),
                None => r is Ok,
            },
    {
        match &self.failed {
            Some(n) => Err(ResolveError::HookFailed(n.clone())),
            None => Ok(()),
        }
    }

    /// A phase that has seen a failure offers no further hook.
    pub proof fn lemma_failure_is_terminal(&self)
        requires
            self.failed is Some,
        ensures
            self.spec_next() is None,
    {
    }
}

/// What the pipeline asks its caller to do next.
#[derive(Debug, Clone, Copy, PartialEq, Eq, Structural)]
pub enum PipelineAction {
    /// Run the pre-generation hook at this position.
    RunPreHook(usize),
    /// Trigger the (externally owned) generation step.
    Generate,
    /// Run the post-generation hook at this position.
    RunPostHook(usize),
    /// Everything ran; nothing is left to do.
    Finished,
    /// A hook failed; the pipeline stops here.
    Stopped,
}

/// The sequencing of one run: pre-generation hooks in order, then
/// generation, then post-generation hooks in order, fail-fast throughout.
/// When hook execution is disabled, both hook phases are skipped with no
/// observable effect.
pub struct Pipeline {
    pub run_hooks: bool,
    pub pre: HookPhase,
    pub post: HookPhase,
    pub generated: bool,
}

impl Pipeline {
    pub open spec fn wf(&self) -> bool {
        &&& self.pre.wf()
        &&& self.post.wf()
        &&& !self.generated ==> self.post.idx == 0 && self.post.failed is None
        &&& self.generated ==> self.pre.failed is None
    }

    /// A hook failure anywhere stops the pipeline.
    pub open spec fn spec_failed(&self) -> bool {
        self.pre.failed is Some || self.post.failed is Some
    }

    pub open spec fn spec_action(&self) -> PipelineAction {
        if self.spec_failed() {
            PipelineAction::Stopped
        } else if !self.generated && self.run_hooks && self.pre.idx < self.pre.names@.len() {
            PipelineAction::RunPreHook(self.pre.idx)
        } else if !self.generated {
            PipelineAction::Generate
        } else if self.run_hooks && self.post.idx < self.post.names@.len() {
            PipelineAction::RunPostHook(self.post.idx)
        } else {
            PipelineAction::Finished
        }
    }

    pub fn new(run_hooks: bool, pre_names: Vec<String>, post_names: Vec<String>) -> (r: Pipeline)
        ensures
            r.wf(),
            r.run_hooks == run_hooks,
            r.pre.names == pre_names,
            r.post.names == post_names,
            r.pre.idx == 0,
            r.post.idx == 0,
            !r.generated,
            !r.spec_failed(),
    {
        Pipeline {
            run_hooks,
            pre: HookPhase::new(pre_names),
            post: HookPhase::new(post_names),
            generated: false,
        }
    }

    /// What to do next.
    pub fn next_action(&self) -> (r: PipelineAction)
        requires
            self.wf(),
        ensures
            r == self.spec_action(),
    {
        if self.pre.failed.is_some() || self.post.failed.is_some() {
            PipelineAction::Stopped
        } else if !self.generated {
            match self.pre.next_index() {
                Some(i) if self.run_hooks => PipelineAction::RunPreHook(i),
                _ => PipelineAction::Generate,
            }
        } else {
            match self.post.next_index() {
                Some(i) if self.run_hooks => PipelineAction::RunPostHook(i),
                _ => PipelineAction::Finished,
            }
        }
    }

    /// Records the exit status of the pre-generation hook just run.
    pub fn pre_hook_finished(&mut self, ok: bool)
        requires
            old(self).wf(),
            old(self).spec_action() matches PipelineAction::RunPreHook(_),
        ensures
            final(self).wf(),
            final(self).run_hooks == old(self).run_hooks,
            final(self).pre.names == old(self).pre.names,
            final(self).post == old(self).post,
            !final(self).generated,
            ok ==> !final(self).spec_failed() && final(self).pre.idx == old(self).pre.idx + 1
                && final(self).pre.failed is None,
            !ok ==> final(self).spec_failed() && final(self).spec_action()
                == PipelineAction::Stopped && final(self).pre.idx == old(self).pre.idx
                && final(self).pre.failed == Some(
                old(self).pre.names@[old(self).pre.idx as int],
            ),
    {
        self.pre.record(ok);
    }

    /// Records that the generation step completed.
    pub fn generation_finished(&mut self)
        requires
            old(self).wf(),
            old(self).spec_action() == PipelineAction::Generate,
        ensures
            final(self).wf(),
            final(self).run_hooks == old(self).run_hooks,
            final(self).pre == old(self).pre,
            final(self).post == old(self).post,
            final(self).generated,
            !final(self).spec_failed(),
    {
        self.generated = true;
    }

    /// Records the exit status of the post-generation hook just run.
    pub fn post_hook_finished(&mut self, ok: bool)
        requires
            old(self).wf(),
            old(self).spec_action() matches PipelineAction::RunPostHook(_),
        ensures
            final(self).wf(),
            final(self).run_hooks == old(self).run_hooks,
            final(self).pre == old(self).pre,
            final(self).post.names == old(self).post.names,
            final(self).generated,
            ok ==> !final(self).spec_failed() && final(self).post.idx == old(self).post.idx + 1
                && final(self).post.failed is None,
            !ok ==> final(self).spec_failed() && final(self).spec_action()
                == PipelineAction::Stopped && final(self).post.idx == old(self).post.idx
                && final(self).post.failed == Some(
                old(self).post.names@[old(self).post.idx as int],
            ),
    {
        self.post.record(ok);
    }

    /// A failing pre-generation hook stops the run where it is: the
    /// remaining pre-generation hooks are never offered, generation is never
    /// triggered, and the post-generation phase is never entered.
    pub proof fn lemma_failed_pipeline_stops(&self)
        requires
            self.spec_failed(),
        ensures
            self.spec_action() == PipelineAction::Stopped,
    {
    }
}

} // verus!
