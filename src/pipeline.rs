//! The abort-aware hook pipeline: which hook runs next for a request, and
//! when the run ends.
//!
//! The hooks themselves run outside the verified core: the caller runs the
//! hook that [`HookPipeline::next_hook`] names against the request's
//! context, then reports through [`HookPipeline::after_hook`] whether the
//! context is aborted.

use vstd::prelude::*;

verus! {

/// Where a pipeline run stands.
#[derive(Clone, Copy, Debug, PartialEq, Eq, Structural)]
pub enum PipelineStatus {
    /// The hook at this index runs next.
    Running(usize),
    /// A hook aborted the context; the remaining hooks are skipped.
    Aborted,
    /// Every hook ran.
    Completed,
}

/// The status of a run over `len` hooks before any hook ran.
pub open spec fn pipeline_start(len: nat) -> PipelineStatus {
    if len == 0 {
        PipelineStatus::Completed
    } else {
        PipelineStatus::Running(0)
    }
}

/// The status after the running hook finished, `aborted` telling whether
/// the context is aborted at that point.
pub open spec fn pipeline_step(s: PipelineStatus, len: nat, aborted: bool) -> PipelineStatus {
    match s {
        PipelineStatus::Running(i) => {
            if aborted {
                PipelineStatus::Aborted
            } else if i + 1 >= len {
                PipelineStatus::Completed
            } else {
                PipelineStatus::Running((i + 1) as usize)
            }
        },
        _ => s,
    }
}

/// How many hooks are left to consider from status `s`.
pub open spec fn remaining(s: PipelineStatus, len: nat) -> nat {
    match s {
        PipelineStatus::Running(i) => if i < len {
            (len - i) as nat
        } else {
            0
        },
        _ => 0,
    }
}

/// The indices of the hooks that run from status `s`, in the order they
/// run, where `aborts[i]` tells whether the context is aborted after hook
/// `i`.
pub open spec fn hooks_run(s: PipelineStatus, len: nat, aborts: Seq<bool>) -> Seq<nat>
    decreases remaining(s, len),
{
    match s {
        PipelineStatus::Running(i) => {
            if i < len <= usize::MAX {
                seq![i as nat] + hooks_run(pipeline_step(s, len, aborts[i as int]), len, aborts)
            } else {
                Seq::empty()
            }
        },
        _ => Seq::empty(),
    }
}

/// How many hooks run when the run reaches hook `from`: all of them up to
/// and including the first one after which the context is aborted.
pub open spec fn hooks_that_run(aborts: Seq<bool>, from: nat) -> nat
    decreases aborts.len() - from,
{
    if from >= aborts.len() {
        aborts.len()
    } else if aborts[from as int] {
        from + 1
    } else {
        hooks_that_run(aborts, from + 1)
    }
}

/// Whether no hook before hook `j` left the context aborted.
pub open spec fn no_abort_before(aborts: Seq<bool>, j: nat) -> bool {
    forall|k: nat| k < j ==> !aborts[k as int]
}

proof fn lemma_run_from(i: nat, aborts: Seq<bool>)
    requires
        i < aborts.len() <= usize::MAX,
    ensures
        i < hooks_that_run(aborts, i) <= aborts.len(),
        hooks_run(PipelineStatus::Running(i as usize), aborts.len(), aborts) == Seq::new(
            (hooks_that_run(aborts, i) - i) as nat,
            |j: int| (i + j) as nat,
        ),
    decreases aborts.len() - i,
{
    let len = aborts.len();
    let s = PipelineStatus::Running(i as usize);
    let n = hooks_that_run(aborts, i);
    let rest = hooks_run(pipeline_step(s, len, aborts[i as int]), len, aborts);
    if aborts[i as int] {
        assert(rest == Seq::<nat>::empty());
        assert(hooks_run(s, len, aborts) == seq![i] + rest);
        assert(hooks_run(s, len, aborts) =~= Seq::new((n - i) as nat, |j: int| (i + j) as nat));
    } else if i + 1 >= len {
        assert(n == hooks_that_run(aborts, i + 1));
        assert(n == i + 1);
        assert(rest == Seq::<nat>::empty());
        assert(hooks_run(s, len, aborts) == seq![i] + rest);
        assert(hooks_run(s, len, aborts) =~= Seq::new((n - i) as nat, |j: int| (i + j) as nat));
    } else {
        lemma_run_from(i + 1, aborts);
        assert(pipeline_step(s, len, false) == PipelineStatus::Running((i + 1) as usize));
        assert(n == hooks_that_run(aborts, i + 1));
        assert(rest == Seq::new((n - (i + 1)) as nat, |j: int| (i + 1 + j) as nat));
        assert(hooks_run(s, len, aborts) == seq![i] + rest);
        assert(hooks_run(s, len, aborts) =~= Seq::new((n - i) as nat, |j: int| (i + j) as nat));
    }
}

proof fn lemma_runs_iff_no_earlier_abort(aborts: Seq<bool>, from: nat, j: nat)
    requires
        from <= j < aborts.len(),
        forall|k: nat| k < from ==> !aborts[k as int],
    ensures
        j < hooks_that_run(aborts, from) <==> no_abort_before(aborts, j),
    decreases aborts.len() - from,
{
    if aborts[from as int] {
        if j > from {
            assert(!no_abort_before(aborts, j)) by {
                assert(from < j && aborts[from as int]);
            }
        }
    } else if from < j {
        lemma_runs_iff_no_earlier_abort(aborts, from + 1, j);
    } else {
        assert(from + 1 <= hooks_that_run(aborts, from + 1)) by {
            lemma_hooks_that_run_bound(aborts, from + 1);
        }
    }
}

proof fn lemma_hooks_that_run_bound(aborts: Seq<bool>, from: nat)
    ensures
        from <= aborts.len() ==> from <= hooks_that_run(aborts, from) <= aborts.len(),
    decreases aborts.len() - from,
{
    if from < aborts.len() && !aborts[from as int] {
        lemma_hooks_that_run_bound(aborts, from + 1);
    }
}

/// The hooks of a run go in registration order, and hook `j` runs exactly
/// when no earlier hook left the context aborted: once a hook aborts, the
/// hooks after it do not run; without an abort, every hook runs.
pub proof fn lemma_abort_skips_remaining_hooks(aborts: Seq<bool>)
    requires
        aborts.len() <= usize::MAX,
    ensures
        hooks_run(pipeline_start(aborts.len()), aborts.len(), aborts) == Seq::new(
            hooks_that_run(aborts, 0),
            |j: int| j as nat,
        ),
        forall|j: nat|
            j < aborts.len() ==> (j < hooks_that_run(aborts, 0) <==> #[trigger] no_abort_before(
                aborts,
                j,
            )),
{
    if aborts.len() == 0 {
        assert(hooks_run(pipeline_start(0), 0, aborts) =~= Seq::new(
            hooks_that_run(aborts, 0),
            |j: int| j as nat,
        ));
    } else {
        lemma_run_from(0, aborts);
        assert(Seq::new((hooks_that_run(aborts, 0) - 0) as nat, |j: int| (0 + j) as nat) =~= Seq::new(
            hooks_that_run(aborts, 0),
            |j: int| j as nat,
        ));
    }
    assert forall|j: nat| j < aborts.len() implies (j < hooks_that_run(aborts, 0)
        <==> #[trigger] no_abort_before(aborts, j)) by {
        lemma_runs_iff_no_earlier_abort(aborts, 0, j);
    }
}

/// One run of the hook pipeline over a fixed number of hooks.
pub struct HookPipeline {
    len: usize,
    status: PipelineStatus,
}

impl HookPipeline {
    /// The number of hooks in the run.
    pub closed spec fn hook_count(&self) -> nat {
        self.len as nat
    }

    /// Where the run stands.
    pub closed spec fn state(&self) -> PipelineStatus {
        self.status
    }

    /// Well-formed: a running index names a hook.
    pub open spec fn wf(&self) -> bool {
        self.state() matches PipelineStatus::Running(i) ==> i < self.hook_count()
    }

    /// A run over `len` hooks, before any of them ran.
    pub fn start(len: usize) -> (r: HookPipeline)
        ensures
            r.wf(),
            r.hook_count() == len,
            r.state() == pipeline_start(len as nat),
    {
        let status = if len == 0 {
            PipelineStatus::Completed
        } else {
            PipelineStatus::Running(0)
        };
        HookPipeline { len, status }
    }

    /// Where the run stands.
    pub fn status(&self) -> (r: PipelineStatus)
        ensures
            r == self.state(),
    {
        self.status
    }

    /// The index of the hook to construct and run next, or `None` once the
    /// run has ended.
    pub fn next_hook(&self) -> (r: Option<usize>)
        ensures
            match self.state() {
                PipelineStatus::Running(i) => r == Some(i),
                _ => r is None,
            },
    {
        match self.status {
            PipelineStatus::Running(i) => Some(i),
            _ => None,
        }
    }

    /// Records that the running hook finished, `aborted` telling whether
    /// the context is aborted now.
    pub fn after_hook(&mut self, aborted: bool)
        requires
            old(self).wf(),
        ensures
            final(self).wf(),
            final(self).hook_count() == old(self).hook_count(),
            final(self).state() == pipeline_step(old(self).state(), old(self).hook_count(), aborted),
    {
        match self.status {
            PipelineStatus::Running(i) => {
                if aborted {
                    self.status = PipelineStatus::Aborted;
                } else if i + 1 >= self.len {
                    self.status = PipelineStatus::Completed;
                } else {
                    self.status = PipelineStatus::Running(i + 1);
                }
            },
            _ => {},
        }
    }

    /// Whether the run has ended.
    pub fn is_finished(&self) -> (r: bool)
        ensures
            r == !(self.state() is Running),
    {
        match self.status {
            PipelineStatus::Running(_) => false,
            _ => true,
        }
    }
}

} // verus!
