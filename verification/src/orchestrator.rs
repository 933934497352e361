//! The orchestrator: pair outputs with media, pick a backend, build spawn
//! specifications, and track the spawning of workers with all-or-nothing
//! rollback.
//!
//! Starting and stopping real processes is outside work; the spawn session
//! here decides, step by step, what to spawn next and what to roll back, and
//! the runtime around it performs each action and reports the outcome back.
//! Whatever those outcomes are, a failed run ends with zero live workers.

use vstd::prelude::*;

use crate::backend::{
    Backend, BackendSpawnSpec, WallpaperMode, WorkerHandle, spec_select_backend, select_backend,
    supported_backend_names,
};
use crate::output::{OutputInfo, spec_filter_outputs, filter_outputs_by_names};
use crate::scan::sample_paths;

verus! {

/// Why an orchestration run failed.
#[derive(Debug)]
pub enum OrchestrationError {
    /// The display server reported no outputs at all.
    NoOutputsAvailable,
    /// An output-name filter was given and matched nothing.
    NoOutputsSelected,
    /// No known backend is installed; `known` lists the names the registry
    /// knows, installed or not, for diagnostics.
    NoBackendAvailable { known: Vec<String> },
    /// Starting a worker failed; carries the name of the output it was for
    /// and the message of the underlying error.
    SpawnFailure { output: String, message: String },
    /// The media root could not be scanned.
    MediaScanFailure { path: String, message: String },
    /// A worker did not stop cleanly.
    StopFailure { worker: u64 },
}

/// A failed media scan: the path that could not be read and why.
#[derive(Debug)]
pub struct MediaError {
    pub path: String,
    pub message: String,
}

/// Everything resolved before any process is started: the backend to use and
/// one spawn spec per paired output.
#[derive(Debug)]
pub struct SetupPlan {
    pub backend: Backend,
    pub specs: Vec<BackendSpawnSpec>,
}

/// The media paths of a run of spawn specs, in order.
pub open spec fn spec_media_of(specs: Seq<BackendSpawnSpec>) -> Seq<String> {
    specs.map_values(|s: BackendSpawnSpec| s.media)
}

/// Build one spawn spec per (output, media) pair, in output order, carrying
/// the requested mode. Outputs beyond the media list (or media beyond the
/// outputs) are left unpaired.
pub fn create_spawn_specs(
    outputs: Vec<OutputInfo>,
    media_paths: Vec<String>,
    mode: WallpaperMode,
) -> (r: Vec<BackendSpawnSpec>)
    ensures
        r@.len() == vstd::math::min(outputs@.len() as int, media_paths@.len() as int),
        forall|i: int|
            0 <= i < r@.len() ==> {
                &&& (#[trigger] r@[i]).output == outputs@[i]
                &&& r@[i].media == media_paths@[i]
                &&& r@[i].mode == mode
                &&& r@[i].extra_args@ == Seq::<String>::empty()
            },
{
    let mut rest_outputs = outputs;
    let mut rest_media = media_paths;
    let ghost orig_outputs = rest_outputs@;
    let ghost orig_media = rest_media@;
    let total_outputs = rest_outputs.len();
    let mut r: Vec<BackendSpawnSpec> = Vec::new();
    let mut k: usize = 0;
    while rest_outputs.len() > 0 && rest_media.len() > 0
        invariant
            total_outputs == orig_outputs.len(),
            k + rest_outputs@.len() == orig_outputs.len(),
            k + rest_media@.len() == orig_media.len(),
            rest_outputs@ == orig_outputs.subrange(k as int, orig_outputs.len() as int),
            rest_media@ == orig_media.subrange(k as int, orig_media.len() as int),
            r@.len() == k,
            forall|i: int|
                0 <= i < k ==> {
                    &&& (#[trigger] r@[i]).output == orig_outputs[i]
                    &&& r@[i].media == orig_media[i]
                    &&& r@[i].mode == mode
                    &&& r@[i].extra_args@ == Seq::<String>::empty()
                },
        decreases rest_outputs@.len(),
    {
        let o = rest_outputs.remove(0);
        let m = rest_media.remove(0);
        proof {
            assert(o == orig_outputs[k as int]);
            assert(m == orig_media[k as int]);
            assert(rest_outputs@ =~= orig_outputs.subrange(k + 1, orig_outputs.len() as int));
            assert(rest_media@ =~= orig_media.subrange(k + 1, orig_media.len() as int));
        }
        r.push(BackendSpawnSpec { media: m, mode, output: o, extra_args: Vec::new() });
        k += 1;
    }
    r
}

/// Resolve one orchestration run up to (but not including) process start:
/// check the outputs, filter them, check the installed backends, resolve the
/// backend, draw one media file per selected output, and build the specs.
///
/// Each failure comes exactly when its condition holds, in this order:
/// no outputs at all, an output filter matching nothing, nothing installed,
/// a failed media scan. Nothing is spawned here, so a failed plan leaves no
/// state to clean up.
pub fn plan_setup(
    outputs: Vec<OutputInfo>,
    target_outputs: Option<Vec<String>>,
    requested_backend: Option<String>,
    installed: Vec<Backend>,
    media: Result<Vec<String>, MediaError>,
    mode: WallpaperMode,
) -> (r: Result<SetupPlan, OrchestrationError>)
    ensures
        ({
            let filtered = match target_outputs {
                None => outputs@,
                Some(names) => spec_filter_outputs(
                    outputs@,
                    names.deep_view(),
                    outputs@.len() as int,
                ),
            };
            let req = match requested_backend {
                Some(n) => Some(n@),
                None => None,
            };
            if outputs@.len() == 0 {
                r matches Err(e) && e is NoOutputsAvailable
            } else if filtered.len() == 0 {
                r matches Err(e) && e is NoOutputsSelected
            } else if installed@.len() == 0 {
                r matches Err(e) && e matches OrchestrationError::NoBackendAvailable { known }
                    && known.deep_view() == seq!["swaybg"@, "mpvpaper"@, "awww"@]
            } else if media is Err {
                r matches Err(e) && e matches OrchestrationError::MediaScanFailure {
                    path,
                    message,
                } && path == media->Err_0.path && message == media->Err_0.message
            } else {
                r matches Ok(plan) && {
                    &&& Some(plan.backend) == spec_select_backend(req, installed@)
                    &&& plan.specs@.len() == vstd::math::min(
                        filtered.len() as int,
                        media->Ok_0@.len() as int,
                    )
                    &&& (forall|i: int|
                        0 <= i < plan.specs@.len() ==> {
                            &&& (#[trigger] plan.specs@[i]).output == filtered[i]
                            &&& plan.specs@[i].mode == mode
                            &&& plan.specs@[i].extra_args@ == Seq::<String>::empty()
                        })
                    &&& spec_media_of(plan.specs@).to_multiset().subset_of(
                        media->Ok_0@.to_multiset(),
                    )
                    &&& (media->Ok_0@.no_duplicates() ==> spec_media_of(
                        plan.specs@,
                    ).no_duplicates())
                }
            }
        }),
{
    if outputs.len() == 0 {
        return Err(OrchestrationError::NoOutputsAvailable);
    }
    let selected = filter_outputs_by_names(outputs, target_outputs);
    if selected.len() == 0 {
        return Err(OrchestrationError::NoOutputsSelected);
    }
    if installed.len() == 0 {
        return Err(
            OrchestrationError::NoBackendAvailable { known: supported_backend_names() },
        );
    }
    let media_paths = match media {
        Ok(paths) => paths,
        Err(e) => {
            return Err(OrchestrationError::MediaScanFailure { path: e.path, message: e.message });
        },
    };
    let backend = match select_backend(requested_backend.as_ref(), &installed) {
        Some(b) => b,
        None => {
            return Err(
                OrchestrationError::NoBackendAvailable { known: supported_backend_names() },
            );
        },
    };
    let ghost all_media = media_paths@;
    let sampled = sample_paths(media_paths, selected.len());
    let ghost sampled_view = sampled@;
    let specs = create_spawn_specs(selected, sampled, mode);
    proof {
        assert(specs@.len() == sampled_view.len());
        assert(spec_media_of(specs@) =~= sampled_view);
        if all_media.no_duplicates() {
            crate::scan::lemma_sample_no_duplicates(all_media, sampled_view);
        }
    }
    Ok(SetupPlan { backend, specs })
}

/// Where a spawn session stands.
#[derive(Debug, Clone, Copy, PartialEq, Eq, Structural)]
pub enum SpawnPhase {
    /// Specs are still being started, nothing has failed.
    Spawning,
    /// A start failed; already-started workers are being stopped.
    RollingBack,
    /// A start failed and every started worker has been handed back for
    /// stopping; no worker of this session is live.
    Failed,
}

/// One orchestration run's spawning, step by step. The session owns the plan
/// and the handles of the workers started so far; the runtime around it asks
/// what to do next (`pending_spec`, `next_rollback`) and reports what
/// happened (`record_spawn_ok`, `record_spawn_err`).
///
/// Sequential and batch starts are symmetric: any single failure rolls back
/// everything already started in the same session, in reverse spawn order.
#[derive(Debug)]
pub struct SpawnSession {
    backend: Backend,
    specs: Vec<BackendSpawnSpec>,
    next: usize,
    live: Vec<WorkerHandle>,
    phase: SpawnPhase,
    failed_output: String,
    failure: String,
}

impl SpawnSession {
    /// The backend every worker of this session is started with.
    pub closed spec fn spec_backend(self) -> Backend {
        self.backend
    }

    /// The plan: one spec per paired output.
    pub closed spec fn spec_specs(self) -> Seq<BackendSpawnSpec> {
        self.specs@
    }

    /// How many specs have been attempted.
    pub closed spec fn spec_next(self) -> int {
        self.next as int
    }

    /// The workers started and not yet stopped, in spawn order.
    pub closed spec fn spec_live(self) -> Seq<WorkerHandle> {
        self.live@
    }

    pub closed spec fn spec_phase(self) -> SpawnPhase {
        self.phase
    }

    /// The name of the output whose spawn failed.
    pub closed spec fn spec_failed_output(self) -> String {
        self.failed_output
    }

    /// The message of the error that failed the session.
    pub closed spec fn spec_failure(self) -> String {
        self.failure
    }

    /// The session invariant: attempts never pass the plan, only attempted
    /// specs have live workers, a spawning session has exactly one live
    /// worker per attempt, rollback still holds workers, and a failed
    /// session holds none.
    pub open spec fn wf(self) -> bool {
        &&& 0 <= self.spec_next() <= self.spec_specs().len()
        &&& self.spec_live().len() <= self.spec_next()
        &&& (self.spec_phase() is Spawning ==> self.spec_live().len() == self.spec_next())
        &&& (self.spec_phase() is RollingBack ==> self.spec_live().len() >= 1)
        &&& (self.spec_phase() is Failed ==> self.spec_live().len() == 0)
        &&& (forall|i: int|
            0 <= i < self.spec_live().len() ==> (#[trigger] self.spec_live()[i]).backend
                == self.spec_backend())
    }

    /// Open a session for a resolved plan. Nothing is live yet.
    pub fn new(backend: Backend, specs: Vec<BackendSpawnSpec>) -> (s: SpawnSession)
        ensures
            s.wf(),
            s.spec_backend() == backend,
            s.spec_specs() == specs@,
            s.spec_next() == 0,
            s.spec_live() == Seq::<WorkerHandle>::empty(),
            s.spec_phase() is Spawning,
    {
        SpawnSession {
            backend,
            specs,
            next: 0,
            live: Vec::new(),
            phase: SpawnPhase::Spawning,
            failed_output: String::new(),
            failure: String::new(),
        }
    }

    /// The next spec to start, if the session is still spawning and specs are
    /// left.
    pub fn pending_spec(&self) -> (r: Option<&BackendSpawnSpec>)
        ensures
            if self.spec_phase() is Spawning && self.spec_next() < self.spec_specs().len() {
                r matches Some(s) && *s == self.spec_specs()[self.spec_next()]
            } else {
                r is None
            },
    {
        if matches!(self.phase, SpawnPhase::Spawning) && self.next < self.specs.len() {
            Some(&self.specs[self.next])
        } else {
            None
        }
    }

    /// Record that the pending spec's worker started, under the given
    /// process identifier.
    pub fn record_spawn_ok(&mut self, worker: u64)
        requires
            old(self).wf(),
            old(self).spec_phase() is Spawning,
            old(self).spec_next() < old(self).spec_specs().len(),
        ensures
            final(self).wf(),
            final(self).spec_phase() is Spawning,
            final(self).spec_backend() == old(self).spec_backend(),
            final(self).spec_specs() == old(self).spec_specs(),
            final(self).spec_next() == old(self).spec_next() + 1,
            final(self).spec_live() == old(self).spec_live().push(
                WorkerHandle { backend: old(self).spec_backend(), worker },
            ),
    {
        let handle = WorkerHandle { backend: self.backend, worker };
        self.live.push(handle);
        let n = self.specs.len();
        assert(self.next < n);
        self.next = self.next + 1;
    }

    /// Record that starting the pending spec failed. The session turns to
    /// rolling back what already started; with nothing started it is failed
    /// outright.
    pub fn record_spawn_err(&mut self, message: String)
        requires
            old(self).wf(),
            old(self).spec_phase() is Spawning,
            old(self).spec_next() < old(self).spec_specs().len(),
        ensures
            final(self).wf(),
            final(self).spec_backend() == old(self).spec_backend(),
            final(self).spec_specs() == old(self).spec_specs(),
            final(self).spec_next() == old(self).spec_next(),
            final(self).spec_live() == old(self).spec_live(),
            final(self).spec_failed_output() == old(self).spec_specs()[old(
                self,
            ).spec_next()].output.name,
            final(self).spec_failure() == message,
            final(self).spec_phase() == if old(self).spec_live().len() == 0 {
                SpawnPhase::Failed
            } else {
                SpawnPhase::RollingBack
            },
    {
        self.failed_output = self.specs[self.next].output.name.clone();
        self.failure = message;
        if self.live.len() == 0 {
            self.phase = SpawnPhase::Failed;
        } else {
            self.phase = SpawnPhase::RollingBack;
        }
    }

    /// The next worker to stop while rolling back, in reverse spawn order;
    /// the caller must stop it. Outside rollback there is nothing to hand
    /// out.
    pub fn next_rollback(&mut self) -> (r: Option<WorkerHandle>)
        requires
            old(self).wf(),
        ensures
            final(self).wf(),
            final(self).spec_backend() == old(self).spec_backend(),
            final(self).spec_specs() == old(self).spec_specs(),
            final(self).spec_next() == old(self).spec_next(),
            final(self).spec_failed_output() == old(self).spec_failed_output(),
            final(self).spec_failure() == old(self).spec_failure(),
            if old(self).spec_phase() is RollingBack {
                &&& r == Some(old(self).spec_live().last())
                &&& final(self).spec_live() == old(self).spec_live().drop_last()
                &&& final(self).spec_phase() == if old(self).spec_live().len() == 1 {
                    SpawnPhase::Failed
                } else {
                    SpawnPhase::RollingBack
                }
            } else {
                &&& r is None
                &&& final(self).spec_live() == old(self).spec_live()
                &&& final(self).spec_phase() == old(self).spec_phase()
            },
    {
        if matches!(self.phase, SpawnPhase::RollingBack) {
            let h = self.live.pop();
            match h {
                Some(handle) => {
                    if self.live.len() == 0 {
                        self.phase = SpawnPhase::Failed;
                    }
                    Some(handle)
                },
                None => None,
            }
        } else {
            None
        }
    }

    /// Close the session: a fully spawned session yields its pool, a failed
    /// one the spawn failure, with the failing output's name and the error
    /// message. A failed session never yields workers: they were all handed
    /// back for stopping.
    pub fn finish(self) -> (r: Result<Vec<WorkerHandle>, OrchestrationError>)
        requires
            self.wf(),
            (self.spec_phase() is Spawning && self.spec_next() == self.spec_specs().len())
                || self.spec_phase() is Failed,
        ensures
            self.spec_phase() is Spawning ==> (r matches Ok(pool) && pool@ == self.spec_live()
                && pool@.len() == self.spec_specs().len()),
            self.spec_phase() is Failed ==> (r matches Err(e) && e
                matches OrchestrationError::SpawnFailure { output, message } && output
                == self.spec_failed_output() && message == self.spec_failure()),
    {
        match self.phase {
            SpawnPhase::Spawning => Ok(self.live),
            _ => Err(
                OrchestrationError::SpawnFailure {
                    output: self.failed_output,
                    message: self.failure,
                },
            ),
        }
    }
}

/// A failed spawn session has rolled back everything: zero live workers,
/// whichever spawn in the batch failed and however the stops went.
pub proof fn lemma_failed_session_has_no_workers(s: SpawnSession)
    requires
        s.wf(),
        s.spec_phase() is Failed,
    ensures
        s.spec_live().len() == 0,
{
}

} // verus!
