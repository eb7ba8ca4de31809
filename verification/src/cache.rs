//! The get-or-create protocol of the thumbnail cache.
//!
//! A request is a value of `CacheStep`. Each non-final state names the one
//! filesystem or extraction effect the caller must perform next; the caller
//! performs it and feeds the observation back through `step`, until the request
//! is `Done`. The transition function is pure, so concurrent requests are
//! independent values: the protocol itself takes no lock and deduplicates
//! nothing — two racing requests for one missing key may both be asked to
//! extract, and both finish.

use vstd::prelude::*;
use crate::extract::ExtractOutcome;
use crate::paths::{has_file_name, thumb_key, path_join, derive_thumbnail_key, join_path};

verus! {

/// Why one get-or-create request failed. Each failure is local to its request
/// and carries the path a caller needs for diagnosis.
#[derive(Debug)]
pub enum CacheError {
    /// The cache directory or an ancestor could not be created; holds the
    /// directory path.
    DirectoryCreationFailed(String),
    /// Frame extraction ran and exited non-success; holds the source video
    /// path.
    ExtractionFailed(String),
    /// The frame-capture capability could not be launched; holds the source
    /// video path.
    CapabilityUnavailable(String),
}

/// One observation the caller reports after performing the effect the current
/// state asked for.
#[derive(Debug)]
pub enum CacheEvent {
    /// Whether the cache directory now exists (freshly created or already
    /// present — creating an existing directory is no error).
    DirEnsured(bool),
    /// Whether a file already exists at the candidate thumbnail path.
    ThumbnailChecked(bool),
    /// What the frame extraction reported.
    FrameExtracted(ExtractOutcome),
}

/// One get-or-create request, from its start to its result.
#[derive(Debug)]
pub enum CacheStep {
    /// Create `dir` with its missing ancestors, then report `DirEnsured`.
    EnsureDir { video: String, dir: String, candidate: String },
    /// Test whether `candidate` already exists, then report `ThumbnailChecked`.
    CheckExisting { video: String, candidate: String },
    /// Extract one frame of `video` into `candidate`, then report
    /// `FrameExtracted`.
    Extract { video: String, candidate: String },
    /// The request is finished; no further effect is asked for.
    Done { result: Result<String, CacheError> },
}

/// Whether `e` is the observation the state `s` asked for.
pub open spec fn compatible(s: CacheStep, e: CacheEvent) -> bool {
    match (s, e) {
        (CacheStep::EnsureDir { .. }, CacheEvent::DirEnsured(_)) => true,
        (CacheStep::CheckExisting { .. }, CacheEvent::ThumbnailChecked(_)) => true,
        (CacheStep::Extract { .. }, CacheEvent::FrameExtracted(_)) => true,
        _ => false,
    }
}

/// The protocol's transition function. A request proceeds in order — ensure
/// the directory, check for the thumbnail, extract on a miss — and stops at
/// the first failure or at a hit; an observation a state did not ask for
/// changes nothing.
pub open spec fn step_spec(s: CacheStep, e: CacheEvent) -> CacheStep {
    match (s, e) {
        (CacheStep::EnsureDir { video, dir, candidate }, CacheEvent::DirEnsured(ok)) => {
            if ok {
                CacheStep::CheckExisting { video, candidate }
            } else {
                CacheStep::Done {
                    result: Err(CacheError::DirectoryCreationFailed(dir)),
                }
            }
        },
        (
            CacheStep::CheckExisting { video, candidate },
            CacheEvent::ThumbnailChecked(present),
        ) => {
            if present {
                CacheStep::Done { result: Ok(candidate) }
            } else {
                CacheStep::Extract { video, candidate }
            }
        },
        (CacheStep::Extract { video, candidate }, CacheEvent::FrameExtracted(o)) => {
            match o {
                ExtractOutcome::Success => CacheStep::Done { result: Ok(candidate) },
                ExtractOutcome::Failed => CacheStep::Done {
                    result: Err(CacheError::ExtractionFailed(video)),
                },
                ExtractOutcome::Unavailable => CacheStep::Done {
                    result: Err(CacheError::CapabilityUnavailable(video)),
                },
            }
        },
        (other, _) => other,
    }
}

impl CacheStep {
    /// Begins a get-or-create request for `video` against `cache_dir`: derives
    /// the key and the candidate path and asks first for the cache directory.
    /// `None` exactly when `video` has no filename component, so that no
    /// malformed key reaches the cache.
    pub fn start(video: String, cache_dir: String) -> (r: Option<CacheStep>)
        ensures
            r is Some <==> has_file_name(video@),
            r matches Some(s) ==> (s matches CacheStep::EnsureDir {
                video: v,
                dir: d,
                candidate: c,
            } && v == video && d == cache_dir && c@ == path_join(
                cache_dir@,
                thumb_key(video@),
            )),
    {
        match derive_thumbnail_key(video.as_str()) {
            None => None,
            Some(key) => {
                let candidate = join_path(cache_dir.as_str(), key.as_str());
                Some(CacheStep::EnsureDir { video, dir: cache_dir, candidate })
            },
        }
    }

    /// Performs one transition: consumes the request in its current state and
    /// the observation it asked for, and returns the next state.
    pub fn step(self, e: CacheEvent) -> (next: CacheStep)
        requires
            compatible(self, e),
        ensures
            next == step_spec(self, e),
    {
        match (self, e) {
            (CacheStep::EnsureDir { video, dir, candidate }, CacheEvent::DirEnsured(ok)) => {
                if ok {
                    CacheStep::CheckExisting { video, candidate }
                } else {
                    CacheStep::Done {
                        result: Err(CacheError::DirectoryCreationFailed(dir)),
                    }
                }
            },
            (
                CacheStep::CheckExisting { video, candidate },
                CacheEvent::ThumbnailChecked(present),
            ) => {
                if present {
                    CacheStep::Done { result: Ok(candidate) }
                } else {
                    CacheStep::Extract { video, candidate }
                }
            },
            (CacheStep::Extract { video, candidate }, CacheEvent::FrameExtracted(o)) => {
                match o {
                    ExtractOutcome::Success => CacheStep::Done { result: Ok(candidate) },
                    ExtractOutcome::Failed => CacheStep::Done {
                        result: Err(CacheError::ExtractionFailed(video)),
                    },
                    ExtractOutcome::Unavailable => CacheStep::Done {
                        result: Err(CacheError::CapabilityUnavailable(video)),
                    },
                }
            },
            (other, _) => other,
        }
    }

    /// The finished request's result; `None` while an effect remains to
    /// perform.
    pub fn result(self) -> (r: Option<Result<String, CacheError>>)
        ensures
            r matches Some(res) ==> self == (CacheStep::Done { result: res }),
            r is None <==> !(self is Done),
    {
        match self {
            CacheStep::Done { result } => Some(result),
            _ => None,
        }
    }
}

/// The state a request starting at `s` reaches when the caller reports
/// `dir_ok` for directory creation, then `present` for the existence check,
/// then `o` for the extraction, stopping at the first finished state.
pub open spec fn run_steps(
    s: CacheStep,
    dir_ok: bool,
    present: bool,
    o: ExtractOutcome,
) -> CacheStep {
    let s1 = step_spec(s, CacheEvent::DirEnsured(dir_ok));
    if s1 is Done {
        s1
    } else {
        let s2 = step_spec(s1, CacheEvent::ThumbnailChecked(present));
        if s2 is Done {
            s2
        } else {
            step_spec(s2, CacheEvent::FrameExtracted(o))
        }
    }
}

/// Whether such a run asks the caller for an extraction at all: only when the
/// directory was ensured and the existence check found nothing.
pub open spec fn run_extracts(dir_ok: bool, present: bool) -> bool {
    dir_ok && !present
}

/// Every run completes: whatever the three observations, a request started at
/// `EnsureDir` is finished after them — no sequence of outcomes deadlocks it.
pub proof fn lemma_run_completes(
    video: String,
    dir: String,
    candidate: String,
    dir_ok: bool,
    present: bool,
    o: ExtractOutcome,
)
    ensures
        run_steps(CacheStep::EnsureDir { video, dir, candidate }, dir_ok, present, o) is Done,
{
}

/// A cache hit is final: when the existence check finds the thumbnail, the
/// request returns exactly the candidate path, and its result does not depend
/// on any extraction outcome — no extraction is asked for.
pub proof fn lemma_cache_hit(
    video: String,
    dir: String,
    candidate: String,
    o1: ExtractOutcome,
    o2: ExtractOutcome,
)
    ensures
        ({
            let s = CacheStep::EnsureDir { video, dir, candidate };
            &&& run_steps(s, true, true, o1) == (CacheStep::Done {
                result: Ok::<String, CacheError>(candidate),
            })
            &&& run_steps(s, true, true, o1) == run_steps(s, true, true, o2)
            &&& !run_extracts(true, true)
        }),
{
}

/// Idempotence of get-or-create: a request that succeeded left the thumbnail
/// at the candidate path, so a second request for the same video and cache
/// directory with nothing changed in between — directory still present,
/// thumbnail now present — returns the identical path, and the second run asks
/// for no extraction: across the two runs the extractor is asked for at most
/// once.
pub proof fn lemma_get_or_create_idempotent(
    video: String,
    dir: String,
    candidate: String,
    present1: bool,
    o1: ExtractOutcome,
    o2: ExtractOutcome,
)
    requires
        run_steps(
            CacheStep::EnsureDir { video, dir, candidate },
            true,
            present1,
            o1,
        ) matches CacheStep::Done { result: Ok(_) },
    ensures
        ({
            let s = CacheStep::EnsureDir { video, dir, candidate };
            &&& run_steps(s, true, true, o2) == run_steps(s, true, present1, o1)
            &&& run_steps(s, true, true, o2) == (CacheStep::Done {
                result: Ok::<String, CacheError>(candidate),
            })
            &&& !run_extracts(true, true)
        }),
{
}

/// A directory-creation failure ends the request at once as
/// `DirectoryCreationFailed` naming the cache directory: no existence check is
/// consulted, no extraction is asked for, and no candidate entry is produced —
/// the result depends on nothing the later observations could report.
pub proof fn lemma_dir_failure(
    video: String,
    dir: String,
    candidate: String,
    present1: bool,
    present2: bool,
    o1: ExtractOutcome,
    o2: ExtractOutcome,
)
    ensures
        ({
            let s = CacheStep::EnsureDir { video, dir, candidate };
            &&& run_steps(s, false, present1, o1) == (CacheStep::Done {
                result: Err::<String, CacheError>(CacheError::DirectoryCreationFailed(dir)),
            })
            &&& run_steps(s, false, present1, o1) == run_steps(s, false, present2, o2)
            &&& !run_extracts(false, present1)
        }),
{
}

/// Two racing requests for one never-seen key are independent values: each
/// completes, and when each one's extraction succeeds, both return the same
/// candidate path — though both may be asked to extract, since the protocol
/// deduplicates nothing.
pub proof fn lemma_same_key_race(
    video1: String,
    video2: String,
    dir: String,
    candidate: String,
    present1: bool,
    present2: bool,
)
    ensures
        ({
            let s1 = CacheStep::EnsureDir { video: video1, dir, candidate };
            let s2 = CacheStep::EnsureDir { video: video2, dir, candidate };
            &&& run_steps(s1, true, present1, ExtractOutcome::Success) == (CacheStep::Done {
                result: Ok::<String, CacheError>(candidate),
            })
            &&& run_steps(s2, true, present2, ExtractOutcome::Success) == (CacheStep::Done {
                result: Ok::<String, CacheError>(candidate),
            })
            &&& run_extracts(true, false)
        }),
{
}

} // verus!
