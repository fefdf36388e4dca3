use vstd::prelude::*;
use vstd::string::StringExecFns;

use crate::errors::{message_spec, ZkError};
use crate::marker::{marker_path, marker_path_spec, marker_text_spec};
use crate::text::{contains_seq, lemma_concat_contains};

verus! {

/// Outcome of asking the host to create the explicit workspace directory.
/// A directory that already exists is a benign outcome of initialization.
#[derive(Debug)]
pub enum DirOutcome {
    Created,
    AlreadyExists,
    Failed { detail: String },
}

/// Where an initialization run stands between two host actions.
#[derive(Debug)]
pub enum InitPhase {
    /// Nothing has happened yet.
    Start,
    /// The explicit workspace directory is being created.
    AwaitDir,
    /// The current working directory was asked for.
    AwaitCwd,
    /// The candidate root is being canonicalized.
    AwaitCanon,
    /// The marker file is being created and filled under `root`.
    AwaitWrite { root: String },
    /// The partially-written marker is being rolled back; `detail` describes
    /// the write failure that forced the rollback.
    AwaitRemove { detail: String },
    /// The run is over; no further event is accepted.
    Done,
}

/// What the host reports back after performing an action.
#[derive(Debug)]
pub enum InitEvent {
    Begin,
    DirEnsured { outcome: DirOutcome },
    GotCwd { cwd: Result<String, String> },
    Canonicalized { canonical: Result<String, String> },
    MarkerWritten { written: Result<(), String> },
    MarkerRemoved { removal: Result<(), String> },
}

/// What the host must do next. `Finish` carries the overall outcome.
#[derive(Debug)]
pub enum InitAction {
    /// Create the directory; report an already existing one as benign.
    EnsureDir { path: String },
    /// Report the current working directory.
    GetCwd,
    /// Canonicalize the path, resolving symlinks and relative segments.
    Canonicalize { path: String },
    /// Create the file at `path` and write `content` into it.
    WriteMarker { path: String, content: String },
    /// Delete the file at `path`.
    RemoveMarker { path: String },
    /// The run is over with this outcome.
    Finish { result: Result<String, ZkError> },
}

/// One initialization run: it decides every step of locating or creating the
/// workspace directory, writing the marker, and rolling the marker back when
/// writing it fails. The host only performs the filesystem actions it is
/// handed and reports their outcomes.
#[derive(Debug)]
pub struct InitSession {
    /// The explicit workspace path the caller supplied, if any.
    pub explicit: Option<String>,
    /// Where the run stands.
    pub phase: InitPhase,
}

/// A session in a phase that can still need the explicit path has one.
pub open spec fn init_wf(s: InitSession) -> bool {
    s.phase is AwaitDir ==> s.explicit is Some
}

/// Which event a phase accepts.
pub open spec fn init_event_fits(phase: InitPhase, ev: InitEvent) -> bool {
    match phase {
        InitPhase::Start => ev is Begin,
        InitPhase::AwaitDir => ev is DirEnsured,
        InitPhase::AwaitCwd => ev is GotCwd,
        InitPhase::AwaitCanon => ev is Canonicalized,
        InitPhase::AwaitWrite { .. } => ev is MarkerWritten,
        InitPhase::AwaitRemove { .. } => ev is MarkerRemoved,
        InitPhase::Done => false,
    }
}

/// The combined description surfaced when the rollback deletion itself
/// fails: it names the original failure first and the deletion failure
/// after it, so neither is silently swallowed.
pub open spec fn rollback_combined_spec(ser: Seq<char>, rm: Seq<char>) -> Seq<char> {
    "Serialization error: "@ + ser + "\n\nRemove file error: "@ + rm
}

/// The transition relation of an initialization run: for each phase and
/// event it fixes the next phase and the action handed to the host, down
/// to the exact paths, payload and error texts.
pub open spec fn init_step_rel(
    pre: InitSession,
    ev: InitEvent,
    post: InitSession,
    act: InitAction,
) -> bool {
    &&& post.explicit == pre.explicit
    &&& match (pre.phase, ev) {
        (InitPhase::Start, InitEvent::Begin) => match pre.explicit {
            Some(p) => {
                &&& post.phase is AwaitDir
                &&& (act matches InitAction::EnsureDir { path } && path@ == p@)
            },
            None => {
                &&& post.phase is AwaitCwd
                &&& act is GetCwd
            },
        },
        (InitPhase::AwaitDir, InitEvent::DirEnsured { outcome }) => match outcome {
            DirOutcome::Created | DirOutcome::AlreadyExists => {
                &&& pre.explicit matches Some(p)
                &&& post.phase is AwaitCanon
                &&& (act matches InitAction::Canonicalize { path } && path@ == p@)
            },
            DirOutcome::Failed { detail } => {
                &&& post.phase is Done
                &&& (act matches InitAction::Finish { result: res } && res matches Err(e)
                    && e matches ZkError::Io { detail: d } && d@ == detail@)
            },
        },
        (InitPhase::AwaitCwd, InitEvent::GotCwd { cwd }) => match cwd {
            Ok(p) => {
                &&& post.phase is AwaitCanon
                &&& (act matches InitAction::Canonicalize { path } && path@ == p@)
            },
            Err(detail) => {
                &&& post.phase is Done
                &&& (act matches InitAction::Finish { result: res } && res matches Err(e)
                    && e matches ZkError::Io { detail: d } && d@ == detail@)
            },
        },
        (InitPhase::AwaitCanon, InitEvent::Canonicalized { canonical }) => match canonical {
            Ok(root) => {
                &&& (post.phase matches InitPhase::AwaitWrite { root: r } && r@ == root@)
                &&& (act matches InitAction::WriteMarker { path, content }
                    && path@ == marker_path_spec(root@) && content@ == marker_text_spec())
            },
            Err(detail) => {
                &&& post.phase is Done
                &&& (act matches InitAction::Finish { result: res } && res matches Err(e)
                    && e matches ZkError::CannotLocate { detail: d } && d@ == detail@)
            },
        },
        (InitPhase::AwaitWrite { root }, InitEvent::MarkerWritten { written }) => match written {
            Ok(_) => {
                &&& post.phase is Done
                &&& (act matches InitAction::Finish { result: res } && res matches Ok(r)
                    && r@ == root@)
            },
            Err(detail) => {
                &&& (post.phase matches InitPhase::AwaitRemove { detail: d } && d@ == detail@)
                &&& (act matches InitAction::RemoveMarker { path }
                    && path@ == marker_path_spec(root@))
            },
        },
        (InitPhase::AwaitRemove { detail }, InitEvent::MarkerRemoved { removal }) => match removal {
            Ok(_) => {
                &&& post.phase is Done
                &&& (act matches InitAction::Finish { result: res } && res matches Err(e)
                    && e matches ZkError::Serialization { detail: d } && d@ == detail@)
            },
            Err(rm) => {
                &&& post.phase is Done
                &&& (act matches InitAction::Finish { result: res } && res matches Err(e)
                    && e matches ZkError::Io { detail: d }
                    && d@ == rollback_combined_spec(detail@, rm@))
            },
        },
        _ => false,
    }
}

impl InitSession {
    /// Starts an initialization run for the given explicit path, or for the
    /// current working directory when none is given.
    pub fn new(explicit: Option<String>) -> (s: Self)
        ensures
            s.explicit == explicit,
            s.phase is Start,
            init_wf(s),
    {
        InitSession { explicit, phase: InitPhase::Start }
    }

    /// Advances the run by one host event and says what the host must do
    /// next. The transition taken is exactly the one `init_step_rel` allows.
    pub fn step(&mut self, ev: InitEvent) -> (act: InitAction)
        requires
            init_wf(*old(self)),
            init_event_fits(old(self).phase, ev),
        ensures
            init_step_rel(*old(self), ev, *final(self), act),
            init_wf(*final(self)),
    {
        let mut ph = InitPhase::Done;
        core::mem::swap(&mut ph, &mut self.phase);
        match (ph, ev) {
            (InitPhase::Start, InitEvent::Begin) => match &self.explicit {
                Some(p) => {
                    let path = p.clone();
                    self.phase = InitPhase::AwaitDir;
                    InitAction::EnsureDir { path }
                },
                None => {
                    self.phase = InitPhase::AwaitCwd;
                    InitAction::GetCwd
                },
            },
            (InitPhase::AwaitDir, InitEvent::DirEnsured { outcome }) => match outcome {
                DirOutcome::Created | DirOutcome::AlreadyExists => {
                    let path = match &self.explicit {
                        Some(p) => p.clone(),
                        None => {
                            proof {
                                assert(false);
                            }
                            String::new()
                        },
                    };
                    self.phase = InitPhase::AwaitCanon;
                    InitAction::Canonicalize { path }
                },
                DirOutcome::Failed { detail } => {
                    InitAction::Finish { result: Err(ZkError::Io { detail }) }
                },
            },
            (InitPhase::AwaitCwd, InitEvent::GotCwd { cwd }) => match cwd {
                Ok(path) => {
                    self.phase = InitPhase::AwaitCanon;
                    InitAction::Canonicalize { path }
                },
                Err(detail) => {
                    InitAction::Finish { result: Err(ZkError::Io { detail }) }
                },
            },
            (InitPhase::AwaitCanon, InitEvent::Canonicalized { canonical }) => match canonical {
                Ok(root) => {
                    let content = crate::marker::default_marker_content();
                    let path = marker_path(root.as_str());
                    self.phase = InitPhase::AwaitWrite { root };
                    InitAction::WriteMarker { path, content }
                },
                Err(detail) => {
                    InitAction::Finish { result: Err(ZkError::CannotLocate { detail }) }
                },
            },
            (InitPhase::AwaitWrite { root }, InitEvent::MarkerWritten { written }) => match written {
                Ok(_) => {
                    InitAction::Finish { result: Ok(root) }
                },
                Err(detail) => {
                    let path = marker_path(root.as_str());
                    self.phase = InitPhase::AwaitRemove { detail };
                    InitAction::RemoveMarker { path }
                },
            },
            (InitPhase::AwaitRemove { detail }, InitEvent::MarkerRemoved { removal }) => {
                match removal {
                    Ok(_) => {
                        InitAction::Finish { result: Err(ZkError::Serialization { detail }) }
                    },
                    Err(rm) => {
                        let combined = rollback_combined(detail.as_str(), rm.as_str());
                        InitAction::Finish { result: Err(ZkError::Io { detail: combined }) }
                    },
                }
            },
            _ => {
                proof {
                    assert(false);
                }
                InitAction::GetCwd
            },
        }
    }
}

/// What probing the current working directory found: the directory itself
/// and whether the workspace marker exists directly inside it.
#[derive(Debug)]
pub struct CwdProbe {
    pub path: String,
    pub has_marker: bool,
}

/// The root `resolve_existing` decides on: an explicit override is trusted
/// as it stands, with no marker check; otherwise the current working
/// directory is the root exactly when the marker sits directly inside it,
/// and a probe failure surfaces as an I/O error.
pub open spec fn resolve_spec(explicit: Option<String>, probe: Result<CwdProbe, String>) -> Result<
    String,
    ZkError,
> {
    match explicit {
        Some(p) => Ok(p),
        None => match probe {
            Ok(c) => if c.has_marker {
                Ok(c.path)
            } else {
                Err(ZkError::NotFound)
            },
            Err(d) => Err(ZkError::Io { detail: d }),
        },
    }
}

/// Decides the workspace root a command operates against. Resolution is
/// deterministic and strictly single-directory: the result is a function of
/// the override and the probe alone, and no search up the directory tree is
/// ever made.
pub fn resolve_existing(explicit: Option<String>, probe: Result<CwdProbe, String>) -> (r: Result<
    String,
    ZkError,
>)
    ensures
        r == resolve_spec(explicit, probe),
{
    match explicit {
        Some(p) => Ok(p),
        None => match probe {
            Ok(c) => {
                if c.has_marker {
                    Ok(c.path)
                } else {
                    Err(ZkError::NotFound)
                }
            },
            Err(d) => Err(ZkError::Io { detail: d }),
        },
    }
}

/// The combined rollback description: the original failure, then the
/// deletion failure.
pub fn rollback_combined(ser: &str, rm: &str) -> (r: String)
    ensures
        r@ == rollback_combined_spec(ser@, rm@),
{
    let mut out = String::from_str("Serialization error: ");
    out.append(ser);
    out.append("\n\nRemove file error: ");
    out.append(rm);
    proof {
        assert(out@ =~= rollback_combined_spec(ser@, rm@));
    }
    out
}

/// How far an initialization run has come; every step strictly advances it.
pub open spec fn init_phase_rank(p: InitPhase) -> int {
    match p {
        InitPhase::Start => 0,
        InitPhase::AwaitDir => 1,
        InitPhase::AwaitCwd => 1,
        InitPhase::AwaitCanon => 2,
        InitPhase::AwaitWrite { .. } => 3,
        InitPhase::AwaitRemove { .. } => 4,
        InitPhase::Done => 5,
    }
}

/// Every step of an initialization run strictly advances its phase, so no
/// phase is ever entered twice within one run.
pub proof fn lemma_init_step_advances(
    pre: InitSession,
    ev: InitEvent,
    post: InitSession,
    act: InitAction,
)
    requires
        init_step_rel(pre, ev, post, act),
    ensures
        init_phase_rank(post.phase) > init_phase_rank(pre.phase),
{
}

/// One initialization run, recorded as the states it passed through, the
/// events the host reported, and the actions it was handed, in turn.
pub open spec fn init_run(
    states: Seq<InitSession>,
    events: Seq<InitEvent>,
    actions: Seq<InitAction>,
) -> bool {
    &&& states.len() == events.len() + 1
    &&& actions.len() == events.len()
    &&& (forall|i: int|
        0 <= i < events.len() ==> #[trigger] init_step_rel(
            states[i],
            events[i],
            states[i + 1],
            actions[i],
        ))
}

/// Within a run, the phase rank never falls back.
pub proof fn lemma_init_rank_monotone(
    states: Seq<InitSession>,
    events: Seq<InitEvent>,
    actions: Seq<InitAction>,
    i: int,
    j: int,
)
    requires
        init_run(states, events, actions),
        0 <= i <= j < states.len(),
    ensures
        init_phase_rank(states[j].phase) >= init_phase_rank(states[i].phase),
    decreases j - i,
{
    if i < j {
        let m = j - 1;
        assert(init_step_rel(states[m], events[m], states[m + 1], actions[m]));
        lemma_init_step_advances(states[m], events[m], states[m + 1], actions[m]);
        lemma_init_rank_monotone(states, events, actions, i, m);
    }
}

/// A marker write happens only on the step from canonicalization into the
/// writing phase, always at the marker path directly under the canonical
/// root and always with the default marker payload.
pub proof fn lemma_init_write_marker_source(
    pre: InitSession,
    ev: InitEvent,
    post: InitSession,
    act: InitAction,
)
    requires
        init_step_rel(pre, ev, post, act),
        act is WriteMarker,
    ensures
        pre.phase is AwaitCanon,
        post.phase is AwaitWrite,
        act->WriteMarker_content@ == marker_text_spec(),
        (ev matches InitEvent::Canonicalized { canonical: Ok(root) }
            && act->WriteMarker_path@ == marker_path_spec(root@)),
{
}

/// Law (one run writes the marker at most once): within one initialization
/// run, no second action ever writes the marker.
pub proof fn lemma_init_single_marker_write(
    states: Seq<InitSession>,
    events: Seq<InitEvent>,
    actions: Seq<InitAction>,
    i: int,
    j: int,
)
    requires
        init_run(states, events, actions),
        0 <= i < j < actions.len(),
        actions[i] is WriteMarker,
    ensures
        !(actions[j] is WriteMarker),
{
    if actions[j] is WriteMarker {
        assert(init_step_rel(states[i], events[i], states[i + 1], actions[i]));
        assert(init_step_rel(states[j], events[j], states[j + 1], actions[j]));
        lemma_init_write_marker_source(states[i], events[i], states[i + 1], actions[i]);
        lemma_init_write_marker_source(states[j], events[j], states[j + 1], actions[j]);
        lemma_init_rank_monotone(states, events, actions, i + 1, j);
        assert(false);
    }
}

/// Law (the last initialization wins, with nothing changed): two steps fed
/// the same canonicalization event that both write the marker write the
/// same path and the same content. Re-initializing the same directory
/// therefore rewrites the one marker file with identical content; the
/// rewrite is unconditional and not protected against concurrent writers.
pub proof fn lemma_init_marker_write_determined(
    pre1: InitSession,
    post1: InitSession,
    act1: InitAction,
    pre2: InitSession,
    post2: InitSession,
    act2: InitAction,
    ev: InitEvent,
)
    requires
        init_step_rel(pre1, ev, post1, act1),
        init_step_rel(pre2, ev, post2, act2),
        act1 is WriteMarker,
        act2 is WriteMarker,
    ensures
        act1->WriteMarker_path@ == act2->WriteMarker_path@,
        act1->WriteMarker_content@ == act2->WriteMarker_content@,
{
    lemma_init_write_marker_source(pre1, ev, post1, act1);
    lemma_init_write_marker_source(pre2, ev, post2, act2);
}

/// Law (a successful write completes the run): once the marker is written,
/// the run finishes at once, successfully, with the canonical root it wrote
/// under. Repeating initialization over the same directory therefore
/// succeeds again, with the same outcome.
pub proof fn lemma_init_success_completes(
    pre: InitSession,
    ev: InitEvent,
    post: InitSession,
    act: InitAction,
)
    requires
        init_step_rel(pre, ev, post, act),
        pre.phase is AwaitWrite,
        (ev matches InitEvent::MarkerWritten { written: Ok(_) }),
    ensures
        (act matches InitAction::Finish { result: Ok(r) } && r@ == pre.phase->root@),
        post.phase is Done,
{
}

/// Law (a failed write is rolled back): when writing the marker fails, the
/// very next action is the removal of the marker file just created, and the
/// run records the write failure for the final error.
pub proof fn lemma_init_rollback_removes_marker(
    pre: InitSession,
    ev: InitEvent,
    post: InitSession,
    act: InitAction,
)
    requires
        init_step_rel(pre, ev, post, act),
        pre.phase is AwaitWrite,
        (ev matches InitEvent::MarkerWritten { written: Err(_) }),
    ensures
        (act matches InitAction::RemoveMarker { path } && path@ == marker_path_spec(
            pre.phase->root@,
        )),
        (post.phase matches InitPhase::AwaitRemove { detail } && ev->written matches Err(d)
            && detail@ == d@),
{
}

/// Law (the rollback error mentions the underlying failure): finishing from
/// the rollback phase surfaces an error whose message contains the recorded
/// write-failure description — the serialization error when the removal
/// succeeded, the combined error naming both failures otherwise.
pub proof fn lemma_init_rollback_error_mentions(
    pre: InitSession,
    ev: InitEvent,
    post: InitSession,
    act: InitAction,
)
    requires
        init_step_rel(pre, ev, post, act),
        pre.phase is AwaitRemove,
    ensures
        (act matches InitAction::Finish { result: Err(e) } && contains_seq(
            message_spec(e),
            pre.phase->detail@,
        )),
{
    let detail = pre.phase->detail;
    match ev {
        InitEvent::MarkerRemoved { removal } => match removal {
            Ok(_) => {
                lemma_concat_contains("Serialization error: "@, detail@, Seq::<char>::empty());
                assert("Serialization error: "@ + detail@ + Seq::<char>::empty() =~= (
                "Serialization error: "@ + detail@));
            },
            Err(rm) => {
                lemma_concat_contains(
                    "Serialization error: "@,
                    detail@,
                    "\n\nRemove file error: "@ + rm@,
                );
                assert("Serialization error: "@ + detail@ + ("\n\nRemove file error: "@ + rm@)
                    =~= rollback_combined_spec(detail@, rm@));
            },
        },
        _ => {
            assert(false);
        },
    }
}

} // verus!
