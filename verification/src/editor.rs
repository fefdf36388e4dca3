use vstd::prelude::*;
use vstd::string::StringExecFns;

use crate::errors::ZkError;
use crate::text::dec_spec;

verus! {

/// The editor program used when the caller supplies no preference.
pub open spec fn fallback_editor_spec() -> Seq<char> {
    "vi"@
}

/// The editor command to launch: the caller's preference when one was
/// supplied, else the fixed fallback.
pub open spec fn editor_command_spec(pref: Option<String>) -> Seq<char> {
    match pref {
        Some(p) => p@,
        None => fallback_editor_spec(),
    }
}

/// The transient file an editing session works against: a name derived from
/// process identity and the current time, placed under the host's
/// temporary directory.
pub open spec fn temp_path_spec(temp_dir: Seq<char>, pid: nat, unix_secs: nat) -> Seq<char> {
    temp_dir + "/"@ + dec_spec(pid) + "_"@ + dec_spec(unix_secs)
}

/// Where an editing session stands between two host actions.
#[derive(Debug)]
pub enum EditPhase {
    /// Nothing has happened yet.
    Start,
    /// The seed content is being written into the temporary file.
    AwaitWrite,
    /// The external editor is running; the session blocks until it exits.
    AwaitExit,
    /// The temporary file is being read back.
    AwaitRead,
    /// The temporary file is being deleted; `outcome` is what the session
    /// will hand back once the deletion is reported.
    AwaitRemove { outcome: Result<String, ZkError> },
    /// The session is over; no further event is accepted.
    Done,
}

/// What the host reports back after performing an action.
#[derive(Debug)]
pub enum EditEvent {
    Begin,
    SeedWritten { written: Result<(), String> },
    EditorExited { exited: Result<(), String> },
    ReadBack { content: Result<String, String> },
    Removed { removal: Result<(), String> },
}

/// What the host must do next. `Finish` carries the session's outcome.
#[derive(Debug)]
pub enum EditAction {
    /// Create the file at `path` holding `content`.
    WriteSeed { path: String, content: String },
    /// Launch `program` with `path` as its only argument, with the standard
    /// streams inherited, and block until it exits. The exit status is not
    /// examined: any exit, successful or not, lets the session proceed.
    LaunchEditor { program: String, path: String },
    /// Read the whole file at `path` as text.
    ReadFile { path: String },
    /// Delete the file at `path`.
    RemoveTemp { path: String },
    /// The session is over with this outcome.
    Finish { result: Result<String, ZkError> },
}

/// One round-trip through an external interactive editor. The session owns
/// the temporary file for its whole duration and decides every step; the
/// host performs the filesystem and process actions it is handed. On every
/// exit path the temporary file is deleted before the session finishes.
#[derive(Debug)]
pub struct EditorSession {
    /// The program to launch.
    pub editor: String,
    /// The temporary file the session works against.
    pub temp_path: String,
    /// The content the temporary file starts with, if any.
    pub seed: Option<String>,
    /// Where the session stands.
    pub phase: EditPhase,
}

/// Which event a phase accepts.
pub open spec fn edit_event_fits(phase: EditPhase, ev: EditEvent) -> bool {
    match phase {
        EditPhase::Start => ev is Begin,
        EditPhase::AwaitWrite => ev is SeedWritten,
        EditPhase::AwaitExit => ev is EditorExited,
        EditPhase::AwaitRead => ev is ReadBack,
        EditPhase::AwaitRemove { .. } => ev is Removed,
        EditPhase::Done => false,
    }
}

/// The next phase of an editing session. The session is deterministic: this
/// function, together with `edit_next_action`, is the whole of `step`.
pub open spec fn edit_next_phase(s: EditorSession, ev: EditEvent) -> EditPhase {
    match (s.phase, ev) {
        (EditPhase::Start, EditEvent::Begin) => match s.seed {
            Some(_) => EditPhase::AwaitWrite,
            None => EditPhase::AwaitExit,
        },
        (EditPhase::AwaitWrite, EditEvent::SeedWritten { written }) => match written {
            Ok(_) => EditPhase::AwaitExit,
            Err(d) => EditPhase::AwaitRemove {
                outcome: Err(ZkError::Io { detail: d }),
            },
        },
        (EditPhase::AwaitExit, EditEvent::EditorExited { exited }) => match exited {
            Ok(_) => EditPhase::AwaitRead,
            Err(d) => EditPhase::AwaitRemove {
                outcome: Err(ZkError::Io { detail: d }),
            },
        },
        (EditPhase::AwaitRead, EditEvent::ReadBack { content }) => match content {
            Ok(text) => EditPhase::AwaitRemove { outcome: Ok(text) },
            Err(d) => EditPhase::AwaitRemove {
                outcome: Err(ZkError::Io { detail: d }),
            },
        },
        (EditPhase::AwaitRemove { .. }, EditEvent::Removed { .. }) => EditPhase::Done,
        // No phase accepts any other event.
        _ => EditPhase::Done,
    }
}

/// The action an editing session hands the host for an event. A session
/// that has read the file, or failed, always orders the temporary file
/// removed before it finishes; a removal failure after an earlier failure
/// keeps the earlier failure.
pub open spec fn edit_next_action(s: EditorSession, ev: EditEvent) -> EditAction {
    match (s.phase, ev) {
        (EditPhase::Start, EditEvent::Begin) => match s.seed {
            Some(c) => EditAction::WriteSeed { path: s.temp_path, content: c },
            None => EditAction::LaunchEditor { program: s.editor, path: s.temp_path },
        },
        (EditPhase::AwaitWrite, EditEvent::SeedWritten { written }) => match written {
            Ok(_) => EditAction::LaunchEditor { program: s.editor, path: s.temp_path },
            Err(_) => EditAction::RemoveTemp { path: s.temp_path },
        },
        (EditPhase::AwaitExit, EditEvent::EditorExited { exited }) => match exited {
            Ok(_) => EditAction::ReadFile { path: s.temp_path },
            Err(_) => EditAction::RemoveTemp { path: s.temp_path },
        },
        (EditPhase::AwaitRead, EditEvent::ReadBack { .. }) => EditAction::RemoveTemp {
            path: s.temp_path,
        },
        (EditPhase::AwaitRemove { outcome }, EditEvent::Removed { removal }) => match removal {
            Ok(_) => EditAction::Finish { result: outcome },
            Err(d) => match outcome {
                Ok(_) => EditAction::Finish { result: Err(ZkError::Io { detail: d }) },
                Err(e) => EditAction::Finish { result: Err(e) },
            },
        },
        // No phase accepts any other event.
        _ => EditAction::Finish { result: Err(ZkError::NotFound) },
    }
}

/// The session after an event: only the phase moves.
pub open spec fn edit_advance(s: EditorSession, ev: EditEvent) -> EditorSession {
    EditorSession { phase: edit_next_phase(s, ev), ..s }
}

impl EditorSession {
    /// Opens an editing session: the editor is the caller's preference or
    /// the fixed fallback, and the temporary file name is derived from the
    /// host's temporary directory, the process id and the current time.
    pub fn new(
        editor_pref: Option<String>,
        temp_dir: &str,
        pid: u64,
        unix_secs: u64,
        seed: Option<String>,
    ) -> (s: Self)
        ensures
            s.editor@ == editor_command_spec(editor_pref),
            s.temp_path@ == temp_path_spec(temp_dir@, pid as nat, unix_secs as nat),
            s.seed == seed,
            s.phase is Start,
    {
        let editor = match editor_pref {
            Some(p) => p,
            None => String::from_str("vi"),
        };
        let mut temp_path = String::from_str(temp_dir);
        temp_path.append("/");
        crate::text::append_decimal(&mut temp_path, pid);
        temp_path.append("_");
        crate::text::append_decimal(&mut temp_path, unix_secs);
        proof {
            assert(temp_path@ =~= temp_path_spec(temp_dir@, pid as nat, unix_secs as nat));
        }
        EditorSession { editor, temp_path, seed, phase: EditPhase::Start }
    }

    /// Advances the session by one host event and says what the host must
    /// do next. Everything but the phase stays as it was.
    pub fn step(&mut self, ev: EditEvent) -> (act: EditAction)
        requires
            edit_event_fits(old(self).phase, ev),
        ensures
            *final(self) == edit_advance(*old(self), ev),
            act == edit_next_action(*old(self), ev),
    {
        let mut ph = EditPhase::Done;
        core::mem::swap(&mut ph, &mut self.phase);
        match (ph, ev) {
            (EditPhase::Start, EditEvent::Begin) => match &self.seed {
                Some(c) => {
                    let content = c.clone();
                    self.phase = EditPhase::AwaitWrite;
                    EditAction::WriteSeed { path: self.temp_path.clone(), content }
                },
                None => {
                    self.phase = EditPhase::AwaitExit;
                    EditAction::LaunchEditor {
                        program: self.editor.clone(),
                        path: self.temp_path.clone(),
                    }
                },
            },
            (EditPhase::AwaitWrite, EditEvent::SeedWritten { written }) => match written {
                Ok(_) => {
                    self.phase = EditPhase::AwaitExit;
                    EditAction::LaunchEditor {
                        program: self.editor.clone(),
                        path: self.temp_path.clone(),
                    }
                },
                Err(d) => {
                    self.phase = EditPhase::AwaitRemove {
                        outcome: Err(ZkError::Io { detail: d }),
                    };
                    EditAction::RemoveTemp { path: self.temp_path.clone() }
                },
            },
            (EditPhase::AwaitExit, EditEvent::EditorExited { exited }) => match exited {
                Ok(_) => {
                    self.phase = EditPhase::AwaitRead;
                    EditAction::ReadFile { path: self.temp_path.clone() }
                },
                Err(d) => {
                    self.phase = EditPhase::AwaitRemove {
                        outcome: Err(ZkError::Io { detail: d }),
                    };
                    EditAction::RemoveTemp { path: self.temp_path.clone() }
                },
            },
            (EditPhase::AwaitRead, EditEvent::ReadBack { content }) => match content {
                Ok(text) => {
                    self.phase = EditPhase::AwaitRemove { outcome: Ok(text) };
                    EditAction::RemoveTemp { path: self.temp_path.clone() }
                },
                Err(d) => {
                    self.phase = EditPhase::AwaitRemove {
                        outcome: Err(ZkError::Io { detail: d }),
                    };
                    EditAction::RemoveTemp { path: self.temp_path.clone() }
                },
            },
            (EditPhase::AwaitRemove { outcome }, EditEvent::Removed { removal }) => {
                match removal {
                    Ok(_) => EditAction::Finish { result: outcome },
                    Err(d) => match outcome {
                        Ok(_) => EditAction::Finish { result: Err(ZkError::Io { detail: d }) },
                        Err(e) => EditAction::Finish { result: Err(e) },
                    },
                }
            },
            _ => {
                proof {
                    assert(false);
                }
                EditAction::Finish { result: Err(ZkError::NotFound) }
            },
        }
    }
}

/// Law: a session hands back `Finish` only from the removal phase — no
/// exit path, successful or failed, skips deleting the temporary file.
pub proof fn lemma_edit_finish_only_after_remove(s: EditorSession, ev: EditEvent)
    requires
        edit_event_fits(s.phase, ev),
        edit_next_action(s, ev) is Finish,
    ensures
        s.phase is AwaitRemove,
{
}

/// Law: every path into the removal phase hands the host the removal of
/// the session's own temporary file.
pub proof fn lemma_edit_remove_issued(s: EditorSession, ev: EditEvent)
    requires
        edit_event_fits(s.phase, ev),
        edit_next_phase(s, ev) is AwaitRemove,
    ensures
        (edit_next_action(s, ev) matches EditAction::RemoveTemp { path } && path == s.temp_path),
{
}

/// One recorded step of an editing session: the event fits the phase, the
/// session moves as `edit_advance` says, and the action is the one
/// `edit_next_action` says.
pub open spec fn edit_step_ok(
    pre: EditorSession,
    ev: EditEvent,
    post: EditorSession,
    act: EditAction,
) -> bool {
    &&& edit_event_fits(pre.phase, ev)
    &&& post == edit_advance(pre, ev)
    &&& act == edit_next_action(pre, ev)
}

/// One editing session run, recorded as the states it passed through, the
/// events the host reported, and the actions it was handed, in turn.
pub open spec fn edit_run(
    states: Seq<EditorSession>,
    events: Seq<EditEvent>,
    actions: Seq<EditAction>,
) -> bool {
    &&& states.len() == events.len() + 1
    &&& actions.len() == events.len()
    &&& (forall|i: int|
        0 <= i < events.len() ==> #[trigger] edit_step_ok(
            states[i],
            events[i],
            states[i + 1],
            actions[i],
        ))
}

/// Within a run, the temporary file path never changes.
pub proof fn lemma_edit_temp_path_stable(
    states: Seq<EditorSession>,
    events: Seq<EditEvent>,
    actions: Seq<EditAction>,
    i: int,
)
    requires
        edit_run(states, events, actions),
        0 <= i < states.len(),
    ensures
        states[i].temp_path == states[0].temp_path,
    decreases i,
{
    if i > 0 {
        lemma_edit_temp_path_stable(states, events, actions, i - 1);
        let j = i - 1;
        assert(edit_step_ok(states[j], events[j], states[j + 1], actions[j]));
    }
}

/// Law (the temporary file does not outlive the session): in a run from
/// the start, an action that finishes the session comes immediately after
/// the removal of the session's temporary file, whatever the outcome was.
pub proof fn lemma_edit_cleanup_before_finish(
    states: Seq<EditorSession>,
    events: Seq<EditEvent>,
    actions: Seq<EditAction>,
    k: int,
)
    requires
        edit_run(states, events, actions),
        states[0].phase is Start,
        0 <= k < actions.len(),
        actions[k] is Finish,
    ensures
        1 <= k,
        (actions[k - 1] matches EditAction::RemoveTemp { path } && path == states[0].temp_path),
{
    assert(edit_step_ok(states[k], events[k], states[k + 1], actions[k]));
    lemma_edit_finish_only_after_remove(states[k], events[k]);
    assert(k >= 1);
    let j = k - 1;
    assert(edit_step_ok(states[j], events[j], states[j + 1], actions[j]));
    lemma_edit_remove_issued(states[j], events[j]);
    lemma_edit_temp_path_stable(states, events, actions, k - 1);
}

/// Law (editor round-trip): whatever text is read back from the temporary
/// file after the editor exited — for a fake editor that appends a suffix
/// to the seed, the seed with that suffix — is exactly what the session
/// finishes with once the removal succeeds.
pub proof fn lemma_edit_round_trip(s: EditorSession, text: String)
    requires
        s.phase is AwaitRead,
    ensures
        ({
            let read = EditEvent::ReadBack { content: Ok(text) };
            let after = edit_advance(s, read);
            edit_next_action(after, EditEvent::Removed { removal: Ok(()) }) == (EditAction::Finish {
                result: Ok(text),
            })
        }),
{
}

} // verus!
