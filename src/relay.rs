use vstd::prelude::*;
use crate::export::ExportError;
use crate::handle_kind::{MemoryHandleKind, SemaphoreHandleKind};

verus! {

/// One process of a process snapshot.
#[derive(Clone, Copy, Debug, PartialEq, Eq, Structural)]
pub struct ProcessEntry {
    pub process_id: u32,
    pub parent_process_id: u32,
}

/// The first entry of the snapshot for `process_id` is at `i`.
pub open spec fn first_entry_at(entries: Seq<ProcessEntry>, process_id: u32, i: int) -> bool {
    &&& 0 <= i < entries.len()
    &&& entries[i].process_id == process_id
    &&& forall|j: int| 0 <= j < i ==> entries[j].process_id != process_id
}

/// The parent of `current_process_id` as the snapshot records it: the
/// parent of the first entry for that process, or `None` where the snapshot
/// has no such entry.
pub fn find_parent_process_id(entries: &Vec<ProcessEntry>, current_process_id: u32) -> (r: Option<u32>)
    ensures
        r matches Some(p) ==> exists|i: int|
            first_entry_at(entries@, current_process_id, i) && entries[i].parent_process_id == p,
        r is None ==> forall|i: int|
            0 <= i < entries.len() ==> (#[trigger] entries[i]).process_id != current_process_id,
{
    let mut i: usize = 0;
    while i < entries.len()
        invariant
            i <= entries.len(),
            forall|j: int| 0 <= j < i ==> (#[trigger] entries[j]).process_id != current_process_id,
        decreases entries.len() - i,
    {
        if entries[i].process_id == current_process_id {
            assert(first_entry_at(entries@, current_process_id, i as int));
            return Some(entries[i].parent_process_id);
        }
        i = i + 1;
    }
    None
}

/// What the operating system answered to the relay's last request.
#[derive(Clone, Copy, Debug, PartialEq, Eq, Structural)]
pub enum RelayEvent {
    /// The parent process id found in a process snapshot, if any.
    ParentFound { parent: Option<u32> },
    /// Whether the parent process could be opened.
    ParentOpened { ok: bool },
    /// The handle duplicated into the parent process, if duplication succeeded.
    Duplicated { handle: Option<usize> },
    /// The handle of the parent process was closed.
    ParentClosed,
}

/// What the relay asks of the operating system next.
#[derive(Clone, Copy, Debug, PartialEq, Eq)]
pub enum RelayAction {
    /// Take a process snapshot and look up this process's parent.
    FindParent,
    /// Open the parent process with full access.
    OpenParent { process_id: u32 },
    /// Duplicate the local handle into the open parent process, with the same access.
    Duplicate,
    /// Close the handle of the parent process.
    CloseParent,
    /// The relay is over.
    Finish { result: Result<usize, ExportError> },
}

/// How far the relay of one handle has come.
#[derive(Clone, Copy, Debug, PartialEq, Eq)]
pub enum RelayState {
    AwaitParent,
    AwaitOpen { process_id: u32 },
    AwaitDuplicate,
    AwaitClose { duplicated: Option<usize> },
    Finished { result: Result<usize, ExportError> },
}

/// The relay of a handle into the parent process's handle table. The caller
/// performs each action that `pending` names and hands the answer to
/// `advance`.
#[derive(Clone, Copy, Debug, PartialEq, Eq)]
pub struct HandleRelay {
    pub state: RelayState,
    /// Whether this relay holds an open handle of the parent process.
    pub parent_open: bool,
}

/// The relay state before any step: the parent is yet to be found.
pub open spec fn relay_start() -> HandleRelay {
    HandleRelay { state: RelayState::AwaitParent, parent_open: false }
}

/// The relay after the answer `e`. An answer that the state does not wait
/// for changes nothing.
pub open spec fn relay_next(r: HandleRelay, e: RelayEvent) -> HandleRelay {
    match (r.state, e) {
        (RelayState::AwaitParent, RelayEvent::ParentFound { parent }) => match parent {
            Some(process_id) => HandleRelay { state: RelayState::AwaitOpen { process_id }, ..r },
            None => HandleRelay {
                state: RelayState::Finished { result: Err(ExportError::ParentProcessNotFound) },
                ..r
            },
        },
        (RelayState::AwaitOpen { .. }, RelayEvent::ParentOpened { ok }) =>
            if ok {
                HandleRelay { state: RelayState::AwaitDuplicate, parent_open: true }
            } else {
                HandleRelay {
                    state: RelayState::Finished { result: Err(ExportError::DuplicateHandleFailed) },
                    ..r
                }
            },
        (RelayState::AwaitDuplicate, RelayEvent::Duplicated { handle }) =>
            HandleRelay { state: RelayState::AwaitClose { duplicated: handle }, ..r },
        (RelayState::AwaitClose { duplicated }, RelayEvent::ParentClosed) => HandleRelay {
            state: RelayState::Finished {
                result: match duplicated {
                    Some(h) => Ok(h),
                    None => Err(ExportError::DuplicateHandleFailed),
                },
            },
            parent_open: false,
        },
        _ => r,
    }
}

/// The relay after the answers `events`, one after another.
pub open spec fn relay_run(r: HandleRelay, events: Seq<RelayEvent>) -> HandleRelay
    decreases events.len(),
{
    if events.len() == 0 {
        r
    } else {
        relay_run(relay_next(r, events[0]), events.drop_first())
    }
}

impl HandleRelay {
    /// The parent process is open exactly while the relay waits to duplicate
    /// into it or to close it.
    pub open spec fn wf(&self) -> bool {
        self.parent_open <==> (self.state is AwaitDuplicate || self.state is AwaitClose)
    }

    /// Starts the relay of a memory handle exported under `kind`. Only the
    /// owning opaque Win32 kind can be relayed.
    pub fn for_memory(kind: MemoryHandleKind) -> (r: HandleRelay)
        requires
            kind == MemoryHandleKind::OpaqueWin32,
        ensures
            r == relay_start(),
            r.wf(),
    {
        HandleRelay { state: RelayState::AwaitParent, parent_open: false }
    }

    /// Starts the relay of a semaphore handle exported under `kind`. Only the
    /// owning opaque Win32 kind can be relayed.
    pub fn for_semaphore(kind: SemaphoreHandleKind) -> (r: HandleRelay)
        requires
            kind == SemaphoreHandleKind::OpaqueWin32,
        ensures
            r == relay_start(),
            r.wf(),
    {
        HandleRelay { state: RelayState::AwaitParent, parent_open: false }
    }

    /// What the relay waits for: an action of the operating system, or the end.
    pub open spec fn spec_pending(&self) -> RelayAction {
        match self.state {
            RelayState::AwaitParent => RelayAction::FindParent,
            RelayState::AwaitOpen { process_id } => RelayAction::OpenParent { process_id },
            RelayState::AwaitDuplicate => RelayAction::Duplicate,
            RelayState::AwaitClose { .. } => RelayAction::CloseParent,
            RelayState::Finished { result } => RelayAction::Finish { result },
        }
    }

    #[verifier::when_used_as_spec(spec_pending)]
    pub fn pending(&self) -> (r: RelayAction)
        ensures
            r == self.spec_pending(),
    {
        match self.state {
            RelayState::AwaitParent => RelayAction::FindParent,
            RelayState::AwaitOpen { process_id } => RelayAction::OpenParent { process_id },
            RelayState::AwaitDuplicate => RelayAction::Duplicate,
            RelayState::AwaitClose { .. } => RelayAction::CloseParent,
            RelayState::Finished { result } => RelayAction::Finish { result },
        }
    }

    /// Takes the answer to the pending action.
    pub fn advance(&mut self, event: RelayEvent)
        ensures
            *final(self) == relay_next(*old(self), event),
            old(self).wf() ==> final(self).wf(),
    {
        let next = match (self.state, event) {
            (RelayState::AwaitParent, RelayEvent::ParentFound { parent }) => match parent {
                Some(process_id) => HandleRelay { state: RelayState::AwaitOpen { process_id }, ..*self },
                None => HandleRelay {
                    state: RelayState::Finished { result: Err(ExportError::ParentProcessNotFound) },
                    ..*self
                },
            },
            (RelayState::AwaitOpen { .. }, RelayEvent::ParentOpened { ok }) =>
                if ok {
                    HandleRelay { state: RelayState::AwaitDuplicate, parent_open: true }
                } else {
                    HandleRelay {
                        state: RelayState::Finished { result: Err(ExportError::DuplicateHandleFailed) },
                        ..*self
                    }
                },
            (RelayState::AwaitDuplicate, RelayEvent::Duplicated { handle }) =>
                HandleRelay { state: RelayState::AwaitClose { duplicated: handle }, ..*self },
            (RelayState::AwaitClose { duplicated }, RelayEvent::ParentClosed) => HandleRelay {
                state: RelayState::Finished {
                    result: match duplicated {
                        Some(h) => Ok(h),
                        None => Err(ExportError::DuplicateHandleFailed),
                    },
                },
                parent_open: false,
            },
            _ => *self,
        };
        *self = next;
    }
}

proof fn lemma_relay_run_keeps_wf(r: HandleRelay, events: Seq<RelayEvent>)
    requires
        r.wf(),
    ensures
        relay_run(r, events).wf(),
    decreases events.len(),
{
    if events.len() > 0 {
        lemma_relay_run_keeps_wf(relay_next(r, events[0]), events.drop_first());
    }
}

/// A relay never ends holding the parent process open: whatever the
/// operating system answers, once the relay has finished, the handle of the
/// parent process that it opened has been closed.
pub proof fn lemma_relay_finishes_closed(events: Seq<RelayEvent>)
    ensures
        relay_run(relay_start(), events).state is Finished ==> !relay_run(relay_start(), events).parent_open,
{
    lemma_relay_run_keeps_wf(relay_start(), events);
}

/// A parent process that cannot be opened ends the relay with
/// `DuplicateHandleFailed`, holding no handle of the parent.
pub proof fn lemma_unopenable_parent_fails_duplicate(parent: u32)
    ensures
        ({
            let r = relay_run(
                relay_start(),
                seq![RelayEvent::ParentFound { parent: Some(parent) }, RelayEvent::ParentOpened { ok: false }],
            );
            &&& r.state == (RelayState::Finished { result: Err(ExportError::DuplicateHandleFailed) })
            &&& !r.parent_open
        }),
{
    let events = seq![RelayEvent::ParentFound { parent: Some(parent) }, RelayEvent::ParentOpened { ok: false }];
    assert(events.drop_first().drop_first() =~= Seq::<RelayEvent>::empty());
    reveal_with_fuel(relay_run, 3);
}

} // verus!
