//! The active project slot and the decisions of the project lifecycle.
//!
//! The slot holds at most one open per-project store together with the id of
//! its project. It is replaced as a whole on every load and unload, so an id
//! is never seen without its handle, nor a handle without its id. The handle
//! type is left open: the slot only moves handles in and drops them.

use vstd::prelude::*;
use crate::paths::{is_bare_name, project_dir, project_dir_of, PathError};

verus! {

/// Failure of an operation on a persistent store.
#[derive(Debug, Clone, Copy, PartialEq, Eq, Structural)]
pub enum StoreError {
    /// The file or its directory could not be used.
    IoFailure,
    /// The store refused a change.
    WriteFailure,
    /// The store stayed locked past the bounded wait.
    LockTimeout,
    /// The requested project or store does not exist or cannot be opened.
    NotFound,
}

/// The soft outcome of a read-through access while no project is loaded.
#[derive(Debug, Clone, Copy, PartialEq, Eq, Structural)]
pub enum NoActiveProject {
    NothingLoaded,
}

/// One step that deleting a project leaves to the caller, in the order given.
#[derive(Debug, Clone, PartialEq, Eq)]
pub enum DeleteStep {
    /// Forget the last-project pointer of the config store.
    ClearLastProject,
    /// Remove the project's row, by id, from the registry.
    DeleteRegistryRow(String),
    /// Remove the given store directory and everything under it.
    RemoveStoreDir(String),
}

/// What a `DeleteStep` asks for, over sequences of characters.
pub enum DeleteAction {
    ClearLastProject,
    DeleteRegistryRow(Seq<char>),
    RemoveStoreDir(Seq<char>),
}

impl View for DeleteStep {
    type V = DeleteAction;

    open spec fn view(&self) -> DeleteAction {
        match self {
            DeleteStep::ClearLastProject => DeleteAction::ClearLastProject,
            DeleteStep::DeleteRegistryRow(id) => DeleteAction::DeleteRegistryRow(id@),
            DeleteStep::RemoveStoreDir(dir) => DeleteAction::RemoveStoreDir(dir@),
        }
    }
}

/// The actions of a list of delete steps.
pub open spec fn actions(steps: Seq<DeleteStep>) -> Seq<DeleteAction> {
    steps.map_values(|s: DeleteStep| s@)
}

/// The steps that deleting project `id` takes once the slot is settled:
/// forget the pointer if `id` was active, then drop the registry row, then
/// remove the store.
pub open spec fn delete_actions(id: Seq<char>, was_active: bool) -> Seq<DeleteAction> {
    let rest = seq![
        DeleteAction::DeleteRegistryRow(id),
        DeleteAction::RemoveStoreDir(project_dir_of(id)),
    ];
    if was_active {
        seq![DeleteAction::ClearLastProject] + rest
    } else {
        rest
    }
}

struct Loaded<H> {
    id: String,
    handle: H,
}

/// The slot for the one project store that is live at a time.
pub struct ActiveSlot<H> {
    current: Option<Loaded<H>>,
}

impl<H> ActiveSlot<H> {
    #[verifier::type_invariant]
    spec fn held_id_is_bare(self) -> bool {
        self.current matches Some(l) ==> is_bare_name(l.id@)
    }

    /// Id of the loaded project, if any.
    pub closed spec fn id(self) -> Option<Seq<char>> {
        match self.current {
            Some(l) => Some(l.id@),
            None => None,
        }
    }

    /// Handle of the loaded project's store, if any.
    pub closed spec fn handle(self) -> Option<H> {
        match self.current {
            Some(l) => Some(l.handle),
            None => None,
        }
    }

    /// An empty slot, as at process start.
    pub fn new() -> (r: Self)
        ensures
            r.id() is None,
            r.handle() is None,
    {
        ActiveSlot { current: None }
    }

    /// Makes `handle` the live store of project `id`. The store that was live
    /// before, if any, is dropped here and so closed.
    pub fn load(&mut self, id: String, handle: H)
        requires
            is_bare_name(id@),
        ensures
            final(self).id() == Some(id@),
            final(self).handle() == Some(handle),
    {
        self.current = Some(Loaded { id, handle });
    }

    /// Finishes a create or a load of project `id`, given the outcome of
    /// opening its store: the slot takes the store if it opened, and stays as
    /// it was if not, which is reported as `NotFound`.
    pub fn complete_load(&mut self, id: String, opened: Result<H, StoreError>) -> (r: Result<
        (),
        StoreError,
    >)
        requires
            is_bare_name(id@),
        ensures
            r is Ok <==> opened is Ok,
            opened matches Ok(h) ==> final(self).id() == Some(id@) && final(self).handle() == Some(
                h,
            ),
            opened is Err ==> r == Err::<(), StoreError>(StoreError::NotFound) && *final(self)
                == *old(self),
    {
        match opened {
            Ok(h) => {
                self.load(id, h);
                Ok(())
            },
            Err(_) => Err(StoreError::NotFound),
        }
    }

    /// Empties the slot, dropping the live store.
    pub fn unload(&mut self)
        ensures
            final(self).id() is None,
            final(self).handle() is None,
    {
        self.current = None;
    }

    /// The live store, for a read-through access, or `NoActiveProject`.
    pub fn current(&self) -> (r: Result<&H, NoActiveProject>)
        ensures
            r is Err <==> self.handle() is None,
            r matches Ok(h) ==> self.handle() == Some(*h),
    {
        match &self.current {
            Some(l) => Ok(&l.handle),
            None => Err(NoActiveProject::NothingLoaded),
        }
    }

    /// Id of the loaded project, if any.
    pub fn active_id(&self) -> (r: Option<String>)
        ensures
            r is None <==> self.id() is None,
            r matches Some(s) ==> self.id() == Some(s@),
    {
        match &self.current {
            Some(l) => Some(l.id.clone()),
            None => None,
        }
    }

    /// Whether project `id` is the loaded one.
    pub fn is_active(&self, id: &String) -> (r: bool)
        ensures
            r == (self.id() == Some(id@)),
    {
        match &self.current {
            Some(l) => l.id == *id,
            None => false,
        }
    }

    /// Starts deleting project `id`. If it is the loaded project, the slot is
    /// emptied here, which closes its store, before any step is handed back;
    /// otherwise the slot is left as it was. The steps that remain come back
    /// in the order they must run. Deleting an id that is unknown is no
    /// error. An id that is not a bare name is refused and nothing changes.
    pub fn begin_delete(&mut self, id: &String) -> (r: Result<Vec<DeleteStep>, PathError>)
        ensures
            r is Ok <==> is_bare_name(id@),
            r is Err ==> *final(self) == *old(self),
            r matches Ok(steps) ==> {
                let was_active = old(self).id() == Some(id@);
                &&& actions(steps@) == delete_actions(id@, was_active)
                &&& was_active ==> final(self).id() is None && final(self).handle() is None
                &&& !was_active ==> *final(self) == *old(self)
            },
    {
        let dir = match project_dir(id.as_str()) {
            Ok(d) => d,
            Err(e) => {
                return Err(e);
            },
        };
        let was_active = self.is_active(id);
        let mut steps: Vec<DeleteStep> = Vec::new();
        if was_active {
            self.unload();
            steps.push(DeleteStep::ClearLastProject);
        }
        steps.push(DeleteStep::DeleteRegistryRow(id.clone()));
        steps.push(DeleteStep::RemoveStoreDir(dir));
        assert(actions(steps@) =~= delete_actions(id@, was_active));
        Ok(steps)
    }
}

/// At every moment the slot holds a project id exactly when it holds a store
/// handle, whatever sequence of creates, loads and deletes led to it.
pub proof fn lemma_id_iff_handle<H>(s: ActiveSlot<H>)
    ensures
        s.id() is Some <==> s.handle() is Some,
{
}

/// An emptied slot has no store for a read-through access to reach, so the
/// access reports `NoActiveProject`.
pub proof fn lemma_empty_slot_has_no_handle<H>(s: ActiveSlot<H>)
    requires
        s.id() is None,
    ensures
        s.handle() is None,
{
}

} // verus!
