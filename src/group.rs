use vstd::prelude::*;

verus! {

/// The consensus group an operation targets.
#[derive(Clone, Copy, Debug, PartialEq, Eq, Structural)]
pub enum RaftType {
    /// The durable, schema-bearing replicated store.
    Sqlite,
    /// The volatile replicated cache.
    Cache,
    /// Neither group was selected: a deployment mistake.
    Unknown,
}

/// Why a group could not be resolved to its handle.
#[derive(Clone, Copy, Debug, PartialEq, Eq, Structural)]
pub enum DispatchError {
    /// `RaftType::Unknown` was selected.
    Unset,
    /// The selected group has no handle in this process.
    NotConfigured,
    /// Neither group has a handle.
    NoGroup,
}

/// Process-wide state: this node's id, the integrity flag, and the handle of
/// each configured group. `H` is whatever the runtime keeps per group (the
/// consensus handle together with its membership lock).
pub struct AppState<H> {
    pub id: u64,
    /// Abort on a contradictory vote record even in release builds.
    pub strict_integrity: bool,
    pub raft_db: Option<H>,
    pub raft_cache: Option<H>,
}

/// The handle that `raft_type` names in `state`, if there is one.
pub open spec fn handle_of<H>(state: &AppState<H>, raft_type: RaftType) -> Option<H> {
    match raft_type {
        RaftType::Sqlite => state.raft_db,
        RaftType::Cache => state.raft_cache,
        RaftType::Unknown => None,
    }
}

/// The error that selecting `raft_type` in `state` gives, if any.
pub open spec fn dispatch_error<H>(state: &AppState<H>, raft_type: RaftType) -> Option<DispatchError> {
    match raft_type {
        RaftType::Unknown => Some(DispatchError::Unset),
        _ => if handle_of(state, raft_type) is None {
            Some(DispatchError::NotConfigured)
        } else {
            None
        },
    }
}

impl<H> AppState<H> {
    /// Builds the shared state once at startup; refuses a process in which
    /// no group is configured.
    pub fn new(id: u64, strict_integrity: bool, raft_db: Option<H>, raft_cache: Option<H>) -> (r:
        Result<Self, DispatchError>)
        ensures
            (raft_db is None && raft_cache is None) <==> r == Err::<Self, DispatchError>(
                DispatchError::NoGroup,
            ),
            r is Ok ==> ({
                let s = r->Ok_0;
                s.id == id && s.strict_integrity == strict_integrity && s.raft_db == raft_db
                    && s.raft_cache == raft_cache
            }),
    {
        if raft_db.is_none() && raft_cache.is_none() {
            Err(DispatchError::NoGroup)
        } else {
            Ok(AppState { id, strict_integrity, raft_db, raft_cache })
        }
    }

    /// The group that a caller gets when it does not choose one: the durable
    /// store where it is configured, else the cache.
    pub fn default_raft_type(&self) -> (r: RaftType)
        ensures
            self.raft_db is Some ==> r == RaftType::Sqlite,
            self.raft_db is None && self.raft_cache is Some ==> r == RaftType::Cache,
            self.raft_db is None && self.raft_cache is None ==> r == RaftType::Unknown,
    {
        if self.raft_db.is_some() {
            RaftType::Sqlite
        } else if self.raft_cache.is_some() {
            RaftType::Cache
        } else {
            RaftType::Unknown
        }
    }
}

/// Resolves `raft_type` to the handle of that group. `Unknown`, or a group
/// without a handle, is an error, and the other group is never used instead.
pub fn select<'a, H>(state: &'a AppState<H>, raft_type: &RaftType) -> (r: Result<&'a H, DispatchError>)
    ensures
        r is Ok <==> dispatch_error(state, *raft_type) is None,
        r is Ok ==> handle_of(state, *raft_type) == Some(*r->Ok_0),
        r is Err ==> dispatch_error(state, *raft_type) == Some(r->Err_0),
{
    match raft_type {
        RaftType::Sqlite => match &state.raft_db {
            Some(h) => Ok(h),
            None => Err(DispatchError::NotConfigured),
        },
        RaftType::Cache => match &state.raft_cache {
            Some(h) => Ok(h),
            None => Err(DispatchError::NotConfigured),
        },
        RaftType::Unknown => Err(DispatchError::Unset),
    }
}

} // verus!
