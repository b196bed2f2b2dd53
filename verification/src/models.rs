//! Runtime records exchanged with the runtime service, and the requests
//! that create and update them.
use vstd::prelude::*;

use crate::text::opt_text;

verus! {

/// The lifecycle state of a runtime.
#[derive(Debug, Clone, Copy, PartialEq, Eq, Structural)]
pub enum RuntimeStatus {
    Idle,
    Running,
    Hibernated,
    Failed,
}

/// The lowercase name of a status, as the service and the table write it.
pub open spec fn status_text(status: RuntimeStatus) -> Seq<char> {
    match status {
        RuntimeStatus::Idle => "idle"@,
        RuntimeStatus::Running => "running"@,
        RuntimeStatus::Hibernated => "hibernated"@,
        RuntimeStatus::Failed => "failed"@,
    }
}

impl RuntimeStatus {
    /// The lowercase name of the status.
    pub fn text(&self) -> (s: String)
        ensures
            s@ == status_text(*self),
    {
        match self {
            RuntimeStatus::Idle => "idle".to_owned(),
            RuntimeStatus::Running => "running".to_owned(),
            RuntimeStatus::Hibernated => "hibernated".to_owned(),
            RuntimeStatus::Failed => "failed".to_owned(),
        }
    }
}

/// The interpreter environment of a runtime.
#[derive(Debug, Clone, PartialEq, Eq)]
pub struct EnvironmentSpec {
    pub kind: String,
    pub executable: String,
    pub digest: Option<String>,
}

impl Default for EnvironmentSpec {
    /// A Python 3 environment without a digest.
    fn default() -> (e: Self)
        ensures
            e.kind@ == "python"@,
            e.executable@ == "python3"@,
            e.digest is None,
    {
        EnvironmentSpec { kind: "python".to_owned(), executable: "python3".to_owned(), digest: None }
    }
}

/// How often a runtime is snapshotted, and how.
#[derive(Debug, Clone, PartialEq, Eq)]
pub struct SnapshotPolicy {
    pub interval_executions: u32,
    pub mode: String,
}

impl Default for SnapshotPolicy {
    /// A logical snapshot every 25 executions.
    fn default() -> (p: Self)
        ensures
            p.interval_executions == 25,
            p.mode@ == "logical"@,
    {
        SnapshotPolicy { interval_executions: 25, mode: "logical".to_owned() }
    }
}

/// A request to create a runtime.
#[derive(Debug, Clone, PartialEq, Eq)]
pub struct RuntimeCreate {
    pub name: String,
    pub language: String,
    pub environment: EnvironmentSpec,
    pub snapshot_policy: SnapshotPolicy,
}

impl RuntimeCreate {
    /// A request for a Python runtime with the default environment and
    /// snapshot policy.
    pub fn new(name: &str) -> (r: Self)
        ensures
            r.name@ == name@,
            r.language@ == "python"@,
            r.environment.kind@ == "python"@,
            r.environment.executable@ == "python3"@,
            r.environment.digest is None,
            r.snapshot_policy.interval_executions == 25,
            r.snapshot_policy.mode@ == "logical"@,
    {
        RuntimeCreate {
            name: name.to_owned(),
            language: "python".to_owned(),
            environment: EnvironmentSpec::default(),
            snapshot_policy: SnapshotPolicy::default(),
        }
    }
}

/// A partial update of a runtime: only the fields that are present change.
#[derive(Debug, Clone, PartialEq, Eq)]
pub struct RuntimeUpdate {
    pub name: Option<String>,
    pub language: Option<String>,
    pub environment: Option<EnvironmentSpec>,
    pub snapshot_policy: Option<SnapshotPolicy>,
    pub status: Option<RuntimeStatus>,
}

/// Whether an update changes nothing.
pub open spec fn update_is_empty(u: RuntimeUpdate) -> bool {
    &&& u.name is None
    &&& u.language is None
    &&& u.environment is None
    &&& u.snapshot_policy is None
    &&& u.status is None
}

impl Default for RuntimeUpdate {
    /// An update that changes nothing.
    fn default() -> (u: Self)
        ensures
            update_is_empty(u),
    {
        RuntimeUpdate {
            name: None,
            language: None,
            environment: None,
            snapshot_policy: None,
            status: None,
        }
    }
}

impl RuntimeUpdate {
    /// Whether the update changes nothing.
    pub fn is_empty(&self) -> (r: bool)
        ensures
            r == update_is_empty(*self),
    {
        self.name.is_none() && self.language.is_none() && self.environment.is_none()
            && self.snapshot_policy.is_none() && self.status.is_none()
    }
}

/// A runtime as the service reports it.
#[derive(Debug, Clone, PartialEq, Eq)]
pub struct Runtime {
    pub id: String,
    pub name: String,
    pub language: String,
    pub environment: EnvironmentSpec,
    pub snapshot_policy: SnapshotPolicy,
    pub status: RuntimeStatus,
    pub worker_generation: u64,
    pub revision: u64,
    pub created_at: String,
    pub updated_at: String,
}

/// One page of runtimes.
#[derive(Debug, Clone, PartialEq, Eq)]
pub struct RuntimeList {
    pub items: Vec<Runtime>,
    pub total: u64,
    pub limit: u32,
    pub offset: u64,
}


/// The fields of a `runtime update` command; each is changed only when
/// given.
#[derive(Debug, Clone)]
pub struct UpdateFields {
    pub name: Option<String>,
    pub language: Option<String>,
    pub status: Option<RuntimeStatus>,
    pub environment_kind: Option<String>,
    pub executable: Option<String>,
    pub environment_digest: Option<String>,
    pub snapshot_interval: Option<u32>,
    pub snapshot_mode: Option<String>,
}

/// Whether the update changes the environment.
pub open spec fn touches_environment(f: UpdateFields) -> bool {
    f.environment_kind is Some || f.executable is Some || f.environment_digest is Some
}

/// Whether the update changes the snapshot policy.
pub open spec fn touches_snapshot(f: UpdateFields) -> bool {
    f.snapshot_interval is Some || f.snapshot_mode is Some
}

/// `given` when present, else `current`.
pub open spec fn or_current(given: Option<String>, current: Seq<char>) -> Seq<char> {
    match given {
        Some(g) => g@,
        None => current,
    }
}

fn clone_text(s: &String) -> (r: String)
    ensures
        r@ == s@,
{
    s.clone()
}

fn clone_opt_text(s: &Option<String>) -> (r: Option<String>)
    ensures
        opt_text(r) == opt_text(*s),
{
    match s {
        Some(t) => Some(t.clone()),
        None => None,
    }
}

impl UpdateFields {
    /// Whether the runtime must be fetched first: the environment and the
    /// snapshot policy are sent whole, so changing part of one needs the
    /// rest of it.
    pub fn needs_current(&self) -> (r: bool)
        ensures
            r == (touches_environment(*self) || touches_snapshot(*self)),
    {
        self.environment_kind.is_some() || self.executable.is_some()
            || self.environment_digest.is_some() || self.snapshot_interval.is_some()
            || self.snapshot_mode.is_some()
    }

    /// The update request: the given name, language and status, and, when
    /// the current runtime is known, its environment and snapshot policy
    /// with the given parts changed (only if some part is given). An update
    /// that changes nothing is refused.
    pub fn into_update(self, current: Option<&Runtime>) -> (r: Result<RuntimeUpdate, String>)
        ensures
            match r {
                Ok(u) => {
                    &&& !update_is_empty(u)
                    &&& opt_text(u.name) == opt_text(self.name)
                    &&& opt_text(u.language) == opt_text(self.language)
                    &&& u.status == self.status
                    &&& (u.environment is Some <==> (current is Some && touches_environment(
                        self,
                    )))
                    &&& (u.environment matches Some(e) ==> ({
                        let c = current->0.environment;
                        &&& e.kind@ == or_current(self.environment_kind, c.kind@)
                        &&& e.executable@ == or_current(self.executable, c.executable@)
                        &&& opt_text(e.digest) == (match self.environment_digest {
                            Some(d) => Some(d@),
                            None => opt_text(c.digest),
                        })
                    }))
                    &&& (u.snapshot_policy is Some <==> (current is Some && touches_snapshot(
                        self,
                    )))
                    &&& (u.snapshot_policy matches Some(p) ==> ({
                        let c = current->0.snapshot_policy;
                        &&& p.interval_executions == (match self.snapshot_interval {
                            Some(i) => i,
                            None => c.interval_executions,
                        })
                        &&& p.mode@ == or_current(self.snapshot_mode, c.mode@)
                    }))
                },
                Err(e) => {
                    &&& e@ == "update requires at least one field"@
                    &&& self.name is None
                    &&& self.language is None
                    &&& self.status is None
                    &&& !(current is Some && touches_environment(self))
                    &&& !(current is Some && touches_snapshot(self))
                },
            },
    {
        let touches_env = self.environment_kind.is_some() || self.executable.is_some()
            || self.environment_digest.is_some();
        let touches_snap = self.snapshot_interval.is_some() || self.snapshot_mode.is_some();
        let environment = match current {
            Some(runtime) => {
                if touches_env {
                    let c = &runtime.environment;
                    Some(
                        EnvironmentSpec {
                            kind: match self.environment_kind {
                                Some(k) => k,
                                None => clone_text(&c.kind),
                            },
                            executable: match self.executable {
                                Some(x) => x,
                                None => clone_text(&c.executable),
                            },
                            digest: match self.environment_digest {
                                Some(d) => Some(d),
                                None => clone_opt_text(&c.digest),
                            },
                        },
                    )
                } else {
                    None
                }
            },
            None => None,
        };
        let snapshot_policy = match current {
            Some(runtime) => {
                if touches_snap {
                    let c = &runtime.snapshot_policy;
                    Some(
                        SnapshotPolicy {
                            interval_executions: match self.snapshot_interval {
                                Some(i) => i,
                                None => c.interval_executions,
                            },
                            mode: match self.snapshot_mode {
                                Some(m) => m,
                                None => clone_text(&c.mode),
                            },
                        },
                    )
                } else {
                    None
                }
            },
            None => None,
        };
        let request = RuntimeUpdate {
            name: self.name,
            language: self.language,
            environment,
            snapshot_policy,
            status: self.status,
        };
        if request.is_empty() {
            return Err("update requires at least one field".to_owned());
        }
        Ok(request)
    }
}

} // verus!
