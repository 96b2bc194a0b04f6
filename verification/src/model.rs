//! Plain data records produced by the data sources: fiber records, pool
//! metric samples and connection settings.  No logic lives here.

use vstd::prelude::*;

verus! {

/// Scheduling state of one fiber inside the monitored runtime.
#[derive(Clone, Copy, PartialEq, Eq, Structural, Debug)]
pub enum FiberStatus {
    Done,
    Finishing,
    Running,
    Suspended,
}

impl FiberStatus {
    /// The label appended to a rendered tree line for this status.
    pub fn label(&self) -> (r: &'static str)
        ensures
            r@ == self.label_chars(),
    {
        match self {
            FiberStatus::Done => "Done",
            FiberStatus::Finishing => "Finishing",
            FiberStatus::Running => "Running",
            FiberStatus::Suspended => "Suspended",
        }
    }

    /// The characters of the status label.
    pub open spec fn label_chars(self) -> Seq<char> {
        match self {
            FiberStatus::Done => "Done"@,
            FiberStatus::Finishing => "Finishing"@,
            FiberStatus::Running => "Running"@,
            FiberStatus::Suspended => "Suspended"@,
        }
    }
}

/// One fiber of a fresh dump: a unique id, an optional parent reference,
/// a status and the full dump text for the detail pane.
pub struct Fiber {
    pub id: u64,
    pub parent_id: Option<u64>,
    pub status: FiberStatus,
    pub dump: String,
}

/// Counts of fibers per status, derived by scanning one fresh dump.
#[derive(Clone, Copy, PartialEq, Eq, Structural, Debug)]
pub struct FiberCount {
    pub done: usize,
    pub suspended: usize,
    pub running: usize,
    pub finishing: usize,
}

/// One sample of the primary pool metrics.
#[derive(Clone, Copy, PartialEq, Eq, Structural, Debug)]
pub struct SlickMetrics {
    pub active_threads: u64,
    pub queue_size: u64,
}

impl SlickMetrics {
    /// The zero-valued sample used to seed a freshly initialized window.
    pub fn zero() -> (r: SlickMetrics)
        ensures
            r.active_threads == 0,
            r.queue_size == 0,
    {
        SlickMetrics { active_threads: 0, queue_size: 0 }
    }
}

/// Static pool configuration, read once at initialization.
#[derive(Clone, Copy, PartialEq, Eq, Structural, Debug)]
pub struct SlickConfig {
    pub max_threads: u64,
    pub max_queue_size: u64,
}

/// One sample of the optional secondary (connection-pool add-on) metrics.
#[derive(Clone, Copy, PartialEq, Eq, Structural, Debug)]
pub struct HikariMetrics {
    pub active: u64,
    pub idle: u64,
    pub waiting: u64,
    pub total: u64,
}

/// Where and how to reach the remote pool introspection endpoint.
pub struct JMXConnectionSettings {
    pub address: String,
    pub username: Option<String>,
    pub password: Option<String>,
    pub db_pool_name: String,
}

/// Assembles the pool connection settings from the parsed flags: only
/// an address together with a pool name configures the source; the
/// credentials are optional either way.
pub fn jmx_settings_from(
    jmx: Option<String>,
    username: Option<String>,
    password: Option<String>,
    db_pool_name: Option<String>,
) -> (r: Option<JMXConnectionSettings>)
    ensures
        r is Some <==> (jmx is Some && db_pool_name is Some),
        r matches Some(s) ==> {
            &&& s.address == jmx.unwrap()
            &&& s.username == username
            &&& s.password == password
            &&& s.db_pool_name == db_pool_name.unwrap()
        },
{
    match (jmx, db_pool_name) {
        (Some(address), Some(pool)) => Some(
            JMXConnectionSettings { address, username, password, db_pool_name: pool },
        ),
        _ => None,
    }
}

/// Two connection settings that read the same: every field holds the
/// same text, the optional credentials present in one exactly when
/// present in the other.
pub open spec fn settings_like(a: JMXConnectionSettings, b: JMXConnectionSettings) -> bool {
    &&& a.address@ == b.address@
    &&& match (a.username, b.username) {
        (Some(u), Some(v)) => u@ == v@,
        (None, None) => true,
        _ => false,
    }
    &&& match (a.password, b.password) {
        (Some(u), Some(v)) => u@ == v@,
        (None, None) => true,
        _ => false,
    }
    &&& a.db_pool_name@ == b.db_pool_name@
}

impl JMXConnectionSettings {
    /// A copy of these settings, text for text.
    pub fn duplicate(&self) -> (r: JMXConnectionSettings)
        ensures
            settings_like(r, *self),
    {
        JMXConnectionSettings {
            address: self.address.clone(),
            username: match &self.username {
                Some(u) => Some(u.clone()),
                None => None,
            },
            password: match &self.password {
                Some(p) => Some(p.clone()),
                None => None,
            },
            db_pool_name: self.db_pool_name.clone(),
        }
    }
}

/// One rendered tree line together with the dump text it is backed by.
pub struct UIFiber {
    pub label: String,
    pub dump: String,
}

} // verus!
