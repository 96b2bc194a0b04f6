//! The fetch worker's decision core.
//!
//! A single sequential worker owns the data-source ports, takes one typed
//! request at a time and answers each with exactly one response tagged
//! with the request's kind.  When a configured port fails to initialize,
//! the worker does not terminate: it enters a permanent degraded mode in
//! which every request, of whatever kind, is answered at once with a
//! fatal-failure response carrying the original construction error.  The
//! blocking I/O itself happens outside; this module decides, for each
//! request, whether to fetch or to reply, and tags the fetched data.

use vstd::prelude::*;
use crate::model::Fiber;
use crate::model::HikariMetrics;
use crate::model::SlickMetrics;

verus! {

/// One typed request to the fetch worker.
#[derive(Clone, Copy, PartialEq, Eq, Structural, Debug)]
pub enum FetchRequest {
    /// Full fiber dump, demanded by the operator.
    FiberDump,
    /// Routine fiber dump of the timer tick, folded into the counts.
    RegularFiberDump,
    /// One sample of the primary pool metrics.
    SlickMetrics,
    /// One sample of the optional secondary metric family.
    HikariMetrics,
}

/// What a port handed back for one request, before tagging.
pub enum PortData {
    Fibers(Result<Vec<Fiber>, String>),
    Slick(Result<SlickMetrics, String>),
    Hikari(Result<HikariMetrics, String>),
}

/// One response of the fetch worker, tagged with its request's kind.
pub enum FetchResponse {
    /// The reusable answer of a degraded worker: the construction error.
    FatalFailure(String),
    FiberDump(Result<Vec<Fiber>, String>),
    RegularFiberDump(Result<Vec<Fiber>, String>),
    SlickMetrics(Result<SlickMetrics, String>),
    HikariMetrics(Result<HikariMetrics, String>),
}

/// Whether the worker's ports came up, or the error construction died with.
pub enum WorkerMode {
    Operational,
    Degraded(String),
}

/// What the worker does with one request: answer it at once, or perform
/// the fetch it names.
pub enum WorkerPlan {
    Reply(FetchResponse),
    Fetch(FetchRequest),
}

/// The worker's answer to one request, as a function of its mode alone:
/// a degraded worker replies with its construction error whatever the
/// request; an operational worker performs the fetch.
pub open spec fn spec_plan(mode: WorkerMode, req: FetchRequest) -> WorkerPlan {
    match mode {
        WorkerMode::Operational => WorkerPlan::Fetch(req),
        WorkerMode::Degraded(e) => WorkerPlan::Reply(FetchResponse::FatalFailure(e)),
    }
}

/// The fetch worker's state: construction happened once, its outcome is
/// permanent.
pub struct FetchWorker {
    pub mode: WorkerMode,
}

impl FetchWorker {
    /// A worker whose ports either all initialized, or died with the
    /// given construction error; the outcome is never re-attempted.
    pub fn new(construction_error: Option<String>) -> (w: FetchWorker)
        ensures
            w.mode == match construction_error {
                None => WorkerMode::Operational,
                Some(e) => WorkerMode::Degraded(e),
            },
    {
        match construction_error {
            None => FetchWorker { mode: WorkerMode::Operational },
            Some(e) => FetchWorker { mode: WorkerMode::Degraded(e) },
        }
    }

    /// Decides one request: a degraded worker answers it at once with a
    /// fatal failure carrying the original construction error, whatever
    /// the request's kind; an operational worker asks for the fetch.
    pub fn plan(&self, req: FetchRequest) -> (p: WorkerPlan)
        ensures
            self.mode is Operational ==> p == WorkerPlan::Fetch(req),
            self.mode matches WorkerMode::Degraded(e) ==> (p matches WorkerPlan::Reply(r)
                && r matches FetchResponse::FatalFailure(m) && m@ == e@),
    {
        match &self.mode {
            WorkerMode::Operational => WorkerPlan::Fetch(req),
            WorkerMode::Degraded(e) => WorkerPlan::Reply(
                FetchResponse::FatalFailure(e.clone()),
            ),
        }
    }
}

/// The port data a request's fetch produces has the request's shape.
pub open spec fn data_fits(req: FetchRequest, d: PortData) -> bool {
    match req {
        FetchRequest::FiberDump => d is Fibers,
        FetchRequest::RegularFiberDump => d is Fibers,
        FetchRequest::SlickMetrics => d is Slick,
        FetchRequest::HikariMetrics => d is Hikari,
    }
}

/// The one response a request and its fetched data give rise to.
pub open spec fn spec_complete(req: FetchRequest, d: PortData) -> FetchResponse {
    match (req, d) {
        (FetchRequest::FiberDump, PortData::Fibers(r)) => FetchResponse::FiberDump(r),
        (FetchRequest::RegularFiberDump, PortData::Fibers(r)) => FetchResponse::RegularFiberDump(
            r,
        ),
        (FetchRequest::SlickMetrics, PortData::Slick(r)) => FetchResponse::SlickMetrics(r),
        (FetchRequest::HikariMetrics, PortData::Hikari(r)) => FetchResponse::HikariMetrics(r),
        (_, _) => vstd::pervasive::arbitrary(),
    }
}

/// Tags what a port handed back with the kind of the request it answers:
/// exactly one response per request.
pub fn complete(req: FetchRequest, d: PortData) -> (resp: FetchResponse)
    requires
        data_fits(req, d),
    ensures
        resp == spec_complete(req, d),
{
    match req {
        FetchRequest::FiberDump => match d {
            PortData::Fibers(r) => FetchResponse::FiberDump(r),
            _ => vstd::pervasive::unreached(),
        },
        FetchRequest::RegularFiberDump => match d {
            PortData::Fibers(r) => FetchResponse::RegularFiberDump(r),
            _ => vstd::pervasive::unreached(),
        },
        FetchRequest::SlickMetrics => match d {
            PortData::Slick(r) => FetchResponse::SlickMetrics(r),
            _ => vstd::pervasive::unreached(),
        },
        FetchRequest::HikariMetrics => match d {
            PortData::Hikari(r) => FetchResponse::HikariMetrics(r),
            _ => vstd::pervasive::unreached(),
        },
    }
}

/// Degraded mode answers every request alike: whatever two requests a
/// degraded worker receives, it plans the same reply for both, the
/// fatal-failure response carrying the construction error.
pub proof fn lemma_degraded_mode_uniform(err: String, r1: FetchRequest, r2: FetchRequest)
    ensures
        spec_plan(WorkerMode::Degraded(err), r1) == spec_plan(WorkerMode::Degraded(err), r2),
        spec_plan(WorkerMode::Degraded(err), r1) == WorkerPlan::Reply(
            FetchResponse::FatalFailure(err),
        ),
{
}

} // verus!
