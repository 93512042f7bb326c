//! What following a build means: which reports a status response gives
//! rise to, what is remembered of it, and what follows it.

use crate::api::{BuildStatusResponseView, JobStatusView};
use crate::report::ReportView;
use vstd::prelude::*;

verus! {

/// Seconds to wait between two status queries.
pub const POLL_INTERVAL_SECS: u64 = 5;

/// Exit code of a build in which every job finished without failing.
pub const EXIT_SUCCESS: i32 = 0;

/// Exit code of a build in which at least one job failed.
pub const EXIT_JOB_FAILED: i32 = 1;

/// How many polls lie between two heartbeats.
pub const HEARTBEAT_PERIOD: u8 = 3;

/// The status of a job that is being built.
pub open spec fn running() -> Seq<char> {
    "running"@
}

/// The status of a job that has been built.
pub open spec fn finished() -> Seq<char> {
    "finished"@
}

/// The status of a job that could not be built.
pub open spec fn failed() -> Seq<char> {
    "failed"@
}

/// Whether `job` has another status than when it was last seen. A job that
/// was never seen has changed.
pub open spec fn status_changed(seen: Map<Seq<char>, Seq<char>>, job: JobStatusView) -> bool {
    !seen.contains_key(job.job_id) || seen[job.job_id] != job.status
}

/// What one job in a status response gives rise to on standard output,
/// given whether its status has `changed` since it was last seen.
///
/// A running job is reported when its status has changed, and again at each
/// heartbeat. A finished or failed job is reported once, when it changes into
/// that state. Any other status is passed over.
pub open spec fn transition(job: JobStatusView, changed: bool, heartbeat: bool) -> Option<
    ReportView,
> {
    if job.status == running() {
        if changed || heartbeat {
            Some(ReportView::Building { name: job.name })
        } else {
            None
        }
    } else if job.status == finished() {
        if changed {
            Some(ReportView::Completed { name: job.name })
        } else {
            None
        }
    } else if job.status == failed() {
        if changed {
            Some(ReportView::Failed { name: job.name, fail_message: job.fail_message })
        } else {
            None
        }
    } else {
        None
    }
}

/// What one job in a status response gives rise to on standard output, given
/// the statuses last `seen`.
pub open spec fn progress_of(
    seen: Map<Seq<char>, Seq<char>>,
    job: JobStatusView,
    heartbeat: bool,
) -> Option<ReportView> {
    transition(job, status_changed(seen, job), heartbeat)
}

/// The statuses last seen once `jobs` have been gone through in order: each
/// job's status replaces what was known of that job.
pub open spec fn seen_after(seen: Map<Seq<char>, Seq<char>>, jobs: Seq<JobStatusView>) -> Map<
    Seq<char>,
    Seq<char>,
>
    decreases jobs.len(),
{
    if jobs.len() == 0 {
        seen
    } else {
        seen_after(seen, jobs.drop_last()).insert(jobs.last().job_id, jobs.last().status)
    }
}

/// The progress reports for `jobs`, in order. Each job is judged against what
/// was last seen before it, the jobs in front of it in the same response
/// included.
pub open spec fn progress(
    seen: Map<Seq<char>, Seq<char>>,
    jobs: Seq<JobStatusView>,
    heartbeat: bool,
) -> Seq<ReportView>
    decreases jobs.len(),
{
    if jobs.len() == 0 {
        Seq::empty()
    } else {
        let earlier = jobs.drop_last();
        match progress_of(seen_after(seen, earlier), jobs.last(), heartbeat) {
            Some(report) => progress(seen, earlier, heartbeat).push(report),
            None => progress(seen, earlier, heartbeat),
        }
    }
}

/// Whether a status response with `jobs` says anything of the job `job_id`.
pub open spec fn reported(jobs: Seq<JobStatusView>, job_id: Seq<char>) -> bool {
    exists|i: int| 0 <= i < jobs.len() && (#[trigger] jobs[i]).job_id == job_id
}

/// How many of the requested `job_ids` a status response with `jobs` says
/// nothing of.
pub open spec fn missing(job_ids: Seq<Seq<char>>, jobs: Seq<JobStatusView>) -> nat
    decreases job_ids.len(),
{
    if job_ids.len() == 0 {
        0
    } else if reported(jobs, job_ids.last()) {
        missing(job_ids.drop_last(), jobs)
    } else {
        missing(job_ids.drop_last(), jobs) + 1
    }
}

/// The note on jobs that the service does not know of yet: given at a
/// heartbeat, if there is any such job.
pub open spec fn initializing(
    job_ids: Seq<Seq<char>>,
    jobs: Seq<JobStatusView>,
    heartbeat: bool,
) -> Seq<ReportView> {
    if heartbeat && missing(job_ids, jobs) > 0 {
        seq![ReportView::Initializing { missing: missing(job_ids, jobs) }]
    } else {
        Seq::empty()
    }
}

/// What the error stream is told of one job once the build is over: of a
/// failed job its message and its technical detail, as far as it has them.
pub open spec fn failure_of(job: JobStatusView) -> Seq<ReportView> {
    if job.status == failed() {
        let message = match job.fail_message {
            Some(message) => seq![ReportView::FailureMessage { name: job.name, message }],
            None => Seq::empty(),
        };
        let detail = match job.technical_error {
            Some(detail) => seq![ReportView::TechnicalDetails { detail }],
            None => Seq::empty(),
        };
        message + detail
    } else {
        Seq::empty()
    }
}

/// [`failure_of`] for each of `jobs`, in order.
pub open spec fn failures(jobs: Seq<JobStatusView>) -> Seq<ReportView>
    decreases jobs.len(),
{
    if jobs.len() == 0 {
        Seq::empty()
    } else {
        failures(jobs.drop_last()) + failure_of(jobs.last())
    }
}

/// How a status response ends the reports of its poll: with nothing while
/// jobs are unfinished, else with the summary of the build.
pub open spec fn closing(response: BuildStatusResponseView) -> Seq<ReportView> {
    if !response.all_finished {
        Seq::empty()
    } else if response.any_failed {
        seq![ReportView::BuildCompleted] + failures(response.jobs)
    } else {
        seq![ReportView::BuildCompleted, ReportView::AllSucceeded]
    }
}

/// Everything one status response gives rise to, in the order it is shown.
pub open spec fn poll_reports(
    job_ids: Seq<Seq<char>>,
    seen: Map<Seq<char>, Seq<char>>,
    heartbeat: bool,
    response: BuildStatusResponseView,
) -> Seq<ReportView> {
    progress(seen, response.jobs, heartbeat) + initializing(job_ids, response.jobs, heartbeat)
        + closing(response)
}

/// What to do after a status response has been gone through.
#[derive(Clone, Copy, Debug, PartialEq, Eq, Structural)]
pub enum Next {
    /// Jobs are unfinished: wait `seconds`, then ask again.
    PollAfter { seconds: u64 },
    /// The build is over: leave with `code`.
    Exit { code: i32 },
}

/// What follows a status response: polling goes on until the service says
/// that all jobs are finished; then the build has failed if any job has.
pub open spec fn next_step(response: BuildStatusResponseView) -> Next {
    if !response.all_finished {
        Next::PollAfter { seconds: POLL_INTERVAL_SECS }
    } else if response.any_failed {
        Next::Exit { code: EXIT_JOB_FAILED }
    } else {
        Next::Exit { code: EXIT_SUCCESS }
    }
}


/// The state of a [`BuildMonitor`] as a mathematical value.
pub struct MonitorView {
    /// The jobs that the build request created; fixed for the monitor's life.
    pub job_ids: Seq<Seq<char>>,
    /// For each job that a status response has mentioned, the status it had
    /// when last mentioned.
    pub seen: Map<Seq<char>, Seq<char>>,
    /// How many status responses have left jobs unfinished so far.
    pub iteration: nat,
}

impl MonitorView {
    /// Whether the next status response falls on a heartbeat.
    pub open spec fn heartbeat(self) -> bool {
        self.iteration % (HEARTBEAT_PERIOD as nat) == 0
    }

    /// What `response` gives rise to in this state.
    pub open spec fn reports(self, response: BuildStatusResponseView) -> Seq<ReportView> {
        poll_reports(self.job_ids, self.seen, self.heartbeat(), response)
    }

    /// The state once `response` has been gone through.
    pub open spec fn after(self, response: BuildStatusResponseView) -> MonitorView {
        MonitorView {
            job_ids: self.job_ids,
            seen: seen_after(self.seen, response.jobs),
            iteration: if response.all_finished {
                self.iteration
            } else {
                self.iteration + 1
            },
        }
    }
}

/// What is shown once the service has answered a build request with
/// `job_ids`: that the build was triggered, and, if it has any job, that
/// the wait for its jobs begins.
pub open spec fn outset(package_id: i32, version: Seq<char>, job_ids: Seq<Seq<char>>) -> Seq<
    ReportView,
> {
    let triggered = ReportView::Triggered { package_id, version, jobs: job_ids.len() };
    if job_ids.len() == 0 {
        seq![triggered]
    } else {
        seq![triggered, ReportView::Waiting { jobs: job_ids.len() }]
    }
}

/// The state in which the jobs `job_ids` begin to be followed.
pub open spec fn fresh(job_ids: Seq<Seq<char>>) -> MonitorView {
    MonitorView { job_ids, seen: Map::empty(), iteration: 0 }
}

} // verus!
