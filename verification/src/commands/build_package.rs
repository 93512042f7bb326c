//! Triggering a build and following it until every job has reached a
//! terminal state.

use crate::api::{ApiClient, BuildStatusResponse, JobStatus, Request};
use crate::commands::build_model::{
    closing, failure_of, failures, fresh, initializing, missing, next_step, outset, progress,
    reported, seen_after, status_changed, transition, MonitorView, Next, EXIT_JOB_FAILED,
    EXIT_SUCCESS, HEARTBEAT_PERIOD, POLL_INTERVAL_SECS,
};
use crate::error::{Error, ErrorView};
use crate::report::{Report, ReportView};
use crate::text::same;
use vstd::hash_map::StringHashMap;
use vstd::prelude::*;
use vstd::string::StringExecFns;

verus! {

/// The identifiers of the jobs of one build: at least one.
struct JobIds {
    ids: Vec<String>,
}

impl JobIds {
    #[verifier::type_invariant]
    spec fn populated(self) -> bool {
        self.ids@.len() > 0
    }

    closed spec fn view(&self) -> Seq<Seq<char>> {
        self.ids.deep_view()
    }

    fn new(ids: Vec<String>) -> (made: Option<JobIds>)
        ensures
            made is Some <==> ids@.len() > 0,
            made matches Some(job_ids) ==> job_ids@ == ids.deep_view(),
    {
        if ids.len() == 0 {
            None
        } else {
            Some(JobIds { ids })
        }
    }

    fn ids(&self) -> (ids: &Vec<String>)
        ensures
            ids.deep_view() == self@,
            ids@.len() > 0,
    {
        proof {
            use_type_invariant(self);
        }
        &self.ids
    }
}

/// Counts the status responses that left jobs unfinished, keeping of the
/// count only what decides the heartbeat.
struct PollCounter {
    phase: u8,
    polls: Ghost<nat>,
}

impl PollCounter {
    #[verifier::type_invariant]
    spec fn in_step(self) -> bool {
        self.phase as nat == self.polls@ % (HEARTBEAT_PERIOD as nat)
    }

    closed spec fn view(&self) -> nat {
        self.polls@
    }

    fn new() -> (counter: PollCounter)
        ensures
            counter@ == 0,
    {
        PollCounter { phase: 0, polls: Ghost(0) }
    }

    fn heartbeat(&self) -> (due: bool)
        ensures
            due == (self@ % (HEARTBEAT_PERIOD as nat) == 0),
    {
        proof {
            use_type_invariant(self);
        }
        self.phase == 0
    }

    fn advance(&mut self)
        ensures
            final(self)@ == old(self)@ + 1,
    {
        proof {
            use_type_invariant(&*self);
        }
        let phase: u8 = if self.phase + 1 >= HEARTBEAT_PERIOD {
            0
        } else {
            self.phase + 1
        };
        *self = PollCounter { phase, polls: Ghost(self.polls@ + 1) };
    }
}

/// What one status response led to.
#[derive(Clone, Debug, PartialEq, Eq)]
pub struct PollOutcome {
    /// What to show, in order.
    pub reports: Vec<Report>,
    /// What to do once it is shown.
    pub next: Next,
}

/// Follows the jobs of one build from one status response to the next.
///
/// The monitor remembers the status in which each job was last seen, so that
/// a status is reported when it changes and not each time it is polled, and
/// it counts the polls, so that long waits still show a sign of life.
pub struct BuildMonitor {
    job_ids: JobIds,
    seen: StringHashMap<String>,
    counter: PollCounter,
}

impl View for BuildMonitor {
    type V = MonitorView;

    closed spec fn view(&self) -> MonitorView {
        MonitorView {
            job_ids: self.job_ids@,
            seen: self.seen@.map_values(|status: String| status@),
            iteration: self.counter@,
        }
    }
}

/// Whether `jobs` says anything of the job `job_id`.
fn is_reported(jobs: &Vec<JobStatus>, job_id: &str) -> (found: bool)
    ensures
        found == reported(jobs.deep_view(), job_id@),
{
    let mut i: usize = 0;
    while i < jobs.len()
        invariant
            i <= jobs.len(),
            forall|k: int| 0 <= k < i ==> (#[trigger] jobs.deep_view()[k]).job_id != job_id@,
        decreases jobs.len() - i,
    {
        if same(jobs[i].job_id.as_str(), job_id) {
            assert(jobs.deep_view()[i as int].job_id == job_id@);
            return true;
        }
        i += 1;
    }
    false
}

/// Counts the `job_ids` that `jobs` says nothing of.
fn count_missing(job_ids: &Vec<String>, jobs: &Vec<JobStatus>) -> (count: usize)
    ensures
        count == missing(job_ids.deep_view(), jobs.deep_view()),
{
    let mut count: usize = 0;
    let mut i: usize = 0;
    while i < job_ids.len()
        invariant
            i <= job_ids.len(),
            count <= i,
            count == missing(job_ids.deep_view().take(i as int), jobs.deep_view()),
        decreases job_ids.len() - i,
    {
        proof {
            let longer = job_ids.deep_view().take(i + 1);
            assert(longer.drop_last() =~= job_ids.deep_view().take(i as int));
            assert(longer.last() == job_ids[i as int]@);
        }
        if !is_reported(jobs, job_ids[i].as_str()) {
            count += 1;
        }
        i += 1;
    }
    proof {
        assert(job_ids.deep_view().take(i as int) =~= job_ids.deep_view());
    }
    count
}

/// Copies an optional text.
fn copy_of(text: &Option<String>) -> (copy: Option<String>)
    ensures
        copy.deep_view() == text.deep_view(),
{
    match text {
        Some(text) => Some(text.clone()),
        None => None,
    }
}

/// The progress report for one job, given whether its status has changed.
fn transition_report(job: &JobStatus, changed: bool, heartbeat: bool) -> (report: Option<Report>)
    ensures
        report.deep_view() == transition(job@, changed, heartbeat),
{
    if same(job.status.as_str(), "running") {
        if changed || heartbeat {
            Some(Report::Building { name: job.name.clone() })
        } else {
            None
        }
    } else if same(job.status.as_str(), "finished") {
        if changed {
            Some(Report::Completed { name: job.name.clone() })
        } else {
            None
        }
    } else if same(job.status.as_str(), "failed") {
        if changed {
            Some(
                Report::Failed {
                    name: job.name.clone(),
                    fail_message: copy_of(&job.fail_message),
                },
            )
        } else {
            None
        }
    } else {
        None
    }
}

/// Appends to `reports` what the error stream is told of `jobs`.
fn push_failures(jobs: &Vec<JobStatus>, reports: &mut Vec<Report>)
    ensures
        final(reports).deep_view() == old(reports).deep_view() + failures(jobs.deep_view()),
{
    let ghost before = reports.deep_view();
    let mut i: usize = 0;
    proof {
        assert(reports.deep_view() =~= before + failures(jobs.deep_view().take(0)));
    }
    while i < jobs.len()
        invariant
            i <= jobs.len(),
            reports.deep_view() == before + failures(jobs.deep_view().take(i as int)),
        decreases jobs.len() - i,
    {
        let job = &jobs[i];
        let ghost so_far = reports.deep_view();
        proof {
            let longer = jobs.deep_view().take(i + 1);
            assert(longer.drop_last() =~= jobs.deep_view().take(i as int));
            assert(longer.last() == job@);
        }
        if same(job.status.as_str(), "failed") {
            if let Some(message) = &job.fail_message {
                reports.push(
                    Report::FailureMessage { name: job.name.clone(), message: message.clone() },
                );
            }
            if let Some(detail) = &job.technical_error {
                reports.push(Report::TechnicalDetails { detail: detail.clone() });
            }
        }
        proof {
            assert(reports.deep_view() =~= so_far + failure_of(job@));
            assert(reports.deep_view() =~= before + failures(jobs.deep_view().take(i + 1)));
        }
        i += 1;
    }
    proof {
        assert(jobs.deep_view().take(i as int) =~= jobs.deep_view());
    }
}

impl BuildMonitor {
    /// Starts to follow the jobs that a build request created. A build
    /// without jobs cannot be followed.
    pub fn new(job_ids: Vec<String>) -> (started: Result<BuildMonitor, Error>)
        ensures
            started is Err <==> job_ids@.len() == 0,
            started matches Err(error) ==> error@ == ErrorView::NoJobsCreated,
            started matches Ok(monitor) ==> monitor@ == fresh(job_ids.deep_view()),
    {
        match JobIds::new(job_ids) {
            None => Err(Error::NoJobsCreated),
            Some(job_ids) => {
                let monitor = BuildMonitor {
                    job_ids,
                    seen: StringHashMap::new(),
                    counter: PollCounter::new(),
                };
                proof {
                    assert(monitor@.seen =~= Map::empty());
                }
                Ok(monitor)
            },
        }
    }

    /// The jobs that are followed: at least one.
    pub fn job_ids(&self) -> (ids: &Vec<String>)
        ensures
            ids.deep_view() == self@.job_ids,
            ids@.len() > 0,
    {
        self.job_ids.ids()
    }

    /// The request that asks for the status of the jobs that are followed.
    pub fn status_request(&self, client: &ApiClient) -> (request: Request)
        ensures
            request@ == client@.status_request(self@.job_ids),
            self@.job_ids.len() > 0,
    {
        client.check_build_status(self.job_ids.ids())
    }

    /// Goes through the jobs of a status response in order: reports each as
    /// far as its status calls for it, and remembers the status.
    fn record_progress(&mut self, jobs: &Vec<JobStatus>, heartbeat: bool) -> (reports: Vec<Report>)
        ensures
            reports.deep_view() == progress(old(self)@.seen, jobs.deep_view(), heartbeat),
            final(self)@.seen == seen_after(old(self)@.seen, jobs.deep_view()),
            final(self)@.job_ids == old(self)@.job_ids,
            final(self)@.iteration == old(self)@.iteration,
    {
        let mut reports: Vec<Report> = Vec::new();
        let mut i: usize = 0;
        proof {
            assert(reports.deep_view() =~= progress(self@.seen, jobs.deep_view().take(0), heartbeat));
        }
        while i < jobs.len()
            invariant
                i <= jobs.len(),
                reports.deep_view() == progress(
                    old(self)@.seen,
                    jobs.deep_view().take(i as int),
                    heartbeat,
                ),
                self@.seen == seen_after(old(self)@.seen, jobs.deep_view().take(i as int)),
                self@.job_ids == old(self)@.job_ids,
                self@.iteration == old(self)@.iteration,
            decreases jobs.len() - i,
        {
            let job = &jobs[i];
            let ghost shown = reports.deep_view();
            proof {
                let longer = jobs.deep_view().take(i + 1);
                assert(longer.drop_last() =~= jobs.deep_view().take(i as int));
                assert(longer.last() == job@);
            }
            let changed = match self.seen.get(job.job_id.as_str()) {
                Some(previous) => !same(previous.as_str(), job.status.as_str()),
                None => true,
            };
            assert(changed == status_changed(self@.seen, job@));
            match transition_report(job, changed, heartbeat) {
                Some(report) => {
                    reports.push(report);
                    proof {
                        assert(reports.deep_view() =~= shown.push(report@));
                    }
                },
                None => {},
            }
            self.seen.insert(job.job_id.clone(), job.status.clone());
            proof {
                assert(self@.seen =~= seen_after(old(self)@.seen, jobs.deep_view().take(i + 1)));
            }
            i += 1;
        }
        proof {
            assert(jobs.deep_view().take(i as int) =~= jobs.deep_view());
        }
        reports
    }

    /// Goes through one status response: says what to show and what to do
    /// next, and remembers what the response said of each job.
    ///
    /// Polling goes on until the response says that all jobs are finished.
    /// Then the build is over, with [`EXIT_JOB_FAILED`] if any job failed and
    /// with [`EXIT_SUCCESS`] if none did.
    pub fn observe(&mut self, response: &BuildStatusResponse) -> (outcome: PollOutcome)
        ensures
            outcome.reports.deep_view() == old(self)@.reports(response@),
            outcome.next == next_step(response@),
            final(self)@ == old(self)@.after(response@),
    {
        let heartbeat = self.counter.heartbeat();
        let mut reports = self.record_progress(&response.jobs, heartbeat);
        let ghost shown = reports.deep_view();
        let absent = count_missing(self.job_ids.ids(), &response.jobs);
        if heartbeat && absent > 0 {
            reports.push(Report::Initializing { missing: absent });
        }
        proof {
            assert(reports.deep_view() =~= shown + initializing(
                old(self)@.job_ids,
                response@.jobs,
                heartbeat,
            ));
        }
        let ghost told = reports.deep_view();
        let next = if !response.all_finished {
            self.counter.advance();
            Next::PollAfter { seconds: POLL_INTERVAL_SECS }
        } else if response.any_failed {
            reports.push(Report::BuildCompleted);
            proof {
                assert(reports.deep_view() =~= told + seq![ReportView::BuildCompleted]);
            }
            push_failures(&response.jobs, &mut reports);
            Next::Exit { code: EXIT_JOB_FAILED }
        } else {
            reports.push(Report::BuildCompleted);
            reports.push(Report::AllSucceeded);
            Next::Exit { code: EXIT_SUCCESS }
        };
        proof {
            assert(reports.deep_view() =~= told + closing(response@));
        }
        PollOutcome { reports, next }
    }
}

impl BuildMonitor {
    /// Takes what came of a status query. A response is gone through as
    /// [`observe`](BuildMonitor::observe) does it. A query that failed ends
    /// the command with its error: it is not repeated.
    pub fn polled(&mut self, reply: Result<BuildStatusResponse, Error>) -> (outcome: Result<
        PollOutcome,
        Error,
    >)
        ensures
            match reply {
                Ok(response) => {
                    &&& outcome matches Ok(outcome)
                    &&& outcome.reports.deep_view() == old(self)@.reports(response@)
                    &&& outcome.next == next_step(response@)
                    &&& final(self)@ == old(self)@.after(response@)
                },
                Err(error) => {
                    &&& outcome matches Err(failure)
                    &&& failure@ == error@
                    &&& final(self)@ == old(self)@
                },
            },
    {
        match reply {
            Ok(response) => Ok(self.observe(&response)),
            Err(error) => Err(error),
        }
    }
}

/// Begins the build command: says what to show first, and which request
/// triggers the build of `version`, for `target` if one is given and else
/// for all enabled targets.
pub fn build_package(client: &ApiClient, package_id: i32, version: &str, target: Option<&str>) -> (begun:
    (Report, Request))
    ensures
        begun.0@ == (ReportView::Triggering {
            package_id,
            version: version@,
            target: target.deep_view(),
        }),
        begun.1@ == client@.build_request(package_id, version@, target.deep_view()),
{
    let aim = match target {
        Some(target) => Some(String::from_str(target)),
        None => None,
    };
    let report = Report::Triggering { package_id, version: String::from_str(version), target: aim };
    (report, client.build_package(package_id, version, target))
}

/// Takes what came of the build request: the identifiers of the jobs that
/// the service created, or the error of the request.
///
/// Says what to show, and hands out the monitor that follows the jobs. A
/// request that failed ends the command with its error. So does a build for
/// which the service created no job: it ends with
/// [`Error::NoJobsCreated`], and no status is ever asked for.
pub fn triggered(package_id: i32, version: &str, created: Result<Vec<String>, Error>) -> (started:
    (Vec<Report>, Result<BuildMonitor, Error>))
    ensures
        match created {
            Ok(job_ids) => {
                &&& started.0.deep_view() == outset(package_id, version@, job_ids.deep_view())
                &&& match started.1 {
                    Ok(monitor) => job_ids@.len() > 0 && monitor@ == fresh(job_ids.deep_view()),
                    Err(error) => job_ids@.len() == 0 && error@ == ErrorView::NoJobsCreated,
                }
            },
            Err(error) => {
                &&& started.0@.len() == 0
                &&& started.1 matches Err(failure)
                &&& failure@ == error@
            },
        },
{
    let mut reports: Vec<Report> = Vec::new();
    match created {
        Err(error) => (reports, Err(error)),
        Ok(job_ids) => {
            let jobs = job_ids.len();
            reports.push(Report::Triggered { package_id, version: String::from_str(version), jobs });
            if jobs > 0 {
                reports.push(Report::Waiting { jobs });
            }
            proof {
                assert(reports.deep_view() =~= outset(package_id, version@, job_ids.deep_view()));
            }
            (reports, BuildMonitor::new(job_ids))
        },
    }
}

} // verus!
