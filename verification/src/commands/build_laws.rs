//! What holds of following a build, whatever the service answers.

use crate::api::{BuildStatusResponseView, JobStatusView};
use crate::commands::build_model::{
    closing, failed, failure_of, failures, finished, initializing, next_step, progress,
    reported, running, seen_after, status_changed, transition, MonitorView, Next,
    EXIT_JOB_FAILED, EXIT_SUCCESS,
};
use crate::report::ReportView;
use vstd::prelude::*;

verus! {

/// Once a response has been gone through, each job it mentions is
/// remembered with the status of its last mention.
pub proof fn poll_remembers_last_status(
    seen: Map<Seq<char>, Seq<char>>,
    jobs: Seq<JobStatusView>,
    i: int,
)
    requires
        0 <= i < jobs.len(),
        forall|j: int| i < j < jobs.len() ==> (#[trigger] jobs[j]).job_id != jobs[i].job_id,
    ensures
        seen_after(seen, jobs).contains_key(jobs[i].job_id),
        seen_after(seen, jobs)[jobs[i].job_id] == jobs[i].status,
    decreases jobs.len(),
{
    if i < jobs.len() - 1 {
        let earlier = jobs.drop_last();
        assert(earlier[i] == jobs[i]);
        assert forall|j: int| i < j < earlier.len() implies (#[trigger] earlier[j]).job_id
            != earlier[i].job_id by {
            assert(earlier[j] == jobs[j]);
        }
        poll_remembers_last_status(seen, earlier, i);
        assert(jobs[jobs.len() - 1].job_id != jobs[i].job_id);
    }
}

/// Going through a response changes nothing in what is remembered of a job
/// that the response does not mention.
pub proof fn poll_leaves_other_jobs(
    seen: Map<Seq<char>, Seq<char>>,
    jobs: Seq<JobStatusView>,
    job_id: Seq<char>,
)
    requires
        !reported(jobs, job_id),
    ensures
        seen_after(seen, jobs).contains_key(job_id) == seen.contains_key(job_id),
        seen.contains_key(job_id) ==> seen_after(seen, jobs)[job_id] == seen[job_id],
    decreases jobs.len(),
{
    if jobs.len() > 0 {
        let earlier = jobs.drop_last();
        if reported(earlier, job_id) {
            let k = choose|k: int| 0 <= k < earlier.len() && (#[trigger] earlier[k]).job_id == job_id;
            assert(jobs[k].job_id == job_id);
        }
        poll_leaves_other_jobs(seen, earlier, job_id);
        assert(jobs[jobs.len() - 1].job_id != job_id);
    }
}

/// A job whose status is the one last seen adds no report, unless it is
/// running and a heartbeat is due.
pub proof fn unchanged_status_adds_nothing(
    seen: Map<Seq<char>, Seq<char>>,
    jobs: Seq<JobStatusView>,
    heartbeat: bool,
    i: int,
)
    requires
        0 <= i < jobs.len(),
        !status_changed(seen_after(seen, jobs.take(i)), jobs[i]),
        !(heartbeat && jobs[i].status == running()),
    ensures
        progress(seen, jobs.take(i + 1), heartbeat) == progress(seen, jobs.take(i), heartbeat),
{
    let longer = jobs.take(i + 1);
    assert(longer.drop_last() =~= jobs.take(i));
    assert(longer.last() == jobs[i]);
}

/// A job that has changed into one of the three statuses that are reported
/// adds exactly one report: the one for that status.
pub proof fn changed_status_adds_one(
    seen: Map<Seq<char>, Seq<char>>,
    jobs: Seq<JobStatusView>,
    heartbeat: bool,
    i: int,
)
    requires
        0 <= i < jobs.len(),
        status_changed(seen_after(seen, jobs.take(i)), jobs[i]),
        jobs[i].status == running() || jobs[i].status == finished() || jobs[i].status
            == failed(),
    ensures
        transition(jobs[i], true, heartbeat) is Some,
        progress(seen, jobs.take(i + 1), heartbeat) == progress(
            seen,
            jobs.take(i),
            heartbeat,
        ).push(transition(jobs[i], true, heartbeat)->Some_0),
{
    let longer = jobs.take(i + 1);
    assert(longer.drop_last() =~= jobs.take(i));
    assert(longer.last() == jobs[i]);
}

/// Over two polls in a row: a job that the second response shows in the
/// status that the first response left it in is not reported again, unless
/// it is running and the second poll falls on a heartbeat.
///
/// `k` is the last mention of the job in the first response, `i` its first
/// mention in the second.
pub proof fn repeated_status_is_not_repeated(
    state: MonitorView,
    first: BuildStatusResponseView,
    second: BuildStatusResponseView,
    k: int,
    i: int,
)
    requires
        0 <= k < first.jobs.len(),
        forall|j: int|
            k < j < first.jobs.len() ==> (#[trigger] first.jobs[j]).job_id
                != first.jobs[k].job_id,
        0 <= i < second.jobs.len(),
        forall|j: int|
            0 <= j < i ==> (#[trigger] second.jobs[j]).job_id != second.jobs[i].job_id,
        second.jobs[i].job_id == first.jobs[k].job_id,
        second.jobs[i].status == first.jobs[k].status,
        !(state.after(first).heartbeat() && second.jobs[i].status == running()),
    ensures
        progress(
            state.after(first).seen,
            second.jobs.take(i + 1),
            state.after(first).heartbeat(),
        ) == progress(state.after(first).seen, second.jobs.take(i), state.after(first).heartbeat()),
{
    let then = state.after(first);
    let job_id = second.jobs[i].job_id;
    let before = second.jobs.take(i);
    poll_remembers_last_status(state.seen, first.jobs, k);
    if reported(before, job_id) {
        let j = choose|j: int| 0 <= j < before.len() && (#[trigger] before[j]).job_id == job_id;
        assert(before[j] == second.jobs[j]);
    }
    poll_leaves_other_jobs(then.seen, before, job_id);
    unchanged_status_adds_nothing(then.seen, second.jobs, then.heartbeat(), i);
}

/// Progress reports are of three kinds only.
proof fn progress_holds_progress_only(
    seen: Map<Seq<char>, Seq<char>>,
    jobs: Seq<JobStatusView>,
    heartbeat: bool,
)
    ensures
        forall|i: int|
            0 <= i < progress(seen, jobs, heartbeat).len() ==> {
                let report = #[trigger] progress(seen, jobs, heartbeat)[i];
                report is Building || report is Completed || report is Failed
            },
    decreases jobs.len(),
{
    if jobs.len() > 0 {
        progress_holds_progress_only(seen, jobs.drop_last(), heartbeat);
    }
}

/// A response that shows every job finished and none failed ends the build
/// with success. The summary of success closes its reports, and stands
/// nowhere else in them.
pub proof fn success_is_told_once(state: MonitorView, response: BuildStatusResponseView)
    requires
        response.all_finished,
        !response.any_failed,
    ensures
        next_step(response) == (Next::Exit { code: EXIT_SUCCESS }),
        state.reports(response).len() >= 2,
        state.reports(response).last() == ReportView::AllSucceeded,
        forall|i: int|
            0 <= i < state.reports(response).len() - 1 ==> !((
            #[trigger] state.reports(response)[i]) is AllSucceeded),
{
    let shown = progress(state.seen, response.jobs, state.heartbeat());
    let waiting = initializing(state.job_ids, response.jobs, state.heartbeat());
    let reports = state.reports(response);
    progress_holds_progress_only(state.seen, response.jobs, state.heartbeat());
    assert(reports =~= shown + waiting + closing(response));
    assert forall|i: int| 0 <= i < reports.len() - 1 implies !((#[trigger] reports[i])
        is AllSucceeded) by {
        if i < shown.len() {
            assert(reports[i] == shown[i]);
        } else if i < shown.len() + waiting.len() {
            assert(reports[i] == waiting[i - shown.len()]);
        } else {
            assert(reports[i] == closing(response)[i - shown.len() - waiting.len()]);
        }
    }
}

/// What the error stream is told of one job is told of it among all jobs.
proof fn failures_hold_failure_of(jobs: Seq<JobStatusView>, i: int, report: ReportView)
    requires
        0 <= i < jobs.len(),
        failure_of(jobs[i]).contains(report),
    ensures
        failures(jobs).contains(report),
    decreases jobs.len(),
{
    let earlier = jobs.drop_last();
    if i < jobs.len() - 1 {
        assert(earlier[i] == jobs[i]);
        failures_hold_failure_of(earlier, i, report);
        let at = choose|at: int| 0 <= at < failures(earlier).len() && failures(earlier)[at] == report;
        assert(failures(jobs)[at] == report);
    } else {
        let at = choose|at: int|
            0 <= at < failure_of(jobs[i]).len() && failure_of(jobs[i])[at] == report;
        assert(failures(jobs)[failures(earlier).len() + at] == report);
    }
}

/// A response that shows every job finished and some failed ends the build
/// with the exit code of failure, and of each failed job the error stream
/// is told the message and the technical detail, as far as the job has them.
pub proof fn failures_are_told(state: MonitorView, response: BuildStatusResponseView, i: int)
    requires
        response.all_finished,
        response.any_failed,
        0 <= i < response.jobs.len(),
        response.jobs[i].status == failed(),
    ensures
        next_step(response) == (Next::Exit { code: EXIT_JOB_FAILED }),
        response.jobs[i].fail_message matches Some(message) ==> state.reports(response).contains(
            ReportView::FailureMessage { name: response.jobs[i].name, message },
        ),
        response.jobs[i].technical_error matches Some(detail) ==> state.reports(
            response,
        ).contains(ReportView::TechnicalDetails { detail }),
{
    let job = response.jobs[i];
    let reports = state.reports(response);
    let lead = progress(state.seen, response.jobs, state.heartbeat()) + initializing(
        state.job_ids,
        response.jobs,
        state.heartbeat(),
    ) + seq![ReportView::BuildCompleted];
    assert(reports =~= lead + failures(response.jobs));
    if let Some(message) = job.fail_message {
        let report = ReportView::FailureMessage { name: job.name, message };
        assert(failure_of(job)[0] == report);
        failures_hold_failure_of(response.jobs, i, report);
        let at = choose|at: int|
            0 <= at < failures(response.jobs).len() && failures(response.jobs)[at] == report;
        assert(reports[lead.len() + at] == report);
    }
    if let Some(detail) = job.technical_error {
        let report = ReportView::TechnicalDetails { detail };
        assert(failure_of(job).last() == report);
        failures_hold_failure_of(response.jobs, i, report);
        let at = choose|at: int|
            0 <= at < failures(response.jobs).len() && failures(response.jobs)[at] == report;
        assert(reports[lead.len() + at] == report);
    }
}

/// While the service shows jobs unfinished, polling goes on, whatever has
/// failed so far, and nothing is said of the build as a whole.
pub proof fn unfinished_build_is_polled_again(state: MonitorView, response: BuildStatusResponseView)
    requires
        !response.all_finished,
    ensures
        next_step(response) is PollAfter,
        closing(response).len() == 0,
        state.after(response).iteration == state.iteration + 1,
{
}

} // verus!
