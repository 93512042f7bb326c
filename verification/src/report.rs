//! What the user is told while a build is triggered and followed.

use crate::text::{decimal, digits, signed, signed_decimal};
use vstd::prelude::*;
use vstd::string::StringExecFns;

verus! {

/// Something to tell the user while a build is triggered and followed.
#[derive(Clone, Debug, PartialEq, Eq)]
pub enum Report {
    /// A build is about to be requested, for one target or for all.
    Triggering { package_id: i32, version: String, target: Option<String> },
    /// The service accepted the build request and created `jobs` jobs.
    Triggered { package_id: i32, version: String, jobs: usize },
    /// Polling begins.
    Waiting { jobs: usize },
    /// A job is running.
    Building { name: String },
    /// A job has finished.
    Completed { name: String },
    /// A job has failed.
    Failed { name: String, fail_message: Option<String> },
    /// Some requested jobs do not appear in the status response yet.
    Initializing { missing: usize },
    /// Every job has reached a terminal state.
    BuildCompleted,
    /// Every job finished without failing.
    AllSucceeded,
    /// Why a job failed; goes to the error stream.
    FailureMessage { name: String, message: String },
    /// Technical detail of a failure; goes to the error stream.
    TechnicalDetails { detail: String },
}

/// A [`Report`] as a mathematical value.
pub enum ReportView {
    Triggering { package_id: i32, version: Seq<char>, target: Option<Seq<char>> },
    Triggered { package_id: i32, version: Seq<char>, jobs: nat },
    Waiting { jobs: nat },
    Building { name: Seq<char> },
    Completed { name: Seq<char> },
    Failed { name: Seq<char>, fail_message: Option<Seq<char>> },
    Initializing { missing: nat },
    BuildCompleted,
    AllSucceeded,
    FailureMessage { name: Seq<char>, message: Seq<char> },
    TechnicalDetails { detail: Seq<char> },
}

impl ReportView {
    /// Whether the report goes to the error stream rather than to standard
    /// output.
    pub open spec fn is_error(self) -> bool {
        self is FailureMessage || self is TechnicalDetails
    }

    /// The text shown to the user, without the line break that ends it.
    pub open spec fn text(self) -> Seq<char> {
        match self {
            ReportView::Triggering { package_id, version, target: Some(target) } => {
                "Triggering build for package "@ + signed(package_id as int) + " version "@
                    + version + " (target: "@ + target + ")..."@
            },
            ReportView::Triggering { package_id, version, target: None } => {
                "Triggering build for package "@ + signed(package_id as int) + " version "@
                    + version + " (all targets)..."@
            },
            ReportView::Triggered { package_id, version, jobs } => {
                "Build triggered successfully for package "@ + signed(package_id as int)
                    + " version "@ + version + " ("@ + digits(jobs) + " job(s))"@
            },
            ReportView::Waiting { jobs } => {
                "Waiting for "@ + digits(jobs) + " build job(s) to complete..."@
            },
            ReportView::Building { name } => "  "@ + name + ": Building..."@,
            ReportView::Completed { name } => "  "@ + name + ": \u{2713} Completed"@,
            ReportView::Failed { name, fail_message: Some(message) } => {
                "  "@ + name + ": \u{2717} Failed"@ + "\n    Error: "@ + message
            },
            ReportView::Failed { name, fail_message: None } => "  "@ + name + ": \u{2717} Failed"@,
            ReportView::Initializing { missing } => {
                "  "@ + digits(missing) + " job(s) still initializing..."@
            },
            ReportView::BuildCompleted => "\nBuild completed!"@,
            ReportView::AllSucceeded => "All builds completed successfully!"@,
            ReportView::FailureMessage { name, message } => {
                "  "@ + name + " failed: "@ + message
            },
            ReportView::TechnicalDetails { detail } => "    Technical details: "@ + detail,
        }
    }
}

impl View for Report {
    type V = ReportView;

    open spec fn view(&self) -> ReportView {
        match self {
            Report::Triggering { package_id, version, target } => ReportView::Triggering {
                package_id: *package_id,
                version: version@,
                target: target.deep_view(),
            },
            Report::Triggered { package_id, version, jobs } => ReportView::Triggered {
                package_id: *package_id,
                version: version@,
                jobs: *jobs as nat,
            },
            Report::Waiting { jobs } => ReportView::Waiting { jobs: *jobs as nat },
            Report::Building { name } => ReportView::Building { name: name@ },
            Report::Completed { name } => ReportView::Completed { name: name@ },
            Report::Failed { name, fail_message } => ReportView::Failed {
                name: name@,
                fail_message: fail_message.deep_view(),
            },
            Report::Initializing { missing } => ReportView::Initializing {
                missing: *missing as nat,
            },
            Report::BuildCompleted => ReportView::BuildCompleted,
            Report::AllSucceeded => ReportView::AllSucceeded,
            Report::FailureMessage { name, message } => ReportView::FailureMessage {
                name: name@,
                message: message@,
            },
            Report::TechnicalDetails { detail } => ReportView::TechnicalDetails {
                detail: detail@,
            },
        }
    }
}

impl DeepView for Report {
    type V = ReportView;

    open spec fn deep_view(&self) -> ReportView {
        self@
    }
}

impl Report {
    /// Whether the report goes to the error stream rather than to standard
    /// output.
    pub fn is_error(&self) -> (error: bool)
        ensures
            error == self@.is_error(),
    {
        match self {
            Report::FailureMessage { .. } => true,
            Report::TechnicalDetails { .. } => true,
            _ => false,
        }
    }

    /// The text shown to the user, without the line break that ends it.
    pub fn text(&self) -> (text: String)
        ensures
            text@ == self@.text(),
    {
        match self {
            Report::Triggering { package_id, version, target } => {
                let id = signed_decimal(*package_id);
                let head = String::from_str("Triggering build for package ").concat(
                    id.as_str(),
                ).concat(" version ").concat(version.as_str());
                match target {
                    Some(target) => head.concat(" (target: ").concat(target.as_str()).concat(
                        ")...",
                    ),
                    None => head.concat(" (all targets)..."),
                }
            },
            Report::Triggered { package_id, version, jobs } => {
                let id = signed_decimal(*package_id);
                let count = decimal(*jobs as u64);
                String::from_str("Build triggered successfully for package ").concat(
                    id.as_str(),
                ).concat(" version ").concat(version.as_str()).concat(" (").concat(
                    count.as_str(),
                ).concat(" job(s))")
            },
            Report::Waiting { jobs } => {
                let count = decimal(*jobs as u64);
                String::from_str("Waiting for ").concat(count.as_str()).concat(
                    " build job(s) to complete...",
                )
            },
            Report::Building { name } => String::from_str("  ").concat(name.as_str()).concat(
                ": Building...",
            ),
            Report::Completed { name } => String::from_str("  ").concat(name.as_str()).concat(
                ": \u{2713} Completed",
            ),
            Report::Failed { name, fail_message } => {
                let head = String::from_str("  ").concat(name.as_str()).concat(
                    ": \u{2717} Failed",
                );
                match fail_message {
                    Some(message) => head.concat("\n    Error: ").concat(message.as_str()),
                    None => head,
                }
            },
            Report::Initializing { missing } => {
                let count = decimal(*missing as u64);
                String::from_str("  ").concat(count.as_str()).concat(
                    " job(s) still initializing...",
                )
            },
            Report::BuildCompleted => String::from_str("\nBuild completed!"),
            Report::AllSucceeded => String::from_str("All builds completed successfully!"),
            Report::FailureMessage { name, message } => String::from_str("  ").concat(
                name.as_str(),
            ).concat(" failed: ").concat(message.as_str()),
            Report::TechnicalDetails { detail } => String::from_str(
                "    Technical details: ",
            ).concat(detail.as_str()),
        }
    }
}

} // verus!
