//! How the long-running services end, and what is reported when they do.
use vstd::prelude::*;

use crate::error::Error;
use crate::text::{decimal, joined};
use tokio::task::JoinError;

verus! {

#[verifier::external_type_specification]
#[verifier::external_body]
pub struct ExJoinError(tokio::task::JoinError);

/// How a service ended.
#[derive(Debug, PartialEq, Eq)]
pub enum TaskResultKind {
    /// Its work returned without error.
    Completed,
    /// Its work returned this error.
    Failed(Error),
    /// It was told to stop.
    Shutdown,
}

/// A service's name and how it ended.
#[derive(Debug, PartialEq, Eq)]
pub struct TaskResult(pub String, pub TaskResultKind);

/// How serious a report is.
#[derive(Debug, PartialEq, Eq, Clone, Copy)]
pub enum ReportLevel {
    Info,
    Error,
}

/// A line for the log.
#[derive(Debug, PartialEq, Eq)]
pub struct ServiceReport {
    pub level: ReportLevel,
    pub message: String,
}

/// What follows the task id in the text of a join error: " was cancelled",
/// " panicked", or " panicked with message " and the message quoted.
pub open spec fn is_join_error_tail(tail: Seq<char>) -> bool {
    ||| tail == " was cancelled"@
    ||| tail == " panicked"@
    ||| (tail.len() >= 25 && tail.take(24) == " panicked with message \""@ && tail.last() == '"')
}

/// The text of a join error: "task ", the task id in decimal (an id is never 0),
/// and one of the tails above.
pub open spec fn is_join_error_text(text: Seq<char>) -> bool {
    exists|id: nat, tail: Seq<char>|
        #![trigger is_join_error_tail(tail), decimal(id)]
        id >= 1 && is_join_error_tail(tail) && text == "task "@ + decimal(id) + tail
}

/// Calls the `Display` of tokio's `JoinError`. Its source writes "task {id} was
/// cancelled", "task {id} panicked" or "task {id} panicked with message {:?}", where
/// the id is a non-zero `u64` written in decimal and the message is a string in its
/// quoted `Debug` form. Which form, which id and which message depend on the
/// runtime and are not stated.
#[verifier::external_body]
fn join_error_text(e: &JoinError) -> (r: String)
    ensures
        is_join_error_text(r@),
{
    format!("{}", e)
}

/// The result of a service task: how the service's work ended (`Some`), or that the
/// shutdown signal came first (`None`).
pub fn service_task_result(service_name: &str, finished: Option<Result<(), Error>>) -> (r:
    TaskResult)
    ensures
        r.0@ == service_name@,
        match finished {
            None => r.1 == TaskResultKind::Shutdown,
            Some(Ok(())) => r.1 == TaskResultKind::Completed,
            Some(Err(e)) => r.1 == TaskResultKind::Failed(e),
        },
{
    let name = String::from_str(service_name);
    match finished {
        None => TaskResult(name, TaskResultKind::Shutdown),
        Some(Ok(())) => TaskResult(name, TaskResultKind::Completed),
        Some(Err(e)) => TaskResult(name, TaskResultKind::Failed(e)),
    }
}

/// The report for a service task that panicked or was cancelled, given the text of
/// its join error.
pub fn service_panic_report(join_error: &str) -> (r: ServiceReport)
    ensures
        r.level == ReportLevel::Error,
        r.message@ == "Service task paniched: "@ + join_error@,
{
    ServiceReport {
        level: ReportLevel::Error,
        message: joined("Service task paniched: ", join_error),
    }
}

/// What to log when a service task has been joined. For a join error, the message
/// is `service_panic_report` of the error's text, which tokio renders with the
/// runtime's task id.
pub fn handle_service_result(result: Result<TaskResult, JoinError>) -> (r: ServiceReport)
    ensures
        match result {
            Ok(TaskResult(name, TaskResultKind::Completed)) => r.level == ReportLevel::Info
                && r.message@ == name@ + " service completed without failure"@,
            Ok(TaskResult(name, TaskResultKind::Failed(e))) => r.level == ReportLevel::Error
                && r.message@ == name@ + " service failed with error: "@ + e.description_spec(),
            Ok(TaskResult(name, TaskResultKind::Shutdown)) => r.level == ReportLevel::Info
                && r.message@ == name@ + " service shutdown"@,
            Err(_) => r.level == ReportLevel::Error && exists|text: Seq<char>|
                is_join_error_text(text) && r.message@ == "Service task paniched: "@ + text,
        },
{
    match result {
        Ok(TaskResult(name, TaskResultKind::Completed)) => ServiceReport {
            level: ReportLevel::Info,
            message: joined(name.as_str(), " service completed without failure"),
        },
        Ok(TaskResult(name, TaskResultKind::Failed(e))) => {
            let mut message = joined(name.as_str(), " service failed with error: ");
            let description = e.description();
            message.append(description.as_str());
            ServiceReport { level: ReportLevel::Error, message }
        },
        Ok(TaskResult(name, TaskResultKind::Shutdown)) => ServiceReport {
            level: ReportLevel::Info,
            message: joined(name.as_str(), " service shutdown"),
        },
        Err(e) => {
            let text = join_error_text(&e);
            let report = service_panic_report(text.as_str());
            assert(is_join_error_text(text@) && report.message@ == "Service task paniched: "@
                + text@);
            report
        },
    }
}

} // verus!
