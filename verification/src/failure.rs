//! Critical failures: fatal, notified errors that halt the scheduler.
use vstd::prelude::*;
use vstd::string::*;

verus! {

/// A fatal error: carries a human-readable subject, a diagnostic message and
/// the wall-clock time at which it was raised. It terminates the scheduler
/// after one best-effort notification attempt and is never retried.
#[derive(Debug)]
pub struct CriticalFailure {
    pub subject: String,
    pub message: String,
    pub timestamp: String,
}

/// The diagnostic body: the fixed context line, then the underlying error
/// detail, then the time of the failure.
pub open spec fn failure_body(context: Seq<char>, detail: Seq<char>, timestamp: Seq<char>) -> Seq<
    char,
> {
    context + "\nerror detail: "@ + detail + "\nerror time: "@ + timestamp
}

/// Relies on chrono's `Local::now` and `DateTime::format` to render the
/// current wall-clock time as `YYYY-MM-DD hh:mm:ss`. The result depends on the
/// clock, so nothing is claimed about it.
#[verifier::external_body]
pub(crate) fn current_timestamp() -> String {
    chrono::Local::now().format("%Y-%m-%d %H:%M:%S").to_string()
}

/// Builds the failure value for a given subject, fixed context message and
/// underlying error detail, stamped with the current wall-clock time.
pub fn critical_failure_now(subject: &str, context: &str, detail: &str) -> (f: CriticalFailure)
    ensures
        f.subject@ == subject@,
        f.message@ == failure_body(context@, detail@, f.timestamp@),
{
    let timestamp = current_timestamp();
    let mut message = String::from_str(context);
    message.append("\nerror detail: ");
    message.append(detail);
    message.append("\nerror time: ");
    message.append(timestamp.as_str());
    CriticalFailure { subject: String::from_str(subject), message, timestamp }
}

} // verus!
