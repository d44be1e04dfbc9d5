//! The message that tells the user how a run ended.
use crate::campaign::CampaignError;
use crate::cookies::ExtractError;
use crate::run::RunError;
use vstd::prelude::*;

verus! {

/// A notification: its summary line and its body.
pub struct UserMessage {
    pub summary: String,
    pub body: String,
}

/// The text of a run error.
pub open spec fn error_text(e: RunError) -> Seq<char> {
    match e {
        RunError::Extract(ExtractError::StoreUnavailable) => "the cookie store could not be opened"@,
        RunError::Extract(ExtractError::NotFound) => "the required cookie was not found"@,
        RunError::ClientBuild { cause, .. } => "the client could not be built: "@ + cause@,
        RunError::Request { error: CampaignError::RequestFailed { cause, .. }, .. } => "a request failed: "@ + cause@,
    }
}

/// The text of a run error.
pub fn error_message(e: &RunError) -> (r: String)
    ensures
        r@ == error_text(*e),
{
    match e {
        RunError::Extract(ExtractError::StoreUnavailable) => String::from_str("the cookie store could not be opened"),
        RunError::Extract(ExtractError::NotFound) => String::from_str("the required cookie was not found"),
        RunError::ClientBuild { cause, .. } => String::from_str("the client could not be built: ").concat(cause.as_str()),
        RunError::Request { error: CampaignError::RequestFailed { cause, .. }, .. } => String::from_str(
            "a request failed: ",
        ).concat(cause.as_str()),
    }
}

/// The message for a run's result: a fixed confirmation on success, the
/// error's text after a fixed prefix on failure.
pub fn report(result: &Result<(), RunError>) -> (r: UserMessage)
    ensures
        r.summary@ == "Reward bing"@,
        result is Ok ==> r.body@ == "Bing reward completed successfully."@,
        result matches Err(e) ==> r.body@ == "Bing reward failed: "@ + error_text(*e),
{
    let summary = String::from_str("Reward bing");
    match result {
        Ok(()) => UserMessage { summary, body: String::from_str("Bing reward completed successfully.") },
        Err(e) => UserMessage {
            summary,
            body: String::from_str("Bing reward failed: ").concat(error_message(e).as_str()),
        },
    }
}

} // verus!
