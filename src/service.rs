//! What the notification service answers, and how each answer is judged.
use vstd::prelude::*;

verus! {

/// The decoded answer to a submission.
pub struct NotificationResult {
    /// 1 when the notification was accepted.
    pub status: u32,
    /// Identifier of the request, for diagnostics.
    pub request: String,
    /// Receipt identifier; empty when no acknowledgment is tracked.
    pub receipt: String,
    /// Error strings reported by the service.
    pub errors: Vec<String>,
}

/// The decoded answer to a receipt query.
pub struct ReceiptStatus {
    pub status: u32,
    pub acknowledged: u32,
    pub acknowledged_at: u32,
    pub acknowledged_by: String,
    pub acknowledged_by_device: String,
    pub last_delivered_at: u32,
    pub expired: u32,
    pub expires_at: u32,
    pub called_back: u32,
    pub called_back_at: u32,
}

/// A submission that the service refused, with its error strings verbatim.
pub enum SubmitError {
    Service(Vec<String>),
}

/// A receipt query that did not succeed, for whatever reason.
#[derive(PartialEq, Eq, Structural, Clone, Copy, Debug)]
pub enum ReceiptQueryError {
    Failed,
}

/// Judges a submission answer: accepted when its status is 1, else the
/// service's errors are handed back unchanged.
pub fn submission_outcome(response: NotificationResult) -> (r: Result<NotificationResult, SubmitError>)
    ensures
        response.status == 1 <==> r is Ok,
        r matches Ok(ok) ==> ok == response,
        r matches Err(SubmitError::Service(errors)) ==> errors == response.errors,
{
    if response.status == 1 {
        Ok(response)
    } else {
        Err(SubmitError::Service(response.errors))
    }
}

/// Judges a receipt answer: usable only when its status is 1.
pub fn receipt_outcome(status: ReceiptStatus) -> (r: Result<ReceiptStatus, ReceiptQueryError>)
    ensures
        status.status == 1 <==> r is Ok,
        r matches Ok(ok) ==> ok == status,
{
    if status.status == 1 {
        Ok(status)
    } else {
        Err(ReceiptQueryError::Failed)
    }
}

pub open spec fn receipt_url_text(receipt: Seq<char>, token: Seq<char>) -> Seq<char> {
    "https://api.pushover.net/1/receipts/"@ + receipt + ".json?token="@ + token
}

/// The address that reports the status of `receipt`, scoped to the
/// application token alone.
pub fn receipt_url(receipt: &str, token: &str) -> (r: String)
    ensures
        r@ == receipt_url_text(receipt@, token@),
{
    let mut url = String::from_str("https://api.pushover.net/1/receipts/");
    url.append(receipt);
    url.append(".json?token=");
    url.append(token);
    url
}

} // verus!
