//! The payout that follows a successful claim: its amount, its request, and what the currency
//! service's answer means.

use crate::calendar::CivilDate;
use crate::key::{date_chars, date_text};
use vstd::prelude::*;
use vstd::string::StringExecFns;

verus! {

/// Currency paid for each day of the streak.
pub const DAILY_BONUS_MULTIPLIER: u32 = 128;

/// The body of a payout request: an amount and the reason it is paid.
#[derive(Debug)]
pub struct PayoutRequestBody {
    pub amount: u32,
    pub reason: String,
}

impl PayoutRequestBody {
    pub fn new(amt: u32, reason: &str) -> (r: PayoutRequestBody)
        ensures
            r.amount == amt,
            r.reason@ == reason@,
    {
        PayoutRequestBody { amount: amt, reason: String::from_str(reason) }
    }
}

/// The amount paid for a streak, when it fits in a `u32`.
pub fn payout_amount(streak: u32) -> (r: Option<u32>)
    ensures
        r is Some <==> 128 * streak <= u32::MAX,
        r matches Some(a) ==> a == 128 * streak,
{
    if streak <= u32::MAX / DAILY_BONUS_MULTIPLIER {
        Some(DAILY_BONUS_MULTIPLIER * streak)
    } else {
        None
    }
}

pub open spec fn reason_chars(today: CivilDate) -> Seq<char> {
    "DAILY_BONUS DATE="@ + date_chars(today)
}

/// The payout request for a claim on `today` that reached `streak`; `None` when the amount does
/// not fit in a `u32`.
pub fn daily_bonus_request(streak: u32, today: &CivilDate) -> (r: Option<PayoutRequestBody>)
    requires
        today.wf(),
    ensures
        r is Some <==> 128 * streak <= u32::MAX,
        r matches Some(b) ==> b.amount == 128 * streak && b.reason@ == reason_chars(*today),
{
    let amount = match payout_amount(streak) {
        Some(a) => a,
        None => return None,
    };
    let mut reason = String::from_str("DAILY_BONUS DATE=");
    let date = date_text(today);
    reason.append(date.as_str());
    Some(PayoutRequestBody::new(amount, reason.as_str()))
}

/// Why a payout did not go through.
#[derive(Debug)]
pub enum PayoutFailure {
    /// The currency service could not be reached.
    RequestFailed,
    /// The credential does not identify a player.
    Unauthorized,
    /// The currency service answered unexpectedly; holds what is known of it.
    Internal(String),
}

pub open spec fn conflict_payout_text() -> Seq<char> {
    "This should not happen for a point increase."@
}

pub open spec fn internal_payout_text() -> Seq<char> {
    "Internal server error with payout service."@
}

impl PayoutFailure {
    pub open spec fn message_chars(&self) -> Seq<char> {
        match self {
            PayoutFailure::RequestFailed => "Could not reach the currency microservice."@,
            PayoutFailure::Unauthorized => "Token authentication failed."@,
            PayoutFailure::Internal(m) => m@,
        }
    }

    pub fn message(&self) -> (r: String)
        ensures
            r@ == self.message_chars(),
    {
        match self {
            PayoutFailure::RequestFailed => String::from_str(
                "Could not reach the currency microservice.",
            ),
            PayoutFailure::Unauthorized => String::from_str("Token authentication failed."),
            PayoutFailure::Internal(m) => m.clone(),
        }
    }
}

/// What the currency service's HTTP status says of a payout: 200 paid, 401 an unknown player,
/// 409 an impossible conflict, anything else an internal fault.
pub fn payout_status_outcome(status: u16) -> (r: Result<(), PayoutFailure>)
    ensures
        r is Ok <==> status == 200,
        status == 401 ==> r matches Err(PayoutFailure::Unauthorized),
        status == 409 ==> (r matches Err(PayoutFailure::Internal(m)) && m@ == conflict_payout_text()),
        status != 200 && status != 401 && status != 409 ==> (r matches Err(
            PayoutFailure::Internal(m),
        ) && m@ == internal_payout_text()),
{
    if status == 200 {
        Ok(())
    } else if status == 401 {
        Err(PayoutFailure::Unauthorized)
    } else if status == 409 {
        Err(PayoutFailure::Internal(String::from_str("This should not happen for a point increase.")))
    } else {
        Err(PayoutFailure::Internal(String::from_str("Internal server error with payout service.")))
    }
}

} // verus!
