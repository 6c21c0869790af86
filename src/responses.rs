//! The bodies of the service's answers, and the HTTP status that each failure maps to.

use crate::auth::{AuthHeaderFailure, TokenAuthnFailure};
use crate::engine::RedisFailure;
use crate::payout::PayoutFailure;
use vstd::prelude::*;
use vstd::string::StringExecFns;

verus! {

/// The answer to a request that could not be completed.
#[derive(Debug)]
pub struct MessageResponse {
    pub message: String,
}

impl MessageResponse {
    pub fn new(message: &str) -> (r: MessageResponse)
        ensures
            r.message@ == message@,
    {
        MessageResponse { message: String::from_str(message) }
    }
}

/// The answer to a check: whether today's bonus is available, and the current streak.
#[derive(Clone, Copy, Debug, PartialEq, Eq, Structural)]
pub struct CheckResponse {
    pub available: bool,
    pub streak: u32,
}

impl CheckResponse {
    pub fn new(tup: (bool, u32)) -> (r: CheckResponse)
        ensures
            r.available == tup.0,
            r.streak == tup.1,
    {
        CheckResponse { available: tup.0, streak: tup.1 }
    }
}

/// The answer to a successful claim: the streak it reached.
#[derive(Clone, Copy, Debug, PartialEq, Eq, Structural)]
pub struct StreakResponse {
    pub streak: u32,
}

impl StreakResponse {
    pub fn new(streak: u32) -> (r: StreakResponse)
        ensures
            r.streak == streak,
    {
        StreakResponse { streak: streak }
    }
}

pub const STATUS_UNAUTHORIZED: u16 = 401;

pub const STATUS_CONFLICT: u16 = 409;

pub const STATUS_INTERNAL_SERVER_ERROR: u16 = 500;

/// A failed claim: a conflict is the caller's to stop retrying; anything else is a server fault.
pub fn claim_failure_status(f: &RedisFailure) -> (r: u16)
    ensures
        r == (if *f is Conflict {
            409u16
        } else {
            500u16
        }),
{
    match f {
        RedisFailure::Conflict => STATUS_CONFLICT,
        _ => STATUS_INTERNAL_SERVER_ERROR,
    }
}

/// A failed payout: an unknown player is unauthorized; anything else is a server fault.
pub fn payout_failure_status(f: &PayoutFailure) -> (r: u16)
    ensures
        r == (if *f is Unauthorized {
            401u16
        } else {
            500u16
        }),
{
    match f {
        PayoutFailure::Unauthorized => STATUS_UNAUTHORIZED,
        _ => STATUS_INTERNAL_SERVER_ERROR,
    }
}

/// The answer to a request whose header yields no credential.
pub fn auth_header_failure_response(f: &AuthHeaderFailure) -> (r: (u16, MessageResponse))
    ensures
        r.0 == 401,
        r.1.message@ == f.message_chars(),
{
    (STATUS_UNAUTHORIZED, MessageResponse { message: f.message() })
}

/// The answer to a request whose credential the identity service did not resolve.
pub fn token_failure_response(f: &TokenAuthnFailure) -> (r: (u16, MessageResponse))
    ensures
        r.0 == 401,
        r.1.message@ == f.message_chars(),
{
    (STATUS_UNAUTHORIZED, MessageResponse { message: f.message() })
}

} // verus!
