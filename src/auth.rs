//! Reading the bearer credential of a request, and what the identity service's answer means.

use vstd::prelude::*;
use vstd::string::{StrSliceExecFns, StringExecFns};

verus! {

/// Why the `Authorization` header did not yield a credential.
#[derive(Clone, Copy, Debug, PartialEq, Eq, Structural)]
pub enum AuthHeaderFailure {
    /// The value holds characters other than visible ASCII and tab.
    Nonparceable,
    /// There is no `Authorization` header.
    NotFound,
    /// The value does not start with `Bearer `.
    NoPrefix,
}

impl AuthHeaderFailure {
    pub open spec fn message_chars(&self) -> Seq<char> {
        match self {
            AuthHeaderFailure::Nonparceable => "Authorization header value could not be parsed."@,
            AuthHeaderFailure::NotFound => "Authorization header is missing."@,
            AuthHeaderFailure::NoPrefix => "Authorization header missing \"Bearer \" prefix."@,
        }
    }

    pub fn message(&self) -> (r: String)
        ensures
            r@ == self.message_chars(),
    {
        match self {
            AuthHeaderFailure::Nonparceable => String::from_str(
                "Authorization header value could not be parsed.",
            ),
            AuthHeaderFailure::NotFound => String::from_str("Authorization header is missing."),
            AuthHeaderFailure::NoPrefix => String::from_str(
                "Authorization header missing \"Bearer \" prefix.",
            ),
        }
    }
}

/// A character that a header value may hold as text: visible ASCII or tab.
pub open spec fn visible_ascii(c: char) -> bool {
    c == '\t' || (32 <= (c as u32) && (c as u32) < 127)
}

pub open spec fn bearer_prefix() -> Seq<char> {
    seq!['B', 'e', 'a', 'r', 'e', 'r', ' ']
}

/// The credential in an `Authorization` header value: what follows `Bearer `.
pub open spec fn authn_token_of(header: Option<Seq<char>>) -> Result<Seq<char>, AuthHeaderFailure> {
    match header {
        None => Err(AuthHeaderFailure::NotFound),
        Some(h) => if !(forall|i: int| 0 <= i < h.len() ==> visible_ascii(#[trigger] h[i])) {
            Err(AuthHeaderFailure::Nonparceable)
        } else if h.len() >= 7 && h.subrange(0, 7) == bearer_prefix() {
            Ok(h.subrange(7, h.len() as int))
        } else {
            Err(AuthHeaderFailure::NoPrefix)
        },
    }
}

pub open spec fn header_chars(header: Option<&str>) -> Option<Seq<char>> {
    match header {
        Some(h) => Some(h@),
        None => None,
    }
}

/// Takes the bearer credential out of the `Authorization` header value, `None` when the header
/// is missing.
pub fn extract_authn_token(header: Option<&str>) -> (r: Result<String, AuthHeaderFailure>)
    ensures
        r matches Ok(t) ==> authn_token_of(header_chars(header)) == Ok::<
            Seq<char>,
            AuthHeaderFailure,
        >(t@),
        r matches Err(f) ==> authn_token_of(header_chars(header)) == Err::<
            Seq<char>,
            AuthHeaderFailure,
        >(f),
{
    match header {
        None => Err(AuthHeaderFailure::NotFound),
        Some(h) => token_after_bearer(h),
    }
}

fn token_after_bearer(h: &str) -> (r: Result<String, AuthHeaderFailure>)
    ensures
        r matches Ok(t) ==> authn_token_of(Some(h@)) == Ok::<Seq<char>, AuthHeaderFailure>(t@),
        r matches Err(f) ==> authn_token_of(Some(h@)) == Err::<Seq<char>, AuthHeaderFailure>(f),
{
    let n = h.unicode_len();
    let mut i: usize = 0;
    while i < n
        invariant
            n == h@.len(),
            i <= n,
            forall|j: int| 0 <= j < i ==> visible_ascii(#[trigger] h@[j]),
        decreases n - i,
    {
        let c = h.get_char(i);
        if !(c == '\t' || (32 <= (c as u32) && (c as u32) < 127)) {
            assert(!visible_ascii(h@[i as int]));
            return Err(AuthHeaderFailure::Nonparceable);
        }
        i = i + 1;
    }
    if n < 7 {
        return Err(AuthHeaderFailure::NoPrefix);
    }
    let mut k: usize = 0;
    while k < 7
        invariant
            n == h@.len(),
            n >= 7,
            k <= 7,
            forall|j: int| 0 <= j < n ==> visible_ascii(#[trigger] h@[j]),
            forall|j: int| 0 <= j < k ==> h@[j] == bearer_prefix()[j],
        decreases 7 - k,
    {
        let c = h.get_char(k);
        let want = if k == 0 {
            'B'
        } else if k == 1 {
            'e'
        } else if k == 2 {
            'a'
        } else if k == 3 {
            'r'
        } else if k == 4 {
            'e'
        } else if k == 5 {
            'r'
        } else {
            ' '
        };
        if c != want {
            assert(h@.subrange(0, 7)[k as int] != bearer_prefix()[k as int]);
            return Err(AuthHeaderFailure::NoPrefix);
        }
        k = k + 1;
    }
    assert(h@.subrange(0, 7) =~= bearer_prefix());
    let rest = h.substring_char(7, n);
    Ok(String::from_str(rest))
}

/// Why the identity service did not resolve a credential to a player.
#[derive(Clone, Copy, Debug, PartialEq, Eq, Structural)]
pub enum TokenAuthnFailure {
    /// The identity service could not be reached.
    RequestFailed,
    /// The credential does not identify a player.
    BadToken,
}

impl TokenAuthnFailure {
    pub open spec fn message_chars(&self) -> Seq<char> {
        match self {
            TokenAuthnFailure::RequestFailed => "Could not reach the player microservice to authenticate token."@,
            TokenAuthnFailure::BadToken => "The provided token could not be used to authenticate the player."@,
        }
    }

    pub fn message(&self) -> (r: String)
        ensures
            r@ == self.message_chars(),
    {
        match self {
            TokenAuthnFailure::RequestFailed => String::from_str(
                "Could not reach the player microservice to authenticate token.",
            ),
            TokenAuthnFailure::BadToken => String::from_str(
                "The provided token could not be used to authenticate the player.",
            ),
        }
    }
}

/// What the identity service's HTTP status says: 200 resolves the player (whose identifier is
/// in the body), any other status rejects the credential.
pub fn authn_status_outcome(status: u16) -> (r: Result<(), TokenAuthnFailure>)
    ensures
        r is Ok <==> status == 200,
        r is Err ==> r == Err::<(), TokenAuthnFailure>(TokenAuthnFailure::BadToken),
{
    if status == 200 {
        Ok(())
    } else {
        Err(TokenAuthnFailure::BadToken)
    }
}

} // verus!
