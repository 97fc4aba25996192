use vstd::prelude::*;
use crate::schemas::GenericResponse;
use crate::text::push_str;

verus! {

/// Why a bearer token was refused.
pub enum CustomJWTTokenError {
    /// The token's expiry instant has been reached.
    Expired,
    /// Anything else: malformed token, wrong algorithm, bad signature, missing
    /// or ill-typed claim.
    Invalid(String),
}

impl CustomJWTTokenError {
    /// The text shown for this error.
    pub fn message(&self) -> (r: String)
        ensures
            (self matches CustomJWTTokenError::Expired) ==> r@ == "Token expired"@,
            self matches CustomJWTTokenError::Invalid(m) ==> r@ == m@,
    {
        match self {
            CustomJWTTokenError::Expired => "Token expired".to_owned(),
            CustomJWTTokenError::Invalid(m) => m.clone(),
        }
    }
}

/// The three kinds of failure a request can end in.
pub enum GenericError {
    /// Bad or missing input: HTTP 400.
    ValidationError(String),
    /// Store or other internal failure: HTTP 500.
    UnexpectedError(String),
    /// Missing, malformed or expired bearer token: HTTP 401.
    InvalidJWT(String),
}

/// The HTTP status that each kind of error is answered with.
pub open spec fn status_of(e: GenericError) -> u16 {
    match e {
        GenericError::ValidationError(_) => 400,
        GenericError::UnexpectedError(_) => 500,
        GenericError::InvalidJWT(_) => 401,
    }
}

/// The text carried by an error.
pub open spec fn message_of(e: GenericError) -> Seq<char> {
    match e {
        GenericError::ValidationError(m) => m@,
        GenericError::UnexpectedError(m) => m@,
        GenericError::InvalidJWT(m) => m@,
    }
}

/// The text a client is shown for an error: internal causes stay on the server.
pub open spec fn customer_text(e: GenericError) -> Seq<char> {
    match e {
        GenericError::UnexpectedError(_) => "Internal Server Error"@,
        _ => message_of(e),
    }
}

/// Decimal text of the three statuses used by this service.
pub open spec fn status_text(code: u16) -> Seq<char> {
    if code == 400 {
        "400"@
    } else if code == 401 {
        "401"@
    } else {
        "500"@
    }
}

impl GenericError {
    /// HTTP status of the response that reports this error.
    pub fn status_code(&self) -> (r: u16)
        ensures
            r == status_of(*self),
    {
        match self {
            GenericError::ValidationError(_) => 400,
            GenericError::UnexpectedError(_) => 500,
            GenericError::InvalidJWT(_) => 401,
        }
    }

    /// The text carried by this error.
    pub fn message(&self) -> (r: String)
        ensures
            r@ == message_of(*self),
    {
        match self {
            GenericError::ValidationError(m) => m.clone(),
            GenericError::UnexpectedError(m) => m.clone(),
            GenericError::InvalidJWT(m) => m.clone(),
        }
    }

    /// The envelope sent back for this error: `status` false, the text the client
    /// may see, the HTTP status as text, and an empty payload.
    pub fn error_response(&self) -> (r: GenericResponse<()>)
        ensures
            !r.status,
            r.customer_message@ == customer_text(*self),
            r.code@ == status_text(status_of(*self)),
            r.data == Some(()),
    {
        let message = match self {
            GenericError::UnexpectedError(_) => "Internal Server Error".to_owned(),
            _ => self.message(),
        };
        let code = match self {
            GenericError::ValidationError(_) => "400",
            GenericError::UnexpectedError(_) => "500",
            GenericError::InvalidJWT(_) => "401",
        };
        GenericResponse::error(message.as_str(), code, Some(()))
    }
}

/// The lines that name each cause of an error, innermost last.
pub open spec fn causes_text(causes: Seq<Seq<char>>) -> Seq<char>
    decreases causes.len(),
{
    if causes.len() == 0 {
        Seq::empty()
    } else {
        causes_text(causes.drop_last()) + "Caused by:\n\t"@ + causes.last() + "\n"@
    }
}

/// An error's report: its own message and a blank line, then one entry per cause.
pub open spec fn chain_text(chain: Seq<Seq<char>>) -> Seq<char> {
    if chain.len() == 0 {
        Seq::empty()
    } else {
        chain[0] + "\n\n"@ + causes_text(chain.drop_first())
    }
}

/// Formats an error and its chain of causes. `chain` holds the error's message
/// first, then the message of each cause in turn.
pub fn error_chain_fmt(chain: &Vec<String>) -> (r: String)
    ensures
        r@ == chain_text(chain@.map_values(|m: String| m@)),
{
    let ghost msgs = chain@.map_values(|m: String| m@);
    if chain.len() == 0 {
        return String::new();
    }
    let mut out = chain[0].clone();
    push_str(&mut out, "\n\n");
    let mut i: usize = 1;
    while i < chain.len()
        invariant
            1 <= i <= chain@.len(),
            msgs == chain@.map_values(|m: String| m@),
            out@ == msgs[0] + "\n\n"@ + causes_text(msgs.subrange(1, i as int)),
        decreases chain@.len() - i,
    {
        push_str(&mut out, "Caused by:\n\t");
        push_str(&mut out, chain[i].as_str());
        push_str(&mut out, "\n");
        proof {
            let next = msgs.subrange(1, i + 1);
            assert(next.drop_last() =~= msgs.subrange(1, i as int));
            assert(next.last() == chain@[i as int]@);
        }
        i = i + 1;
    }
    proof {
        assert(msgs.subrange(1, msgs.len() as int) =~= msgs.drop_first());
    }
    out
}

} // verus!
