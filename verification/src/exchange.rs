use vstd::prelude::*;
use crate::text::dec_rep;
use crate::text::usize_to_string;

verus! {

/// What the token-exchange endpoint is asked: the authorization code, the
/// redirect URL the code was delivered on, and the PKCE verifier.
pub struct ExchangeCodeRequest {
    pub code: String,
    pub redirect_uri: String,
    pub code_verifier: String,
}

/// What a successful token-exchange answer carries. The refresh and id
/// tokens may be empty; `expires_in` counts seconds from receipt.
pub struct ExchangeCodeResponse {
    pub access_token: String,
    pub refresh_token: String,
    pub id_token: String,
    pub expires_in: i64,
    pub token_type: String,
}

/// Why a token exchange failed.
pub enum ExchangeError {
    /// The endpoint answered with a non-2xx status; carries it and the body.
    HttpStatus(u16, String),
    /// The body did not parse as a token response; carries the raw body.
    ParseError(String),
    /// The response parsed but carried an empty access token.
    MissingAccessToken,
}

/// The diagnostic line for each exchange failure.
pub open spec fn exchange_error_message(e: ExchangeError) -> Seq<char> {
    match e {
        ExchangeError::HttpStatus(status, body) => "HTTP "@ + dec_rep(status as nat) + " | "@
            + body@,
        ExchangeError::ParseError(body) => "could not parse the token response | body: "@ + body@,
        ExchangeError::MissingAccessToken => "the response carried no access token"@,
    }
}

impl ExchangeError {
    /// Renders the diagnostic line for this failure.
    pub fn message(&self) -> (r: String)
        ensures
            r@ == exchange_error_message(*self),
    {
        match self {
            ExchangeError::HttpStatus(status, body) => {
                let mut m = String::from_str("HTTP ");
                let st = usize_to_string(*status as usize);
                m.append(st.as_str());
                m.append(" | ");
                m.append(body.as_str());
                proof {
                    assert(m@ =~= exchange_error_message(*self));
                }
                m
            },
            ExchangeError::ParseError(body) => {
                let mut m = String::from_str("could not parse the token response | body: ");
                m.append(body.as_str());
                proof {
                    assert(m@ =~= exchange_error_message(*self));
                }
                m
            },
            ExchangeError::MissingAccessToken => String::from_str(
                "the response carried no access token",
            ),
        }
    }
}

/// A status in the 2xx range reports success.
pub open spec fn is_success_status(status: u16) -> bool {
    200 <= status < 300
}

/// Classifies what the token-exchange endpoint answered. `parsed` is the
/// token response the caller decoded from `body`, or `None` where the body
/// does not decode into that shape. A non-2xx status fails with the status
/// and the body; an undecodable body fails with the body; an empty access
/// token fails; everything else is the decoded response.
pub fn interpret_exchange_reply(
    status: u16,
    body: String,
    parsed: Option<ExchangeCodeResponse>,
) -> (r: Result<ExchangeCodeResponse, ExchangeError>)
    ensures
        ({
            if !is_success_status(status) {
                r matches Err(e) && (e matches ExchangeError::HttpStatus(s, b) && s == status && b
                    == body)
            } else {
                match parsed {
                    None => r matches Err(e) && (e matches ExchangeError::ParseError(b) && b
                        == body),
                    Some(resp) => if resp.access_token@.len() == 0 {
                        r matches Err(e) && e is MissingAccessToken
                    } else {
                        r matches Ok(t) && t == resp
                    },
                }
            }
        }),
{
    if !(200 <= status && status < 300) {
        return Err(ExchangeError::HttpStatus(status, body));
    }
    match parsed {
        None => Err(ExchangeError::ParseError(body)),
        Some(resp) => {
            if resp.access_token.as_str().is_empty() {
                Err(ExchangeError::MissingAccessToken)
            } else {
                Ok(resp)
            }
        },
    }
}

} // verus!
