use vstd::prelude::*;
use vstd::string::StringSliceAdditionalSpecFns;
use vstd::utf8::encode_utf8;
use crate::callback::CallbackOutcome;
use crate::exchange::ExchangeCodeRequest;
use crate::exchange::ExchangeCodeResponse;
use crate::exchange::ExchangeError;
use crate::exchange::exchange_error_message;
use crate::pkce::PkceParameters;
use crate::platform::now_unix;

verus! {

/// A byte that percent-encoding passes through unchanged: an ASCII letter
/// or digit, `-`, `.`, `_` or `~`.
pub open spec fn is_unreserved_byte(b: u8) -> bool {
    (48 <= b <= 57) || (65 <= b <= 90) || (97 <= b <= 122) || b == 45 || b == 46 || b == 95 || b
        == 126
}

/// The uppercase hexadecimal digit for `d` below sixteen.
pub open spec fn upper_hex_digit(d: u8) -> char {
    if d < 10 {
        ((48 + d) as u8) as char
    } else {
        ((55 + d) as u8) as char
    }
}

/// How percent-encoding writes one byte.
pub open spec fn percent_encoded_byte(b: u8) -> Seq<char> {
    if is_unreserved_byte(b) {
        seq![b as char]
    } else {
        seq!['%', upper_hex_digit(b / 16), upper_hex_digit(b % 16)]
    }
}

/// The percent-encoding of a byte sequence, byte for byte.
pub open spec fn percent_encoding_of(data: Seq<u8>) -> Seq<char>
    decreases data.len(),
{
    if data.len() == 0 {
        Seq::empty()
    } else {
        percent_encoded_byte(data[0]) + percent_encoding_of(data.drop_first())
    }
}

/// The percent-encoding of a string's UTF-8 bytes.
pub open spec fn percent_encoding_of_chars(s: Seq<char>) -> Seq<char> {
    percent_encoding_of(encode_utf8(s))
}

/// Relies on urlencoding: `encode` percent-encodes every byte of the
/// string's UTF-8 form except ASCII alphanumerics and `-`, `.`, `_`, `~`,
/// writing `%` and two uppercase hexadecimal digits for each encoded byte.
#[verifier::external_body]
fn percent_encode(s: &str) -> (r: String)
    ensures
        r@ == percent_encoding_of(s.spec_bytes()),
{
    urlencoding::encode(s).into_owned()
}

/// The provider's authorization endpoint URL for one attempt: every value
/// percent-encoded independently, with the fixed response type, messaging
/// scope, S256 challenge method, offline access and consent prompt.
pub open spec fn auth_url_of(
    client_id: Seq<char>,
    redirect_url: Seq<char>,
    state: Seq<char>,
    code_challenge: Seq<char>,
) -> Seq<char> {
    "https://accounts.google.com/o/oauth2/v2/auth?client_id="@ + percent_encoding_of_chars(
        client_id,
    ) + "&redirect_uri="@ + percent_encoding_of_chars(redirect_url) + "&response_type=code&scope="@
        + percent_encoding_of_chars("https://www.googleapis.com/auth/firebase.messaging"@)
        + "&state="@ + percent_encoding_of_chars(state) + "&code_challenge="@
        + percent_encoding_of_chars(code_challenge)
        + "&code_challenge_method=S256&access_type=offline&prompt=consent"@
}

/// Builds the authorization URL for the given configuration and PKCE
/// values.
pub fn build_auth_url(client_id: &str, redirect_url: &str, state: &str, code_challenge: &str) -> (r:
    String)
    ensures
        r@ == auth_url_of(client_id@, redirect_url@, state@, code_challenge@),
{
    let mut url = String::from_str("https://accounts.google.com/o/oauth2/v2/auth?client_id=");
    let p_client = percent_encode(client_id);
    url.append(p_client.as_str());
    url.append("&redirect_uri=");
    let p_redirect = percent_encode(redirect_url);
    url.append(p_redirect.as_str());
    url.append("&response_type=code&scope=");
    let p_scope = percent_encode("https://www.googleapis.com/auth/firebase.messaging");
    url.append(p_scope.as_str());
    url.append("&state=");
    let p_state = percent_encode(state);
    url.append(p_state.as_str());
    url.append("&code_challenge=");
    let p_challenge = percent_encode(code_challenge);
    url.append(p_challenge.as_str());
    url.append("&code_challenge_method=S256&access_type=offline&prompt=consent");
    proof {
        assert(url@ =~= auth_url_of(client_id@, redirect_url@, state@, code_challenge@));
    }
    url
}

/// `a + b` held within the bounds of `i64`.
pub open spec fn sat_add_i64(a: i64, b: i64) -> i64 {
    if a + b > i64::MAX {
        i64::MAX
    } else if a + b < i64::MIN {
        i64::MIN
    } else {
        (a + b) as i64
    }
}

/// Adds two clock values without overflowing.
fn saturating_add_i64(a: i64, b: i64) -> (r: i64)
    ensures
        r == sat_add_i64(a, b),
{
    match a.checked_add(b) {
        Some(v) => v,
        None => {
            if b > 0 {
                i64::MAX
            } else {
                i64::MIN
            }
        },
    }
}

/// An access token obtained from the token exchange, with its expiry as
/// seconds since the Unix epoch.
pub struct OAuthToken {
    pub access_token: String,
    pub refresh_token: String,
    pub id_token: String,
    pub token_type: String,
    pub expiry: i64,
}

impl OAuthToken {
    /// A token is good at `now` exactly when it carries an access token and
    /// has not expired.
    pub open spec fn valid_at(&self, now: i64) -> bool {
        self.access_token@.len() > 0 && now < self.expiry
    }

    /// Checks the token against a given clock reading.
    pub fn is_valid_at(&self, now: i64) -> (r: bool)
        ensures
            r == self.valid_at(now),
    {
        !self.access_token.as_str().is_empty() && now < self.expiry
    }

    /// Checks the token against the real clock: whatever the clock read,
    /// a token reported good carries an access token.
    pub fn is_valid(&self) -> (r: bool)
        ensures
            r ==> self.access_token@.len() > 0,
    {
        let now = now_unix();
        self.is_valid_at(now)
    }

    /// Turns an exchange response into a token whose expiry is `now` plus
    /// the response's lifetime, held within the clock's range.
    pub fn from_response_at(resp: ExchangeCodeResponse, now: i64) -> (t: Self)
        ensures
            t.access_token == resp.access_token,
            t.refresh_token == resp.refresh_token,
            t.id_token == resp.id_token,
            t.token_type == resp.token_type,
            t.expiry == sat_add_i64(now, resp.expires_in),
    {
        let expiry = saturating_add_i64(now, resp.expires_in);
        OAuthToken {
            access_token: resp.access_token,
            refresh_token: resp.refresh_token,
            id_token: resp.id_token,
            token_type: resp.token_type,
            expiry,
        }
    }

    /// Turns an exchange response into a token against the real clock.
    pub fn from_response(resp: ExchangeCodeResponse) -> (t: Self)
        ensures
            t.access_token == resp.access_token,
            t.refresh_token == resp.refresh_token,
            t.id_token == resp.id_token,
            t.token_type == resp.token_type,
    {
        let now = now_unix();
        OAuthToken::from_response_at(resp, now)
    }
}

/// The sole externally observable outcome of an authentication attempt:
/// success carries a token, failure carries a message and no token.
pub struct AuthResult {
    pub success: bool,
    pub message: String,
    pub token: Option<OAuthToken>,
}

impl AuthResult {
    /// Success carries a token exactly when failure carries none.
    pub open spec fn wf(&self) -> bool {
        self.success <==> self.token is Some
    }

    /// The successful outcome around a token.
    pub fn success(token: OAuthToken) -> (r: Self)
        ensures
            r.wf(),
            r.success == true,
            r.token == Some(token),
            r.message@ == "authentication succeeded"@,
    {
        AuthResult {
            success: true,
            message: String::from_str("authentication succeeded"),
            token: Some(token),
        }
    }

    /// A failed outcome around a message.
    pub fn failure(message: String) -> (r: Self)
        ensures
            r.wf(),
            r.success == false,
            r.token is None,
            r.message == message,
    {
        AuthResult { success: false, message, token: None }
    }
}

/// The message reported when the browser could not be opened.
pub open spec fn browser_error_message(detail: Seq<char>) -> Seq<char> {
    "failed to open browser: "@ + detail
}

/// The message reported for each callback outcome that ends the attempt.
pub open spec fn callback_failure_message(o: CallbackOutcome) -> Seq<char> {
    match o {
        CallbackOutcome::Code(_) => Seq::empty(),
        CallbackOutcome::ProviderError(e) => "provider reported an error: "@ + e@,
        CallbackOutcome::StateMismatch => "state mismatch: the callback did not come from this attempt"@,
        CallbackOutcome::NoCode => "the callback carried no authorization code"@,
        CallbackOutcome::Timeout => "timed out waiting for the authorization callback"@,
    }
}

/// The message reported when the token exchange failed.
pub open spec fn exchange_failure_message(e: ExchangeError) -> Seq<char> {
    "token exchange failed: "@ + exchange_error_message(e)
}

/// What the orchestrator decides after the callback: either hand the
/// authorization code on to the token exchange, or end the attempt.
pub enum CallbackDecision {
    /// Exchange the delivered code; carries the prepared request.
    Exchange(ExchangeCodeRequest),
    /// The attempt is over; carries the failed result.
    Fail(AuthResult),
}

/// One authentication attempt: the caller's configuration and the PKCE
/// values generated for it. Each attempt is independent; nothing is kept
/// between attempts.
pub struct AuthSession {
    pub client_id: String,
    pub redirect_url: String,
    pub exchange_code_url: String,
    pub pkce: PkceParameters,
}

impl AuthSession {
    /// The PKCE values of a started attempt are well formed.
    pub open spec fn wf(&self) -> bool {
        self.pkce.wf()
    }

    /// Starts an attempt: generates fresh PKCE values and the authorization
    /// URL the browser must be sent to. The listener must be ready before
    /// the browser navigates there.
    pub fn start(client_id: String, redirect_url: String, exchange_code_url: String) -> (r: (
        AuthSession,
        String,
    ))
        ensures
            r.0.wf(),
            r.0.client_id == client_id,
            r.0.redirect_url == redirect_url,
            r.0.exchange_code_url == exchange_code_url,
            r.1@ == auth_url_of(client_id@, redirect_url@, r.0.pkce.state@, r.0.pkce.challenge@),
    {
        let pkce = PkceParameters::generate();
        let url = build_auth_url(
            client_id.as_str(),
            redirect_url.as_str(),
            pkce.state.as_str(),
            pkce.challenge.as_str(),
        );
        (AuthSession { client_id, redirect_url, exchange_code_url, pkce }, url)
    }

    /// Judges the attempt after the browser was asked to open the URL:
    /// a failure to open ends the attempt with a message, with no listener
    /// started; otherwise the attempt goes on.
    pub fn browser_opened(&self, result: Result<(), String>) -> (r: Option<AuthResult>)
        ensures
            match result {
                Ok(_) => r is None,
                Err(e) => r matches Some(a) && a.wf() && a.success == false && a.token is None
                    && a.message@ == browser_error_message(e@),
            },
    {
        match result {
            Ok(_) => None,
            Err(e) => {
                let mut m = String::from_str("failed to open browser: ");
                m.append(e.as_str());
                proof {
                    assert(m@ =~= browser_error_message(e@));
                }
                Some(AuthResult::failure(m))
            },
        }
    }

    /// Decides what the callback outcome means for this attempt: a code is
    /// handed on to the token exchange together with the redirect URL and
    /// the attempt's verifier; every other outcome ends the attempt with
    /// its message.
    pub fn on_callback(&self, outcome: CallbackOutcome) -> (r: CallbackDecision)
        ensures
            match outcome {
                CallbackOutcome::Code(c) => r matches CallbackDecision::Exchange(req) && req.code
                    == c && req.redirect_uri == self.redirect_url && req.code_verifier
                    == self.pkce.verifier,
                _ => r matches CallbackDecision::Fail(a) && a.wf() && a.success == false
                    && a.token is None && a.message@ == callback_failure_message(outcome),
            },
    {
        match outcome {
            CallbackOutcome::Code(c) => CallbackDecision::Exchange(
                ExchangeCodeRequest {
                    code: c,
                    redirect_uri: self.redirect_url.clone(),
                    code_verifier: self.pkce.verifier.clone(),
                },
            ),
            CallbackOutcome::ProviderError(e) => {
                let mut m = String::from_str("provider reported an error: ");
                m.append(e.as_str());
                proof {
                    assert(m@ =~= callback_failure_message(CallbackOutcome::ProviderError(e)));
                }
                CallbackDecision::Fail(AuthResult::failure(m))
            },
            CallbackOutcome::StateMismatch => CallbackDecision::Fail(
                AuthResult::failure(
                    String::from_str("state mismatch: the callback did not come from this attempt"),
                ),
            ),
            CallbackOutcome::NoCode => CallbackDecision::Fail(
                AuthResult::failure(String::from_str("the callback carried no authorization code")),
            ),
            CallbackOutcome::Timeout => CallbackDecision::Fail(
                AuthResult::failure(
                    String::from_str("timed out waiting for the authorization callback"),
                ),
            ),
        }
    }

    /// Ends the attempt after the token exchange: a successful exchange
    /// yields a successful result around the token built at `now`; a failed
    /// one yields a failed result with the exchange's diagnostic.
    pub fn finish_exchange(
        &self,
        result: Result<ExchangeCodeResponse, ExchangeError>,
        now: i64,
    ) -> (r: AuthResult)
        ensures
            r.wf(),
            match result {
                Ok(resp) => r.success == true && r.message@ == "authentication succeeded"@ && (
                r.token matches Some(t) && t.access_token == resp.access_token && t.refresh_token
                    == resp.refresh_token && t.id_token == resp.id_token && t.token_type
                    == resp.token_type && t.expiry == sat_add_i64(now, resp.expires_in)),
                Err(e) => r.success == false && r.token is None && r.message@
                    == exchange_failure_message(e),
            },
    {
        match result {
            Ok(resp) => AuthResult::success(OAuthToken::from_response_at(resp, now)),
            Err(e) => {
                let mut m = String::from_str("token exchange failed: ");
                let detail = e.message();
                m.append(detail.as_str());
                proof {
                    assert(m@ =~= exchange_failure_message(e));
                }
                AuthResult::failure(m)
            },
        }
    }
}

} // verus!
