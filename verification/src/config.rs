use vstd::prelude::*;

verus! {

/// Settings the operator supplies: the OAuth client, where the provider
/// should redirect, where authorization codes are exchanged for tokens,
/// and which Firebase project receives the messages.
pub struct FcmConfig {
    pub oauth_client_id: String,
    pub oauth_redirect_url: String,
    pub exchange_code_url: String,
    pub firebase_project_id: String,
}

impl FcmConfig {
    /// A configuration supports an authentication attempt exactly when the
    /// client id, the exchange endpoint and the project id are all present.
    pub fn is_valid(&self) -> (r: bool)
        ensures
            r == (self.oauth_client_id@.len() > 0 && self.exchange_code_url@.len() > 0
                && self.firebase_project_id@.len() > 0),
    {
        !self.oauth_client_id.as_str().is_empty() && !self.exchange_code_url.as_str().is_empty()
            && !self.firebase_project_id.as_str().is_empty()
    }
}

impl Default for FcmConfig {
    fn default() -> (c: Self)
        ensures
            c.oauth_client_id@ =~= Seq::<char>::empty(),
            c.oauth_redirect_url@ == "http://localhost:8080/callback"@,
            c.exchange_code_url@ == "https://percent-config.111percent.net/ExchangeAuthorizationCode"@,
            c.firebase_project_id@ =~= Seq::<char>::empty(),
    {
        FcmConfig {
            oauth_client_id: String::new(),
            oauth_redirect_url: String::from_str("http://localhost:8080/callback"),
            exchange_code_url: String::from_str(
                "https://percent-config.111percent.net/ExchangeAuthorizationCode",
            ),
            firebase_project_id: String::new(),
        }
    }
}

} // verus!
