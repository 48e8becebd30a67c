//! The messages of the OAuth 2.0 authorization-code flow with PKCE.
//!
//! The client makes a random code verifier, sends its challenge with the
//! authorization request, and later redeems the authorization code together
//! with the verifier for an access token.

use vstd::prelude::*;

verus! {

#[derive(Clone, Copy, Debug)]
pub enum AuthorizationCodeResponseType {
    Code,
}

#[derive(Clone, Copy, Debug)]
pub enum AuthorizationCodeChallengeMethod {
    Plain,
    Sha256,
}

#[derive(Debug)]
pub struct AuthorizationCodeRequest {
    pub response_type: AuthorizationCodeResponseType,
    pub client_id: String,
    pub state: String,
    pub code_challenge: String,
    pub code_challenge_method: AuthorizationCodeChallengeMethod,
    pub redirect_uri: String,
}

#[derive(Debug)]
pub struct AuthorizationCode {
    pub code: String,
    pub state: String,
}

#[derive(Clone, Copy, Debug)]
pub enum AccessTokenGrantType {
    AuthorizationCode,
}

#[derive(Debug)]
pub struct AccessTokenRequest {
    pub grant_type: AccessTokenGrantType,
    pub code: String,
    pub redirect_uri: String,
    pub client_id: String,
    pub code_verifier: String,
}

#[derive(Clone, Copy, Debug)]
pub enum AccessTokenType {
    Bearer,
}

#[derive(Debug)]
pub struct AccessToken {
    pub token: String,
    pub token_type: AccessTokenType,
}

} // verus!
