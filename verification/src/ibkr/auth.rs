//! The web API's token request: claims, signed assertion and form fields.

use vstd::prelude::*;
use vstd::string::*;
use crate::text::{opt_text, own};

verus! {

/// Credentials of the web API.
#[derive(Debug)]
pub struct OAuthConfig {
    pub client_id: String,
    /// The id of the uploaded public key.
    pub kid: String,
    /// The user name.
    pub credential: String,
    pub private_key_path: String,
    pub token_url: Option<String>,
    pub scope: Option<String>,
    pub grant_type: String,
}

impl OAuthConfig {
    /// Whether consumer, key and user are all named.
    pub open spec fn configured(self) -> bool {
        self.client_id@.len() > 0 && self.kid@.len() > 0 && self.credential@.len() > 0
    }

    /// Whether consumer, key and user are all named.
    pub fn is_configured(&self) -> (r: bool)
        ensures
            r == self.configured(),
    {
        self.client_id.as_str().unicode_len() > 0 && self.kid.as_str().unicode_len() > 0
            && self.credential.as_str().unicode_len() > 0
    }
}

/// The claims of a signed client assertion.
#[derive(Debug)]
pub struct AssertionClaims {
    pub iss: String,
    pub sub: String,
    pub aud: String,
    pub exp: u64,
    pub iat: u64,
    pub jti: String,
}

/// How long an assertion holds, in seconds.
pub const ASSERTION_SECS: u64 = 60;

/// Builds the claims of an assertion made at `now` (seconds of the Unix epoch)
/// under the id `jti`: it holds for a minute.
pub fn build_claims(oauth: &OAuthConfig, token_url: &str, now: u64, jti: String) -> (r:
    AssertionClaims)
    requires
        now + ASSERTION_SECS <= u64::MAX,
    ensures
        r.iss@ == oauth.client_id@,
        r.sub@ == oauth.credential@,
        r.aud@ == token_url@,
        r.iat == now,
        r.exp == now + ASSERTION_SECS,
        r.jti@ == jti@,
{
    AssertionClaims {
        iss: own(oauth.client_id.as_str()),
        sub: own(oauth.credential.as_str()),
        aud: own(token_url),
        exp: now + ASSERTION_SECS,
        iat: now,
        jti,
    }
}

/// The token that the claims, the key id and the bytes of an RSA key in PEM give,
/// or `None` where the bytes hold no such key or it cannot sign.
pub uninterp spec fn signed_token(
    iss: Seq<char>,
    sub: Seq<char>,
    aud: Seq<char>,
    exp: u64,
    iat: u64,
    jti: Seq<char>,
    kid: Seq<char>,
    pem: Seq<u8>,
) -> Option<Seq<char>>;

/// `jsonwebtoken::encode` with the algorithm RS256 and the key id `kid`, under the
/// key that `jsonwebtoken::EncodingKey::from_rsa_pem` reads from `pem`, on an object
/// that holds the six claims by their names, in the order issuer, subject, audience,
/// expiry, issue, id. RS256 signs without a random part, so the token is a function
/// of the claims, the key id and the key. Reading the key recurses as deep as its
/// ASN.1 nests; of a file that nests deeper than the stack holds nothing is said.
#[verifier::external_body]
pub fn sign_assertion(claims: &AssertionClaims, kid: &str, pem: &[u8]) -> (r: Option<String>)
    ensures
        opt_text(r) == signed_token(
            claims.iss@,
            claims.sub@,
            claims.aud@,
            claims.exp,
            claims.iat,
            claims.jti@,
            kid@,
            pem@,
        ),
{
    let key = jsonwebtoken::EncodingKey::from_rsa_pem(pem).ok()?;
    let mut header = jsonwebtoken::Header::new(jsonwebtoken::Algorithm::RS256);
    header.kid = Some(kid.to_string());
    let object = serde_json::value::RawValue::from_string(format!(
        r#"{{"iss":{},"sub":{},"aud":{},"exp":{},"iat":{},"jti":{}}}"#,
        serde_json::Value::from(claims.iss.as_str()),
        serde_json::Value::from(claims.sub.as_str()),
        serde_json::Value::from(claims.aud.as_str()),
        claims.exp,
        claims.iat,
        serde_json::Value::from(claims.jti.as_str()),
    )).ok()?;
    jsonwebtoken::encode(&header, &object, &key).ok()
}

/// A signed client assertion made at `now` under the id `jti`, with the key whose
/// PEM is `pem`.
pub fn make_client_assertion(
    oauth: &OAuthConfig,
    token_url: &str,
    now: u64,
    jti: String,
    pem: &[u8],
) -> (r: Option<String>)
    requires
        now + ASSERTION_SECS <= u64::MAX,
    ensures
        opt_text(r) == signed_token(
            oauth.client_id@,
            oauth.credential@,
            token_url@,
            (now + ASSERTION_SECS) as u64,
            now,
            jti@,
            oauth.kid@,
            pem@,
        ),
{
    let claims = build_claims(oauth, token_url, now, jti);
    sign_assertion(&claims, oauth.kid.as_str(), pem)
}

/// The fields of a form.
pub open spec fn fields(v: Seq<(String, String)>) -> Seq<(Seq<char>, Seq<char>)> {
    v.map_values(|f: (String, String)| (f.0@, f.1@))
}

/// The fields of the token request: what is asked for, the signed assertion, and
/// the scope where one is set.
pub open spec fn form_of(grant: Seq<char>, scope: Option<Seq<char>>, assertion: Seq<char>) -> Seq<
    (Seq<char>, Seq<char>),
> {
    let base = seq![
        ("grant_type"@, grant),
        (
            "client_assertion_type"@,
            "urn:ietf:params:oauth:client-assertion-type:jwt-bearer"@,
        ),
        ("client_assertion"@, assertion),
    ];
    match scope {
        Some(s) => base.push(("scope"@, s)),
        None => base,
    }
}

/// The fields of the token request.
pub fn token_form(oauth: &OAuthConfig, assertion: String) -> (r: Vec<(String, String)>)
    ensures
        fields(r@) == form_of(oauth.grant_type@, opt_text(oauth.scope), assertion@),
{
    let mut form: Vec<(String, String)> = Vec::new();
    form.push((own("grant_type"), own(oauth.grant_type.as_str())));
    form.push(
        (
            own("client_assertion_type"),
            own("urn:ietf:params:oauth:client-assertion-type:jwt-bearer"),
        ),
    );
    form.push((own("client_assertion"), assertion));
    if let Some(scope) = &oauth.scope {
        form.push((own("scope"), own(scope.as_str())));
    }
    assert(fields(form@) =~= form_of(oauth.grant_type@, opt_text(oauth.scope), assertion@));
    form
}

} // verus!
