//! Who a request comes from: a signed token is checked against the
//! provider's keys and against the clock, and gives the claims it carries.

use crate::keys::{find_key, key_index, KeyEntry, KeyFetchFailed};
use crate::text::str_eq;
use vstd::prelude::*;
use vstd::string::*;

verus! {

#[verifier::external_type_specification]
#[verifier::external_body]
pub struct ExJsonValue(serde_json::Value);

/// Seconds by which the clocks of the provider and of this service may
/// differ.
pub const EXPIRY_LEEWAY: u64 = 30;

/// What a token says of its bearer.
#[derive(Clone, Debug)]
pub struct Claims {
    /// When the token lapses, in seconds since the epoch.
    pub exp: u64,
    /// When the token was issued, in seconds since the epoch.
    pub iat: u64,
    pub aud: String,
    pub iss: String,
    pub sub: String,
    pub user_id: String,
    pub email: String,
    pub email_verified: bool,
}

/// What a token says of its bearer, as plain values.
pub struct ClaimsView {
    pub exp: u64,
    pub iat: u64,
    pub aud: Seq<char>,
    pub iss: Seq<char>,
    pub sub: Seq<char>,
    pub user_id: Seq<char>,
    pub email: Seq<char>,
    pub email_verified: bool,
}

impl View for Claims {
    type V = ClaimsView;

    open spec fn view(&self) -> ClaimsView {
        ClaimsView {
            exp: self.exp,
            iat: self.iat,
            aud: self.aud@,
            iss: self.iss@,
            sub: self.sub@,
            user_id: self.user_id@,
            email: self.email@,
            email_verified: self.email_verified,
        }
    }
}

/// The bearer of a verified token.
#[derive(Clone, Debug)]
pub struct Identity {
    pub claims: Claims,
}

impl Identity {
    /// The identity that the claims of a verified token give.
    pub fn new(claims: Claims) -> (out: Identity)
        ensures
            out.claims == claims,
    {
        Identity { claims }
    }

    /// The claims of the token.
    pub fn claims(&self) -> (out: &Claims)
        ensures
            *out == self.claims,
    {
        &self.claims
    }
}

/// Why a token was not accepted.
#[derive(Clone, Copy, Debug, PartialEq, Eq, Structural)]
pub enum VerificationError {
    /// The token's header cannot be read or names no key.
    MalformedToken,
    /// The key that the token names is not among the provider's keys.
    UnknownKey,
    /// The signature does not match, or what it signs cannot be read.
    SignatureInvalid,
    /// A claim is missing, or issuer, audience or times are not as expected.
    ClaimInvalid,
}

/// How a failed verification looks from outside: the token was bad, or the
/// service could not do its part.
#[derive(Clone, Copy, Debug, PartialEq, Eq, Structural)]
pub enum VerificationFailed {
    /// The token is malformed or does not prove who its bearer is.
    Unauthenticated,
    /// The keys could not be had; the same token may pass later.
    Infrastructure,
}

impl VerificationFailed {
    /// Every fault of the token itself counts as unauthenticated.
    pub fn from_verification(error: VerificationError) -> (out: VerificationFailed)
        ensures
            out == VerificationFailed::Unauthenticated,
    {
        VerificationFailed::Unauthenticated
    }

    /// Every failure to renew the keys counts against the service.
    pub fn from_key_fetch(error: KeyFetchFailed) -> (out: VerificationFailed)
        ensures
            out == VerificationFailed::Infrastructure,
    {
        VerificationFailed::Infrastructure
    }
}

/// A member of a JSON object, as far as claims are read from it.
pub enum Json {
    /// A string.
    Text(Seq<char>),
    /// A whole number that is not negative and fits sixty-four bits.
    Number(u64),
    /// A boolean.
    Flag(bool),
    /// Anything else.
    Other,
}

/// The members of a JSON object, each under its name; none where the value
/// is no object.
pub uninterp spec fn json_fields(value: serde_json::Value) -> Map<Seq<char>, Json>;

/// The identifier of the signing key that a token's header names, if the
/// header can be read and names one.
pub uninterp spec fn key_id_of(token: Seq<char>) -> Option<Seq<char>>;

/// The claims of a token whose RS256 signature the given public key
/// confirms: the members of the JSON object that the token carries. There
/// are none where the key cannot be read, the signature does not match, or
/// the token carries no JSON.
pub uninterp spec fn signed_claims(token: Seq<char>, modulus: Seq<char>, exponent: Seq<char>) -> Option<
    Map<Seq<char>, Json>,
>;

/// `jsonwebtoken::decode_header`, then the field `kid`: the identifier of
/// the signing key, or nothing where the header cannot be read or names no
/// key. The outcome depends on the token alone.
#[verifier::external_body]
fn token_key_id(token: &str) -> (out: Option<String>)
    ensures
        out is Some <==> key_id_of(token@) is Some,
        out is Some ==> out.unwrap()@ == key_id_of(token@).unwrap(),
{
    jsonwebtoken::decode_header(token).ok().and_then(|header| header.kid)
}

/// `jsonwebtoken::decode` with a key made by
/// `DecodingKey::from_rsa_components` and a `Validation` for RS256 in which
/// the checks of expiry, audience and required claims are switched off: the
/// signature is checked and the claims are parsed, and nothing is compared
/// with the clock, so the outcome depends on the three texts alone.
#[verifier::external_body]
fn decode_claims(token: &str, modulus: &str, exponent: &str) -> (out: Option<serde_json::Value>)
    ensures
        out is Some <==> signed_claims(token@, modulus@, exponent@) is Some,
        out is Some ==> json_fields(out.unwrap()) == signed_claims(
            token@,
            modulus@,
            exponent@,
        ).unwrap(),
{
    let key = jsonwebtoken::DecodingKey::from_rsa_components(modulus, exponent).ok()?;
    let mut validation = jsonwebtoken::Validation::new(jsonwebtoken::Algorithm::RS256);
    validation.validate_exp = false;
    validation.validate_aud = false;
    validation.required_spec_claims.clear();
    jsonwebtoken::decode::<serde_json::Value>(token, &key, &validation).ok().map(|data| data.claims)
}

/// `serde_json::Value::get`, then `as_str`: the string under the name.
#[verifier::external_body]
fn json_text(value: &serde_json::Value, name: &str) -> (out: Option<String>)
    ensures
        out is Some <==> has_text(json_fields(*value), name@),
        out is Some ==> json_fields(*value)[name@] == Json::Text(out.unwrap()@),
{
    value.get(name).and_then(|member| member.as_str()).map(|s| s.to_owned())
}

/// `serde_json::Value::get`, then `as_u64`: the number under the name,
/// where it is whole, not negative and fits sixty-four bits.
#[verifier::external_body]
fn json_number(value: &serde_json::Value, name: &str) -> (out: Option<u64>)
    ensures
        out is Some <==> has_number(json_fields(*value), name@),
        out is Some ==> json_fields(*value)[name@] == Json::Number(out.unwrap()),
{
    value.get(name).and_then(|member| member.as_u64())
}

/// `serde_json::Value::get`, then `as_bool`: the boolean under the name.
#[verifier::external_body]
fn json_flag(value: &serde_json::Value, name: &str) -> (out: Option<bool>)
    ensures
        out is Some <==> has_flag(json_fields(*value), name@),
        out is Some ==> json_fields(*value)[name@] == Json::Flag(out.unwrap()),
{
    value.get(name).and_then(|member| member.as_bool())
}

/// `str::strip_prefix`: the rest of the text behind the prefix, where the
/// text begins with it.
#[verifier::external_body]
fn strip_prefix<'a>(text: &'a str, prefix: &str) -> (out: Option<&'a str>)
    ensures
        out is Some <==> prefix@.is_prefix_of(text@),
        out is Some ==> out.unwrap()@ == text@.skip(prefix@.len() as int),
{
    text.strip_prefix(prefix)
}

/// Whether the members hold a string under the name.
pub open spec fn has_text(m: Map<Seq<char>, Json>, name: Seq<char>) -> bool {
    m.contains_key(name) && m[name] is Text
}

/// Whether the members hold a number under the name.
pub open spec fn has_number(m: Map<Seq<char>, Json>, name: Seq<char>) -> bool {
    m.contains_key(name) && m[name] is Number
}

/// Whether the members hold a boolean under the name.
pub open spec fn has_flag(m: Map<Seq<char>, Json>, name: Seq<char>) -> bool {
    m.contains_key(name) && m[name] is Flag
}

/// The claims that the members of a token's payload give: all eight must
/// be there, each of its kind.
pub open spec fn claims_of(m: Map<Seq<char>, Json>) -> Option<ClaimsView> {
    if has_number(m, "exp"@) && has_number(m, "iat"@) && has_text(m, "aud"@) && has_text(
        m,
        "iss"@,
    ) && has_text(m, "sub"@) && has_text(m, "user_id"@) && has_text(m, "email"@) && has_flag(
        m,
        "email_verified"@,
    ) {
        Some(
            ClaimsView {
                exp: m["exp"@]->Number_0,
                iat: m["iat"@]->Number_0,
                aud: m["aud"@]->Text_0,
                iss: m["iss"@]->Text_0,
                sub: m["sub"@]->Text_0,
                user_id: m["user_id"@]->Text_0,
                email: m["email"@]->Text_0,
                email_verified: m["email_verified"@]->Flag_0,
            },
        )
    } else {
        None
    }
}

/// Whether claims are acceptable at `now`: the issuer and the audience are
/// the expected ones, the token has not lapsed more than the leeway ago, and
/// it was not issued more than the leeway ahead.
pub open spec fn claims_valid(
    c: ClaimsView,
    issuer: Seq<char>,
    audience: Seq<char>,
    now: u64,
    leeway: u64,
) -> bool {
    &&& c.iss == issuer
    &&& c.aud == audience
    &&& c.exp + leeway >= now
    &&& c.iat <= now + leeway
}

/// The issuer that tokens for a project must name.
pub open spec fn issuer_of(project: Seq<char>) -> Seq<char> {
    "https://securetoken.google.com"@ + "/"@ + project
}

/// What the verification of a token gives, step by step: the header must
/// name a key, the key must be among those held, the key must confirm the
/// signature, and the claims must be complete and acceptable at `now`.
pub open spec fn identified(
    token: Seq<char>,
    keys: Seq<KeyEntry>,
    project: Seq<char>,
    now: u64,
    leeway: u64,
) -> Result<ClaimsView, VerificationError> {
    match key_id_of(token) {
        None => Err(VerificationError::MalformedToken),
        Some(key_id) => match key_index(keys, key_id) {
            None => Err(VerificationError::UnknownKey),
            Some(i) => match signed_claims(token, keys[i].modulus@, keys[i].exponent@) {
                None => Err(VerificationError::SignatureInvalid),
                Some(members) => match claims_of(members) {
                    None => Err(VerificationError::ClaimInvalid),
                    Some(claims) => if claims_valid(claims, issuer_of(project), project, now, leeway) {
                        Ok(claims)
                    } else {
                        Err(VerificationError::ClaimInvalid)
                    },
                },
            },
        },
    }
}

/// Reads the claims from the payload of a token.
pub fn read_claims(payload: &serde_json::Value) -> (out: Option<Claims>)
    ensures
        match out {
            Some(claims) => claims_of(json_fields(*payload)) == Some(claims@),
            None => claims_of(json_fields(*payload)) is None,
        },
{
    let exp = json_number(payload, "exp")?;
    let iat = json_number(payload, "iat")?;
    let aud = json_text(payload, "aud")?;
    let iss = json_text(payload, "iss")?;
    let sub = json_text(payload, "sub")?;
    let user_id = json_text(payload, "user_id")?;
    let email = json_text(payload, "email")?;
    let email_verified = json_flag(payload, "email_verified")?;
    Some(Claims { exp, iat, aud, iss, sub, user_id, email, email_verified })
}

/// Checks claims against the expected issuer and audience and against the
/// clock, with the given leeway in both directions.
pub fn check_claims(claims: &Claims, issuer: &str, audience: &str, now: u64, leeway: u64) -> (out:
    Result<(), VerificationError>)
    ensures
        out is Ok <==> claims_valid(claims@, issuer@, audience@, now, leeway),
        out is Err ==> out == Err::<(), _>(VerificationError::ClaimInvalid),
{
    if !str_eq(claims.iss.as_str(), issuer) {
        return Err(VerificationError::ClaimInvalid);
    }
    if !str_eq(claims.aud.as_str(), audience) {
        return Err(VerificationError::ClaimInvalid);
    }
    let lapsed = match claims.exp.checked_add(leeway) {
        Some(limit) => limit < now,
        None => false,
    };
    if lapsed {
        return Err(VerificationError::ClaimInvalid);
    }
    let early = match now.checked_add(leeway) {
        Some(limit) => claims.iat > limit,
        None => false,
    };
    if early {
        return Err(VerificationError::ClaimInvalid);
    }
    Ok(())
}

/// The verifier of the tokens that the provider issues for one project.
#[derive(Clone, Debug)]
pub struct FirebaseIdentifier {
    pub project_id: String,
    /// Seconds of clock skew that are tolerated.
    pub leeway: u64,
}

impl FirebaseIdentifier {
    /// The verifier for a project, with the leeway to grant.
    pub fn new(project_id: String, leeway: u64) -> (out: FirebaseIdentifier)
        ensures
            out.project_id == project_id,
            out.leeway == leeway,
    {
        FirebaseIdentifier { project_id, leeway }
    }

    /// The issuer that tokens must name: the provider's address, a slash,
    /// and the project.
    pub fn expected_iss(&self) -> (out: String)
        ensures
            out@ == issuer_of(self.project_id@),
    {
        let mut out = String::from_str("https://securetoken.google.com");
        out.append("/");
        out.append(self.project_id.as_str());
        out
    }

    /// The audience that tokens must name: the project.
    pub fn expected_aud(&self) -> (out: String)
        ensures
            out@ == self.project_id@,
    {
        self.project_id.clone()
    }

    /// Verifies a token at `now`, in seconds since the epoch, against the
    /// keys held. The header must name one of the keys, that key must
    /// confirm the signature, and the claims must be complete, name the
    /// expected issuer and audience, and be within the leeway of the clock.
    pub fn identify(&self, token: &str, keys: &Vec<KeyEntry>, now: u64) -> (out: Result<
        Identity,
        VerificationError,
    >)
        ensures
            match out {
                Ok(identity) => identified(token@, keys@, self.project_id@, now, self.leeway)
                    == Ok::<_, VerificationError>(identity.claims@),
                Err(e) => identified(token@, keys@, self.project_id@, now, self.leeway) == Err::<
                    ClaimsView,
                    _,
                >(e),
            },
    {
        let key_id = match token_key_id(token) {
            Some(key_id) => key_id,
            None => { return Err(VerificationError::MalformedToken); },
        };
        let key = match find_key(keys, key_id.as_str()) {
            Some(key) => key,
            None => { return Err(VerificationError::UnknownKey); },
        };
        let payload = match decode_claims(token, key.modulus.as_str(), key.exponent.as_str()) {
            Some(payload) => payload,
            None => { return Err(VerificationError::SignatureInvalid); },
        };
        let claims = match read_claims(&payload) {
            Some(claims) => claims,
            None => { return Err(VerificationError::ClaimInvalid); },
        };
        let issuer = self.expected_iss();
        let audience = self.expected_aud();
        match check_claims(&claims, issuer.as_str(), audience.as_str(), now, self.leeway) {
            Ok(_) => Ok(Identity::new(claims)),
            Err(e) => Err(e),
        }
    }
}

/// A verifier of tokens: it says whose token it is, or why the token is
/// not accepted.
pub trait Identifier {
    /// What the verifier makes of a token, given the keys held and the
    /// time.
    spec fn accepted(&self, token: Seq<char>, keys: Seq<KeyEntry>, now: u64) -> Result<
        ClaimsView,
        VerificationError,
    >;

    /// Verifies a token at `now`, in seconds since the epoch, against the
    /// keys held.
    fn identify(&self, token: &str, keys: &Vec<KeyEntry>, now: u64) -> (out: Result<
        Identity,
        VerificationError,
    >)
        ensures
            match out {
                Ok(identity) => self.accepted(token@, keys@, now) == Ok::<_, VerificationError>(
                    identity.claims@,
                ),
                Err(e) => self.accepted(token@, keys@, now) == Err::<ClaimsView, _>(e),
            },
    ;
}

impl Identifier for FirebaseIdentifier {
    open spec fn accepted(&self, token: Seq<char>, keys: Seq<KeyEntry>, now: u64) -> Result<
        ClaimsView,
        VerificationError,
    > {
        identified(token, keys, self.project_id@, now, self.leeway)
    }

    fn identify(&self, token: &str, keys: &Vec<KeyEntry>, now: u64) -> (out: Result<
        Identity,
        VerificationError,
    >) {
        FirebaseIdentifier::identify(self, token, keys, now)
    }
}

/// Why a request was not let in.
#[derive(Clone, Copy, Debug, PartialEq, Eq, Structural)]
pub enum AuthorizationError {
    /// The authorization header does not begin with `Bearer ` and a space.
    BadFormat,
    /// The token behind it was not accepted.
    Rejected(VerificationError),
}

/// The token in an authorization header, if the header has the bearer
/// form.
pub open spec fn bearer_token(header: Seq<char>) -> Option<Seq<char>> {
    if "Bearer "@.is_prefix_of(header) {
        Some(header.skip("Bearer "@.len() as int))
    } else {
        None
    }
}

/// The token that a request carries. A request without an authorization
/// header carries none, which is no failure; a header must have the bearer
/// form.
pub fn authorization_token<'a>(authorization: Option<&'a str>) -> (out: Result<
    Option<&'a str>,
    AuthorizationError,
>)
    ensures
        match authorization {
            None => out == Ok::<Option<&str>, AuthorizationError>(None),
            Some(header) => match bearer_token(header@) {
                None => out == Err::<Option<&str>, _>(AuthorizationError::BadFormat),
                Some(token) => out is Ok && out->Ok_0 is Some && out->Ok_0->Some_0@ == token,
            },
        },
{
    match authorization {
        None => Ok(None),
        Some(header) => match strip_prefix(header, "Bearer ") {
            Some(token) => Ok(Some(token)),
            None => Err(AuthorizationError::BadFormat),
        },
    }
}

/// Decides who a request comes from. A request without an authorization
/// header comes from nobody, which is no failure. A header must have the
/// bearer form, and the token in it must pass
/// [`FirebaseIdentifier::identify`].
pub fn authenticate(
    identifier: &FirebaseIdentifier,
    authorization: Option<&str>,
    keys: &Vec<KeyEntry>,
    now: u64,
) -> (out: Result<Option<Identity>, AuthorizationError>)
    ensures
        match authorization {
            None => out == Ok::<Option<Identity>, AuthorizationError>(None),
            Some(header) => match bearer_token(header@) {
                None => out == Err::<Option<Identity>, _>(AuthorizationError::BadFormat),
                Some(token) => match out {
                    Ok(Some(identity)) => identified(
                        token,
                        keys@,
                        identifier.project_id@,
                        now,
                        identifier.leeway,
                    ) == Ok::<_, VerificationError>(identity.claims@),
                    Ok(None) => false,
                    Err(AuthorizationError::Rejected(e)) => identified(
                        token,
                        keys@,
                        identifier.project_id@,
                        now,
                        identifier.leeway,
                    ) == Err::<ClaimsView, _>(e),
                    Err(AuthorizationError::BadFormat) => false,
                },
            },
        },
{
    let token = match authorization_token(authorization) {
        Ok(Some(token)) => token,
        Ok(None) => { return Ok(None); },
        Err(e) => { return Err(e); },
    };
    match identifier.identify(token, keys, now) {
        Ok(identity) => Ok(Some(identity)),
        Err(e) => Err(AuthorizationError::Rejected(e)),
    }
}

} // verus!
