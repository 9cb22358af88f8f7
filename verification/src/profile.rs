//! Delta Sharing profiles.
//!
//! A profile holds the server endpoint and the credential to authenticate
//! with. Only bearer-token credentials exist today; the tagged
//! [`ProfileType`] leaves room for further schemes, and the
//! [`TokenProvider`] capability is what the authorization stage talks to.
//!
//! The persisted profile is a JSON object with `shareCredentialsVersion`
//! (which must be `1`), `endpoint` (an absolute URL), `bearerToken`
//! (required when the version is `1`) and an optional RFC 3339
//! `expirationTime`. Reading such a text is verified here; opening the file
//! it usually sits in is the caller's business.

use vstd::prelude::*;

verus! {

use crate::decimal::dec_digits;
use crate::decimal::dec_u64_of;
use crate::decimal::parse_dec_u64;
use crate::decimal::u64_to_dec;
use crate::envelope::obj_get;
use crate::envelope::obj_get_x;
use crate::envelope::opt_str_field;
use crate::envelope::opt_str_field_x;
use crate::envelope::req_str_field;
use crate::envelope::req_str_field_x;
use crate::error::DeltaSharingError;
use crate::error::DeltaSharingErrorView;
use crate::error::ErrorKindView;
use crate::json::json_of_text;
use crate::json::parse_json_text;
use crate::json::Json;
use crate::json::JsonView;
use crate::text::chars_vec;
use crate::text::string_from_chars;
use crate::time::now_epoch_seconds;
use crate::time::parse_rfc3339_seconds;
use crate::time::seconds_of_rfc3339;

/// The normalized serialization of an absolute URL; nothing for text that
/// is no absolute URL.
pub uninterp spec fn parsed_url_of(s: Seq<char>) -> Option<Seq<char>>;

/// Relies on `url::Url::parse` and `String::from(Url)`: an absolute URL
/// parses and serializes back to its normalized text; the result depends on
/// the text alone. The normalized text re-parses to itself: the url crate's
/// own invariant check (`Url::check_invariants`) asserts that a URL's
/// serialization parses back to the same serialization.
#[verifier::external_body]
pub fn parse_url(s: &str) -> (r: Option<String>)
    ensures
        match r {
            Some(u) => parsed_url_of(s@) == Some(u@) && parsed_url_of(u@) == Some(u@),
            None => parsed_url_of(s@) is None,
        },
{
    match url::Url::parse(s) {
        Ok(u) => Some(String::from(u)),
        Err(_) => None,
    }
}

/// A bearer-token credential: the token and an optional expiry instant in
/// whole seconds since the epoch.
pub struct BearerToken {
    token: String,
    expiration_time: Option<i64>,
}

/// Specification-level value of a [`BearerToken`].
pub struct BearerTokenView {
    pub token: Seq<char>,
    pub expiration_time: Option<i64>,
}

impl View for BearerToken {
    type V = BearerTokenView;

    closed spec fn view(&self) -> BearerTokenView {
        BearerTokenView { token: self.token@, expiration_time: self.expiration_time }
    }
}

impl BearerTokenView {
    /// A token without an expiry never expires; one with an expiry has
    /// expired exactly when the clock is strictly past it.
    pub open spec fn has_expired_at(self, now: i64) -> bool {
        match self.expiration_time {
            Some(e) => e < now,
            None => false,
        }
    }
}

impl BearerToken {
    /// A credential with the given token and optional expiry.
    pub fn new(token: String, expiration_time: Option<i64>) -> (r: Self)
        ensures
            r@ == (BearerTokenView { token: token@, expiration_time }),
    {
        Self { token, expiration_time }
    }

    /// The token itself.
    pub fn token(&self) -> (r: &str)
        ensures
            r@ == self@.token,
    {
        self.token.as_str()
    }

    /// The expiry instant, in whole seconds since the epoch, if one is set.
    pub fn expiration_time(&self) -> (r: Option<i64>)
        ensures
            r == self@.expiration_time,
    {
        self.expiration_time
    }

    /// Whether the token has expired at the given instant: never without an
    /// expiry, and strictly past the expiry otherwise.
    pub fn has_expired_at(&self, now: i64) -> (r: bool)
        ensures
            r == self@.has_expired_at(now),
    {
        match self.expiration_time {
            Some(e) => e < now,
            None => false,
        }
    }

    /// Whether the token has expired at the clock's current instant. A
    /// token without an expiry is valid indefinitely, whatever the clock
    /// says.
    pub fn has_expired(&self) -> (r: bool)
        ensures
            self@.expiration_time is None ==> !r,
    {
        let now = now_epoch_seconds();
        self.has_expired_at(now)
    }

    /// The token, or a `Profile` error when it has expired at the given
    /// instant.
    pub fn provide_token_at(&self, now: i64) -> (r: Result<String, DeltaSharingError>)
        ensures
            match r {
                Ok(t) => !self@.has_expired_at(now) && t@ == self@.token,
                Err(e) => self@.has_expired_at(now) && e@ == (DeltaSharingErrorView {
                    kind: ErrorKindView::Profile,
                    message: "Bearer token in profile has expired"@,
                }),
            },
    {
        if self.has_expired_at(now) {
            Err(DeltaSharingError::profile("Bearer token in profile has expired"))
        } else {
            Ok(self.token.clone())
        }
    }
}

/// The debug rendering of a bearer token: the token itself is always
/// redacted, whatever it holds.
pub open spec fn bearer_token_debug(b: BearerTokenView) -> Seq<char> {
    "BearerTokenFile { token: \"********\", expiration_time: "@ + (match b.expiration_time {
        None => "None"@,
        Some(e) => "Some("@ + crate::decimal::dec_digits_signed(e as int) + ")"@,
    }) + " }"@
}

/// The rendering of two tokens with one expiry is one text: nothing of the
/// token itself reaches the rendering.
pub proof fn lemma_debug_rendering_redacts(a: BearerTokenView, b: BearerTokenView)
    requires
        a.expiration_time == b.expiration_time,
    ensures
        bearer_token_debug(a) == bearer_token_debug(b),
{
}

impl BearerToken {
    /// A human-readable rendering of the credential, exactly as
    /// [`bearer_token_debug`] describes: the token is redacted.
    pub fn debug_string(&self) -> (r: String)
        ensures
            r@ == bearer_token_debug(self@),
    {
        let mut out = chars_vec("BearerTokenFile { token: \"********\", expiration_time: ");
        match self.expiration_time {
            None => {
                let mut part = chars_vec("None");
                out.append(&mut part);
            },
            Some(e) => {
                let mut part = chars_vec("Some(");
                out.append(&mut part);
                let mut digits = crate::decimal::i64_to_dec(e);
                out.append(&mut digits);
                let mut close = chars_vec(")");
                out.append(&mut close);
            },
        }
        let mut tail = chars_vec(" }");
        out.append(&mut tail);
        string_from_chars(&out)
    }
}

/// A source of bearer tokens: the capability the authorization stage needs.
/// Supplying the token fails with a `Profile`-kind error when the
/// credential cannot be used, and the network is never touched on that
/// path, so callers can tell bad credentials from a failing transport.
pub trait TokenProvider {
    /// The token the provider would supply.
    spec fn spec_token(&self) -> Seq<char>;

    /// The token to send, or a `Profile` error.
    fn provide_token(&self) -> (r: Result<String, DeltaSharingError>)
        ensures
            r matches Ok(t) ==> t@ == self.spec_token(),
            r matches Err(e) ==> e@.kind == ErrorKindView::Profile,
    ;
}

impl TokenProvider for BearerToken {
    open spec fn spec_token(&self) -> Seq<char> {
        self@.token
    }

    /// The token, or a `Profile` error when it has expired at the clock's
    /// current instant. A token without an expiry is always supplied,
    /// whatever the clock says.
    fn provide_token(&self) -> (r: Result<String, DeltaSharingError>)
        ensures
            self@.expiration_time is None ==> r is Ok,
    {
        let now = now_epoch_seconds();
        self.provide_token_at(now)
    }
}

/// The credential of a profile, tagged by scheme.
pub enum ProfileType {
    BearerToken(BearerToken),
}

/// Specification-level value of a [`ProfileType`].
pub enum ProfileTypeView {
    BearerToken(BearerTokenView),
}

impl View for ProfileType {
    type V = ProfileTypeView;

    closed spec fn view(&self) -> ProfileTypeView {
        match self {
            ProfileType::BearerToken(b) => ProfileTypeView::BearerToken(b@),
        }
    }
}

impl ProfileType {
    /// A bearer-token credential.
    pub fn new_bearer_token(token: String, expiration_time: Option<i64>) -> (r: Self)
        ensures
            r@ == ProfileTypeView::BearerToken(
                BearerTokenView { token: token@, expiration_time },
            ),
    {
        ProfileType::BearerToken(BearerToken::new(token, expiration_time))
    }

    /// Whether the credential is a bearer token.
    pub fn is_bearer_token(&self) -> (r: bool)
        ensures
            r == (self@ is BearerToken),
    {
        matches!(self, ProfileType::BearerToken(_))
    }

    /// A human-readable rendering of the credential with the secret
    /// redacted, exactly as [`bearer_token_debug`] describes the inner
    /// part.
    pub fn debug_string(&self) -> (r: String)
        ensures
            self@ matches ProfileTypeView::BearerToken(b) ==> r@ == "BearerToken("@
                + bearer_token_debug(b) + ")"@,
    {
        match self {
            ProfileType::BearerToken(b) => {
                let mut out = chars_vec("BearerToken(");
                let inner = b.debug_string();
                let mut inner_chars = chars_vec(inner.as_str());
                out.append(&mut inner_chars);
                let mut close = chars_vec(")");
                out.append(&mut close);
                string_from_chars(&out)
            },
        }
    }
}

/// A Delta Sharing profile: the endpoint to talk to and the credential to
/// authenticate with.
pub struct Profile {
    share_credentials_version: u32,
    endpoint: String,
    profile_type: ProfileType,
}

/// Specification-level value of a [`Profile`].
pub struct ProfileView {
    pub share_credentials_version: u32,
    pub endpoint: Seq<char>,
    pub profile_type: ProfileTypeView,
}

impl View for Profile {
    type V = ProfileView;

    closed spec fn view(&self) -> ProfileView {
        ProfileView {
            share_credentials_version: self.share_credentials_version,
            endpoint: self.endpoint@,
            profile_type: self.profile_type@,
        }
    }
}

impl ProfileView {
    /// Only share-credentials version one exists, and the endpoint is an
    /// absolute URL.
    pub open spec fn wf(self) -> bool {
        self.share_credentials_version == 1 && parsed_url_of(self.endpoint) is Some
    }
}

impl Profile {
    /// A profile from its parts. The version must be the one supported
    /// version and the endpoint must be an absolute URL;
    /// [`Profile::try_from_json`] checks both on raw input.
    pub fn from_profile_type(
        share_credentials_version: u32,
        endpoint: String,
        profile_type: ProfileType,
    ) -> (r: Self)
        requires
            share_credentials_version == 1,
            parsed_url_of(endpoint@) is Some,
        ensures
            r@ == (ProfileView {
                share_credentials_version,
                endpoint: endpoint@,
                profile_type: profile_type@,
            }),
            r@.wf(),
    {
        Self { share_credentials_version, endpoint, profile_type }
    }

    /// A bearer-token profile from its parts, checking the endpoint: the
    /// profile, or a `Profile` error when the endpoint is no absolute URL
    /// or the version is unsupported.
    pub fn try_new_bearer_token(
        version: u32,
        endpoint: &str,
        bearer_token: &str,
        expiration_time: Option<i64>,
    ) -> (r: Result<Self, DeltaSharingError>)
        ensures
            match r {
                Ok(p) => version == 1 && parsed_url_of(endpoint@) == Some(p@.endpoint)
                    && p@.share_credentials_version == 1 && p@.profile_type
                    == ProfileTypeView::BearerToken(
                    BearerTokenView { token: bearer_token@, expiration_time },
                ) && p@.wf(),
                Err(e) => (version != 1 || parsed_url_of(endpoint@) is None) && e@.kind
                    == ErrorKindView::Profile,
            },
    {
        if version != 1 {
            return Err(DeltaSharingError::profile("Unsupported share credentials version"));
        }
        match parse_url(endpoint) {
            Some(_) => Ok(Self::new_bearer_token(1, endpoint, bearer_token, expiration_time)),
            None => Err(DeltaSharingError::profile("Failed to parse endpoint URL in profile")),
        }
    }

    /// A bearer-token profile from its parts, storing the endpoint's
    /// normalized text. The version must be the one supported version and
    /// the endpoint must be an absolute URL;
    /// [`Profile::try_new_bearer_token`] checks both on raw input.
    pub fn new_bearer_token(
        version: u32,
        endpoint: &str,
        bearer_token: &str,
        expiration_time: Option<i64>,
    ) -> (r: Self)
        requires
            version == 1,
            parsed_url_of(endpoint@) is Some,
        ensures
            r@.share_credentials_version == 1,
            parsed_url_of(endpoint@) == Some(r@.endpoint),
            r@.profile_type == ProfileTypeView::BearerToken(
                BearerTokenView { token: bearer_token@, expiration_time },
            ),
            r@.wf(),
    {
        let normalized = match parse_url(endpoint) {
            Some(n) => n,
            None => unreached(),
        };
        Self::from_profile_type(
            1,
            normalized,
            ProfileType::new_bearer_token(bearer_token.to_owned(), expiration_time),
        )
    }

    /// The share-credentials version of the profile.
    pub fn share_credentials_version(&self) -> (r: u32)
        ensures
            r == self@.share_credentials_version,
    {
        self.share_credentials_version
    }

    /// The endpoint of the profile.
    pub fn endpoint(&self) -> (r: &str)
        ensures
            r@ == self@.endpoint,
    {
        self.endpoint.as_str()
    }

    /// The URL prefix resource paths are appended to: the endpoint.
    pub fn prefix(&self) -> (r: &str)
        ensures
            r@ == self@.endpoint,
    {
        self.endpoint()
    }

    /// Whether the profile's credential is a bearer token.
    pub fn is_bearer_token(&self) -> (r: bool)
        ensures
            r == (self@.profile_type is BearerToken),
    {
        self.profile_type.is_bearer_token()
    }

    /// The credential of the profile.
    pub fn profile_type(&self) -> (r: &ProfileType)
        ensures
            r@ == self@.profile_type,
    {
        &self.profile_type
    }
}

/// A `Profile`-kind error with the given message.
pub open spec fn profile_err(m: Seq<char>) -> DeltaSharingErrorView {
    DeltaSharingErrorView { kind: ErrorKindView::Profile, message: m }
}

/// The fields a persisted profile text holds, if it has the persisted
/// shape: a `shareCredentialsVersion` number of decimal digits that fits a
/// `u32`, an `endpoint` string, an optional `bearerToken` string, and an
/// optional `expirationTime` string holding an RFC 3339 instant.
pub open spec fn profile_file_of_text(s: Seq<char>) -> Option<
    (u32, Seq<char>, Option<Seq<char>>, Option<i64>),
> {
    match json_of_text(s) {
        Some(JsonView::Obj(m)) => match obj_get(m, "shareCredentialsVersion"@) {
            Some(JsonView::Num(raw)) => match dec_u64_of(raw) {
                Some(v) => if v <= u32::MAX {
                    match req_str_field(m, "endpoint"@) {
                        Some(endpoint) => match opt_str_field(m, "bearerToken"@) {
                            Some(token) => match opt_str_field(m, "expirationTime"@) {
                                Some(None) => Some((v as u32, endpoint, token, None)),
                                Some(Some(ts)) => match seconds_of_rfc3339(ts) {
                                    Some(sec) => Some((v as u32, endpoint, token, Some(sec))),
                                    None => None,
                                },
                                None => None,
                            },
                            None => None,
                        },
                        None => None,
                    }
                } else {
                    None
                },
                None => None,
            },
            _ => None,
        },
        _ => None,
    }
}

/// What reading a profile text yields: the profile, with its endpoint
/// stored as the URL's normalized text, or the first of these failures: the
/// text has not the persisted shape; the endpoint is no absolute URL; the
/// version is not the one supported version; the bearer token is missing.
pub open spec fn profile_of_text(s: Seq<char>) -> Result<ProfileView, DeltaSharingErrorView> {
    match profile_file_of_text(s) {
        Some((version, endpoint, token, exp)) => {
            match parsed_url_of(endpoint) {
                None => Err(profile_err("Failed to parse endpoint URL in profile"@)),
                Some(normalized) => if version != 1 {
                    Err(
                        profile_err(
                            "Unsupported share credentials version: "@ + dec_digits(version as int),
                        ),
                    )
                } else {
                    match token {
                        Some(t) => Ok(
                            ProfileView {
                                share_credentials_version: 1,
                                endpoint: normalized,
                                profile_type: ProfileTypeView::BearerToken(
                                    BearerTokenView { token: t, expiration_time: exp },
                                ),
                            },
                        ),
                        None => Err(profile_err("Bearer token is missing in profile file"@)),
                    }
                },
            }
        },
        None => Err(profile_err("Failed to parse profile file"@)),
    }
}

impl Profile {
    /// Read a profile from the text of a profile file, exactly as
    /// [`profile_of_text`] describes.
    pub fn try_from_json(text: &str) -> (r: Result<Self, DeltaSharingError>)
        ensures
            match r {
                Ok(p) => profile_of_text(text@) == Ok::<ProfileView, DeltaSharingErrorView>(p@)
                    && p@.wf(),
                Err(e) => profile_of_text(text@) == Err::<ProfileView, DeltaSharingErrorView>(e@),
            },
    {
        let parse_failure = "Failed to parse profile file";
        let parsed = match parse_json_text(text) {
            Some(j) => j,
            None => {
                return Err(DeltaSharingError::profile(parse_failure));
            },
        };
        let m = match parsed {
            Json::Obj(m) => m,
            _ => {
                return Err(DeltaSharingError::profile(parse_failure));
            },
        };
        let version: u32 = match obj_get_x(&m, "shareCredentialsVersion") {
            Some(Json::Num(raw)) => {
                let digits = chars_vec(raw.as_str());
                match parse_dec_u64(&digits) {
                    Some(v) => {
                        if v <= u32::MAX as u64 {
                            v as u32
                        } else {
                            return Err(DeltaSharingError::profile(parse_failure));
                        }
                    },
                    None => {
                        return Err(DeltaSharingError::profile(parse_failure));
                    },
                }
            },
            _ => {
                return Err(DeltaSharingError::profile(parse_failure));
            },
        };
        let endpoint = match req_str_field_x(&m, "endpoint") {
            Some(e) => e,
            None => {
                return Err(DeltaSharingError::profile(parse_failure));
            },
        };
        let token = match opt_str_field_x(&m, "bearerToken") {
            Some(t) => t,
            None => {
                return Err(DeltaSharingError::profile(parse_failure));
            },
        };
        let expiration_time: Option<i64> = match opt_str_field_x(&m, "expirationTime") {
            Some(None) => None,
            Some(Some(ts)) => match parse_rfc3339_seconds(ts.as_str()) {
                Some(sec) => Some(sec),
                None => {
                    return Err(DeltaSharingError::profile(parse_failure));
                },
            },
            None => {
                return Err(DeltaSharingError::profile(parse_failure));
            },
        };
        let normalized = match parse_url(endpoint.as_str()) {
            Some(n) => n,
            None => {
                return Err(DeltaSharingError::profile("Failed to parse endpoint URL in profile"));
            },
        };
        if version != 1 {
            let mut msg_chars = chars_vec("Unsupported share credentials version: ");
            let mut digits = u64_to_dec(version as u64);
            msg_chars.append(&mut digits);
            let msg = string_from_chars(&msg_chars);
            return Err(DeltaSharingError::profile(msg.as_str()));
        }
        match token {
            Some(t) => Ok(
                Self::from_profile_type(
                    1,
                    normalized,
                    ProfileType::new_bearer_token(t, expiration_time),
                ),
            ),
            None => Err(DeltaSharingError::profile("Bearer token is missing in profile file")),
        }
    }
}

impl TokenProvider for Profile {
    open spec fn spec_token(&self) -> Seq<char> {
        match self@.profile_type {
            ProfileTypeView::BearerToken(b) => b.token,
        }
    }

    /// The bearer token, or a `Profile` error when it has expired at the
    /// clock's current instant. A credential without an expiry is always
    /// supplied, whatever the clock says.
    fn provide_token(&self) -> (r: Result<String, DeltaSharingError>)
        ensures
            (match self@.profile_type {
                ProfileTypeView::BearerToken(b) => b.expiration_time is None,
            }) ==> r is Ok,
    {
        match &self.profile_type {
            ProfileType::BearerToken(b) => b.provide_token(),
        }
    }
}

} // verus!
