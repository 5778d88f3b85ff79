//! The authenticator for the Amadeus API: it holds at most one access token,
//! hands it out while it is fresh, and asks for a new one when it is not.
//!
//! Nothing here waits or sends. A call for a token is two decisions with the
//! exchange between them: [`AmadeusAuthenticator::cached_token_at`] says
//! whether the held token will do, [`AmadeusAuthenticator::token_request`]
//! says what to send where it will not, and
//! [`AmadeusAuthenticator::settle`] takes in what came back.
//! [`AmadeusAuthenticator::get_access_token_at`] is the three in a row, for a
//! caller whose exchange is an ordinary function. Whoever shares one
//! authenticator among several callers keeps it behind a lock for the whole
//! of such a call: `&mut self` is that exclusive access.

use crate::clock::unix_now;
use vstd::prelude::*;
use vstd::string::*;

verus! {

/// A token is given up this many seconds before the issuer would let it
/// lapse, to absorb clock skew and the time a request is under way.
pub const SAFETY_BUFFER_SECS: u64 = 60;

/// What the token endpoint answers on success.
#[derive(Debug)]
pub struct AccessTokenResponse {
    pub access_token: String,
    /// Expected to be `Bearer`.
    pub token_type: String,
    /// Seconds until the issuer lets the token lapse.
    pub expires_in: u64,
}

impl Clone for AccessTokenResponse {
    fn clone(&self) -> (copy: Self)
        ensures
            copy == *self,
    {
        AccessTokenResponse {
            access_token: self.access_token.clone(),
            token_type: self.token_type.clone(),
            expires_in: self.expires_in,
        }
    }
}

/// Why an attempt to get a token from the issuer came to nothing.
#[derive(Debug)]
pub enum IssuanceCause {
    /// The form for the request could not be put together.
    RequestEncoding,
    /// The request could not be sent, or the answer could not be read.
    Network { detail: String },
    /// No answer came within the time allowed.
    Timeout,
    /// The endpoint answered with a status outside 200 to 299.
    Status { code: u16 },
    /// The endpoint answered with success, and the body was not a token.
    MalformedBody,
}

/// The authenticator's one error: no token could be issued.
#[derive(Debug)]
pub enum AuthError {
    IssuanceFailed { cause: IssuanceCause },
}

/// The second in which a token stops being handed out: `SAFETY_BUFFER_SECS`
/// before the issuer lets it lapse.
pub open spec fn expiry(issued_at: int, expires_in: int) -> int {
    issued_at + expires_in - SAFETY_BUFFER_SECS
}

/// An access token and the second from which it counts as expired.
#[derive(Debug)]
pub struct AmadeusToken {
    token: String,
    expires_at: i128,
}

/// What an [`AmadeusToken`] holds.
pub struct TokenView {
    pub value: Seq<char>,
    /// Seconds since the Unix epoch; the safety buffer is already taken off.
    pub expires_at: int,
}

impl TokenView {
    /// A token counts as expired from the second `expires_at` on.
    pub open spec fn expired_at(self, now: int) -> bool {
        now >= self.expires_at
    }
}

impl View for AmadeusToken {
    type V = TokenView;

    closed spec fn view(&self) -> TokenView {
        TokenView { value: self.token@, expires_at: self.expires_at as int }
    }
}

impl Clone for AmadeusToken {
    fn clone(&self) -> (copy: Self)
        ensures
            copy == *self,
    {
        AmadeusToken { token: self.token.clone(), expires_at: self.expires_at }
    }
}

impl AmadeusToken {
    /// The token that an answer received in second `now` makes.
    pub fn issued_at(access_token: String, expires_in: u64, now: u64) -> (token: Self)
        ensures
            token@.value == access_token@,
            token@.expires_at == expiry(now as int, expires_in as int),
    {
        let expires_at: i128 = now as i128 + expires_in as i128 - SAFETY_BUFFER_SECS as i128;
        AmadeusToken { token: access_token, expires_at }
    }

    /// The token that an answer received just now makes. The second is read
    /// from the system clock, so all that is known of it is that it is one.
    pub fn new(access_token: String, expires_in: u64) -> (token: Self)
        ensures
            token@.value == access_token@,
            exists|now: int|
                0 <= now <= u64::MAX && token@.expires_at == #[trigger] expiry(
                    now,
                    expires_in as int,
                ),
    {
        let now = unix_now();
        let token = Self::issued_at(access_token, expires_in, now);
        assert(token@.expires_at == expiry(now as int, expires_in as int));
        token
    }

    /// Whether the token counts as expired in second `now`.
    pub fn is_expired_at(&self, now: u64) -> (expired: bool)
        ensures
            expired == self@.expired_at(now as int),
    {
        now as i128 >= self.expires_at
    }

    /// Whether the token counts as expired just now, by the system clock.
    pub fn is_expired(&self) -> (expired: bool)
        ensures
            exists|now: int| 0 <= now <= u64::MAX && expired == #[trigger] self@.expired_at(now),
    {
        let now = unix_now();
        let expired = self.is_expired_at(now);
        assert(expired == self@.expired_at(now as int));
        expired
    }

    /// The token itself.
    pub fn get_token(&self) -> (value: &str)
        ensures
            value@ == self@.value,
    {
        self.token.as_str()
    }
}

/// Why no authenticator could be set up.
#[derive(Debug)]
pub enum ConfigError {
    MissingApiKey,
    MissingApiSecret,
}

impl ConfigError {
    /// The words for whoever reads a log.
    pub fn message(&self) -> (words: String)
        ensures
            words@ == match *self {
                ConfigError::MissingApiKey => "AMADEUS_API_KEY not set in .env or environment"@,
                ConfigError::MissingApiSecret => "AMADEUS_API_SECRET not set in .env or environment"@,
            },
    {
        match self {
            ConfigError::MissingApiKey => "AMADEUS_API_KEY not set in .env or environment".to_string(),
            ConfigError::MissingApiSecret => "AMADEUS_API_SECRET not set in .env or environment".to_string(),
        }
    }
}

/// What goes to the token endpoint, by POST.
#[derive(Debug)]
pub struct TokenRequest {
    pub url: String,
    /// The value of the `Content-Type` header.
    pub content_type: String,
    pub body: String,
}

/// What a [`TokenRequest`] holds.
pub struct TokenRequestView {
    pub url: Seq<char>,
    pub content_type: Seq<char>,
    pub body: Seq<char>,
}

impl View for TokenRequest {
    type V = TokenRequestView;

    open spec fn view(&self) -> TokenRequestView {
        TokenRequestView { url: self.url@, content_type: self.content_type@, body: self.body@ }
    }
}

/// What came of sending a [`TokenRequest`].
#[derive(Debug)]
pub enum IssuerReply {
    /// The request could not be sent, or the answer could not be read.
    Unreachable { detail: String },
    /// No answer came within the time allowed.
    TimedOut,
    /// The endpoint answered. `body` is the token it sent, where the body
    /// could be read as one.
    Answered { status: u16, body: Option<AccessTokenResponse> },
}

/// Whether an HTTP status stands for success.
pub open spec fn is_success(status: u16) -> bool {
    200 <= status < 300
}

/// What a reply amounts to: a token, or the reason why there is none. Only
/// an answer with a status from 200 to 299 and a readable body is a token.
pub open spec fn classify(reply: IssuerReply) -> Result<AccessTokenResponse, AuthError> {
    match reply {
        IssuerReply::Unreachable { detail } => Err(
            AuthError::IssuanceFailed { cause: IssuanceCause::Network { detail } },
        ),
        IssuerReply::TimedOut => Err(AuthError::IssuanceFailed { cause: IssuanceCause::Timeout }),
        IssuerReply::Answered { status, body } => if !is_success(status) {
            Err(AuthError::IssuanceFailed { cause: IssuanceCause::Status { code: status } })
        } else {
            match body {
                Some(answer) => Ok(answer),
                None => Err(AuthError::IssuanceFailed { cause: IssuanceCause::MalformedBody }),
            }
        },
    }
}

/// Sorts a reply into a token or the reason why there is none.
pub fn classify_reply(reply: IssuerReply) -> (answer: Result<AccessTokenResponse, AuthError>)
    ensures
        answer == classify(reply),
{
    match reply {
        IssuerReply::Unreachable { detail } => Err(
            AuthError::IssuanceFailed { cause: IssuanceCause::Network { detail } },
        ),
        IssuerReply::TimedOut => Err(AuthError::IssuanceFailed { cause: IssuanceCause::Timeout }),
        IssuerReply::Answered { status, body } => {
            if status < 200 || status >= 300 {
                Err(AuthError::IssuanceFailed { cause: IssuanceCause::Status { code: status } })
            } else {
                match body {
                    Some(answer) => Ok(answer),
                    None => Err(
                        AuthError::IssuanceFailed { cause: IssuanceCause::MalformedBody },
                    ),
                }
            }
        },
    }
}

/// `serde_urlencoded::ser::Error`: what the form serializer fails with.
/// Only its presence is looked at.
#[verifier::external_type_specification]
#[verifier::external_body]
pub struct ExFormError(serde_urlencoded::ser::Error);

/// The `application/x-www-form-urlencoded` text for a list of pairs of key
/// and value, or `None` where the list has no such text.
pub uninterp spec fn form_urlencoded(pairs: Seq<(Seq<char>, Seq<char>)>) -> Option<Seq<char>>;

/// `serde_urlencoded::to_string` on a list of pairs of texts: the pairs in
/// their order as one form-encoded text, or the serializer's error. The
/// encoding is not written out here: the result has a name.
#[verifier::external_body]
fn urlencode(pairs: &Vec<(String, String)>) -> (encoded: Result<
    String,
    serde_urlencoded::ser::Error,
>)
    ensures
        form_urlencoded(pairs.deep_view()) == match encoded {
            Ok(text) => Some(text@),
            Err(_) => None,
        },
{
    serde_urlencoded::to_string(pairs)
}

/// The path of the token endpoint below the base URL.
pub open spec fn token_path() -> Seq<char> {
    "/v1/security/oauth2/token"@
}

/// The media type of the request's body.
pub open spec fn form_content_type() -> Seq<char> {
    "application/x-www-form-urlencoded"@
}

/// The base URL that an authenticator has unless it is given another.
pub open spec fn default_auth_base_url() -> Seq<char> {
    "https://test.api.amadeus.com"@
}

/// The form of a client-credentials request: the grant type, then the
/// client's id, then its secret.
pub open spec fn token_form(api_key: Seq<char>, api_secret: Seq<char>) -> Seq<
    (Seq<char>, Seq<char>),
> {
    seq![
        ("grant_type"@, "client_credentials"@),
        ("client_id"@, api_key),
        ("client_secret"@, api_secret),
    ]
}

/// Holds the credentials, the endpoint and the slot for the current token.
#[derive(Debug)]
pub struct AmadeusAuthenticator {
    api_key: String,
    api_secret: String,
    current_token: Option<AmadeusToken>,
    auth_base_url: String,
}

/// What an [`AmadeusAuthenticator`] holds.
pub struct AuthenticatorView {
    pub api_key: Seq<char>,
    pub api_secret: Seq<char>,
    /// Empty, or the one token held.
    pub slot: Option<TokenView>,
    pub auth_base_url: Seq<char>,
}

impl View for AmadeusAuthenticator {
    type V = AuthenticatorView;

    closed spec fn view(&self) -> AuthenticatorView {
        AuthenticatorView {
            api_key: self.api_key@,
            api_secret: self.api_secret@,
            slot: match self.current_token {
                Some(held) => Some(held@),
                None => None,
            },
            auth_base_url: self.auth_base_url@,
        }
    }
}

/// Whether a slot holds a token that is still handed out in second `now`.
pub open spec fn fresh(slot: Option<TokenView>, now: int) -> bool {
    slot matches Some(held) && !held.expired_at(now)
}

/// The token that a successful answer received in second `now` makes.
pub open spec fn minted(answer: AccessTokenResponse, now: int) -> TokenView {
    TokenView { value: answer.access_token@, expires_at: expiry(now, answer.expires_in as int) }
}

/// A result with the token, where there is one, as a sequence of characters.
pub open spec fn result_view(result: Result<String, AuthError>) -> Result<Seq<char>, AuthError> {
    match result {
        Ok(token) => Ok(token@),
        Err(error) => Err(error),
    }
}

/// The slot after the issuer's answer has been taken in, and what the
/// caller gets. A token replaces whatever was held; a failure goes to the
/// caller and leaves the slot as it was.
pub open spec fn settled(
    slot: Option<TokenView>,
    now: int,
    answer: Result<AccessTokenResponse, AuthError>,
) -> (Option<TokenView>, Result<Seq<char>, AuthError>) {
    match answer {
        Ok(issued) => (Some(minted(issued, now)), Ok(issued.access_token@)),
        Err(error) => (slot, Err(error)),
    }
}

/// The request that an authenticator sends for a token, or `None` where its
/// credentials have no form-encoded text.
pub open spec fn request_for(auth: AuthenticatorView) -> Option<TokenRequestView> {
    match form_urlencoded(token_form(auth.api_key, auth.api_secret)) {
        Some(body) => Some(
            TokenRequestView {
                url: auth.auth_base_url + token_path(),
                content_type: form_content_type(),
                body,
            },
        ),
        None => None,
    }
}

impl AmadeusAuthenticator {
    /// An authenticator with an empty slot for the default endpoint, from
    /// the two credentials as the configuration gave them. The key is looked
    /// at first.
    pub fn new(api_key: Option<String>, api_secret: Option<String>) -> (made: Result<
        Self,
        ConfigError,
    >)
        ensures
            match (api_key, api_secret) {
                (None, _) => made matches Err(ConfigError::MissingApiKey),
                (Some(_), None) => made matches Err(ConfigError::MissingApiSecret),
                (Some(key), Some(secret)) => made matches Ok(auth) && auth@ == (AuthenticatorView {
                    api_key: key@,
                    api_secret: secret@,
                    slot: None,
                    auth_base_url: default_auth_base_url(),
                }),
            },
    {
        match api_key {
            None => Err(ConfigError::MissingApiKey),
            Some(key) => match api_secret {
                None => Err(ConfigError::MissingApiSecret),
                Some(secret) => Ok(
                    AmadeusAuthenticator {
                        api_key: key,
                        api_secret: secret,
                        current_token: None,
                        auth_base_url: "https://test.api.amadeus.com".to_string(),
                    },
                ),
            },
        }
    }

    /// An authenticator with an empty slot for an endpoint of the caller's
    /// choice, such as a stand-in for the real one.
    pub fn new_for_test(api_key: String, api_secret: String, auth_base_url: String) -> (auth: Self)
        ensures
            auth@ == (AuthenticatorView {
                api_key: api_key@,
                api_secret: api_secret@,
                slot: None,
                auth_base_url: auth_base_url@,
            }),
    {
        AmadeusAuthenticator { api_key, api_secret, current_token: None, auth_base_url }
    }

    /// The held token, where it is still handed out in second `now`.
    pub fn cached_token_at(&self, now: u64) -> (cached: Option<String>)
        ensures
            cached.deep_view() == if fresh(self@.slot, now as int) {
                Some(self@.slot->0.value)
            } else {
                None
            },
    {
        match &self.current_token {
            Some(held) => {
                if held.is_expired_at(now) {
                    None
                } else {
                    Some(held.get_token().to_string())
                }
            },
            None => None,
        }
    }

    /// The request to send for a new token.
    pub fn token_request(&self) -> (request: Result<TokenRequest, AuthError>)
        ensures
            match request_for(self@) {
                Some(wanted) => request matches Ok(made) && made@ == wanted,
                None => request matches Err(
                    AuthError::IssuanceFailed { cause: IssuanceCause::RequestEncoding },
                ),
            },
    {
        let mut form: Vec<(String, String)> = Vec::new();
        form.push(("grant_type".to_string(), "client_credentials".to_string()));
        form.push(("client_id".to_string(), self.api_key.clone()));
        form.push(("client_secret".to_string(), self.api_secret.clone()));
        assert(form.deep_view() =~= token_form(self@.api_key, self@.api_secret));
        match urlencode(&form) {
            Ok(body) => {
                let mut url = self.auth_base_url.clone();
                url.append("/v1/security/oauth2/token");
                Ok(
                    TokenRequest {
                        url,
                        content_type: "application/x-www-form-urlencoded".to_string(),
                        body,
                    },
                )
            },
            Err(_) => Err(AuthError::IssuanceFailed { cause: IssuanceCause::RequestEncoding }),
        }
    }

    /// Takes in the issuer's answer, received in second `now`: a token goes
    /// into the slot in place of whatever was there and its value to the
    /// caller; a failure goes to the caller, and the slot stays as it was.
    pub fn settle(&mut self, answer: Result<AccessTokenResponse, AuthError>, now: u64) -> (result:
        Result<String, AuthError>)
        ensures
            final(self)@ == (AuthenticatorView {
                slot: settled(old(self)@.slot, now as int, answer).0,
                ..old(self)@
            }),
            result_view(result) == settled(old(self)@.slot, now as int, answer).1,
    {
        match answer {
            Ok(issued) => {
                let value = issued.access_token.clone();
                self.current_token = Some(
                    AmadeusToken::issued_at(issued.access_token, issued.expires_in, now),
                );
                Ok(value)
            },
            Err(error) => Err(error),
        }
    }
}

/// What the issuer's side of a call can amount to for an authenticator: the
/// failure to encode where its request has no text, else what one of the
/// replies that `issuer` may give to that request amounts to.
pub open spec fn may_answer<F: FnOnce(TokenRequest) -> IssuerReply>(
    auth: AuthenticatorView,
    issuer: F,
    answer: Result<AccessTokenResponse, AuthError>,
) -> bool {
    match request_for(auth) {
        Some(wanted) => exists|request: TokenRequest, reply: IssuerReply|
            request@ == wanted && #[trigger] issuer.ensures((request,), reply) && answer
                == classify(reply),
        None => answer == Err::<AccessTokenResponse, AuthError>(
            AuthError::IssuanceFailed { cause: IssuanceCause::RequestEncoding },
        ),
    }
}

/// One call for a token, as the slot sees it.
pub struct TokenCall {
    /// The slot after the call.
    pub slot: Option<TokenView>,
    /// What the caller gets.
    pub result: Result<Seq<char>, AuthError>,
    /// Whether the issuer had to be asked.
    pub asked: bool,
}

/// The call for a token made in second `now` on a slot, where the issuer,
/// if it has to be asked, gives `answer`. While the held token is fresh it
/// is handed out and nothing changes; otherwise the answer is taken in.
pub open spec fn token_call(
    slot: Option<TokenView>,
    now: int,
    answer: Result<AccessTokenResponse, AuthError>,
) -> TokenCall {
    if fresh(slot, now) {
        TokenCall { slot, result: Ok(slot->0.value), asked: false }
    } else {
        TokenCall {
            slot: settled(slot, now, answer).0,
            result: settled(slot, now, answer).1,
            asked: true,
        }
    }
}

/// Whether a call for a token in second `now` can leave the authenticator
/// as `after` and give the caller `result`: the outcome is that of
/// [`token_call`] for one of the answers the issuer may give, and for any
/// answer at all while the held token is fresh, when the issuer has no say.
pub open spec fn token_call_gives<F: FnOnce(TokenRequest) -> IssuerReply>(
    before: AuthenticatorView,
    issuer: F,
    now: int,
    after: AuthenticatorView,
    result: Result<Seq<char>, AuthError>,
) -> bool {
    exists|answer: Result<AccessTokenResponse, AuthError>|
        {
            let call = #[trigger] token_call(before.slot, now, answer);
            &&& fresh(before.slot, now) || may_answer(before, issuer, answer)
            &&& after == (AuthenticatorView { slot: call.slot, ..before })
            &&& result == call.result
        }
}

impl AmadeusAuthenticator {
    /// A valid token in second `now`. While the held token is fresh it is
    /// handed out and the issuer is left alone. Otherwise the issuer is
    /// asked once, with this authenticator's request, and its answer is
    /// taken in as [`AmadeusAuthenticator::settle`] says. Nothing is tried
    /// a second time.
    pub fn get_access_token_at<F: FnOnce(TokenRequest) -> IssuerReply>(
        &mut self,
        now: u64,
        issuer: F,
    ) -> (result: Result<String, AuthError>)
        requires
            forall|request: TokenRequest| issuer.requires((request,)),
        ensures
            token_call_gives(old(self)@, issuer, now as int, final(self)@, result_view(result)),
    {
        match self.cached_token_at(now) {
            Some(token) => {
                proof {
                    // The issuer has no say here: any answer stands for it.
                    let unasked = Err::<AccessTokenResponse, AuthError>(
                        AuthError::IssuanceFailed { cause: IssuanceCause::Timeout },
                    );
                    assert(token_call(self@.slot, now as int, unasked).slot == self@.slot);
                }
                Ok(token)
            },
            None => {
                let answer = match self.token_request() {
                    Ok(request) => {
                        let reply = issuer(request);
                        classify_reply(reply)
                    },
                    Err(error) => Err(error),
                };
                assert(may_answer(old(self)@, issuer, answer));
                let result = self.settle(answer, now);
                assert(result_view(result) == token_call(
                    old(self)@.slot,
                    now as int,
                    answer,
                ).result);
                result
            },
        }
    }

    /// A valid token just now: what
    /// [`AmadeusAuthenticator::get_access_token_at`] gives for the second
    /// that the system clock shows. All that is known of that second is
    /// that it is one.
    pub fn get_access_token<F: FnOnce(TokenRequest) -> IssuerReply>(&mut self, issuer: F) -> (result:
        Result<String, AuthError>)
        requires
            forall|request: TokenRequest| issuer.requires((request,)),
        ensures
            exists|now: int|
                0 <= now <= u64::MAX && #[trigger] token_call_gives(
                    old(self)@,
                    issuer,
                    now,
                    final(self)@,
                    result_view(result),
                ),
    {
        let now = unix_now();
        let result = self.get_access_token_at(now, issuer);
        assert(token_call_gives(old(self)@, issuer, now as int, self@, result_view(result)));
        result
    }
}

/// The calls for a token made one after another on a slot.
pub struct TokenCalls {
    /// The slot after the last call.
    pub slot: Option<TokenView>,
    /// What each caller got, in the order of the calls.
    pub results: Seq<Result<Seq<char>, AuthError>>,
    /// How many times the issuer was asked.
    pub asked: nat,
}

/// The calls for a token made one after another in the seconds `times`,
/// where the issuer gives `answer` whenever it is asked. Callers that share
/// an authenticator behind a lock are served in this way: one at a time.
pub open spec fn token_calls(
    slot: Option<TokenView>,
    times: Seq<int>,
    answer: Result<AccessTokenResponse, AuthError>,
) -> TokenCalls
    decreases times.len(),
{
    if times.len() == 0 {
        TokenCalls { slot, results: Seq::empty(), asked: 0 }
    } else {
        let earlier = token_calls(slot, times.drop_last(), answer);
        let last = token_call(earlier.slot, times.last(), answer);
        TokenCalls {
            slot: last.slot,
            results: earlier.results.push(last.result),
            asked: if last.asked {
                earlier.asked + 1
            } else {
                earlier.asked
            },
        }
    }
}

/// A token that was issued in second `issued_at` with `expires_in` seconds
/// to live is handed out again, as it is and without the issuer being
/// asked, in every second from `issued_at` up to
/// `issued_at + expires_in - SAFETY_BUFFER_SECS`, that second excluded:
/// whoever gets it from the slot has more than the safety buffer left on it.
/// A call in that second or later asks the issuer, once.
pub proof fn lemma_token_lifetime(
    slot: Option<TokenView>,
    issued_at: int,
    issued: AccessTokenResponse,
    later: int,
    later_answer: Result<AccessTokenResponse, AuthError>,
)
    requires
        !fresh(slot, issued_at),
        issued_at <= later,
    ensures
        ({
            let first = token_call(slot, issued_at, Ok(issued));
            let second = token_call(first.slot, later, later_answer);
            &&& first.asked
            &&& first.result == Ok::<Seq<char>, AuthError>(issued.access_token@)
            &&& later < expiry(issued_at, issued.expires_in as int) ==> {
                &&& !second.asked
                &&& second.result == first.result
                &&& second.slot == first.slot
                &&& issued_at + issued.expires_in - later > SAFETY_BUFFER_SECS
            }
            &&& later >= expiry(issued_at, issued.expires_in as int) ==> second.asked
        }),
{
}

/// A token issued with no more seconds to live than the safety buffer
/// counts as expired from the second in which it was issued: the next call
/// asks the issuer again.
pub proof fn lemma_short_lived_token_expires_at_once(
    issued_at: int,
    issued: AccessTokenResponse,
    later: int,
    later_answer: Result<AccessTokenResponse, AuthError>,
)
    requires
        issued.expires_in <= SAFETY_BUFFER_SECS,
        issued_at <= later,
    ensures
        minted(issued, issued_at).expired_at(later),
        token_call(Some(minted(issued, issued_at)), later, later_answer).asked,
{
}

/// A failed attempt to get a new token leaves the slot as it was, whatever
/// it held, and the caller gets the failure. A token that was held is
/// handed out afterwards as before, in every second in which it is fresh;
/// and while it is fresh a call does not depend on the issuer at all.
pub proof fn lemma_failed_refresh_keeps_token(
    slot: Option<TokenView>,
    now: int,
    error: AuthError,
    later: int,
    later_answer: Result<AccessTokenResponse, AuthError>,
)
    ensures
        settled(slot, now, Err(error)).0 == slot,
        settled(slot, now, Err(error)).1 == Err::<Seq<char>, AuthError>(error),
        !fresh(slot, now) ==> token_call(slot, now, Err(error)).slot == slot,
        fresh(slot, later) ==> token_call(
            settled(slot, now, Err(error)).0,
            later,
            later_answer,
        ) == (TokenCall { slot, result: Ok(slot->0.value), asked: false }),
{
}

/// Callers served one after another, the first of whom finds the slot
/// empty or its token expired: where the issuer's token is still fresh in
/// the second of the last call, the issuer is asked once, by the first
/// caller, and every caller gets that token.
pub proof fn lemma_one_issuance_serves_all(
    slot: Option<TokenView>,
    times: Seq<int>,
    issued: AccessTokenResponse,
)
    requires
        times.len() > 0,
        forall|i: int, j: int| 0 <= i <= j < times.len() ==> times[i] <= times[j],
        !fresh(slot, times[0]),
        times.last() < expiry(times[0], issued.expires_in as int),
    ensures
        token_calls(slot, times, Ok(issued)).asked == 1,
        token_calls(slot, times, Ok(issued)).slot == Some(minted(issued, times[0])),
        token_calls(slot, times, Ok(issued)).results.len() == times.len(),
        forall|i: int|
            0 <= i < times.len() ==> #[trigger] token_calls(slot, times, Ok(issued)).results[i]
                == Ok::<Seq<char>, AuthError>(issued.access_token@),
    decreases times.len(),
{
    let answer = Ok::<AccessTokenResponse, AuthError>(issued);
    let earlier = times.drop_last();
    if earlier.len() == 0 {
        assert(token_calls(slot, earlier, answer).slot == slot);
        assert(times.last() == times[0]);
    } else {
        assert(earlier[0] == times[0]);
        assert(earlier.last() == times[times.len() - 2]);
        assert forall|i: int, j: int| 0 <= i <= j < earlier.len() implies earlier[i]
            <= earlier[j] by {
            assert(earlier[i] == times[i] && earlier[j] == times[j]);
        }
        lemma_one_issuance_serves_all(slot, earlier, issued);
        assert(fresh(Some(minted(issued, times[0])), times.last()));
    }
}

/// Callers served one after another, none of whom finds a fresh token:
/// where the issuer fails each time in the same way, each of them asks it,
/// each gets that failure, and the slot ends as it began.
pub proof fn lemma_failure_reaches_all(slot: Option<TokenView>, times: Seq<int>, error: AuthError)
    requires
        forall|i: int| 0 <= i < times.len() ==> !fresh(slot, #[trigger] times[i]),
    ensures
        token_calls(slot, times, Err(error)).asked == times.len(),
        token_calls(slot, times, Err(error)).slot == slot,
        token_calls(slot, times, Err(error)).results.len() == times.len(),
        forall|i: int|
            0 <= i < times.len() ==> #[trigger] token_calls(slot, times, Err(error)).results[i]
                == Err::<Seq<char>, AuthError>(error),
    decreases times.len(),
{
    if times.len() > 0 {
        let earlier = times.drop_last();
        assert forall|i: int| 0 <= i < earlier.len() implies !fresh(
            slot,
            #[trigger] earlier[i],
        ) by {
            assert(earlier[i] == times[i]);
        }
        lemma_failure_reaches_all(slot, earlier, error);
        assert(!fresh(slot, times[times.len() - 1]));
    }
}

} // verus!
