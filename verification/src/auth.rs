//! Signing in to MyAnimeList with OAuth 2 (PKCE, plain method), and keeping
//! the access token fresh.
use crate::error::{refreshed_notice, KoushinError};
use qstring::QString;
use vstd::prelude::*;

verus! {

/// Where access and refresh tokens are requested.
pub const TOKEN_URL: &'static str = "https://myanimelist.net/v1/oauth2/token";

/// The address the local server listens on for the authorization callback.
pub const CALLBACK_ADDRESS: &'static str = "127.0.0.1:8000";

/// The name under which the callback's query carries the code: the query is
/// read from the whole request path, so the name starts with `/?`.
pub const CODE_PARAMETER: &'static str = "/?code";

/// The number of characters of a code verifier.
pub const CODE_VERIFIER_LENGTH: usize = 128;

/// The tokens the program holds for the user.
pub struct AuthConfig {
    pub access_token: String,
    pub refresh_token: String,
}

/// The characters `nanoid` draws identifiers from (`nanoid::alphabet::SAFE`).
pub open spec fn safe_alphabet() -> Seq<char> {
    seq![
        '_', '-', '0', '1', '2', '3', '4', '5', '6', '7', '8', '9', 'a', 'b', 'c', 'd', 'e', 'f',
        'g', 'h', 'i', 'j', 'k', 'l', 'm', 'n', 'o', 'p', 'q', 'r', 's', 't', 'u', 'v', 'w', 'x',
        'y', 'z', 'A', 'B', 'C', 'D', 'E', 'F', 'G', 'H', 'I', 'J', 'K', 'L', 'M', 'N', 'O', 'P',
        'Q', 'R', 'S', 'T', 'U', 'V', 'W', 'X', 'Y', 'Z',
    ]
}

/// `nanoid::format` with the default random source and the safe alphabet:
/// a random identifier of `size` characters, each from the safe alphabet.
/// Which characters come out is left open; it is random.
#[verifier::external_body]
fn nanoid_safe(size: usize) -> (r: String)
    requires
        0 < size <= usize::MAX / 8,
    ensures
        r@.len() == size,
        forall|i: int| 0 <= i < r@.len() ==> safe_alphabet().contains(#[trigger] r@[i]),
{
    nanoid::format(nanoid::rngs::default, &nanoid::alphabet::SAFE, size)
}

/// A fresh random code verifier: 128 characters of the safe alphabet.
pub fn new_code_verifier() -> (r: String)
    ensures
        r@.len() == CODE_VERIFIER_LENGTH,
        forall|i: int| 0 <= i < r@.len() ==> safe_alphabet().contains(#[trigger] r@[i]),
{
    nanoid_safe(CODE_VERIFIER_LENGTH)
}

/// The address of the authorization page.
pub open spec fn authorization_address(client_id: Seq<char>, challenge: Seq<char>) -> Seq<char> {
    "https://myanimelist.net/v1/oauth2/authorize?response_type=code&client_id="@ + client_id
        + "&code_challenge="@ + challenge
}

/// The address of the page where the user authorizes the program, for a
/// client and a code challenge.
pub fn authorization_url(client_id: &str, challenge: &str) -> (r: String)
    ensures
        r@ == authorization_address(client_id@, challenge@),
{
    let mut r = String::from_str(
        "https://myanimelist.net/v1/oauth2/authorize?response_type=code&client_id=",
    );
    r.append(client_id);
    r.append("&code_challenge=");
    r.append(challenge);
    r
}

/// The code challenge of a verifier under the plain method: the verifier itself.
pub fn code_challenge(verifier: &str) -> (r: String)
    ensures
        r@ == verifier@,
{
    String::from_str(verifier)
}

#[verifier::external_type_specification]
#[verifier::external_body]
pub struct ExQString(qstring::QString);

/// The name/value pairs a query holds, in order (a name without a value has
/// the empty value).
pub uninterp spec fn query_pairs(q: QString) -> Seq<(Seq<char>, Seq<char>)>;

/// The pairs that `QString::from` reads from a text.
pub uninterp spec fn parsed_query(s: Seq<char>) -> Seq<(Seq<char>, Seq<char>)>;

/// The value of the first pair with a given name.
pub open spec fn first_value(pairs: Seq<(Seq<char>, Seq<char>)>, name: Seq<char>) -> Option<
    Seq<char>,
>
    decreases pairs.len(),
{
    if pairs.len() == 0 {
        None
    } else if pairs[0].0 == name {
        Some(pairs[0].1)
    } else {
        first_value(pairs.drop_first(), name)
    }
}

/// `QString::from`: parses a query string; its pairs are named by
/// `parsed_query`. The parser takes the first byte of each part as a slice,
/// which panics when a part starts with a character of several bytes; the
/// text is therefore required to be ASCII.
#[verifier::external_body]
fn parse_query(s: &str) -> (q: QString)
    requires
        s.is_ascii(),
    ensures
        query_pairs(q) == parsed_query(s@),
{
    QString::from(s)
}

/// `QString::get`: the value of the first pair with the name, if any.
#[verifier::external_body]
fn query_get(q: &QString, name: &str) -> (r: Option<String>)
    ensures
        match first_value(query_pairs(*q), name@) {
            Some(v) => r matches Some(s) && s@ == v,
            None => r is None,
        },
{
    q.get(name).map(String::from)
}

/// The authorization code from the result of looking it up: the code when it
/// was found, an error when not.
pub fn code_from_lookup(found: Option<String>) -> (r: Result<String, KoushinError>)
    ensures
        match found {
            Some(c) => r matches Ok(s) && s == c,
            None => r matches Err(KoushinError::MissingAuthorizationCode),
        },
{
    match found {
        Some(c) => Ok(c),
        None => Err(KoushinError::MissingAuthorizationCode),
    }
}

/// Reads the authorization code from the path of the callback request: the
/// value of the query parameter `/?code`, or an error when there is none. A
/// path that is not all ASCII is refused as unreadable.
pub fn authorization_code(request_url: &str) -> (r: Result<String, KoushinError>)
    ensures
        !request_url.is_ascii() ==> r matches Err(KoushinError::UnreadableCallback),
        request_url.is_ascii() ==> match first_value(parsed_query(request_url@), "/?code"@) {
            Some(c) => r matches Ok(s) && s@ == c,
            None => r matches Err(KoushinError::MissingAuthorizationCode),
        },
{
    if !request_url.is_ascii() {
        return Err(KoushinError::UnreadableCallback);
    }
    let q = parse_query(request_url);
    code_from_lookup(query_get(&q, CODE_PARAMETER))
}

/// The fields of a form, as texts.
pub open spec fn fields(f: Seq<(String, String)>) -> Seq<(Seq<char>, Seq<char>)> {
    f.map_values(|p: (String, String)| (p.0@, p.1@))
}

/// The form that trades an authorization code for tokens.
pub open spec fn token_fields(client_id: Seq<char>, code: Seq<char>, verifier: Seq<char>) -> Seq<
    (Seq<char>, Seq<char>),
> {
    seq![
        ("client_id"@, client_id),
        ("code"@, code),
        ("code_verifier"@, verifier),
        ("grant_type"@, "authorization_code"@),
    ]
}

/// The form that trades a refresh token for a new access token.
pub open spec fn refresh_fields(client_id: Seq<char>, refresh_token: Seq<char>) -> Seq<
    (Seq<char>, Seq<char>),
> {
    seq![
        ("client_id"@, client_id),
        ("refresh_token"@, refresh_token),
        ("grant_type"@, "refresh_token"@),
    ]
}

/// The form that trades an authorization code for tokens, proving the
/// program holds the code verifier.
pub fn token_request_form(client_id: &str, code: &str, verifier: &str) -> (r: Vec<(String, String)>)
    ensures
        fields(r@) == token_fields(client_id@, code@, verifier@),
{
    let mut r: Vec<(String, String)> = Vec::new();
    r.push((String::from_str("client_id"), String::from_str(client_id)));
    r.push((String::from_str("code"), String::from_str(code)));
    r.push((String::from_str("code_verifier"), String::from_str(verifier)));
    r.push((String::from_str("grant_type"), String::from_str("authorization_code")));
    assert(fields(r@) =~= token_fields(client_id@, code@, verifier@));
    r
}

/// The form that trades a refresh token for a new access token.
pub fn refresh_request_form(client_id: &str, refresh_token: &str) -> (r: Vec<(String, String)>)
    ensures
        fields(r@) == refresh_fields(client_id@, refresh_token@),
{
    let mut r: Vec<(String, String)> = Vec::new();
    r.push((String::from_str("client_id"), String::from_str(client_id)));
    r.push((String::from_str("refresh_token"), String::from_str(refresh_token)));
    r.push((String::from_str("grant_type"), String::from_str("refresh_token")));
    assert(fields(r@) =~= refresh_fields(client_id@, refresh_token@));
    r
}

/// The value of the `Authorization` header for an access token.
pub fn bearer(access_token: &str) -> (r: String)
    ensures
        r@ == "Bearer "@ + access_token@,
{
    let mut r = String::from_str("Bearer ");
    r.append(access_token);
    r
}

/// Whether an HTTP status is a success (200 to 299).
pub open spec fn is_success(status: u16) -> bool {
    200 <= status < 300
}

/// Whether the access token has to be refreshed after the user's own account
/// was requested with it: when the answer was not a success.
pub fn needs_refresh(status: u16) -> (r: bool)
    ensures
        r == !is_success(status),
{
    !(200 <= status && status < 300)
}

/// The tokens after a refresh: the new access token, the same refresh token.
pub fn refreshed(old: AuthConfig, access_token: String) -> (r: AuthConfig)
    ensures
        r.access_token == access_token,
        r.refresh_token == old.refresh_token,
{
    AuthConfig { access_token, refresh_token: old.refresh_token }
}

/// Where obtaining working tokens stands.
pub enum AuthStage {
    /// Whether tokens are stored is being checked.
    CheckingStored,
    /// The user is authorizing the program.
    Authorizing,
    /// The stored tokens and the client id are being read.
    ReadingStored,
    /// The stored access token is being tried (tokens, client id).
    Verifying(AuthConfig, String),
    /// The access token is being refreshed.
    Refreshing(AuthConfig),
    /// The refreshed tokens are being stored.
    Saving,
    /// The stored tokens are being read for use.
    ReadingFinal,
    /// Working tokens are known.
    Done,
}

/// What the outside world answered.
pub enum AuthEvent {
    /// Whether the token file exists.
    StoredChecked(bool),
    /// The user authorized the program and the tokens were stored.
    Authorized,
    /// The stored tokens and the client id.
    StoredRead(AuthConfig, String),
    /// The status of the answer to a request of the user's account.
    UserInfoStatus(u16),
    /// The new access token.
    RefreshedToken(String),
    /// The tokens were stored.
    Saved,
    /// The stored tokens.
    FinalRead(AuthConfig),
}

/// What is to be done next.
pub enum AuthRequest {
    /// Check whether the token file exists.
    CheckStored,
    /// Run the authorization and store the tokens it gives.
    Authorize,
    /// Read the stored tokens and the client id.
    ReadStored,
    /// Request the user's own account with this `Authorization` header.
    RequestUserInfo { authorization: String },
    /// Request a new access token with this form.
    RequestRefresh { form: Vec<(String, String)> },
    /// Store these tokens, then print this notice.
    Save { config: AuthConfig, notice: String },
    /// Read the stored tokens.
    ReadFinal,
    /// Use these tokens.
    Finish(AuthConfig),
}

/// Whether an event answers what a stage waits for.
pub open spec fn auth_event_fits(stage: AuthStage, event: AuthEvent) -> bool {
    match (stage, event) {
        (AuthStage::CheckingStored, AuthEvent::StoredChecked(_)) => true,
        (AuthStage::Authorizing, AuthEvent::Authorized) => true,
        (AuthStage::ReadingStored, AuthEvent::StoredRead(_, _)) => true,
        (AuthStage::Verifying(_, _), AuthEvent::UserInfoStatus(_)) => true,
        (AuthStage::Refreshing(_), AuthEvent::RefreshedToken(_)) => true,
        (AuthStage::Saving, AuthEvent::Saved) => true,
        (AuthStage::ReadingFinal, AuthEvent::FinalRead(_)) => true,
        _ => false,
    }
}

impl AuthConfig {
    /// Starts obtaining working tokens: the first thing is to check whether
    /// tokens are stored.
    pub fn new() -> (r: (AuthStage, AuthRequest))
        ensures
            r.0 is CheckingStored,
            r.1 is CheckStored,
    {
        (AuthStage::CheckingStored, AuthRequest::CheckStored)
    }

    /// Whether an event answers what a stage waits for.
    pub fn accepts(stage: &AuthStage, event: &AuthEvent) -> (r: bool)
        ensures
            r == auth_event_fits(*stage, *event),
    {
        match (stage, event) {
            (AuthStage::CheckingStored, AuthEvent::StoredChecked(_)) => true,
            (AuthStage::Authorizing, AuthEvent::Authorized) => true,
            (AuthStage::ReadingStored, AuthEvent::StoredRead(_, _)) => true,
            (AuthStage::Verifying(_, _), AuthEvent::UserInfoStatus(_)) => true,
            (AuthStage::Refreshing(_), AuthEvent::RefreshedToken(_)) => true,
            (AuthStage::Saving, AuthEvent::Saved) => true,
            (AuthStage::ReadingFinal, AuthEvent::FinalRead(_)) => true,
            _ => false,
        }
    }

    /// Takes what the outside world answered and says what to do next:
    /// without stored tokens the user authorizes first; the stored access
    /// token is tried on the user's account; if that fails it is refreshed
    /// with the stored refresh token, the new access token is stored with the
    /// same refresh token and the refresh is announced; last, the stored
    /// tokens are read and used.
    pub fn step(stage: AuthStage, event: AuthEvent) -> (r: (AuthStage, AuthRequest))
        requires
            auth_event_fits(stage, event),
        ensures
            match (stage, event) {
                (AuthStage::CheckingStored, AuthEvent::StoredChecked(exists)) => if exists {
                    r.0 is ReadingStored && r.1 is ReadStored
                } else {
                    r.0 is Authorizing && r.1 is Authorize
                },
                (AuthStage::Authorizing, AuthEvent::Authorized) => r.0 is ReadingStored
                    && r.1 is ReadStored,
                (AuthStage::ReadingStored, AuthEvent::StoredRead(config, client_id)) => {
                    &&& r.0 == AuthStage::Verifying(config, client_id)
                    &&& r.1 matches AuthRequest::RequestUserInfo { authorization }
                    &&& authorization@ == "Bearer "@ + config.access_token@
                },
                (AuthStage::Verifying(config, client_id), AuthEvent::UserInfoStatus(status)) => if is_success(status) {
                    r.0 is ReadingFinal && r.1 is ReadFinal
                } else {
                    &&& r.0 == AuthStage::Refreshing(config)
                    &&& r.1 matches AuthRequest::RequestRefresh { form }
                    &&& fields(form@) == refresh_fields(client_id@, config.refresh_token@)
                },
                (AuthStage::Refreshing(config), AuthEvent::RefreshedToken(access)) => {
                    &&& r.0 is Saving
                    &&& r.1 matches AuthRequest::Save { config: saved, notice }
                    &&& saved.access_token == access
                    &&& saved.refresh_token == config.refresh_token
                    &&& notice@ == crate::paint::sgr(crate::paint::cyan_code())
                        + "Access token refreshed!"@ + crate::paint::sgr(seq!['0'])
                },
                (AuthStage::Saving, AuthEvent::Saved) => r.0 is ReadingFinal && r.1 is ReadFinal,
                (AuthStage::ReadingFinal, AuthEvent::FinalRead(config)) => r.0 is Done
                    && r.1 == AuthRequest::Finish(config),
                _ => false,
            },
    {
        match (stage, event) {
            (AuthStage::CheckingStored, AuthEvent::StoredChecked(exists)) => {
                if exists {
                    (AuthStage::ReadingStored, AuthRequest::ReadStored)
                } else {
                    (AuthStage::Authorizing, AuthRequest::Authorize)
                }
            },
            (AuthStage::Authorizing, AuthEvent::Authorized) => (
                AuthStage::ReadingStored,
                AuthRequest::ReadStored,
            ),
            (AuthStage::ReadingStored, AuthEvent::StoredRead(config, client_id)) => {
                let authorization = bearer(config.access_token.as_str());
                (AuthStage::Verifying(config, client_id), AuthRequest::RequestUserInfo { authorization })
            },
            (AuthStage::Verifying(config, client_id), AuthEvent::UserInfoStatus(status)) => {
                if needs_refresh(status) {
                    let form = refresh_request_form(client_id.as_str(), config.refresh_token.as_str());
                    (AuthStage::Refreshing(config), AuthRequest::RequestRefresh { form })
                } else {
                    (AuthStage::ReadingFinal, AuthRequest::ReadFinal)
                }
            },
            (AuthStage::Refreshing(config), AuthEvent::RefreshedToken(access)) => {
                let saved = refreshed(config, access);
                (AuthStage::Saving, AuthRequest::Save { config: saved, notice: refreshed_notice() })
            },
            (AuthStage::Saving, AuthEvent::Saved) => (AuthStage::ReadingFinal, AuthRequest::ReadFinal),
            (AuthStage::ReadingFinal, AuthEvent::FinalRead(config)) => (
                AuthStage::Done,
                AuthRequest::Finish(config),
            ),
            (stage, _) => (stage, AuthRequest::ReadFinal),
        }
    }
}

} // verus!
