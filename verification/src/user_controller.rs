//! The decisions of the user handlers: registration, login and the listing
//! of users. Each handler is cut where it has to wait for the store: one
//! function says what to ask of the store, the next what to make of the
//! answer.

use vstd::prelude::*;
use crate::clock::{unix_now, CLOCK_LIMIT};
use crate::http::{text_reply, Reply, StatusCode, TextReply, TextReplyView};
use crate::jwt::{
    issue_at, issue_spec, issued_claims, lemma_tokens_differ, signs, TokenConfig, TokenKind,
    REFRESH_TOKEN_LIFETIME,
};
use crate::object_id::{is_object_id, parses_as_object_id};
use crate::password::{bcrypt_verdict, hash_password, password_matches};
use crate::store::{Changed, Fetched, Inserted, Lookup};
use crate::text::{blank, is_blank, opt_view};
use crate::user_model::{
    profiles, response_views, LoginUser, NewUser, User, UserResponse, UserResponseView, UserView,
};

verus! {

/// What a handler does first: it answers at once, or it asks the store for
/// the user with an email address.
#[derive(Debug, PartialEq, Eq)]
pub enum UserSearch {
    FindUser { email: String },
    Done(TextReply),
}

/// What a `UserSearch` holds.
pub enum UserSearchView {
    FindUser { email: Seq<char> },
    Done(TextReplyView),
}

impl View for UserSearch {
    type V = UserSearchView;

    open spec fn view(&self) -> UserSearchView {
        match self {
            UserSearch::FindUser { email } => UserSearchView::FindUser { email: email@ },
            UserSearch::Done(reply) => UserSearchView::Done(reply@),
        }
    }
}

/// A login that lacks only the write of its refresh token.
#[derive(Debug, PartialEq, Eq)]
pub struct LoginPending {
    /// The key of the record on which the refresh token is to be stored.
    pub user_id: String,
    pub user: UserResponse,
    pub access_token: String,
    pub refresh_token: String,
}

/// What a `LoginPending` or a `LoginResponse` holds.
pub struct LoginView {
    pub user: UserResponseView,
    pub access_token: Seq<char>,
    pub refresh_token: Seq<char>,
}

impl View for LoginPending {
    type V = LoginView;

    open spec fn view(&self) -> LoginView {
        LoginView {
            user: self.user@,
            access_token: self.access_token@,
            refresh_token: self.refresh_token@,
        }
    }
}

/// What a client gets for a login: the public profile and the two tokens.
#[derive(Debug, PartialEq, Eq)]
pub struct LoginResponse {
    pub user: UserResponse,
    pub access_token: String,
    pub refresh_token: String,
}

impl View for LoginResponse {
    type V = LoginView;

    open spec fn view(&self) -> LoginView {
        LoginView {
            user: self.user@,
            access_token: self.access_token@,
            refresh_token: self.refresh_token@,
        }
    }
}

/// How a login goes on once the store has answered: it ends, or it asks the
/// store to write the refresh token on the user's record.
#[derive(Debug, PartialEq, Eq)]
pub enum LoginProgress {
    StoreRefreshToken(LoginPending),
    Done(TextReply),
}

/// What a `LoginProgress` holds.
pub enum LoginProgressView {
    StoreRefreshToken { user_id: Seq<char>, login: LoginView },
    Done(TextReplyView),
}

impl View for LoginProgress {
    type V = LoginProgressView;

    open spec fn view(&self) -> LoginProgressView {
        match self {
            LoginProgress::StoreRefreshToken(pending) => LoginProgressView::StoreRefreshToken {
                user_id: pending.user_id@,
                login: pending@,
            },
            LoginProgress::Done(reply) => LoginProgressView::Done(reply@),
        }
    }
}

/// The first step of a login: both fields must hold more than whitespace.
pub open spec fn login_start(email: Seq<char>, password: Seq<char>) -> UserSearchView {
    if blank(email) || blank(password) {
        UserSearchView::Done(
            text_reply(StatusCode::BadRequest, "Email and password are required"@),
        )
    } else {
        UserSearchView::FindUser { email }
    }
}

/// The second step of a login, in the order of its checks: the user must
/// exist, the password must match the stored hash, the record must have a
/// key, both tokens must be issued, and the key must be a storage key.
pub open spec fn login_found(
    config: &TokenConfig,
    password: Seq<char>,
    lookup: Lookup<User>,
    now: u64,
) -> LoginProgressView {
    match lookup {
        Lookup::Missing => LoginProgressView::Done(
            text_reply(StatusCode::Unauthorized, "Invalid credentials"@),
        ),
        Lookup::Failed(why) => LoginProgressView::Done(
            text_reply(StatusCode::InternalServerError, "Database error: "@ + why@),
        ),
        Lookup::Found(user) => match bcrypt_verdict(password, user.password@) {
            None => LoginProgressView::Done(
                text_reply(StatusCode::InternalServerError, "Error verifying password"@),
            ),
            Some(false) => LoginProgressView::Done(
                text_reply(StatusCode::Unauthorized, "Invalid credentials"@),
            ),
            Some(true) => match user.id {
                None => LoginProgressView::Done(
                    text_reply(StatusCode::InternalServerError, "User ID not found"@),
                ),
                Some(id) => match issue_spec(config, id@, TokenKind::Access, now) {
                    Err(_) => LoginProgressView::Done(
                        text_reply(
                            StatusCode::InternalServerError,
                            "Failed to create access token"@,
                        ),
                    ),
                    Ok(access_token) => match issue_spec(config, id@, TokenKind::Refresh, now) {
                        Err(_) => LoginProgressView::Done(
                            text_reply(
                                StatusCode::InternalServerError,
                                "Failed to create refresh token"@,
                            ),
                        ),
                        Ok(refresh_token) => if is_object_id(id@) {
                            LoginProgressView::StoreRefreshToken {
                                user_id: id@,
                                login: LoginView {
                                    user: user@.profile(),
                                    access_token,
                                    refresh_token,
                                },
                            }
                        } else {
                            LoginProgressView::Done(
                                text_reply(
                                    StatusCode::InternalServerError,
                                    "Invalid user ID format"@,
                                ),
                            )
                        },
                    },
                },
            },
        },
    }
}

/// Both tokens of a login are signed forms of the claims issued to
/// `user_id` at `now`, each under the secret of its kind.
pub open spec fn login_tokens_signed(
    config: &TokenConfig,
    user_id: Seq<char>,
    login: LoginView,
    now: u64,
) -> bool {
    &&& signs(
        login.access_token,
        issued_claims(user_id, TokenKind::Access, now),
        config.access_secret@,
    )
    &&& signs(
        login.refresh_token,
        issued_claims(user_id, TokenKind::Refresh, now),
        config.refresh_secret@,
    )
}

/// The last step of a login: once the refresh token is written the client
/// gets the profile and both tokens; if the write failed, the login failed.
pub open spec fn login_stored(login: LoginView, stored: Changed) -> Result<LoginView, TextReplyView> {
    match stored {
        Changed::Count(_) => Ok(login),
        Changed::Failed(why) => Err(
            text_reply(StatusCode::InternalServerError, "Failed to save refresh token: "@ + why@),
        ),
    }
}

/// What a reply to a login holds.
pub open spec fn login_reply_view(reply: Reply<LoginResponse>) -> Result<LoginView, TextReplyView> {
    match reply {
        Reply::Json(login) => Ok(login@),
        Reply::Text(text) => Err(text@),
    }
}

/// Begins a login.
pub fn login_user(credentials: &LoginUser) -> (step: UserSearch)
    ensures
        step@ == login_start(credentials.email@, credentials.password@),
{
    if is_blank(credentials.email.as_str()) || is_blank(credentials.password.as_str()) {
        UserSearch::Done(
            TextReply::message(StatusCode::BadRequest, "Email and password are required"),
        )
    } else {
        UserSearch::FindUser { email: credentials.email.clone() }
    }
}

/// Goes on with a login once the store has answered the search for the
/// user, with `now` as the instant at which the tokens are issued.
pub fn login_user_found_at(
    config: &TokenConfig,
    credentials: &LoginUser,
    lookup: Lookup<User>,
    now: u64,
) -> (progress: LoginProgress)
    requires
        now + REFRESH_TOKEN_LIFETIME <= u64::MAX,
    ensures
        progress@ == login_found(config, credentials.password@, lookup, now),
        progress@ matches LoginProgressView::StoreRefreshToken { user_id, login }
            ==> login_tokens_signed(config, user_id, login, now),
{
    let user = match lookup {
        Lookup::Missing => {
            return LoginProgress::Done(
                TextReply::message(StatusCode::Unauthorized, "Invalid credentials"),
            );
        },
        Lookup::Failed(why) => {
            return LoginProgress::Done(
                TextReply::failure(
                    StatusCode::InternalServerError,
                    "Database error: ",
                    why.as_str(),
                ),
            );
        },
        Lookup::Found(user) => user,
    };
    match password_matches(credentials.password.as_str(), user.password.as_str()) {
        None => {
            return LoginProgress::Done(
                TextReply::message(StatusCode::InternalServerError, "Error verifying password"),
            );
        },
        Some(false) => {
            return LoginProgress::Done(
                TextReply::message(StatusCode::Unauthorized, "Invalid credentials"),
            );
        },
        Some(true) => {},
    }
    let profile = user.profile();
    let user_id = match user.id {
        None => {
            return LoginProgress::Done(
                TextReply::message(StatusCode::InternalServerError, "User ID not found"),
            );
        },
        Some(id) => id,
    };
    let access_token = match issue_at(config, user_id.as_str(), TokenKind::Access, now) {
        Err(_) => {
            return LoginProgress::Done(
                TextReply::message(
                    StatusCode::InternalServerError,
                    "Failed to create access token",
                ),
            );
        },
        Ok(token) => token,
    };
    let refresh_token = match issue_at(config, user_id.as_str(), TokenKind::Refresh, now) {
        Err(_) => {
            return LoginProgress::Done(
                TextReply::message(
                    StatusCode::InternalServerError,
                    "Failed to create refresh token",
                ),
            );
        },
        Ok(token) => token,
    };
    if !parses_as_object_id(user_id.as_str()) {
        return LoginProgress::Done(
            TextReply::message(StatusCode::InternalServerError, "Invalid user ID format"),
        );
    }
    LoginProgress::StoreRefreshToken(
        LoginPending { user_id, user: profile, access_token, refresh_token },
    )
}

/// Goes on with a login once the store has answered the search for the
/// user; the tokens are issued as of the current time.
pub fn login_user_found(config: &TokenConfig, credentials: &LoginUser, lookup: Lookup<User>) -> (progress:
    LoginProgress)
    ensures
        exists|now: u64|
            now < CLOCK_LIMIT && #[trigger] login_found(
                config,
                credentials.password@,
                lookup,
                now,
            ) == progress@ && (progress@ matches LoginProgressView::StoreRefreshToken {
                user_id,
                login,
            } ==> login_tokens_signed(config, user_id, login, now)),
{
    let now = unix_now();
    login_user_found_at(config, credentials, lookup, now)
}

/// Ends a login once the store has answered the write of the refresh token.
pub fn login_user_stored(pending: LoginPending, stored: Changed) -> (reply: Reply<LoginResponse>)
    ensures
        login_reply_view(reply) == login_stored(pending@, stored),
{
    match stored {
        Changed::Count(_) => Reply::Json(
            LoginResponse {
                user: pending.user,
                access_token: pending.access_token,
                refresh_token: pending.refresh_token,
            },
        ),
        Changed::Failed(why) => Reply::Text(
            TextReply::failure(
                StatusCode::InternalServerError,
                "Failed to save refresh token: ",
                why.as_str(),
            ),
        ),
    }
}

/// A later login supersedes an earlier one. If the same user logs in at two
/// different instants, the two refresh tokens differ, and once both have
/// been written on the record, the record holds the second and no longer the
/// first. (Two logins within one second are issued the same claims, and with
/// them the same token.)
pub proof fn lemma_second_login_supersedes(
    config: &TokenConfig,
    record: UserView,
    user_id: Seq<char>,
    first: LoginView,
    first_now: u64,
    second: LoginView,
    second_now: u64,
)
    requires
        first_now + REFRESH_TOKEN_LIFETIME <= u64::MAX,
        second_now + REFRESH_TOKEN_LIFETIME <= u64::MAX,
        login_tokens_signed(config, user_id, first, first_now),
        login_tokens_signed(config, user_id, second, second_now),
        first_now != second_now,
    ensures
        first.refresh_token != second.refresh_token,
        record.with_refresh_token(first.refresh_token).with_refresh_token(
            second.refresh_token,
        ).refresh_token == Some(second.refresh_token),
        record.with_refresh_token(first.refresh_token).with_refresh_token(
            second.refresh_token,
        ).refresh_token != Some(first.refresh_token),
{
    lemma_tokens_differ(
        first.refresh_token,
        issued_claims(user_id, TokenKind::Refresh, first_now),
        second.refresh_token,
        issued_claims(user_id, TokenKind::Refresh, second_now),
        config.refresh_secret@,
    );
}

/// How a registration goes on once the store has answered the search for
/// the email address: it ends, or it asks the store to insert the new user.
#[derive(Debug, PartialEq, Eq)]
pub enum Registration {
    InsertUser(User),
    Done(TextReply),
}

/// What a `Registration` holds.
pub enum RegistrationView {
    InsertUser(UserView),
    Done(TextReplyView),
}

impl View for Registration {
    type V = RegistrationView;

    open spec fn view(&self) -> RegistrationView {
        match self {
            Registration::InsertUser(user) => RegistrationView::InsertUser(user@),
            Registration::Done(reply) => RegistrationView::Done(reply@),
        }
    }
}

/// The first step of a registration: all three fields must hold more than
/// whitespace.
pub open spec fn registration_start(user: &NewUser) -> UserSearchView {
    if blank(user.name@) || blank(user.email@) || blank(user.password@) {
        UserSearchView::Done(
            text_reply(StatusCode::BadRequest, "Name, email, and password are required"@),
        )
    } else {
        UserSearchView::FindUser { email: user.email@ }
    }
}

/// The record of a new user: it has no key and no refresh token yet, and
/// holds the hash in place of the password.
pub open spec fn new_record(user: &NewUser, hash: Seq<char>) -> UserView {
    UserView {
        id: None,
        name: user.name@,
        email: user.email@,
        password: hash,
        refresh_token: None,
    }
}

/// The second step of a registration, given what hashing the password came
/// to: an address that is taken ends it; a search that failed does not.
pub open spec fn registration_checked(
    user: &NewUser,
    existing: Lookup<User>,
    hash: Option<Seq<char>>,
) -> RegistrationView {
    if existing is Found {
        RegistrationView::Done(text_reply(StatusCode::BadRequest, "Email already exists"@))
    } else {
        match hash {
            None => RegistrationView::Done(
                text_reply(StatusCode::InternalServerError, "Failed to hash password"@),
            ),
            Some(h) => RegistrationView::InsertUser(new_record(user, h)),
        }
    }
}

/// The last step of a registration: the profile of the new user under the
/// key that the store gave it.
pub open spec fn registration_inserted(user: &NewUser, inserted: Inserted) -> Result<
    UserResponseView,
    TextReplyView,
> {
    match inserted {
        Inserted::Key(key) => Ok(
            UserResponseView { id: Some(key@), name: user.name@, email: user.email@ },
        ),
        Inserted::NoKey => Err(
            text_reply(StatusCode::InternalServerError, "Failed to get inserted ID"@),
        ),
        Inserted::Failed(why) => Err(
            text_reply(StatusCode::InternalServerError, "Error inserting user: "@ + why@),
        ),
    }
}

/// What a reply that carries one profile holds.
pub open spec fn profile_reply_view(reply: Reply<UserResponse>) -> Result<
    UserResponseView,
    TextReplyView,
> {
    match reply {
        Reply::Json(profile) => Ok(profile@),
        Reply::Text(text) => Err(text@),
    }
}

/// Begins a registration.
pub fn create_user(user: &NewUser) -> (step: UserSearch)
    ensures
        step@ == registration_start(user),
{
    if is_blank(user.name.as_str()) || is_blank(user.email.as_str()) || is_blank(
        user.password.as_str(),
    ) {
        UserSearch::Done(
            TextReply::message(StatusCode::BadRequest, "Name, email, and password are required"),
        )
    } else {
        UserSearch::FindUser { email: user.email.clone() }
    }
}

/// Goes on with a registration once the search for the email address is
/// answered and the password is hashed.
pub fn create_user_hashed(user: &NewUser, existing: Lookup<User>, hash: Option<String>) -> (step:
    Registration)
    ensures
        step@ == registration_checked(user, existing, opt_view(hash)),
{
    if let Lookup::Found(_) = existing {
        return Registration::Done(
            TextReply::message(StatusCode::BadRequest, "Email already exists"),
        );
    }
    match hash {
        None => Registration::Done(
            TextReply::message(StatusCode::InternalServerError, "Failed to hash password"),
        ),
        Some(h) => Registration::InsertUser(
            User {
                id: None,
                name: user.name.clone(),
                email: user.email.clone(),
                password: h,
                refresh_token: None,
            },
        ),
    }
}

/// Goes on with a registration once the search for the email address is
/// answered: unless the address is taken, the password is hashed under a
/// fresh salt. Whatever the salt, the record to insert holds a hash that
/// matches the password.
pub fn create_user_checked(user: &NewUser, existing: Lookup<User>) -> (step: Registration)
    ensures
        exists|hash: Option<Seq<char>>| #[trigger]
            registration_checked(user, existing, hash) == step@,
        step@ matches RegistrationView::InsertUser(record) ==> bcrypt_verdict(
            user.password@,
            record.password,
        ) == Some(true),
{
    if let Lookup::Found(_) = existing {
        let step = create_user_hashed(user, existing, None);
        assert(registration_checked(user, existing, None) == step@);
        return step;
    }
    let hash = hash_password(user.password.as_str());
    let step = create_user_hashed(user, existing, hash);
    assert(registration_checked(user, existing, opt_view(hash)) == step@);
    step
}

/// Ends a registration once the store has answered the insertion.
pub fn create_user_inserted(user: &NewUser, inserted: Inserted) -> (reply: Reply<UserResponse>)
    ensures
        profile_reply_view(reply) == registration_inserted(user, inserted),
{
    match inserted {
        Inserted::Key(key) => Reply::Json(
            UserResponse { id: Some(key), name: user.name.clone(), email: user.email.clone() },
        ),
        Inserted::NoKey => Reply::Text(
            TextReply::message(StatusCode::InternalServerError, "Failed to get inserted ID"),
        ),
        Inserted::Failed(why) => Reply::Text(
            TextReply::failure(
                StatusCode::InternalServerError,
                "Error inserting user: ",
                why.as_str(),
            ),
        ),
    }
}

/// The listing of users, given what the store found: the public profile of
/// every user, in the order of the store.
pub open spec fn users_listed(fetched: Fetched<User>) -> Result<
    Seq<UserResponseView>,
    TextReplyView,
> {
    match fetched {
        Fetched::Rows(users) => Ok(profiles(users@)),
        Fetched::QueryFailed(why) => Err(
            text_reply(StatusCode::InternalServerError, "Database error: "@ + why@),
        ),
        Fetched::ReadFailed(why) => Err(
            text_reply(StatusCode::InternalServerError, "Error reading users: "@ + why@),
        ),
    }
}

/// What a reply that carries many profiles holds.
pub open spec fn profiles_reply_view(reply: Reply<Vec<UserResponse>>) -> Result<
    Seq<UserResponseView>,
    TextReplyView,
> {
    match reply {
        Reply::Json(shown) => Ok(response_views(shown@)),
        Reply::Text(text) => Err(text@),
    }
}

/// Lists the users that the store found.
pub fn get_user(fetched: Fetched<User>) -> (reply: Reply<Vec<UserResponse>>)
    ensures
        profiles_reply_view(reply) == users_listed(fetched),
{
    match fetched {
        Fetched::Rows(users) => {
            let mut shown: Vec<UserResponse> = Vec::new();
            let mut i: usize = 0;
            while i < users.len()
                invariant
                    i <= users.len(),
                    shown.len() == i,
                    forall|j: int| 0 <= j < i ==> shown[j]@ == users[j]@.profile(),
                decreases users.len() - i,
            {
                shown.push(users[i].profile());
                i += 1;
            }
            assert(response_views(shown@) =~= profiles(users@));
            Reply::Json(shown)
        },
        Fetched::QueryFailed(why) => Reply::Text(
            TextReply::failure(StatusCode::InternalServerError, "Database error: ", why.as_str()),
        ),
        Fetched::ReadFailed(why) => Reply::Text(
            TextReply::failure(
                StatusCode::InternalServerError,
                "Error reading users: ",
                why.as_str(),
            ),
        ),
    }
}

} // verus!
