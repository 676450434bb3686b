//! Credentials, session tokens, and the guard in front of the handlers.

use crate::cookie::{auth_token_in, auth_token_of};
use crate::entropy::{entropy_rng, random_index};
use crate::headers::{
    lemma_field_names_are_lower_case, Headers, StatusCode, COOKIE, USERNAME, USER_ID,
};
use crate::model::{Relations, UserRow, UserView};
use crate::password::{
    argon2_hash, argon2_verify, byte_length, password_matches, MAX_PASSWORD_BYTES,
};
use crate::route_handlers::RegistrationRequest;
use crate::state::{is_user, AppState, AuthToken, RegistrationError, StoreFailure, UserRecord};
use crate::text::{decimal, decimal_string, lemma_parse_decimal_inverts, same_text};
use crate::utilities::header_user_id;
use vstd::prelude::*;
use vstd::string::*;

verus! {

/// The form that a user logs in with.
#[derive(Debug)]
pub struct LoginRequest {
    pub username: String,
    pub password: String,
}

/// A user as the handlers see one: identity and name, no credentials.
#[derive(Debug)]
pub struct User {
    pub id: i32,
    pub username: String,
}

impl View for User {
    type V = UserView;

    open spec fn view(&self) -> UserView {
        UserView { id: self.id as int, username: self.username@ }
    }
}

impl DeepView for User {
    type V = UserView;

    open spec fn deep_view(&self) -> UserView {
        self@
    }
}

impl Clone for User {
    fn clone(&self) -> (copy: User)
        ensures
            copy@ == self@,
    {
        User { id: self.id, username: self.username.clone() }
    }
}

/// How many characters a session token has.
pub const TOKEN_LENGTH: usize = 31;

/// How many seconds a session lasts: a thousand hours.
pub const SESSION_DURATION: i64 = 3_600_000;

/// The characters that session tokens are made of: the small letters,
/// then the digits.
pub open spec fn token_alphabet() -> Seq<char> {
    seq![
        'a', 'b', 'c', 'd', 'e', 'f', 'g', 'h', 'i', 'j', 'k', 'l', 'm', 'n', 'o', 'p', 'q', 'r',
        's', 't', 'u', 'v', 'w', 'x', 'y', 'z', '0', '1', '2', '3', '4', '5', '6', '7', '8', '9',
    ]
}

/// Whether `text` has the shape of a session token.
pub open spec fn is_token(text: Seq<char>) -> bool {
    &&& text.len() == TOKEN_LENGTH
    &&& forall|i: int| 0 <= i < text.len() ==> token_alphabet().contains(#[trigger] text[i])
}

/// The character of the token alphabet at `index`, as a text of its own.
pub fn token_char(index: usize) -> (text: &'static str)
    requires
        index < 36,
    ensures
        text@ == seq![token_alphabet()[index as int]],
{
    proof {
        reveal_strlit("a");
        reveal_strlit("b");
        reveal_strlit("c");
        reveal_strlit("d");
        reveal_strlit("e");
        reveal_strlit("f");
        reveal_strlit("g");
        reveal_strlit("h");
        reveal_strlit("i");
        reveal_strlit("j");
        reveal_strlit("k");
        reveal_strlit("l");
        reveal_strlit("m");
        reveal_strlit("n");
        reveal_strlit("o");
        reveal_strlit("p");
        reveal_strlit("q");
        reveal_strlit("r");
        reveal_strlit("s");
        reveal_strlit("t");
        reveal_strlit("u");
        reveal_strlit("v");
        reveal_strlit("w");
        reveal_strlit("x");
        reveal_strlit("y");
        reveal_strlit("z");
        reveal_strlit("0");
        reveal_strlit("1");
        reveal_strlit("2");
        reveal_strlit("3");
        reveal_strlit("4");
        reveal_strlit("5");
        reveal_strlit("6");
        reveal_strlit("7");
        reveal_strlit("8");
        reveal_strlit("9");
    }
    let text = match index {
        0 => "a",
        1 => "b",
        2 => "c",
        3 => "d",
        4 => "e",
        5 => "f",
        6 => "g",
        7 => "h",
        8 => "i",
        9 => "j",
        10 => "k",
        11 => "l",
        12 => "m",
        13 => "n",
        14 => "o",
        15 => "p",
        16 => "q",
        17 => "r",
        18 => "s",
        19 => "t",
        20 => "u",
        21 => "v",
        22 => "w",
        23 => "x",
        24 => "y",
        25 => "z",
        26 => "0",
        27 => "1",
        28 => "2",
        29 => "3",
        30 => "4",
        31 => "5",
        32 => "6",
        33 => "7",
        34 => "8",
        _ => "9",
    };
    assert(text@ =~= seq![token_alphabet()[index as int]]);
    text
}

/// A fresh session token: each character is drawn from the alphabet by a
/// generator that is seeded from the operating system for that character.
pub fn generate_token() -> (token: String)
    ensures
        is_token(token@),
{
    let mut token = String::new();
    let mut drawn: usize = 0;
    while drawn < TOKEN_LENGTH
        invariant
            drawn <= TOKEN_LENGTH,
            token@.len() == drawn,
            forall|i: int| 0 <= i < token@.len() ==> token_alphabet().contains(#[trigger] token@[i]),
        decreases TOKEN_LENGTH - drawn,
    {
        let mut rng = entropy_rng();
        let index = random_index(&mut rng, 36);
        let ghost before = token@;
        token.append(token_char(index));
        proof {
            assert(token@ =~= before.push(token_alphabet()[index as int]));
            assert forall|i: int| 0 <= i < token@.len() implies token_alphabet().contains(
                #[trigger] token@[i],
            ) by {
                if i < before.len() {
                    assert(token@[i] == before[i]);
                }
            }
        }
        drawn = drawn + 1;
    }
    token
}

/// Hashes a password under a fresh random salt. The hash is a string that
/// names the algorithm, the cost parameters and the salt beside the
/// digest, so that checking a password against it needs nothing else.
pub fn hash_password(password: String) -> (hash: String)
    requires
        byte_length(password@) <= MAX_PASSWORD_BYTES,
    ensures
        password_matches(hash@, password@),
{
    argon2_hash(password.as_str(), entropy_rng())
}

/// Whom a name and a password stand for: the user of that name, if the
/// password matches the hash that is kept for them.
pub open spec fn credentials_user(
    relations: Relations,
    username: Seq<char>,
    password: Seq<char>,
) -> Option<UserRow> {
    record_user(relations.user_named(username), password)
}

/// The user of `record`, if their password was found to match.
pub fn verified_user(record: &UserRecord, password_ok: bool) -> (user: Option<User>)
    ensures
        is_user(
            user,
            if password_ok {
                Some(record@)
            } else {
                None
            },
        ),
{
    if password_ok {
        Some(User { id: record.id, username: record.username.clone() })
    } else {
        None
    }
}

/// Whom `password` and the record found under a name stand for: the
/// user of the record, if there is one and the password matches its hash.
pub open spec fn record_user(record: Option<UserRow>, password: Seq<char>) -> Option<UserRow> {
    match record {
        Some(row) => if password_matches(row.hashed_password, password) {
            Some(row)
        } else {
            None
        },
        None => None,
    }
}

/// The user whom `password` and the record found under a name stand for.
/// No record and a wrong password come to the same answer, and to the same
/// work: without a record the password is checked against a hash that no
/// password is known for.
pub fn verify_record(record: Option<&UserRecord>, password: &str) -> (user: Option<User>)
    ensures
        is_user(
            user,
            record_user(
                match record {
                    Some(r) => Some(r@),
                    None => None,
                },
                password@,
            ),
        ),
{
    match record {
        Some(record) => {
            let password_ok = argon2_verify(password, record.hashed_password.as_str());
            verified_user(record, password_ok)
        },
        None => {
            let _ = argon2_verify(
                password,
                "$argon2id$v=19$m=19456,t=2,p=1$c29tZXNhbHRzb21lc2FsdA$AAAAAAAAAAAAAAAAAAAAAAAAAAAAAAAAAAAAAAAAAAA",
            );
            None
        },
    }
}

/// The user whom `username` and `password` stand for.
pub fn verify_login(username: &str, password: &str, state: &AppState) -> (user: Option<User>)
    ensures
        is_user(user, credentials_user(state@, username@, password@)),
{
    verify_record(state.find_user_by_name(username), password)
}

/// The user with the id.
pub fn get_user(user_id: i32, state: &AppState) -> (user: Option<User>)
    ensures
        is_user(user, state@.user_with_id(user_id as int)),
{
    state.get_user(user_id)
}

/// The user whom the cookie's token stands for at time `now`: nobody, if
/// the token is unknown, revoked, expired or empty.
pub fn validate_cookie(cookie_value: String, now: i64, state: &AppState) -> (user: Option<User>)
    ensures
        is_user(user, state@.session_user(cookie_value@, now as int)),
{
    state.session_user(cookie_value.as_str(), now)
}

/// The session token that the headers of a request carry: that of the
/// cookie header, and the empty token without one.
pub open spec fn request_token(headers: Map<Seq<char>, Seq<char>>) -> Seq<char> {
    if headers.contains_key(COOKIE@) {
        auth_token_in(headers[COOKIE@])
    } else {
        Seq::empty()
    }
}

/// The headers of a request, marked as coming from `user`: whatever the
/// request said of a user's name and id is replaced.
pub open spec fn with_identity(headers: Map<Seq<char>, Seq<char>>, user: UserRow) -> Map<
    Seq<char>,
    Seq<char>,
> {
    headers.insert(USERNAME@, user.username).insert(USER_ID@, decimal(user.id))
}

/// The headers of the answer to a request without a valid session.
pub open spec fn rejection_headers() -> Map<Seq<char>, Seq<char>> {
    Map::<Seq<char>, Seq<char>>::empty().insert("hx-redirect"@, "./index.html"@)
}

/// The session token that the headers of a request carry.
pub fn request_token_of(headers: &Headers) -> (token: String)
    ensures
        token@ == request_token(headers@),
{
    proof {
        lemma_field_names_are_lower_case();
    }
    match headers.get(COOKIE) {
        Some(cookies) => auth_token_of(cookies.as_str()),
        None => String::new(),
    }
}

/// What becomes of a request once the store was asked whom its session
/// stands for. With a user the request passes, its headers marked with the
/// user's name and id. Without one it is turned away as unauthorized and
/// sent to the login page. Where the store could not answer, the request
/// ends in an internal error: a failure is not taken for a missing session.
pub fn auth_outcome(headers: Headers, lookup: Result<Option<User>, StoreFailure>) -> (outcome:
    Result<Headers, (StatusCode, Headers)>)
    ensures
        match lookup {
            Ok(Some(u)) => {
                &&& outcome matches Ok(request)
                &&& request@ == headers@.insert(USERNAME@, u@.username).insert(
                    USER_ID@,
                    decimal(u@.id),
                )
                &&& header_user_id(request@) == Some(u.id)
            },
            Ok(None) => {
                &&& outcome matches Err((status, response))
                &&& status == StatusCode::Unauthorized
                &&& response@ == rejection_headers()
            },
            Err(_) => {
                &&& outcome matches Err((status, response))
                &&& status == StatusCode::InternalServerError
                &&& response@ == Map::<Seq<char>, Seq<char>>::empty()
            },
        },
{
    proof {
        lemma_field_names_are_lower_case();
    }
    match lookup {
        Ok(Some(user)) => {
            let mut request = headers;
            request.insert(USERNAME, user.username);
            request.insert(USER_ID, decimal_string(user.id as i64));
            proof {
                lemma_parse_decimal_inverts(user.id as int);
            }
            Ok(request)
        },
        Ok(None) => {
            let mut response = Headers::new();
            response.insert("hx-redirect", "./index.html".to_owned());
            Err((StatusCode::Unauthorized, response))
        },
        Err(_) => Err((StatusCode::InternalServerError, Headers::new())),
    }
}

/// The guard in front of the protected handlers. A request with a valid
/// session passes, its headers marked with the user's name and id. Every
/// other request is turned away as unauthorized, whatever was wrong with it,
/// and sent to the login page.
pub fn auth(state: &AppState, now: i64, headers: Headers) -> (outcome: Result<
    Headers,
    (StatusCode, Headers),
>)
    ensures
        match outcome {
            Ok(request) => {
                &&& state@.session_user(request_token(headers@), now as int) matches Some(user)
                &&& request@ == with_identity(headers@, user)
                &&& header_user_id(request@) == Some(user.id as i32)
                &&& i32::MIN <= user.id <= i32::MAX
            },
            Err((status, response)) => {
                &&& state@.session_user(request_token(headers@), now as int) is None
                &&& status == StatusCode::Unauthorized
                &&& response@ == rejection_headers()
            },
        },
{
    let token = request_token_of(&headers);
    let user = validate_cookie(token, now, state);
    auth_outcome(headers, Ok(user))
}

/// What is wrong with a registration before anybody is asked whether the
/// name is free: the password is not confirmed, or too long to be hashed.
pub open spec fn registration_fault(form_data: RegistrationRequest) -> Option<RegistrationError> {
    if form_data.password@ != form_data.confirm_password@ {
        Some(RegistrationError::PasswordMismatch)
    } else if byte_length(form_data.password@) > MAX_PASSWORD_BYTES {
        Some(RegistrationError::PasswordTooLong)
    } else {
        None
    }
}

/// What is wrong with a registration before anybody is asked whether the
/// name is free.
pub fn check_registration(form_data: &RegistrationRequest) -> (fault: Option<RegistrationError>)
    ensures
        fault == registration_fault(*form_data),
{
    if !same_text(form_data.password.as_str(), form_data.confirm_password.as_str()) {
        Some(RegistrationError::PasswordMismatch)
    } else if form_data.password.as_str().as_bytes().len() > MAX_PASSWORD_BYTES {
        Some(RegistrationError::PasswordTooLong)
    } else {
        None
    }
}

/// Registers a user. The password is kept as a salted hash only; the
/// e-mail address of the form is not kept.
pub fn register(state: &mut AppState, form_data: &RegistrationRequest) -> (result: Result<
    i32,
    RegistrationError,
>)
    requires
        old(state)@.wf(),
        old(state)@.next_user_id < i32::MAX,
    ensures
        final(state)@.wf(),
        match result {
            Ok(id) => {
                &&& form_data.password@ == form_data.confirm_password@
                &&& byte_length(form_data.password@) <= MAX_PASSWORD_BYTES
                &&& old(state)@.user_named(form_data.username@) is None
                &&& id == old(state)@.next_user_id
                &&& final(state)@.user_named(form_data.username@) matches Some(row)
                &&& row.id == id
                &&& password_matches(row.hashed_password, form_data.password@)
                &&& final(state)@ == old(state)@.with_user(
                    form_data.username@,
                    row.hashed_password,
                )
            },
            Err(RegistrationError::PasswordMismatch) => {
                &&& form_data.password@ != form_data.confirm_password@
                &&& final(state)@ == old(state)@
            },
            Err(RegistrationError::PasswordTooLong) => {
                &&& form_data.password@ == form_data.confirm_password@
                &&& byte_length(form_data.password@) > MAX_PASSWORD_BYTES
                &&& final(state)@ == old(state)@
            },
            Err(RegistrationError::DuplicateUsername) => {
                &&& form_data.password@ == form_data.confirm_password@
                &&& byte_length(form_data.password@) <= MAX_PASSWORD_BYTES
                &&& old(state)@.user_named(form_data.username@) is Some
                &&& final(state)@ == old(state)@
            },
        },
{
    match check_registration(form_data) {
        Some(fault) => {
            return Err(fault);
        },
        None => {},
    }
    match state.find_user_by_name(form_data.username.as_str()) {
        Some(_) => {
            return Err(RegistrationError::DuplicateUsername);
        },
        None => {},
    }
    let hash = hash_password(form_data.password.clone());
    let result = state.insert_user(form_data.username.as_str(), hash);
    proof {
        crate::laws::lemma_new_user_is_found(old(state)@, form_data.username@, hash@);
    }
    result
}

/// A session for `user_id` that begins at time `now` and lasts
/// `SESSION_DURATION` seconds, under a token of its own. The token is not
/// compared with those of other sessions: that two are equal is left to
/// chance, which makes it practically impossible.
pub fn new_session(user_id: i32, now: i64) -> (session: AuthToken)
    requires
        now + SESSION_DURATION <= i64::MAX,
    ensures
        is_token(session.token@),
        session.user_id == user_id,
        session.expiry == now + SESSION_DURATION,
        !session.revoked,
{
    AuthToken { token: generate_token(), user_id, expiry: now + SESSION_DURATION, revoked: false }
}

/// Opens a session for `user_id` at time `now` and returns its token.
pub fn issue(state: &mut AppState, user_id: i32, now: i64) -> (token: String)
    requires
        now + SESSION_DURATION <= i64::MAX,
    ensures
        is_token(token@),
        final(state)@ == old(state)@.with_token(
            token@,
            user_id as int,
            now + SESSION_DURATION,
        ),
        old(state)@.wf() ==> final(state)@.wf(),
{
    let session = new_session(user_id, now);
    state.insert_token(session.token.clone(), session.user_id, session.expiry);
    session.token
}

} // verus!
