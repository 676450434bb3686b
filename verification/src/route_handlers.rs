//! The handlers behind the routes, and the forms they take.

use crate::auth_and_login::{
    credentials_user, is_token, new_session, verify_login, LoginRequest, User, SESSION_DURATION,
};
use crate::headers::{lemma_field_names_are_lower_case, Headers, StatusCode};
use crate::model::{AllocationError, AllocationView, PresentView, Relations};
use crate::state::{Allocation, AppState, AuthToken, RegistrationError, StoreFailure};
use crate::text::{append_decimal, decimal, same_text};
use crate::utilities::{
    currency_text, format_currency, get_user_id_from_header, header_user_id, Price,
};
use crate::views::{
    added_row, allocated_row, item_views, items_table, perspective, perspective_of, render_added,
    render_allocated, render_items, render_users, sights_of, users_select, Perspective,
};
use vstd::prelude::*;
use vstd::string::*;

verus! {

/// An item joined to the name of the user who claimed it, as the list
/// query returns it.
#[derive(Debug)]
pub struct Present {
    pub id: i32,
    pub name: String,
    pub url: String,
    pub price: String,
    pub taken: bool,
    pub taken_by_name: Option<String>,
}

impl View for Present {
    type V = PresentView;

    open spec fn view(&self) -> PresentView {
        PresentView {
            id: self.id as int,
            name: self.name@,
            url: self.url@,
            price: self.price@,
            taken: self.taken,
            taken_by_name: match self.taken_by_name {
                Some(name) => Some(name@),
                None => None,
            },
        }
    }
}

impl DeepView for Present {
    type V = PresentView;

    open spec fn deep_view(&self) -> PresentView {
        self@
    }
}

/// The form that a user registers with.
#[derive(Debug)]
pub struct RegistrationRequest {
    pub email: String,
    pub username: String,
    pub password: String,
    pub confirm_password: String,
}

/// The form that adds an item to the caller's list.
#[derive(Debug)]
pub struct Item {
    pub name: String,
    pub url: String,
    pub price: Price,
}

/// Names the item to delete.
#[derive(Debug)]
pub struct DeleteRequest {
    pub item_id: i32,
}

/// Names the user whose list is asked for; nobody stands for the caller.
#[derive(Debug)]
pub struct GetItemsRequest {
    pub user_id: Option<i32>,
}

/// Names the item to claim.
#[derive(Debug)]
pub struct AllocateItemRequest {
    pub item_id: i32,
}

/// The form that changes the caller's password.
#[derive(Debug)]
pub struct UpdatePasswordRequest {
    pub current_password: String,
    pub password: String,
    pub confirm_password: String,
}

/// The cookie that hands a session token to the browser. It is kept from
/// scripts. Its `Max-Age` is given the time at which the session expires,
/// so the browser keeps the cookie for longer than the session lasts; what
/// ends a session is the expiry that the service keeps.
pub open spec fn session_cookie(token: Seq<char>, expiry: int) -> Seq<char> {
    "auth_token="@ + token + "; Max-Age="@ + decimal(expiry) + "; HttpOnly"@
}

/// The headers of the answer to a login that went through.
pub open spec fn login_headers(token: Seq<char>, expiry: int) -> Map<Seq<char>, Seq<char>> {
    Map::<Seq<char>, Seq<char>>::empty().insert(
        "set-cookie"@,
        session_cookie(token, expiry),
    ).insert("hx-location"@, "./home.html"@)
}

/// The headers of the answer to a login that was refused.
pub open spec fn refusal_headers() -> Map<Seq<char>, Seq<char>> {
    Map::<Seq<char>, Seq<char>>::empty().insert("hx-retarget"@, "#login-response"@)
}

/// The answer to a login that went through: the session's token as a
/// cookie, and the way to the home page.
pub fn login_accepted(token: &str, expiry: i64) -> (response: (Headers, String))
    ensures
        response.0@ == login_headers(token@, expiry as int),
        response.1@ == ""@,
{
    proof {
        lemma_field_names_are_lower_case();
    }
    let mut cookie = "auth_token=".to_owned();
    cookie.append(token);
    cookie.append("; Max-Age=");
    append_decimal(&mut cookie, expiry);
    cookie.append("; HttpOnly");
    let mut headers = Headers::new();
    headers.insert("set-cookie", cookie);
    headers.insert("hx-location", "./home.html".to_owned());
    (headers, "".to_owned())
}

/// The answer to a login that was refused. It does not say whether the
/// name or the password was wrong.
pub fn login_refused() -> (response: (Headers, String))
    ensures
        response.0@ == refusal_headers(),
        response.1@ == "Invalid username or password"@,
{
    proof {
        lemma_field_names_are_lower_case();
    }
    let mut headers = Headers::new();
    headers.insert("hx-retarget", "#login-response".to_owned());
    (headers, "Invalid username or password".to_owned())
}

/// What a login at time `now` comes to once the store was asked whom the
/// name and the password stand for: the session to open, if there is one,
/// and the answer. With a user the answer hands the token of a new session
/// out as a cookie. Without one the login is refused and no session is
/// opened. Where the store could not answer, the login ends in an internal
/// error: a failure is not taken for a wrong password.
pub fn login_outcome(lookup: Result<Option<User>, StoreFailure>, now: i64) -> (outcome: (
    Option<AuthToken>,
    StatusCode,
    Headers,
    String,
))
    requires
        now + SESSION_DURATION <= i64::MAX,
    ensures
        match lookup {
            Ok(Some(user)) => {
                &&& outcome.0 matches Some(session)
                &&& is_token(session.token@)
                &&& session.user_id == user.id
                &&& session.expiry == now + SESSION_DURATION
                &&& !session.revoked
                &&& outcome.1 == StatusCode::Success
                &&& outcome.2@ == login_headers(session.token@, now + SESSION_DURATION)
                &&& outcome.3@ == ""@
            },
            Ok(None) => {
                &&& outcome.0 is None
                &&& outcome.1 == StatusCode::Success
                &&& outcome.2@ == refusal_headers()
                &&& outcome.3@ == "Invalid username or password"@
            },
            Err(_) => {
                &&& outcome.0 is None
                &&& outcome.1 == StatusCode::InternalServerError
                &&& outcome.2@ == Map::<Seq<char>, Seq<char>>::empty()
                &&& outcome.3@ == ""@
            },
        },
{
    match lookup {
        Ok(Some(user)) => {
            let session = new_session(user.id, now);
            let (headers, body) = login_accepted(session.token.as_str(), session.expiry);
            (Some(session), StatusCode::Success, headers, body)
        },
        Ok(None) => {
            let (headers, body) = login_refused();
            (None, StatusCode::Success, headers, body)
        },
        Err(_) => (None, StatusCode::InternalServerError, Headers::new(), "".to_owned()),
    }
}

/// Logs a user in at time `now`. If the name and the password stand for a
/// user, a session is opened for them and its token is handed out as a
/// cookie; otherwise nothing changes.
pub fn process_login(state: &mut AppState, form_data: &LoginRequest, now: i64) -> (response: (
    Headers,
    String,
))
    requires
        now + SESSION_DURATION <= i64::MAX,
    ensures
        old(state)@.wf() ==> final(state)@.wf(),
        match credentials_user(old(state)@, form_data.username@, form_data.password@) {
            Some(user) => {
                let token = final(state)@.auth_tokens.last().token;
                &&& is_token(token)
                &&& final(state)@ == old(state)@.with_token(token, user.id, now + SESSION_DURATION)
                &&& response.0@ == login_headers(token, now + SESSION_DURATION)
                &&& response.1@ == ""@
            },
            None => {
                &&& final(state)@ == old(state)@
                &&& response.0@ == refusal_headers()
                &&& response.1@ == "Invalid username or password"@
            },
        },
{
    let user = verify_login(form_data.username.as_str(), form_data.password.as_str(), state);
    let (session, _, headers, body) = login_outcome(Ok(user), now);
    match session {
        Some(session) => {
            state.insert_token(session.token, session.user_id, session.expiry);
        },
        None => {},
    }
    (headers, body)
}

/// The headers that tell the page whether the list has items.
pub open spec fn list_state_header(empty: bool) -> Seq<char> {
    if empty {
        "noPresents"@
    } else {
        "somePresents"@
    }
}

/// The headers of the answer to an added item.
pub open spec fn added_headers() -> Map<Seq<char>, Seq<char>> {
    Map::<Seq<char>, Seq<char>>::empty().insert(
        "hx-trigger-after-swap"@,
        list_state_header(false),
    )
}

/// The answer to an added item: the item's table row, and the news that
/// the list has items.
pub fn added_response(id: i32, name: &str, url: &str, price: &str) -> (response: (Headers, String))
    ensures
        response.0@ == added_headers(),
        response.1@ == added_row(id as int, name@, url@, price@),
{
    proof {
        lemma_field_names_are_lower_case();
    }
    let mut response_headers = Headers::new();
    response_headers.insert("hx-trigger-after-swap", "somePresents".to_owned());
    (response_headers, render_added(id, name, url, price))
}

/// Puts an item on the caller's list and answers with the item's table
/// row.
pub fn add_item(state: &mut AppState, headers: &Headers, form_data: &Item) -> (response: (
    Headers,
    String,
))
    requires
        old(state)@.wf(),
        old(state)@.next_present_id < i32::MAX,
        header_user_id(headers@) is Some,
    ensures
        final(state)@.wf(),
        final(state)@ == old(state)@.with_present(
            header_user_id(headers@)->0 as int,
            form_data.name@,
            form_data.url@,
            currency_text(form_data.price.pounds as int, form_data.price.pence as int),
        ),
        response.0@ == added_headers(),
        response.1@ == added_row(
            old(state)@.next_present_id,
            form_data.name@,
            form_data.url@,
            currency_text(form_data.price.pounds as int, form_data.price.pence as int),
        ),
{
    let user_id = get_user_id_from_header(headers);
    let price = format_currency(form_data.price);
    let id = state.insert_present(
        user_id,
        form_data.name.clone(),
        form_data.url.clone(),
        price.clone(),
    );
    added_response(id, form_data.name.as_str(), form_data.url.as_str(), price.as_str())
}

/// Takes an item off the caller's list. An item on the list of another
/// stays where it is.
pub fn delete_item(state: &mut AppState, headers: &Headers, delete_request: &DeleteRequest) -> (body:
    String)
    requires
        old(state)@.wf(),
        header_user_id(headers@) is Some,
    ensures
        final(state)@.wf(),
        final(state)@ == old(state)@.without_present(
            delete_request.item_id as int,
            header_user_id(headers@)->0 as int,
        ),
        body@ == ""@,
{
    let user_id = get_user_id_from_header(headers);
    state.delete_present(delete_request.item_id, user_id);
    "".to_owned()
}

/// Whose list a request asks for: the caller's own, if it names nobody.
pub open spec fn requested_owner(caller_id: int, request: GetItemsRequest) -> int {
    match request.user_id {
        Some(owner_id) => owner_id as int,
        None => caller_id,
    }
}

/// The headers of the answer to a list query: whether to show the form
/// that adds items, and whether the list has items.
pub open spec fn items_headers(seen_as: Perspective, empty: bool) -> Map<Seq<char>, Seq<char>> {
    Map::<Seq<char>, Seq<char>>::empty().insert(
        "hx-trigger"@,
        match seen_as {
            Perspective::Owner => "showAddForm"@,
            Perspective::Visitor => "hideAddForm"@,
        },
    ).insert("hx-trigger-after-swap"@, list_state_header(empty))
}

/// The answer to a list query of `caller_id` for the list of `owner_id`,
/// which holds `presents`.
pub fn items_response(caller_id: i32, owner_id: i32, presents: &Vec<Present>) -> (response: (
    Headers,
    String,
))
    ensures
        ({
            let seen_as = perspective_of(caller_id as int, owner_id as int);
            let items = sights_of(presents.deep_view(), seen_as);
            &&& response.0@ == items_headers(seen_as, items.len() == 0)
            &&& response.1@ == items_table(seen_as, items)
        }),
{
    proof {
        lemma_field_names_are_lower_case();
    }
    let seen_as = perspective(caller_id, owner_id);
    let items = item_views(presents, seen_as);
    let mut response_headers = Headers::new();
    match seen_as {
        Perspective::Owner => {
            response_headers.insert("hx-trigger", "showAddForm".to_owned());
        },
        Perspective::Visitor => {
            response_headers.insert("hx-trigger", "hideAddForm".to_owned());
        },
    }
    if items.len() == 0 {
        response_headers.insert("hx-trigger-after-swap", "noPresents".to_owned());
    } else {
        response_headers.insert("hx-trigger-after-swap", "somePresents".to_owned());
    }
    let table = render_items(seen_as, &items);
    (response_headers, table)
}

/// Whose list a request of `caller_id` asks for.
pub fn requested_owner_of(caller_id: i32, items_request: &GetItemsRequest) -> (owner_id: i32)
    ensures
        owner_id == requested_owner(caller_id as int, *items_request),
{
    match items_request.user_id {
        Some(owner_id) => owner_id,
        None => caller_id,
    }
}

/// Answers what is on a user's list. The caller sees their own list as its
/// owner and the list of another as a visitor.
pub fn get_items(state: &AppState, headers: &Headers, items_request: &GetItemsRequest) -> (response:
    (Headers, String))
    requires
        header_user_id(headers@) is Some,
    ensures
        ({
            let caller_id = header_user_id(headers@)->0 as int;
            let owner_id = requested_owner(caller_id, *items_request);
            let seen_as = perspective_of(caller_id, owner_id);
            let items = sights_of(state@.presents_of(owner_id), seen_as);
            &&& response.0@ == items_headers(seen_as, items.len() == 0)
            &&& response.1@ == items_table(seen_as, items)
        }),
{
    let user_id = get_user_id_from_header(headers);
    let requested_user_id = requested_owner_of(user_id, items_request);
    let presents = state.list_presents(requested_user_id);
    items_response(user_id, requested_user_id, &presents)
}

/// Answers with the selector of lists: the caller's own, then every other
/// user's in the order of their names.
pub fn get_users(state: &AppState, headers: &Headers) -> (body: String)
    requires
        header_user_id(headers@) is Some,
    ensures
        body@ == users_select(
            header_user_id(headers@)->0 as int,
            state@.others(header_user_id(headers@)->0 as int),
        ),
{
    let user_id = get_user_id_from_header(headers);
    let others = state.list_others(user_id);
    render_users(user_id, &others)
}

/// The status that reports a claim.
pub open spec fn allocation_status(error: AllocationError) -> StatusCode {
    match error {
        AllocationError::NotFound => StatusCode::NotFound,
        AllocationError::AlreadyClaimed => StatusCode::Conflict,
    }
}

/// The text that reports a claim that did not go through.
pub open spec fn allocation_message(error: AllocationError) -> Seq<char> {
    match error {
        AllocationError::NotFound => "There is no such item."@,
        AllocationError::AlreadyClaimed => "Somebody has claimed this item already."@,
    }
}

/// The name of the caller, who is known to be a user when a claim of
/// theirs goes through.
pub open spec fn claimer_name(relations: Relations, claimer_id: int) -> Seq<char> {
    match relations.user_with_id(claimer_id) {
        Some(claimer) => claimer.username,
        None => Seq::empty(),
    }
}

/// What a claim is answered with, given what came of it and the name of
/// the claimer: the cells that show the claim, or the report that the item
/// is taken or is not there.
pub open spec fn allocation_answer(
    outcome: Result<AllocationView, AllocationError>,
    claimer: Seq<char>,
) -> (StatusCode, Seq<char>) {
    match outcome {
        Ok(item) => (StatusCode::Success, allocated_row(item, claimer)),
        Err(error) => (allocation_status(error), allocation_message(error)),
    }
}

/// What a claim is answered with, given what came of it and the name of
/// the claimer.
pub fn allocation_response(outcome: &Result<Allocation, AllocationError>, claimer: &str) -> (response:
    (StatusCode, String))
    ensures
        (response.0, response.1@) == allocation_answer(
            match *outcome {
                Ok(item) => Ok(item@),
                Err(error) => Err(error),
            },
            claimer@,
        ),
{
    match outcome {
        Ok(item) => (StatusCode::Success, render_allocated(item, claimer)),
        Err(AllocationError::NotFound) => (
            StatusCode::NotFound,
            "There is no such item.".to_owned(),
        ),
        Err(AllocationError::AlreadyClaimed) => (
            StatusCode::Conflict,
            "Somebody has claimed this item already.".to_owned(),
        ),
    }
}

/// Claims an item for the caller. The first claim of an item goes through
/// and is answered with the cells that show it; a claim of an item that is
/// taken, or that does not exist, changes nothing and is reported as such.
pub fn allocate_item(
    state: &mut AppState,
    allocated_item: &AllocateItemRequest,
    headers: &Headers,
) -> (response: (StatusCode, String))
    requires
        old(state)@.wf(),
        header_user_id(headers@) is Some,
    ensures
        final(state)@.wf(),
        ({
            let claimer_id = header_user_id(headers@)->0 as int;
            let item_id = allocated_item.item_id as int;
            &&& final(state)@ == old(state)@.allocated(item_id, claimer_id)
            &&& (response.0, response.1@) == allocation_answer(
                old(state)@.allocation(item_id, claimer_id),
                claimer_name(old(state)@, claimer_id),
            )
        }),
{
    let user_id = get_user_id_from_header(headers);
    let name = match state.get_user(user_id) {
        Some(user) => user.username,
        None => String::new(),
    };
    let outcome = state.allocate(allocated_item.item_id, user_id);
    allocation_response(&outcome, name.as_str())
}

/// What came of a claim, by what the store reports of its one update: the
/// item as it was claimed, or nothing; and, where nothing was claimed,
/// whether the item is there.
pub open spec fn claim_result(updated: Option<AllocationView>, item_exists: bool) -> Result<
    AllocationView,
    AllocationError,
> {
    match updated {
        Some(item) => Ok(item),
        None => if item_exists {
            Err(AllocationError::AlreadyClaimed)
        } else {
            Err(AllocationError::NotFound)
        },
    }
}

/// What came of a claim, by what the store reports of its one update. The
/// update claims the item only if nobody has; so of two claims that arrive
/// together one finds the item claimed.
pub fn claim_outcome(updated: Option<Allocation>, item_exists: bool) -> (outcome: Result<
    Allocation,
    AllocationError,
>)
    ensures
        match outcome {
            Ok(item) => updated is Some && claim_result(Some(updated->0@), item_exists) == Ok::<
                AllocationView,
                AllocationError,
            >(item@),
            Err(error) => updated is None && claim_result(None, item_exists) == Err::<
                AllocationView,
                AllocationError,
            >(error),
        },
{
    match updated {
        Some(item) => Ok(item),
        None => if item_exists {
            Err(AllocationError::AlreadyClaimed)
        } else {
            Err(AllocationError::NotFound)
        },
    }
}

/// What a registration is answered with.
pub open spec fn registration_answer(result: Result<i32, RegistrationError>) -> (
    StatusCode,
    Seq<char>,
) {
    match result {
        Ok(_) => (StatusCode::Success, ""@),
        Err(RegistrationError::DuplicateUsername) => (
            StatusCode::Conflict,
            "That username is taken"@,
        ),
        Err(RegistrationError::PasswordMismatch) => (
            StatusCode::UnprocessableEntity,
            "Your passwords must match"@,
        ),
        Err(RegistrationError::PasswordTooLong) => (
            StatusCode::UnprocessableEntity,
            "Your password is too long"@,
        ),
    }
}

/// What a registration is answered with.
pub fn registration_response(result: &Result<i32, RegistrationError>) -> (response: (
    StatusCode,
    String,
))
    ensures
        (response.0, response.1@) == registration_answer(*result),
{
    match result {
        Ok(_) => (StatusCode::Success, "".to_owned()),
        Err(RegistrationError::DuplicateUsername) => (
            StatusCode::Conflict,
            "That username is taken".to_owned(),
        ),
        Err(RegistrationError::PasswordMismatch) => (
            StatusCode::UnprocessableEntity,
            "Your passwords must match".to_owned(),
        ),
        Err(RegistrationError::PasswordTooLong) => (
            StatusCode::UnprocessableEntity,
            "Your password is too long".to_owned(),
        ),
    }
}

/// Checks a request to change the caller's password: the new password has
/// to be given twice alike. No password is changed yet.
pub fn update_password(request: &UpdatePasswordRequest) -> (response: (StatusCode, String))
    ensures
        request.password@ != request.confirm_password@ ==> response.0
            == StatusCode::UnprocessableEntity && response.1@ == "Your passwords must match"@,
        request.password@ == request.confirm_password@ ==> response.0 == StatusCode::Success
            && response.1@ == ""@,
{
    if !same_text(request.password.as_str(), request.confirm_password.as_str()) {
        return (StatusCode::UnprocessableEntity, "Your passwords must match".to_owned());
    }
    (StatusCode::Success, "".to_owned())
}

} // verus!
