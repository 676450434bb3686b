use gift_list::auth_and_login::{
    auth_outcome, check_registration, new_session, request_token_of, verify_record, User,
    SESSION_DURATION, TOKEN_LENGTH,
};
use gift_list::headers::{Headers, StatusCode};
use gift_list::model::AllocationError;
use gift_list::route_handlers::{
    added_response, allocation_response, claim_outcome, items_response, login_outcome,
    registration_response, requested_owner_of, GetItemsRequest, Present, RegistrationRequest,
};
use gift_list::state::{
    others_of, session_is_valid, session_owner, Allocation, AuthToken, RegistrationError,
    StoreFailure, UserRecord,
};

fn session(token: &str, user_id: i32, expiry: i64, revoked: bool) -> AuthToken {
    AuthToken { token: token.to_string(), user_id, expiry, revoked }
}

#[test]
fn a_session_is_valid_unless_revoked_or_expired() {
    assert!(session_is_valid(false, 10, 9));
    assert!(!session_is_valid(false, 10, 10));
    assert!(!session_is_valid(false, 10, 11));
    assert!(!session_is_valid(true, 10, 9));
    assert!(!session_is_valid(true, 10, 11));
    assert!(session_is_valid(false, i64::MAX, i64::MAX - 1));
    assert!(!session_is_valid(false, i64::MIN, i64::MIN));
}

#[test]
fn the_first_valid_session_of_a_token_names_its_owner() {
    let sessions = vec![
        session("a", 1, 10, false),
        session("b", 2, 10, true),
        session("b", 3, 5, false),
        session("b", 4, 20, false),
        session("b", 5, 30, false),
        session("", 6, 30, false),
    ];
    assert_eq!(session_owner(&sessions, "a", 0), Some(1));
    assert_eq!(session_owner(&sessions, "a", 10), None);
    assert_eq!(session_owner(&sessions, "b", 0), Some(3));
    assert_eq!(session_owner(&sessions, "b", 5), Some(4));
    assert_eq!(session_owner(&sessions, "b", 20), Some(5));
    assert_eq!(session_owner(&sessions, "b", 30), None);
    assert_eq!(session_owner(&sessions, "c", 0), None);
    assert_eq!(session_owner(&sessions, "", 0), None);
    assert_eq!(session_owner(&vec![], "a", 0), None);
}

#[test]
fn the_token_of_a_request_is_that_of_its_cookies() {
    let mut headers = Headers::new();
    assert_eq!(request_token_of(&headers), "");
    headers.insert("cookie", "a=b;auth_token=xyz".to_string());
    assert_eq!(request_token_of(&headers), "xyz");
    headers.insert("cookie", "a=b".to_string());
    assert_eq!(request_token_of(&headers), "");
}

#[test]
fn a_request_passes_with_a_user_and_is_turned_away_without() {
    let mut headers = Headers::new();
    headers.insert("user-id", "999".to_string());
    headers.insert("accept", "*/*".to_string());
    let user = User { id: -12, username: "zoë".to_string() };
    let request = auth_outcome(headers, Ok(Some(user))).expect("there is a user");
    assert_eq!(request.get("user-id"), Some(&"-12".to_string()));
    assert_eq!(request.get("username"), Some(&"zoë".to_string()));
    assert_eq!(request.get("accept"), Some(&"*/*".to_string()));
    let (status, response) = auth_outcome(Headers::new(), Ok(None)).expect_err("there is no user");
    assert_eq!(status.as_u16(), 401);
    assert_eq!(response.get("hx-redirect"), Some(&"./index.html".to_string()));
}

#[test]
fn a_store_that_fails_stops_the_request_with_an_internal_error() {
    let mut headers = Headers::new();
    headers.insert("cookie", "auth_token=tok".to_string());
    let (status, response) =
        auth_outcome(headers, Err(StoreFailure {})).expect_err("the store failed");
    assert_eq!(status, StatusCode::InternalServerError);
    assert_eq!(status.as_u16(), 500);
    assert!(response.entries.is_empty());
}

#[test]
fn a_session_lasts_its_duration_from_now() {
    let session = new_session(7, 1_000);
    assert_eq!(session.user_id, 7);
    assert_eq!(session.expiry, 1_000 + 3_600_000);
    assert!(!session.revoked);
    assert_eq!(session.token.chars().count(), TOKEN_LENGTH);
    assert!(session.token.chars().all(|c| c.is_ascii_alphanumeric()));
    let last = new_session(-1, i64::MAX - SESSION_DURATION);
    assert_eq!(last.expiry, i64::MAX);
    assert_ne!(last.token, session.token);
}

#[test]
fn a_login_of_a_user_comes_to_a_session_and_its_cookie() {
    let user = User { id: 2, username: "bob".to_string() };
    let (session, status, headers, body) = login_outcome(Ok(Some(user)), 100);
    let session = session.expect("a session to open");
    assert_eq!(session.user_id, 2);
    assert_eq!(session.expiry, 3_600_100);
    assert!(!session.revoked);
    assert_eq!(session.token.chars().count(), TOKEN_LENGTH);
    assert_eq!(status, StatusCode::Success);
    assert_eq!(body, "");
    assert_eq!(
        headers.get("set-cookie"),
        Some(&format!("auth_token={}; Max-Age=3600100; HttpOnly", session.token))
    );
    assert_eq!(headers.get("hx-location"), Some(&"./home.html".to_string()));
    assert_eq!(headers.entries.len(), 2);
}

#[test]
fn a_login_of_nobody_comes_to_a_refusal_and_no_session() {
    let (session, status, headers, body) = login_outcome(Ok(None), 100);
    assert!(session.is_none());
    assert_eq!(status, StatusCode::Success);
    assert_eq!(body, "Invalid username or password");
    assert_eq!(headers.get("hx-retarget"), Some(&"#login-response".to_string()));
    assert_eq!(headers.entries.len(), 1);
}

#[test]
fn a_login_that_the_store_fails_comes_to_an_internal_error() {
    let (session, status, headers, body) = login_outcome(Err(StoreFailure {}), 100);
    assert!(session.is_none());
    assert_eq!(status, StatusCode::InternalServerError);
    assert_eq!(body, "");
    assert!(headers.entries.is_empty());
}

#[test]
fn no_record_and_a_record_without_a_hash_stand_for_nobody() {
    assert!(verify_record(None, "pw").is_none());
    let record = UserRecord { id: 1, username: "a".to_string(), hashed_password: "".to_string() };
    assert!(verify_record(Some(&record), "pw").is_none());
    assert!(verify_record(Some(&record), "").is_none());
}

#[test]
fn a_known_hash_matches_its_password_only() {
    let record = UserRecord {
        id: 4,
        username: "dan".to_string(),
        hashed_password: gift_list::auth_and_login::hash_password("hunter2".to_string()),
    };
    let user = verify_record(Some(&record), "hunter2").expect("the password matches");
    assert_eq!((user.id, user.username.as_str()), (4, "dan"));
    assert!(verify_record(Some(&record), "hunter3").is_none());
}

#[test]
fn a_registration_is_checked_before_the_name_is_looked_up() {
    let mut form = RegistrationRequest {
        email: "a@b.c".to_string(),
        username: "a".to_string(),
        password: "pw".to_string(),
        confirm_password: "pw".to_string(),
    };
    assert_eq!(check_registration(&form), None);
    form.confirm_password = "pW".to_string();
    assert_eq!(check_registration(&form), Some(RegistrationError::PasswordMismatch));
    form.password = "".to_string();
    form.confirm_password = "".to_string();
    assert_eq!(check_registration(&form), None);
}

#[test]
fn a_registration_is_answered_by_what_came_of_it() {
    assert_eq!(registration_response(&Ok(3)), (StatusCode::Success, "".to_string()));
    assert_eq!(
        registration_response(&Err(RegistrationError::DuplicateUsername)),
        (StatusCode::Conflict, "That username is taken".to_string())
    );
    assert_eq!(
        registration_response(&Err(RegistrationError::PasswordMismatch)),
        (StatusCode::UnprocessableEntity, "Your passwords must match".to_string())
    );
    assert_eq!(
        registration_response(&Err(RegistrationError::PasswordTooLong)),
        (StatusCode::UnprocessableEntity, "Your password is too long".to_string())
    );
}

#[test]
fn the_others_keep_their_order() {
    let users: Vec<User> = [(3, "a"), (1, "b"), (2, "c"), (1, "d")]
        .iter()
        .map(|(id, name)| User { id: *id, username: name.to_string() })
        .collect();
    let ids = |users: Vec<User>| users.into_iter().map(|u| u.username).collect::<Vec<_>>();
    assert_eq!(ids(others_of(&users, 1)), vec!["a", "c"]);
    assert_eq!(ids(others_of(&users, 3)), vec!["b", "c", "d"]);
    assert_eq!(ids(others_of(&users, 9)), vec!["a", "b", "c", "d"]);
    assert!(others_of(&vec![], 1).is_empty());
}

fn kite() -> Allocation {
    Allocation { name: "Kite".to_string(), url: "k".to_string(), price: "£5.00".to_string() }
}

#[test]
fn one_update_decides_a_claim() {
    assert_eq!(claim_outcome(Some(kite()), true).map(|a| a.name), Ok("Kite".to_string()));
    assert_eq!(claim_outcome(Some(kite()), false).map(|a| a.name), Ok("Kite".to_string()));
    assert_eq!(claim_outcome(None, true).err(), Some(AllocationError::AlreadyClaimed));
    assert_eq!(claim_outcome(None, false).err(), Some(AllocationError::NotFound));
}

#[test]
fn a_claim_is_answered_by_what_came_of_it() {
    let (status, body) = allocation_response(&Ok(kite()), "bob");
    assert_eq!(status, StatusCode::Success);
    assert_eq!(
        body,
        "<td><a href='k'>Kite</a></td><td>£5.00</td><td><i class='fa-regular fa-check'></i></td><td>bob</td><td></td>"
    );
    assert_eq!(
        allocation_response(&Err(AllocationError::AlreadyClaimed), "bob"),
        (StatusCode::Conflict, "Somebody has claimed this item already.".to_string())
    );
    assert_eq!(
        allocation_response(&Err(AllocationError::NotFound), "bob"),
        (StatusCode::NotFound, "There is no such item.".to_string())
    );
}

#[test]
fn a_request_that_names_nobody_asks_for_the_callers_list() {
    assert_eq!(requested_owner_of(4, &GetItemsRequest { user_id: None }), 4);
    assert_eq!(requested_owner_of(4, &GetItemsRequest { user_id: Some(9) }), 9);
    assert_eq!(requested_owner_of(4, &GetItemsRequest { user_id: Some(4) }), 4);
}

#[test]
fn a_list_is_answered_as_the_caller_may_see_it() {
    let presents = vec![Present {
        id: 2,
        name: "Kite".to_string(),
        url: "k".to_string(),
        price: "£5.00".to_string(),
        taken: true,
        taken_by_name: Some("carol".to_string()),
    }];
    let (headers, body) = items_response(1, 1, &presents);
    assert_eq!(headers.get("hx-trigger"), Some(&"showAddForm".to_string()));
    assert_eq!(headers.get("hx-trigger-after-swap"), Some(&"somePresents".to_string()));
    assert!(!body.contains("carol"));
    assert!(body.contains("hx-delete='./item/2'"));
    let (headers, body) = items_response(1, 2, &presents);
    assert_eq!(headers.get("hx-trigger"), Some(&"hideAddForm".to_string()));
    assert!(body.contains("<td class='taken-by'>carol</td>"));
    assert!(body.contains("hx-patch='./item/2'"));
    let (headers, _) = items_response(1, 2, &vec![]);
    assert_eq!(headers.get("hx-trigger-after-swap"), Some(&"noPresents".to_string()));
}

#[test]
fn an_added_item_is_answered_with_its_row() {
    let (headers, body) = added_response(12, "Kite", "k", "£5.00");
    assert_eq!(headers.get("hx-trigger-after-swap"), Some(&"somePresents".to_string()));
    assert!(body.starts_with("<tr><td><a href='k'>Kite</a></td><td>£5.00</td>"));
    assert!(body.contains("hx-delete='./item/12'"));
}
