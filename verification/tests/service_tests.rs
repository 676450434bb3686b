use gift_list::auth_and_login::{
    auth, generate_token, get_user, hash_password, issue, register, validate_cookie,
    verified_user, verify_login, LoginRequest, SESSION_DURATION,
    TOKEN_LENGTH,
};
use gift_list::config::{environment_is_known, get_app_config};
use gift_list::headers::{Headers, StatusCode};
use gift_list::model::AllocationError;
use gift_list::route_handlers::{
    add_item, allocate_item, delete_item, get_items, get_users, login_accepted, login_refused,
    process_login, update_password, AllocateItemRequest, DeleteRequest, GetItemsRequest, Item,
    Present, RegistrationRequest, UpdatePasswordRequest,
};
use gift_list::state::{AppState, RegistrationError};
use gift_list::utilities::Price;
use gift_list::views::{
    item_view, item_views, perspective, render_added, render_allocated, render_item,
    render_items, render_users, Perspective,
};

fn as_user(id: i32) -> Headers {
    let mut headers = Headers::new();
    headers.insert("user-id", id.to_string());
    headers
}

fn with_cookie(cookie: &str) -> Headers {
    let mut headers = Headers::new();
    headers.insert("cookie", cookie.to_string());
    headers
}

fn form(username: &str, password: &str) -> RegistrationRequest {
    RegistrationRequest {
        email: format!("{}@example.org", username),
        username: username.to_string(),
        password: password.to_string(),
        confirm_password: password.to_string(),
    }
}

fn bike() -> Item {
    Item {
        name: "Bike".to_string(),
        url: "http://x".to_string(),
        price: Price { pounds: 99, pence: 99 },
    }
}

/// A service with the users alice (1) and bob (2), neither of whom can log in.
fn two_users() -> AppState {
    let mut state = AppState::new();
    assert_eq!(state.insert_user("alice", "no hash".to_string()), Ok(1));
    assert_eq!(state.insert_user("bob", "no hash".to_string()), Ok(2));
    state
}

#[test]
fn tokens_have_their_length_and_alphabet() {
    for _ in 0..50 {
        let token = generate_token();
        assert_eq!(token.chars().count(), TOKEN_LENGTH);
        assert_eq!(TOKEN_LENGTH, 31);
        assert!(token.chars().all(|c| c.is_ascii_lowercase() || c.is_ascii_digit()));
    }
}

#[test]
fn ten_thousand_tokens_are_all_different() {
    let mut tokens: Vec<String> = (0..10_000).map(|_| generate_token()).collect();
    tokens.sort();
    tokens.dedup();
    assert_eq!(tokens.len(), 10_000);
}

#[test]
fn a_hash_is_salted_and_names_its_algorithm() {
    let first = hash_password("pw1".to_string());
    let second = hash_password("pw1".to_string());
    assert!(first.starts_with("$argon2id$v=19$m=19456,t=2,p=1$"));
    assert_ne!(first, "pw1");
    assert_ne!(first, second);
}

#[test]
fn the_right_password_logs_in_and_no_other() {
    let mut state = AppState::new();
    assert_eq!(register(&mut state, &form("alice", "pw1")), Ok(1));
    let user = verify_login("alice", "pw1", &state).expect("alice logs in");
    assert_eq!(user.id, 1);
    assert_eq!(user.username, "alice");
    assert!(verify_login("alice", "pw2", &state).is_none());
    assert!(verify_login("alice", "", &state).is_none());
}

#[test]
fn an_unknown_name_logs_nobody_in() {
    let state = two_users();
    assert!(verify_login("carol", "pw1", &state).is_none());
    assert!(verify_login("", "", &state).is_none());
}

#[test]
fn a_record_that_is_no_hash_matches_no_password() {
    let state = two_users();
    assert!(verify_login("alice", "no hash", &state).is_none());
    assert!(verify_login("alice", "", &state).is_none());
}

#[test]
fn a_user_is_made_of_a_record_whose_password_matched() {
    let state = two_users();
    let record = state.find_user_by_name("bob").expect("bob is there");
    let user = verified_user(record, true).expect("the password matched");
    assert_eq!((user.id, user.username.as_str()), (2, "bob"));
    assert!(verified_user(record, false).is_none());
}

#[test]
fn registration_refuses_a_taken_name() {
    let mut state = two_users();
    assert_eq!(
        register(&mut state, &form("alice", "pw")),
        Err(RegistrationError::DuplicateUsername)
    );
    assert_eq!(state.insert_user("bob", "h".to_string()), Err(RegistrationError::DuplicateUsername));
    assert_eq!(state.insert_user("Bob", "h".to_string()), Ok(3));
    assert!(get_user(3, &state).is_some());
    assert!(get_user(4, &state).is_none());
}

#[test]
fn registration_refuses_a_password_that_is_not_confirmed() {
    let mut state = AppState::new();
    let mut request = form("alice", "pw1");
    request.confirm_password = "pw2".to_string();
    assert_eq!(register(&mut state, &request), Err(RegistrationError::PasswordMismatch));
    assert!(state.find_user_by_name("alice").is_none());
}

#[test]
fn users_are_found_by_id_and_by_name() {
    let state = two_users();
    assert_eq!(get_user(1, &state).map(|u| u.username), Some("alice".to_string()));
    assert_eq!(get_user(2, &state).map(|u| u.username), Some("bob".to_string()));
    assert!(get_user(0, &state).is_none());
    assert_eq!(state.find_user_by_name("bob").map(|r| r.id), Some(2));
    assert!(state.find_user_by_name("bo").is_none());
}

#[test]
fn a_token_is_accepted_until_it_expires() {
    let mut state = two_users();
    state.insert_token("tok".to_string(), 2, 1000);
    assert_eq!(validate_cookie("tok".to_string(), 0, &state).map(|u| u.id), Some(2));
    assert_eq!(validate_cookie("tok".to_string(), 999, &state).map(|u| u.id), Some(2));
    assert!(validate_cookie("tok".to_string(), 1000, &state).is_none());
    assert!(validate_cookie("tok".to_string(), 1001, &state).is_none());
    assert!(validate_cookie("to".to_string(), 0, &state).is_none());
    assert!(validate_cookie("".to_string(), 0, &state).is_none());
}

#[test]
fn a_revoked_token_is_accepted_no_more() {
    let mut state = two_users();
    state.insert_token("one".to_string(), 1, 1000);
    state.insert_token("two".to_string(), 2, 1000);
    assert!(validate_cookie("one".to_string(), 5, &state).is_some());
    state.revoke_token("one");
    assert!(validate_cookie("one".to_string(), 5, &state).is_none());
    assert_eq!(validate_cookie("two".to_string(), 5, &state).map(|u| u.id), Some(2));
    state.revoke_token("missing");
    assert_eq!(validate_cookie("two".to_string(), 5, &state).map(|u| u.id), Some(2));
}

#[test]
fn the_empty_token_stands_for_nobody() {
    let mut state = two_users();
    state.insert_token("".to_string(), 1, 1000);
    assert!(validate_cookie("".to_string(), 0, &state).is_none());
    assert!(auth(&state, 0, Headers::new()).is_err());
    assert!(auth(&state, 0, with_cookie("auth_token=")).is_err());
}

#[test]
fn a_user_may_hold_several_sessions() {
    let mut state = two_users();
    let first = issue(&mut state, 1, 100);
    let second = issue(&mut state, 1, 200);
    assert_ne!(first, second);
    assert_eq!(validate_cookie(first.clone(), 100 + SESSION_DURATION - 1, &state).map(|u| u.id), Some(1));
    assert!(validate_cookie(first, 100 + SESSION_DURATION, &state).is_none());
    assert_eq!(validate_cookie(second, 100 + SESSION_DURATION, &state).map(|u| u.id), Some(1));
    assert_eq!(SESSION_DURATION, 3_600_000);
}

#[test]
fn of_two_sessions_with_one_token_the_earlier_answers_while_it_is_accepted() {
    let mut state = two_users();
    state.insert_token("same".to_string(), 1, 100);
    state.insert_token("same".to_string(), 2, 200);
    assert_eq!(validate_cookie("same".to_string(), 50, &state).map(|u| u.id), Some(1));
    assert_eq!(validate_cookie("same".to_string(), 150, &state).map(|u| u.id), Some(2));
    assert!(validate_cookie("same".to_string(), 200, &state).is_none());
}

#[test]
fn a_token_of_a_user_who_is_not_there_is_refused() {
    let mut state = two_users();
    state.insert_token("ghost".to_string(), 77, 1000);
    assert!(validate_cookie("ghost".to_string(), 0, &state).is_none());
}

#[test]
fn the_guard_marks_a_request_with_the_user() {
    let mut state = two_users();
    state.insert_token("tok".to_string(), 2, 1000);
    let mut headers = with_cookie("theme=dark; auth_token=tok");
    headers.insert("user-id", "1".to_string());
    headers.insert("username", "alice".to_string());
    let request = auth(&state, 10, headers).expect("the session is valid");
    assert_eq!(request.get("user-id"), Some(&"2".to_string()));
    assert_eq!(request.get("username"), Some(&"bob".to_string()));
    assert_eq!(request.get("cookie"), Some(&"theme=dark; auth_token=tok".to_string()));
}

#[test]
fn the_guard_reads_the_cookie_header_however_its_name_is_written() {
    let mut state = two_users();
    state.insert_token("tok".to_string(), 1, 1000);
    for name in ["cookie", "Cookie", "COOKIE"] {
        let mut headers = Headers::new();
        headers.insert(name, "auth_token=tok".to_string());
        headers.insert("User-ID", "2".to_string());
        let request = auth(&state, 10, headers).expect("the session is valid");
        assert_eq!(request.get("user-id"), Some(&"1".to_string()));
        assert_eq!(request.get("Username"), Some(&"alice".to_string()));
    }
}

#[test]
fn the_guard_turns_every_other_request_away_alike() {
    let mut state = two_users();
    state.insert_token("old".to_string(), 1, 10);
    state.insert_token("gone".to_string(), 1, 1000);
    state.revoke_token("gone");
    for headers in [
        Headers::new(),
        with_cookie(""),
        with_cookie("auth_token=unknown"),
        with_cookie("auth_token=old"),
        with_cookie("auth_token=gone"),
        with_cookie("auth_token"),
    ] {
        let (status, response) = auth(&state, 10, headers).expect_err("no valid session");
        assert_eq!(status, StatusCode::Unauthorized);
        assert_eq!(response.get("hx-redirect"), Some(&"./index.html".to_string()));
        assert_eq!(response.entries.len(), 1);
    }
}

#[test]
fn a_login_answers_with_the_cookie() {
    let (headers, body) = login_accepted("abc", 3_600_100);
    assert_eq!(body, "");
    assert_eq!(
        headers.get("set-cookie"),
        Some(&"auth_token=abc; Max-Age=3600100; HttpOnly".to_string())
    );
    assert_eq!(headers.get("hx-location"), Some(&"./home.html".to_string()));
    let (headers, body) = login_refused();
    assert_eq!(body, "Invalid username or password");
    assert_eq!(headers.get("hx-retarget"), Some(&"#login-response".to_string()));
    assert_eq!(headers.get("set-cookie"), None);
}

#[test]
fn a_refused_login_opens_no_session() {
    let mut state = two_users();
    let request = LoginRequest { username: "alice".to_string(), password: "pw".to_string() };
    let (headers, body) = process_login(&mut state, &request, 100);
    assert_eq!(body, "Invalid username or password");
    assert_eq!(headers.get("set-cookie"), None);
    let request = LoginRequest { username: "nobody".to_string(), password: "pw".to_string() };
    let (other_headers, other_body) = process_login(&mut state, &request, 100);
    assert_eq!(other_body, body);
    assert_eq!(other_headers.entries, headers.entries);
}

#[test]
fn items_get_increasing_ids_that_are_not_used_again() {
    let mut state = two_users();
    assert_eq!(state.insert_present(1, "a".into(), "u".into(), "£1.00".into()), 1);
    assert_eq!(state.insert_present(2, "b".into(), "u".into(), "£1.00".into()), 2);
    assert!(state.delete_present(2, 2));
    assert_eq!(state.insert_present(2, "c".into(), "u".into(), "£1.00".into()), 3);
}

#[test]
fn adding_an_item_answers_with_its_row() {
    let mut state = two_users();
    let (headers, body) = add_item(&mut state, &as_user(1), &bike());
    assert_eq!(headers.get("hx-trigger-after-swap"), Some(&"somePresents".to_string()));
    assert_eq!(
        body,
        "<tr><td><a href='http://x'>Bike</a></td><td>£99.99</td><td style='text-align:center'><i class='fa-regular fa-x'></i></td><td><a href='#' hx-delete='./item/1' hx-target='closest tr' hx-swap='outerHTML' hx-confirm='Please confirm you wish to delete Bike from your list'><i class=\"fa-duotone fa-trash-can\"></i></a></td></tr>\n"
    );
    let items = state.list_presents(1);
    assert_eq!(items.len(), 1);
    assert_eq!(items[0].price, "£99.99");
    assert!(!items[0].taken);
    assert!(state.list_presents(2).is_empty());
}

#[test]
fn only_the_owner_deletes_an_item() {
    let mut state = two_users();
    add_item(&mut state, &as_user(1), &bike());
    assert_eq!(delete_item(&mut state, &as_user(2), &DeleteRequest { item_id: 1 }), "");
    assert_eq!(state.list_presents(1).len(), 1);
    assert_eq!(delete_item(&mut state, &as_user(1), &DeleteRequest { item_id: 5 }), "");
    assert_eq!(state.list_presents(1).len(), 1);
    assert_eq!(delete_item(&mut state, &as_user(1), &DeleteRequest { item_id: 1 }), "");
    assert!(state.list_presents(1).is_empty());
    assert!(!state.delete_present(1, 1));
}

#[test]
fn the_first_claim_wins_and_the_second_is_told_so() {
    let mut state = two_users();
    state.insert_user("carol", "no hash".to_string()).unwrap();
    add_item(&mut state, &as_user(1), &bike());
    let won = state.allocate(1, 2).expect("bob is first");
    assert_eq!((won.name.as_str(), won.url.as_str(), won.price.as_str()), ("Bike", "http://x", "£99.99"));
    assert_eq!(state.allocate(1, 3).err(), Some(AllocationError::AlreadyClaimed));
    assert_eq!(state.allocate(1, 2).err(), Some(AllocationError::AlreadyClaimed));
    let items = state.list_presents(1);
    assert!(items[0].taken);
    assert_eq!(items[0].taken_by_name, Some("bob".to_string()));
}

#[test]
fn the_order_of_two_claims_decides() {
    let mut state = two_users();
    state.insert_user("carol", "no hash".to_string()).unwrap();
    add_item(&mut state, &as_user(1), &bike());
    assert!(state.allocate(1, 3).is_ok());
    assert_eq!(state.allocate(1, 2).err(), Some(AllocationError::AlreadyClaimed));
    assert_eq!(state.list_presents(1)[0].taken_by_name, Some("carol".to_string()));
}

#[test]
fn a_claim_needs_an_item_and_a_claimer() {
    let mut state = two_users();
    add_item(&mut state, &as_user(1), &bike());
    assert_eq!(state.allocate(9, 2).err(), Some(AllocationError::NotFound));
    assert_eq!(state.allocate(1, 9).err(), Some(AllocationError::NotFound));
    assert!(!state.list_presents(1)[0].taken);
}

#[test]
fn an_owner_may_claim_an_item_of_their_own() {
    let mut state = two_users();
    add_item(&mut state, &as_user(1), &bike());
    assert!(state.allocate(1, 1).is_ok());
    assert_eq!(state.list_presents(1)[0].taken_by_name, Some("alice".to_string()));
}

#[test]
fn claiming_answers_with_the_claimed_row() {
    let mut state = two_users();
    add_item(&mut state, &as_user(1), &bike());
    let request = AllocateItemRequest { item_id: 1 };
    let (status, body) = allocate_item(&mut state, &request, &as_user(2));
    assert_eq!(status, StatusCode::Success);
    assert_eq!(
        body,
        "<td><a href='http://x'>Bike</a></td><td>£99.99</td><td><i class='fa-regular fa-check'></i></td><td>bob</td><td></td>"
    );
    let (status, body) = allocate_item(&mut state, &request, &as_user(1));
    assert_eq!(status, StatusCode::Conflict);
    assert_eq!(body, "Somebody has claimed this item already.");
    let (status, body) = allocate_item(&mut state, &AllocateItemRequest { item_id: 4 }, &as_user(2));
    assert_eq!(status, StatusCode::NotFound);
    assert_eq!(body, "There is no such item.");
}

fn claimed() -> Present {
    Present {
        id: 7,
        name: "Bike".to_string(),
        url: "http://x".to_string(),
        price: "£99.99".to_string(),
        taken: true,
        taken_by_name: Some("bob".to_string()),
    }
}

#[test]
fn the_owner_is_not_shown_who_claimed() {
    let view = item_view(&claimed(), Perspective::Owner);
    assert_eq!(view.claimer, None);
    assert!(view.taken);
    let row = render_item(&view);
    assert!(!row.contains("bob"));
    assert_eq!(
        row,
        "<tr><td><a href='http://x'>Bike</a></td><td>£99.99</td><td style='text-align:center'><i class='fa-regular fa-check'></i></td><td><a href='#' hx-target='closest tr' hx-swap='outerHTML' hx-delete='./item/7' hx-confirm='Please confirm you wish to delete Bike from your list'><i class=\"fa-duotone fa-trash-can\"></i></a></td></tr>\n"
    );
    let other = Present { taken_by_name: Some("carol".to_string()), ..claimed() };
    assert_eq!(render_item(&item_view(&other, Perspective::Owner)), row);
}

#[test]
fn a_visitor_is_shown_who_claimed() {
    let view = item_view(&claimed(), Perspective::Visitor);
    assert_eq!(view.claimer, Some("bob".to_string()));
    assert_eq!(
        render_item(&view),
        "<tr><td><a href='http://x'>Bike</a></td><td>£99.99</td><td style='text-align:center'><i class='fa-regular fa-check'></i></td><td class='taken-by'>bob</td><td><a hx-patch='./item/7' hx-confirm='Please confirm you are buying or have bought Bike' hx-target='closest tr' href='#'></a></td></tr>\n"
    );
    let free = Present { taken: false, taken_by_name: None, ..claimed() };
    assert_eq!(
        render_item(&item_view(&free, Perspective::Visitor)),
        "<tr><td><a href='http://x'>Bike</a></td><td>£99.99</td><td style='text-align:center'><i class='fa-regular fa-x'></i></td><td class='taken-by'></td><td><a hx-patch='./item/7' hx-confirm='Please confirm you are buying or have bought Bike' hx-target='closest tr' href='#'><i class='fa-sharp fa-solid fa-cart-plus'></i></a></td></tr>\n"
    );
}

#[test]
fn free_text_is_escaped_where_it_enters_markup() {
    let item = Present {
        id: 1,
        name: "<b>Tom & \"Jerry's\"</b>".to_string(),
        url: "x' onclick='alert(1)".to_string(),
        price: "<1>".to_string(),
        taken: true,
        taken_by_name: Some("<bob>".to_string()),
    };
    let row = render_item(&item_view(&item, Perspective::Visitor));
    assert!(row.contains("<a href='x&#x27; onclick=&#x27;alert(1)'>"));
    assert!(row.contains(">&lt;b&gt;Tom &amp; \"Jerry's\"&lt;/b&gt;</a>"));
    assert!(row.contains("<td>&lt;1&gt;</td>"));
    assert!(row.contains("<td class='taken-by'>&lt;bob&gt;</td>"));
    assert!(row.contains("bought &lt;b&gt;Tom &amp; &quot;Jerry&#x27;s&quot;&lt;/b&gt;' hx-target"));
    let added = render_added(3, "a<b", "u\"v", "£1.00");
    assert!(added.contains("<a href='u&quot;v'>a&lt;b</a>"));
    let select = render_users(1, &vec![gift_list::auth_and_login::User { id: 2, username: "<x>".to_string() }]);
    assert!(select.ends_with("<option value='2'>&lt;x&gt;</option></select>"));
    let allocation = gift_list::state::Allocation { name: "n&".into(), url: "u'".into(), price: "p>".into() };
    assert_eq!(
        render_allocated(&allocation, "b<"),
        "<td><a href='u&#x27;'>n&amp;</a></td><td>p&gt;</td><td><i class='fa-regular fa-check'></i></td><td>b&lt;</td><td></td>"
    );
}

#[test]
fn a_caller_sees_their_own_list_as_owner() {
    assert_eq!(perspective(1, 1), Perspective::Owner);
    assert_eq!(perspective(1, 2), Perspective::Visitor);
    let views = item_views(&vec![claimed(), claimed()], Perspective::Owner);
    assert_eq!(views.len(), 2);
    assert!(views.iter().all(|v| v.claimer.is_none() && v.perspective == Perspective::Owner));
}

#[test]
fn an_empty_list_says_so() {
    let state = two_users();
    let (headers, body) = get_items(&state, &as_user(1), &GetItemsRequest { user_id: None });
    assert_eq!(headers.get("hx-trigger"), Some(&"showAddForm".to_string()));
    assert_eq!(headers.get("hx-trigger-after-swap"), Some(&"noPresents".to_string()));
    assert_eq!(
        body,
        "<table id='list-table'><thead><th>Name</th><th>Price</th><th>Taken</th><th>Delete</th></tr></thead>\n<tbody></tbody></table><p class='no-presents'>You have no items in your list, try adding some below.</p>"
    );
    let (headers, body) = get_items(&state, &as_user(1), &GetItemsRequest { user_id: Some(2) });
    assert_eq!(headers.get("hx-trigger"), Some(&"hideAddForm".to_string()));
    assert_eq!(headers.get("hx-trigger-after-swap"), Some(&"noPresents".to_string()));
    assert_eq!(
        body,
        "<table id='list-table'><thead><th>Name</th><th>Price</th><th>Taken</th><th class='taken-by'>Taken by</th><th>Action</th></tr></thead>\n</tbody></table><p class='no-presents'>This person's list is currently empty.</p>"
    );
    assert_eq!(render_items(Perspective::Owner, &vec![]), get_items(&state, &as_user(2), &GetItemsRequest { user_id: Some(2) }).1);
}

#[test]
fn a_list_shows_its_items_in_the_order_they_were_added() {
    let mut state = two_users();
    add_item(&mut state, &as_user(1), &bike());
    add_item(&mut state, &as_user(2), &Item { name: "Kite".into(), url: "k".into(), price: Price { pounds: 5, pence: 0 } });
    add_item(&mut state, &as_user(1), &Item { name: "Ball".into(), url: "b".into(), price: Price { pounds: 3, pence: 5 } });
    let (headers, body) = get_items(&state, &as_user(2), &GetItemsRequest { user_id: Some(1) });
    assert_eq!(headers.get("hx-trigger-after-swap"), Some(&"somePresents".to_string()));
    let bike_at = body.find(">Bike<").expect("the bike is listed");
    let ball_at = body.find(">Ball<").expect("the ball is listed");
    assert!(bike_at < ball_at);
    assert!(!body.contains("Kite"));
    assert!(body.contains("£3.05"));
    assert!(body.ends_with("</tr>\n</tbody></table>"));
    assert_eq!(body.matches("<tr><td>").count(), 2);
}

#[test]
fn the_selector_lists_the_others_by_name() {
    let mut state = AppState::new();
    for name in ["mallory", "alice", "zed", "bob", "Carol"] {
        state.insert_user(name, "no hash".to_string()).unwrap();
    }
    let others: Vec<(i32, String)> = state.list_others(4).into_iter().map(|u| (u.id, u.username)).collect();
    assert_eq!(
        others,
        vec![(5, "Carol".to_string()), (2, "alice".to_string()), (1, "mallory".to_string()), (3, "zed".to_string())]
    );
    assert_eq!(
        get_users(&state, &as_user(4)),
        "<select hx-target='#items' hx-get='./items/' hx-on='htmx:configRequest: event.detail.path += this.value' id='users-list' name='users-list'><option value='4'>Your list</option><option value='5'>Carol</option><option value='2'>alice</option><option value='1'>mallory</option><option value='3'>zed</option></select>"
    );
    assert_eq!(state.list_others(9).len(), 5);
}

#[test]
fn a_new_password_has_to_be_given_twice_alike() {
    let mut request = UpdatePasswordRequest {
        current_password: "old".to_string(),
        password: "new".to_string(),
        confirm_password: "new".to_string(),
    };
    assert_eq!(update_password(&request), (StatusCode::Success, "".to_string()));
    request.confirm_password = "knew".to_string();
    assert_eq!(
        update_password(&request),
        (StatusCode::UnprocessableEntity, "Your passwords must match".to_string())
    );
}

#[test]
fn the_environment_decides_the_port_and_the_files() {
    let production = get_app_config(Some("PRODUCTION"));
    assert_eq!((production.ip, production.port), ([127, 0, 0, 1], 3003));
    assert_eq!(production.file_path, "/srv/http/christmaslist.xyz/assets");
    for environment in [Some("TEST"), Some("production"), Some(""), None] {
        let config = get_app_config(environment);
        assert_eq!((config.ip, config.port, config.file_path), ([127, 0, 0, 1], 3000, "./assets"));
    }
    assert!(environment_is_known(Some("PRODUCTION")));
    assert!(environment_is_known(Some("TEST")));
    assert!(!environment_is_known(Some("test")));
    assert!(!environment_is_known(None));
}

#[test]
fn alice_and_bob_share_a_list() {
    let mut state = AppState::new();
    let now = 1_700_000_000;
    assert_eq!(register(&mut state, &form("alice", "pw1")), Ok(1));
    let login = LoginRequest { username: "alice".to_string(), password: "pw1".to_string() };
    let (headers, body) = process_login(&mut state, &login, now);
    assert_eq!(body, "");
    let cookie = headers.get("set-cookie").expect("the login sets a cookie").clone();
    assert!(cookie.starts_with("auth_token="));
    assert!(cookie.ends_with(&format!("; Max-Age={}; HttpOnly", now + SESSION_DURATION)));
    let token = &cookie["auth_token=".len().."auth_token=".len() + TOKEN_LENGTH];

    let alice = auth(&state, now + 1, with_cookie(&format!("auth_token={}", token))).expect("alice is let in");
    assert_eq!(alice.get("user-id"), Some(&"1".to_string()));
    add_item(&mut state, &alice, &bike());
    let own = GetItemsRequest { user_id: Some(1) };
    let (_, list) = get_items(&state, &alice, &own);
    assert_eq!(list.matches("<tr><td>").count(), 1);
    assert!(list.contains("<i class='fa-regular fa-x'></i>"));
    assert!(!list.contains("fa-check"));

    assert_eq!(register(&mut state, &form("bob", "pw2")), Ok(2));
    let login = LoginRequest { username: "bob".to_string(), password: "pw2".to_string() };
    let (headers, _) = process_login(&mut state, &login, now + 2);
    let cookie = headers.get("set-cookie").expect("the login sets a cookie").clone();
    let cookie = cookie.split(';').next().expect("the cookie's first part").to_string();
    let bob = auth(&state, now + 3, with_cookie(&cookie)).expect("bob is let in");
    assert_eq!(bob.get("username"), Some(&"bob".to_string()));
    let (status, _) = allocate_item(&mut state, &AllocateItemRequest { item_id: 1 }, &bob);
    assert_eq!(status, StatusCode::Success);

    let (_, list) = get_items(&state, &alice, &own);
    assert!(list.contains("<i class='fa-regular fa-check'></i>"));
    assert!(!list.contains("bob"));
    let (_, list) = get_items(&state, &bob, &own);
    assert!(list.contains("<i class='fa-regular fa-check'></i>"));
    assert!(list.contains("<td class='taken-by'>bob</td>"));
}
