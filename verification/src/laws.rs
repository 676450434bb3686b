//! What holds of the service as a whole.

use crate::auth_and_login::credentials_user;
use crate::escape::escaped_text;
use crate::model::{
    has_name, has_present_id, is_valid_session, session_owner_id, sorts_at_or_after, token_valid,
    AllocationError, AllocationView, PresentView, Relations, UserRow,
};
use crate::password::password_matches;
use crate::search::{first_index, lemma_first_index, lemma_first_index_is};
use crate::text::lemma_text_lt_asymmetric;
use crate::views::{item_row, sight_of, Perspective};
use vstd::prelude::*;

verus! {

/// A user who has just joined is found under their name, with the id and
/// the password hash that they joined with.
pub proof fn lemma_new_user_is_found(
    relations: Relations,
    username: Seq<char>,
    hashed_password: Seq<char>,
)
    requires
        relations.wf(),
        relations.user_named(username) is None,
    ensures
        relations.with_user(username, hashed_password).user_named(username) == Some(
            UserRow { id: relations.next_user_id, username, hashed_password },
        ),
{
    let users = relations.users;
    let at = first_index(users, sorts_at_or_after(username)) as int;
    let row = UserRow { id: relations.next_user_id, username, hashed_password };
    let after = users.insert(at, row);
    lemma_first_index(users, sorts_at_or_after(username));
    lemma_first_index(users, has_name(username));
    assert forall|j: int| 0 <= j < at implies !has_name(username)(#[trigger] after[j]) by {
        assert(after[j] == users[j]);
        assert(!sorts_at_or_after(username)(users[j]));
        lemma_text_lt_asymmetric(users[j].username, username);
    }
    assert(after[at] == row);
    lemma_first_index_is(after, has_name(username), at);
}

/// Whoever registers once can log in: after a user has joined with the
/// hash of a password, their name and that password stand for them, and
/// their name with another password stands for them exactly if that
/// password matches the same hash.
pub proof fn lemma_registered_credentials_verify(
    relations: Relations,
    username: Seq<char>,
    password: Seq<char>,
    hashed_password: Seq<char>,
    other_password: Seq<char>,
)
    requires
        relations.wf(),
        relations.user_named(username) is None,
        password_matches(hashed_password, password),
    ensures
        credentials_user(relations.with_user(username, hashed_password), username, password)
            == Some(UserRow { id: relations.next_user_id, username, hashed_password }),
        credentials_user(
            relations.with_user(username, hashed_password),
            username,
            other_password,
        ) is Some <==> password_matches(hashed_password, other_password),
{
    lemma_new_user_is_found(relations, username, hashed_password);
}

/// A token that one session carries is accepted exactly while that session
/// is neither revoked nor expired, and it then stands for the session's
/// user.
pub proof fn lemma_token_accepted_iff_valid(
    relations: Relations,
    at: int,
    token: Seq<char>,
    now: int,
)
    requires
        token.len() > 0,
        0 <= at < relations.auth_tokens.len(),
        relations.auth_tokens[at].token == token,
        forall|j: int|
            0 <= j < relations.auth_tokens.len() && j != at ==> (
            #[trigger] relations.auth_tokens[j]).token != token,
    ensures
        relations.session_user(token, now) == (if token_valid(
            relations.auth_tokens[at].revoked,
            relations.auth_tokens[at].expiry,
            now,
        ) {
            relations.user_with_id(relations.auth_tokens[at].user_id)
        } else {
            None
        }),
{
    let sessions = relations.auth_tokens;
    let valid = is_valid_session(token, now);
    if valid(sessions[at]) {
        assert forall|j: int| 0 <= j < at implies !valid(#[trigger] sessions[j]) by {}
        lemma_first_index_is(sessions, valid, at);
    } else {
        assert forall|j: int| 0 <= j < sessions.len() implies !valid(#[trigger] sessions[j]) by {}
        lemma_first_index_is(sessions, valid, sessions.len() as int);
    }
}

/// A token that was just handed out is accepted until its session expires
/// and stands for the user who logged in, unless an earlier session of
/// another user carries the same token and is still accepted: the earlier
/// session then answers. That two sessions carry one token is left to
/// chance.
pub proof fn lemma_new_session_is_accepted(
    relations: Relations,
    token: Seq<char>,
    user_id: int,
    expiry: int,
    now: int,
)
    requires
        token.len() > 0,
        now < expiry,
        session_owner_id(relations.auth_tokens, token, now) is None || session_owner_id(
            relations.auth_tokens,
            token,
            now,
        ) == Some(user_id),
    ensures
        relations.with_token(token, user_id, expiry).session_user(token, now)
            == relations.user_with_id(user_id),
{
    let sessions = relations.auth_tokens;
    let after = relations.with_token(token, user_id, expiry).auth_tokens;
    let valid = is_valid_session(token, now);
    lemma_first_index(sessions, valid);
    let at = first_index(sessions, valid) as int;
    assert forall|j: int| 0 <= j < at implies !valid(#[trigger] after[j]) by {
        assert(after[j] == sessions[j]);
    }
    if at < sessions.len() {
        assert(after[at] == sessions[at]);
    }
    lemma_first_index_is(after, valid, at);
}

/// Once a token is revoked it is accepted at no time.
pub proof fn lemma_revoked_token_is_rejected(relations: Relations, token: Seq<char>, now: int)
    ensures
        relations.with_revoked(token).session_user(token, now) is None,
{
    let sessions = relations.with_revoked(token).auth_tokens;
    let valid = is_valid_session(token, now);
    assert forall|j: int| 0 <= j < sessions.len() implies !valid(#[trigger] sessions[j]) by {}
    lemma_first_index_is(sessions, valid, sessions.len() as int);
}

/// A token is accepted at no time at or after the expiry of every session
/// that carries it.
pub proof fn lemma_expired_token_is_rejected(relations: Relations, token: Seq<char>, now: int)
    requires
        forall|j: int|
            0 <= j < relations.auth_tokens.len() && (#[trigger] relations.auth_tokens[j]).token
                == token ==> relations.auth_tokens[j].expiry <= now,
    ensures
        relations.session_user(token, now) is None,
{
    let sessions = relations.auth_tokens;
    let valid = is_valid_session(token, now);
    assert forall|j: int| 0 <= j < sessions.len() implies !valid(#[trigger] sessions[j]) by {}
    lemma_first_index_is(sessions, valid, sessions.len() as int);
}

/// A request without a token is never accepted, whatever sessions there
/// are.
pub proof fn lemma_empty_token_is_rejected(relations: Relations, now: int)
    ensures
        relations.session_user(Seq::empty(), now) is None,
{
}

/// Of two users who claim an item that nobody has claimed, the first is
/// given the item and the second is told that it is taken: the item stays
/// with the first, in whichever order the two claims arrive.
pub proof fn lemma_one_claim_wins(relations: Relations, item_id: int, first: int, second: int)
    requires
        relations.wf(),
        relations.present_with_id(item_id) is Some,
        !relations.present_with_id(item_id)->0.taken,
        relations.user_with_id(first) is Some,
        relations.user_with_id(second) is Some,
    ensures
        relations.allocation(item_id, first) is Ok,
        relations.allocated(item_id, first).wf(),
        relations.allocated(item_id, first).allocation(item_id, second) == Err::<
            AllocationView,
            AllocationError,
        >(AllocationError::AlreadyClaimed),
        relations.allocated(item_id, first).allocated(item_id, second) == relations.allocated(
            item_id,
            first,
        ),
        relations.allocated(item_id, first).present_with_id(item_id)->0.taken_by_id == Some(
            first,
        ),
{
    let with_id = has_present_id(item_id);
    lemma_first_index(relations.presents, with_id);
    let at = first_index(relations.presents, with_id) as int;
    let after = relations.allocated(item_id, first);
    assert forall|j: int| 0 <= j < at implies !with_id(#[trigger] after.presents[j]) by {
        assert(after.presents[j] == relations.presents[j]);
    }
    lemma_first_index_is(after.presents, with_id, at);
}

/// A claim that is turned away changes nothing.
pub proof fn lemma_failed_claim_changes_nothing(relations: Relations, item_id: int, claimer: int)
    requires
        relations.allocation(item_id, claimer) is Err,
    ensures
        relations.allocated(item_id, claimer) == relations,
{
}

/// Right after a claim went through, a visitor of the list reads the
/// claimer's name on the item, and the owner of the list reads nobody's.
pub proof fn lemma_claim_shows_to_visitors_only(relations: Relations, item_id: int, claimer: int)
    requires
        relations.wf(),
        relations.allocation(item_id, claimer) is Ok,
    ensures
        ({
            let after = relations.allocated(item_id, claimer);
            let item = after.joined(after.present_with_id(item_id)->0);
            &&& after.present_with_id(item_id) is Some
            &&& item.taken
            &&& sight_of(item, Perspective::Visitor).claimer == Some(
                relations.user_with_id(claimer)->0.username,
            )
            &&& sight_of(item, Perspective::Owner).claimer is None
        }),
{
    let with_id = has_present_id(item_id);
    lemma_first_index(relations.presents, with_id);
    let at = first_index(relations.presents, with_id) as int;
    let after = relations.allocated(item_id, claimer);
    assert forall|j: int| 0 <= j < at implies !with_id(#[trigger] after.presents[j]) by {
        assert(after.presents[j] == relations.presents[j]);
    }
    lemma_first_index_is(after.presents, with_id, at);
}

/// What the owner of a list is shown of an item does not depend on who
/// claimed it: two items that differ in their claimer alone look the same
/// to the owner, in what the view holds and in its markup.
pub proof fn lemma_owner_view_hides_claimer(item: PresentView, other_claimer: Option<Seq<char>>)
    ensures
        sight_of(item, Perspective::Owner) == sight_of(
            PresentView { taken_by_name: other_claimer, ..item },
            Perspective::Owner,
        ),
        item_row(sight_of(item, Perspective::Owner)) == item_row(
            sight_of(PresentView { taken_by_name: other_claimer, ..item }, Perspective::Owner),
        ),
        sight_of(item, Perspective::Owner).claimer is None,
{
}

/// What a visitor is shown of a claimed item names the claimer: the markup
/// of the row is the claimer's escaped name between what stands before it
/// and what stands after it, and neither of the two depends on the
/// claimer.
pub proof fn lemma_visitor_view_names_claimer(item: PresentView, claimer: Seq<char>)
    requires
        item.taken_by_name == Some(claimer),
    ensures
        sight_of(item, Perspective::Visitor).claimer == Some(claimer),
        item_row(sight_of(item, Perspective::Visitor)) == visitor_row_before_claimer(item)
            + escaped_text(claimer) + visitor_row_after_claimer(item),
{
    let sight = sight_of(item, Perspective::Visitor);
    assert(item_row(sight) =~= visitor_row_before_claimer(item) + escaped_text(claimer)
        + visitor_row_after_claimer(item));
}

/// What stands before the claimer's name in a visitor's row of `item`.
pub open spec fn visitor_row_before_claimer(item: PresentView) -> Seq<char> {
    "<tr><td><a href='"@ + crate::escape::escaped_attribute(item.url) + "'>"@ + escaped_text(
        item.name,
    ) + "</a></td><td>"@ + escaped_text(item.price) + "</td><td style='text-align:center'>"@
        + crate::views::taken_mark(item.taken) + "</td><td class='taken-by'>"@
}

/// What stands after the claimer's name in a visitor's row of `item`.
pub open spec fn visitor_row_after_claimer(item: PresentView) -> Seq<char> {
    "</td><td><a hx-patch='./item/"@ + crate::text::decimal(item.id)
        + "' hx-confirm='Please confirm you are buying or have bought "@
        + crate::escape::escaped_attribute(item.name) + "' hx-target='closest tr' href='#'>"@
        + crate::views::claim_mark(item.taken) + "</a></td></tr>\n"@
}

} // verus!
