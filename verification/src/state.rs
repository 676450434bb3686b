//! The service's state, held in memory: the three relations of the model
//! as vectors of records.

use crate::auth_and_login::User;
use crate::model::{
    has_name, has_present_id, has_user_id, is_valid_session, others_in, session_owner_id,
    sorts_at_or_after, token_valid, user_view, AllocationError, AllocationView, PresentRow,
    Relations, TokenRow, UserRow,
};
use crate::search::{first_index, lemma_first_index_is};
use crate::route_handlers::Present;
use crate::text::{
    lemma_text_lt_asymmetric, lemma_text_lt_total, lemma_text_lt_transitive, same_text,
    text_before,
};
use vstd::prelude::*;
use vstd::string::*;

verus! {

/// A user with the hash of their password.
pub struct UserRecord {
    pub id: i32,
    pub username: String,
    pub hashed_password: String,
}

impl View for UserRecord {
    type V = UserRow;

    open spec fn view(&self) -> UserRow {
        UserRow {
            id: self.id as int,
            username: self.username@,
            hashed_password: self.hashed_password@,
        }
    }
}

impl DeepView for UserRecord {
    type V = UserRow;

    open spec fn deep_view(&self) -> UserRow {
        self@
    }
}

/// The store could not answer a question: the connection was lost, or a
/// row was not what the schema says. It is no answer, and in particular not
/// the answer that nothing was found.
#[derive(Clone, Copy, Debug, PartialEq, Eq)]
pub struct StoreFailure {}

/// A session: the token that a browser presents, and whom it stands for.
pub struct AuthToken {
    pub token: String,
    pub user_id: i32,
    pub expiry: i64,
    pub revoked: bool,
}

impl View for AuthToken {
    type V = TokenRow;

    open spec fn view(&self) -> TokenRow {
        TokenRow {
            token: self.token@,
            user_id: self.user_id as int,
            expiry: self.expiry as int,
            revoked: self.revoked,
        }
    }
}

impl DeepView for AuthToken {
    type V = TokenRow;

    open spec fn deep_view(&self) -> TokenRow {
        self@
    }
}

/// An item on somebody's list.
pub struct PresentRecord {
    pub id: i32,
    pub user_id: i32,
    pub name: String,
    pub url: String,
    pub price: String,
    pub taken: bool,
    pub taken_by_id: Option<i32>,
}

impl View for PresentRecord {
    type V = PresentRow;

    open spec fn view(&self) -> PresentRow {
        PresentRow {
            id: self.id as int,
            owner_id: self.user_id as int,
            name: self.name@,
            url: self.url@,
            price: self.price@,
            taken: self.taken,
            taken_by_id: match self.taken_by_id {
                Some(id) => Some(id as int),
                None => None,
            },
        }
    }
}

impl DeepView for PresentRecord {
    type V = PresentRow;

    open spec fn deep_view(&self) -> PresentRow {
        self@
    }
}

/// What a successful claim reports of the item.
#[derive(Debug)]
pub struct Allocation {
    pub name: String,
    pub url: String,
    pub price: String,
}

impl View for Allocation {
    type V = AllocationView;

    open spec fn view(&self) -> AllocationView {
        AllocationView { name: self.name@, url: self.url@, price: self.price@ }
    }
}

/// Whether `found` is the user of the row `row`, or neither is there.
pub open spec fn is_user(found: Option<User>, row: Option<UserRow>) -> bool {
    match found {
        Some(user) => row is Some && user@ == user_view(row->0),
        None => row is None,
    }
}

/// Why a registration did not go through.
#[derive(Clone, Copy, Debug, PartialEq, Eq)]
pub enum RegistrationError {
    /// Another user has the name.
    DuplicateUsername,
    /// The password and its confirmation differ.
    PasswordMismatch,
    /// The password takes more bytes than can be hashed.
    PasswordTooLong,
}

/// Whose session `token` opens at time `now`, among `sessions`.
pub fn session_owner(sessions: &Vec<AuthToken>, token: &str, now: i64) -> (owner: Option<i32>)
    ensures
        match owner {
            Some(user_id) => session_owner_id(sessions.deep_view(), token@, now as int) == Some(
                user_id as int,
            ),
            None => session_owner_id(sessions.deep_view(), token@, now as int) is None,
        },
{
    if token.unicode_len() == 0 {
        return None;
    }
    let ghost rows = sessions.deep_view();
    let mut i: usize = 0;
    while i < sessions.len()
        invariant
            i <= sessions.len(),
            token@.len() > 0,
            rows == sessions.deep_view(),
            forall|j: int|
                0 <= j < i ==> !is_valid_session(token@, now as int)(#[trigger] rows[j]),
        decreases sessions.len() - i,
    {
        let session = &sessions[i];
        if same_text(session.token.as_str(), token) && session_is_valid(
            session.revoked,
            session.expiry,
            now,
        ) {
            proof {
                lemma_first_index_is(rows, is_valid_session(token@, now as int), i as int);
            }
            return Some(session.user_id);
        }
        i = i + 1;
    }
    proof {
        lemma_first_index_is(rows, is_valid_session(token@, now as int), rows.len() as int);
    }
    None
}

/// Whether a session with this revocation flag and expiry is accepted at
/// time `now`.
pub fn session_is_valid(revoked: bool, expiry: i64, now: i64) -> (valid: bool)
    ensures
        valid == token_valid(revoked, expiry as int, now as int),
{
    !revoked && now < expiry
}

/// Those of `users` who are not `caller_id`, in their order.
pub fn others_of(users: &Vec<User>, caller_id: i32) -> (others: Vec<User>)
    ensures
        others.deep_view() == others_in(users.deep_view(), caller_id as int, users.len() as int),
{
    let ghost all = users.deep_view();
    let mut others: Vec<User> = Vec::new();
    let mut i: usize = 0;
    assert(others.deep_view() =~= others_in(all, caller_id as int, 0));
    while i < users.len()
        invariant
            i <= users.len(),
            all == users.deep_view(),
            others.deep_view() == others_in(all, caller_id as int, i as int),
        decreases users.len() - i,
    {
        if users[i].id != caller_id {
            let ghost before = others.deep_view();
            others.push(users[i].clone());
            assert(others.deep_view() =~= before.push(all[i as int]));
        }
        i = i + 1;
    }
    others
}

/// Everything the service remembers.
pub struct AppState {
    users: Vec<UserRecord>,
    auth_tokens: Vec<AuthToken>,
    presents: Vec<PresentRecord>,
    next_user_id: i32,
    next_present_id: i32,
}

impl View for AppState {
    type V = Relations;

    closed spec fn view(&self) -> Relations {
        Relations {
            users: self.users.deep_view(),
            auth_tokens: self.auth_tokens.deep_view(),
            presents: self.presents.deep_view(),
            next_user_id: self.next_user_id as int,
            next_present_id: self.next_present_id as int,
        }
    }
}

impl AppState {
    /// A service with no users, sessions or items.
    pub fn new() -> (state: AppState)
        ensures
            state@ == Relations::empty(),
            state@.wf(),
    {
        let state = AppState {
            users: Vec::new(),
            auth_tokens: Vec::new(),
            presents: Vec::new(),
            next_user_id: 1,
            next_present_id: 1,
        };
        assert(state@.users =~= Seq::empty());
        assert(state@.auth_tokens =~= Seq::empty());
        assert(state@.presents =~= Seq::empty());
        state
    }

    /// The record of the user called `username`.
    pub fn find_user_by_name(&self, username: &str) -> (found: Option<&UserRecord>)
        ensures
            match found {
                Some(record) => self@.user_named(username@) == Some(record@),
                None => self@.user_named(username@) is None,
            },
    {
        let mut i: usize = 0;
        while i < self.users.len()
            invariant
                i <= self.users.len(),
                forall|j: int| 0 <= j < i ==> (#[trigger] self@.users[j]).username != username@,
            decreases self.users.len() - i,
        {
            if same_text(self.users[i].username.as_str(), username) {
                proof {
                    lemma_first_index_is(self@.users, has_name(username@), i as int);
                }
                return Some(&self.users[i]);
            }
            i = i + 1;
        }
        proof {
            lemma_first_index_is(self@.users, has_name(username@), self@.users.len() as int);
        }
        None
    }

    /// The user with the id.
    pub fn get_user(&self, user_id: i32) -> (found: Option<User>)
        ensures
            is_user(found, self@.user_with_id(user_id as int)),
    {
        let mut i: usize = 0;
        while i < self.users.len()
            invariant
                i <= self.users.len(),
                forall|j: int| 0 <= j < i ==> (#[trigger] self@.users[j]).id != user_id,
            decreases self.users.len() - i,
        {
            if self.users[i].id == user_id {
                proof {
                    lemma_first_index_is(self@.users, has_user_id(user_id as int), i as int);
                }
                return Some(User { id: user_id, username: self.users[i].username.clone() });
            }
            i = i + 1;
        }
        proof {
            lemma_first_index_is(
                self@.users,
                has_user_id(user_id as int),
                self@.users.len() as int,
            );
        }
        None
    }

    /// Adds a user called `username`, unless somebody has the name.
    pub fn insert_user(&mut self, username: &str, hashed_password: String) -> (result: Result<
        i32,
        RegistrationError,
    >)
        requires
            old(self)@.wf(),
            old(self)@.next_user_id < i32::MAX,
        ensures
            final(self)@.wf(),
            match result {
                Ok(id) => {
                    &&& old(self)@.user_named(username@) is None
                    &&& id == old(self)@.next_user_id
                    &&& final(self)@ == old(self)@.with_user(username@, hashed_password@)
                },
                Err(e) => {
                    &&& e == RegistrationError::DuplicateUsername
                    &&& old(self)@.user_named(username@) is Some
                    &&& final(self)@ == old(self)@
                },
            },
    {
        let ghost before = self@;
        let mut i: usize = 0;
        while i < self.users.len() && text_before(self.users[i].username.as_str(), username)
            invariant
                i <= self.users.len(),
                self@ == before,
                forall|j: int|
                    0 <= j < i ==> crate::text::text_lt(
                        (#[trigger] self@.users[j]).username,
                        username@,
                    ),
            decreases self.users.len() - i,
        {
            i = i + 1;
        }
        assert forall|j: int| 0 <= j < i implies (#[trigger] before.users[j]).username
            != username@ by {
            lemma_text_lt_asymmetric(before.users[j].username, username@);
        }
        if i < self.users.len() && same_text(self.users[i].username.as_str(), username) {
            proof {
                lemma_first_index_is(before.users, has_name(username@), i as int);
            }
            return Err(RegistrationError::DuplicateUsername);
        }
        proof {
            assert forall|j: int| i <= j < before.users.len() implies crate::text::text_lt(
                username@,
                (#[trigger] before.users[j]).username,
            ) by {
                lemma_text_lt_total(before.users[i as int].username, username@);
                if i < j {
                    lemma_text_lt_transitive(
                        username@,
                        before.users[i as int].username,
                        before.users[j].username,
                    );
                }
            }
            assert forall|j: int| i <= j < before.users.len() implies (
            #[trigger] before.users[j]).username != username@ by {
                lemma_text_lt_asymmetric(username@, before.users[j].username);
            }
            lemma_first_index_is(before.users, has_name(username@), before.users.len() as int);
            assert forall|j: int| 0 <= j < i implies !sorts_at_or_after(username@)(
                #[trigger] before.users[j],
            ) by {}
            if i < before.users.len() {
                lemma_text_lt_asymmetric(username@, before.users[i as int].username);
            }
            lemma_first_index_is(before.users, sorts_at_or_after(username@), i as int);
        }
        let id = self.next_user_id;
        let record = UserRecord { id, username: username.to_owned(), hashed_password };
        self.users.insert(i, record);
        self.next_user_id = id + 1;
        proof {
            let after = before.with_user(username@, hashed_password@);
            assert(self@.users =~= after.users);
            assert(self@.auth_tokens =~= after.auth_tokens);
            assert(self@.presents =~= after.presents);
            assert(self@ == after);
        }
        Ok(id)
    }

    /// Opens a session: `token` stands for `user_id` until `expiry`.
    pub fn insert_token(&mut self, token: String, user_id: i32, expiry: i64)
        ensures
            final(self)@ == old(self)@.with_token(token@, user_id as int, expiry as int),
            old(self)@.wf() ==> final(self)@.wf(),
    {
        self.auth_tokens.push(AuthToken { token, user_id, expiry, revoked: false });
        proof {
            let after = old(self)@.with_token(token@, user_id as int, expiry as int);
            assert(self@.auth_tokens =~= after.auth_tokens);
        }
    }

    /// Revokes every session that carries `token`.
    pub fn revoke_token(&mut self, token: &str)
        ensures
            final(self)@ == old(self)@.with_revoked(token@),
            old(self)@.wf() ==> final(self)@.wf(),
    {
        let ghost before = self@;
        let mut i: usize = 0;
        while i < self.auth_tokens.len()
            invariant
                i <= self.auth_tokens.len(),
                self.auth_tokens.len() == before.auth_tokens.len(),
                self@.users == before.users,
                self@.presents == before.presents,
                self@.next_user_id == before.next_user_id,
                self@.next_present_id == before.next_present_id,
                forall|j: int|
                    0 <= j < i ==> #[trigger] self@.auth_tokens[j] == before.with_revoked(
                        token@,
                    ).auth_tokens[j],
                forall|j: int|
                    i <= j < self.auth_tokens.len() ==> #[trigger] self@.auth_tokens[j]
                        == before.auth_tokens[j],
            decreases self.auth_tokens.len() - i,
        {
            if same_text(self.auth_tokens[i].token.as_str(), token) {
                let ghost held = self@.auth_tokens;
                self.auth_tokens[i].revoked = true;
                assert(self@.auth_tokens =~= held.update(
                    i as int,
                    TokenRow { revoked: true, ..held[i as int] },
                ));
            }
            i = i + 1;
        }
        assert(self@.auth_tokens =~= before.with_revoked(token@).auth_tokens);
    }

    /// The user whom `token` stands for at time `now`.
    pub fn session_user(&self, token: &str, now: i64) -> (found: Option<User>)
        ensures
            is_user(found, self@.session_user(token@, now as int)),
    {
        match session_owner(&self.auth_tokens, token, now) {
            Some(user_id) => self.get_user(user_id),
            None => None,
        }
    }

    /// Puts an item on the list of `owner_id` and returns the item's id.
    pub fn insert_present(&mut self, owner_id: i32, name: String, url: String, price: String) -> (id:
        i32)
        requires
            old(self)@.wf(),
            old(self)@.next_present_id < i32::MAX,
        ensures
            final(self)@.wf(),
            id == old(self)@.next_present_id,
            final(self)@ == old(self)@.with_present(owner_id as int, name@, url@, price@),
    {
        let id = self.next_present_id;
        self.presents.push(
            PresentRecord { id, user_id: owner_id, name, url, price, taken: false, taken_by_id: None },
        );
        self.next_present_id = id + 1;
        proof {
            let after = old(self)@.with_present(owner_id as int, name@, url@, price@);
            assert(self@.presents =~= after.presents);
        }
        id
    }

    fn find_present(&self, item_id: i32) -> (at: usize)
        ensures
            at == first_index(self@.presents, has_present_id(item_id as int)),
            at <= self.presents.len(),
    {
        let mut i: usize = 0;
        while i < self.presents.len() && self.presents[i].id != item_id
            invariant
                i <= self.presents.len(),
                forall|j: int| 0 <= j < i ==> (#[trigger] self@.presents[j]).id != item_id,
            decreases self.presents.len() - i,
        {
            i = i + 1;
        }
        proof {
            lemma_first_index_is(self@.presents, has_present_id(item_id as int), i as int);
        }
        i
    }

    /// Takes the item off the list of `owner_id`, if it is on it.
    pub fn delete_present(&mut self, item_id: i32, owner_id: i32) -> (deleted: bool)
        requires
            old(self)@.wf(),
        ensures
            final(self)@.wf(),
            deleted == old(self)@.owns(owner_id as int, item_id as int),
            final(self)@ == old(self)@.without_present(item_id as int, owner_id as int),
    {
        let at = self.find_present(item_id);
        if at < self.presents.len() && self.presents[at].user_id == owner_id {
            self.presents.remove(at);
            proof {
                let after = old(self)@.without_present(item_id as int, owner_id as int);
                assert(self@.presents =~= after.presents);
            }
            true
        } else {
            false
        }
    }

    /// Claims the item for `claimer_id`, unless it is claimed already. The
    /// owner of a list is not kept from claiming an item on it.
    pub fn allocate(&mut self, item_id: i32, claimer_id: i32) -> (result: Result<
        Allocation,
        AllocationError,
    >)
        requires
            old(self)@.wf(),
        ensures
            final(self)@.wf(),
            final(self)@ == old(self)@.allocated(item_id as int, claimer_id as int),
            match result {
                Ok(allocation) => old(self)@.allocation(item_id as int, claimer_id as int) == Ok::<
                    AllocationView,
                    AllocationError,
                >(allocation@),
                Err(e) => old(self)@.allocation(item_id as int, claimer_id as int) == Err::<
                    AllocationView,
                    AllocationError,
                >(e),
            },
    {
        let at = self.find_present(item_id);
        if at >= self.presents.len() {
            return Err(AllocationError::NotFound);
        }
        if self.get_user(claimer_id).is_none() {
            return Err(AllocationError::NotFound);
        }
        if self.presents[at].taken {
            return Err(AllocationError::AlreadyClaimed);
        }
        let ghost held = self@.presents;
        self.presents[at].taken = true;
        self.presents[at].taken_by_id = Some(claimer_id);
        let item = &self.presents[at];
        proof {
            let after = old(self)@.allocated(item_id as int, claimer_id as int);
            assert(self@.presents =~= after.presents);
        }
        Ok(Allocation { name: item.name.clone(), url: item.url.clone(), price: item.price.clone() })
    }

    /// The list of `owner_id`, each item joined to its claimer's name.
    pub fn list_presents(&self, owner_id: i32) -> (rows: Vec<Present>)
        ensures
            rows.deep_view() == self@.presents_of(owner_id as int),
    {
        let mut rows: Vec<Present> = Vec::new();
        let mut i: usize = 0;
        assert(rows.deep_view() =~= self@.presents_among(owner_id as int, 0));
        while i < self.presents.len()
            invariant
                i <= self.presents.len(),
                rows.deep_view() == self@.presents_among(owner_id as int, i as int),
            decreases self.presents.len() - i,
        {
            let item = &self.presents[i];
            if item.user_id == owner_id {
                let taken_by_name = match item.taken_by_id {
                    Some(claimer_id) => match self.get_user(claimer_id) {
                        Some(claimer) => Some(claimer.username),
                        None => None,
                    },
                    None => None,
                };
                let ghost before = rows.deep_view();
                let row = Present {
                    id: item.id,
                    name: item.name.clone(),
                    url: item.url.clone(),
                    price: item.price.clone(),
                    taken: item.taken,
                    taken_by_name,
                };
                assert(row@ == self@.joined(self@.presents[i as int]));
                rows.push(row);
                assert(rows.deep_view() =~= before.push(row@));
            }
            i = i + 1;
        }
        rows
    }

    /// Every user, in the order of their names.
    pub fn list_users(&self) -> (users: Vec<User>)
        ensures
            users.deep_view() == self@.user_views(),
    {
        let mut users: Vec<User> = Vec::new();
        let mut i: usize = 0;
        while i < self.users.len()
            invariant
                i <= self.users.len(),
                users.len() == i,
                forall|k: int| 0 <= k < i ==> (#[trigger] users[k])@ == user_view(self@.users[k]),
            decreases self.users.len() - i,
        {
            let record = &self.users[i];
            users.push(User { id: record.id, username: record.username.clone() });
            i = i + 1;
        }
        assert(users.deep_view() =~= self@.user_views());
        users
    }

    /// Every user but `caller_id`, in the order of their names.
    pub fn list_others(&self, caller_id: i32) -> (others: Vec<User>)
        ensures
            others.deep_view() == self@.others(caller_id as int),
    {
        let users = self.list_users();
        assert(users.len() == users.deep_view().len() == self@.user_views().len());
        others_of(&users, caller_id)
    }
}

} // verus!
