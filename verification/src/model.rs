//! The mathematical model of the service's state: three relations and the
//! operations on them.

use crate::search::{find_first, first_index};
use crate::text::text_lt;
use vstd::prelude::*;

verus! {

/// A row of the `users` relation.
pub struct UserRow {
    pub id: int,
    pub username: Seq<char>,
    pub hashed_password: Seq<char>,
}

/// A row of the `auth_tokens` relation.
pub struct TokenRow {
    pub token: Seq<char>,
    pub user_id: int,
    pub expiry: int,
    pub revoked: bool,
}

/// A row of the `presents` relation: an item on its owner's list.
pub struct PresentRow {
    pub id: int,
    pub owner_id: int,
    pub name: Seq<char>,
    pub url: Seq<char>,
    pub price: Seq<char>,
    pub taken: bool,
    pub taken_by_id: Option<int>,
}

/// A user as the handlers see one: identity and name, no credentials.
pub struct UserView {
    pub id: int,
    pub username: Seq<char>,
}

/// An item joined to the name of the user who claimed it.
pub struct PresentView {
    pub id: int,
    pub name: Seq<char>,
    pub url: Seq<char>,
    pub price: Seq<char>,
    pub taken: bool,
    pub taken_by_name: Option<Seq<char>>,
}

/// What a successful claim reports of the item.
pub struct AllocationView {
    pub name: Seq<char>,
    pub url: Seq<char>,
    pub price: Seq<char>,
}

/// Why a claim did not go through.
#[derive(Clone, Copy, Debug, PartialEq, Eq)]
pub enum AllocationError {
    /// No item has the id, or the claimer is no user.
    NotFound,
    /// Somebody claimed the item before.
    AlreadyClaimed,
}

/// Being called `name`.
pub open spec fn has_name(name: Seq<char>) -> spec_fn(UserRow) -> bool {
    |u: UserRow| u.username == name
}

/// Being the user with the id.
pub open spec fn has_user_id(id: int) -> spec_fn(UserRow) -> bool {
    |u: UserRow| u.id == id
}

/// Being the item with the id.
pub open spec fn has_present_id(id: int) -> spec_fn(PresentRow) -> bool {
    |p: PresentRow| p.id == id
}

/// Having a name that does not sort before `name`.
pub open spec fn sorts_at_or_after(name: Seq<char>) -> spec_fn(UserRow) -> bool {
    |u: UserRow| !text_lt(u.username, name)
}

/// Whether a session token is accepted at time `now`.
pub open spec fn token_valid(revoked: bool, expiry: int, now: int) -> bool {
    !revoked && now < expiry
}

/// Being a session that carries `token` and is accepted at time `now`.
pub open spec fn is_valid_session(token: Seq<char>, now: int) -> spec_fn(TokenRow) -> bool {
    |t: TokenRow| t.token == token && token_valid(t.revoked, t.expiry, now)
}

/// Whose session `token` opens at time `now`: the owner of the first session
/// with that token that is neither revoked nor expired. The empty token
/// opens no session.
pub open spec fn session_owner_id(sessions: Seq<TokenRow>, token: Seq<char>, now: int) -> Option<
    int,
> {
    if token.len() == 0 {
        None
    } else {
        match find_first(sessions, is_valid_session(token, now)) {
            Some(session) => Some(session.user_id),
            None => None,
        }
    }
}

/// The first `n` of `users` without `caller_id`, in their order.
pub open spec fn others_in(users: Seq<UserView>, caller_id: int, n: int) -> Seq<UserView>
    decreases n,
{
    if n <= 0 {
        Seq::empty()
    } else if users[n - 1].id == caller_id {
        others_in(users, caller_id, n - 1)
    } else {
        others_in(users, caller_id, n - 1).push(users[n - 1])
    }
}

/// The user of a row, without the credentials.
pub open spec fn user_view(u: UserRow) -> UserView {
    UserView { id: u.id, username: u.username }
}

/// The three relations, and the ids that the next user and the next item
/// will get. Ids are handed out in increasing order and never again.
pub struct Relations {
    pub users: Seq<UserRow>,
    pub auth_tokens: Seq<TokenRow>,
    pub presents: Seq<PresentRow>,
    pub next_user_id: int,
    pub next_present_id: int,
}

impl Relations {
    /// No users, no sessions, no items.
    pub open spec fn empty() -> Relations {
        Relations {
            users: Seq::empty(),
            auth_tokens: Seq::empty(),
            presents: Seq::empty(),
            next_user_id: 1,
            next_present_id: 1,
        }
    }

    /// Users are kept in the order of their names, which makes the names
    /// unique; ids are unique and below the next id; an item is taken exactly
    /// when it names its claimer.
    pub open spec fn wf(self) -> bool {
        &&& 1 <= self.next_user_id
        &&& 1 <= self.next_present_id
        &&& forall|i: int|
            0 <= i < self.users.len() ==> 1 <= (#[trigger] self.users[i]).id < self.next_user_id
        &&& forall|i: int, j: int|
            0 <= i < j < self.users.len() ==> (#[trigger] self.users[i]).id != (
            #[trigger] self.users[j]).id
        &&& forall|i: int, j: int|
            0 <= i < j < self.users.len() ==> text_lt(
                (#[trigger] self.users[i]).username,
                (#[trigger] self.users[j]).username,
            )
        &&& forall|i: int|
            0 <= i < self.presents.len() ==> 1 <= (#[trigger] self.presents[i]).id
                < self.next_present_id
        &&& forall|i: int, j: int|
            0 <= i < j < self.presents.len() ==> (#[trigger] self.presents[i]).id != (
            #[trigger] self.presents[j]).id
        &&& forall|i: int|
            0 <= i < self.presents.len() ==> ((#[trigger] self.presents[i]).taken
                <==> self.presents[i].taken_by_id is Some)
    }

    /// The user called `name`.
    pub open spec fn user_named(self, name: Seq<char>) -> Option<UserRow> {
        find_first(self.users, has_name(name))
    }

    /// The user with the id.
    pub open spec fn user_with_id(self, id: int) -> Option<UserRow> {
        find_first(self.users, has_user_id(id))
    }

    /// The relations after a user called `username` has joined.
    pub open spec fn with_user(self, username: Seq<char>, hashed_password: Seq<char>) -> Relations {
        let at = first_index(self.users, sorts_at_or_after(username)) as int;
        let row = UserRow { id: self.next_user_id, username, hashed_password };
        Relations {
            users: self.users.insert(at, row),
            next_user_id: self.next_user_id + 1,
            ..self
        }
    }

    /// The relations after a session was opened.
    pub open spec fn with_token(self, token: Seq<char>, user_id: int, expiry: int) -> Relations {
        Relations {
            auth_tokens: self.auth_tokens.push(
                TokenRow { token, user_id, expiry, revoked: false },
            ),
            ..self
        }
    }

    /// The relations after every session that carries `token` was revoked.
    pub open spec fn with_revoked(self, token: Seq<char>) -> Relations {
        Relations {
            auth_tokens: Seq::new(
                self.auth_tokens.len(),
                |i: int|
                    if self.auth_tokens[i].token == token {
                        TokenRow { revoked: true, ..self.auth_tokens[i] }
                    } else {
                        self.auth_tokens[i]
                    },
            ),
            ..self
        }
    }

    /// The user whom `token` stands for at time `now`: the owner of the first
    /// session with that token that is neither revoked nor expired, if that
    /// user is there.
    pub open spec fn session_user(self, token: Seq<char>, now: int) -> Option<UserRow> {
        match session_owner_id(self.auth_tokens, token, now) {
            Some(user_id) => self.user_with_id(user_id),
            None => None,
        }
    }

    /// The relations after `owner_id` has put an item on their list.
    pub open spec fn with_present(
        self,
        owner_id: int,
        name: Seq<char>,
        url: Seq<char>,
        price: Seq<char>,
    ) -> Relations {
        Relations {
            presents: self.presents.push(
                PresentRow {
                    id: self.next_present_id,
                    owner_id,
                    name,
                    url,
                    price,
                    taken: false,
                    taken_by_id: None,
                },
            ),
            next_present_id: self.next_present_id + 1,
            ..self
        }
    }

    /// Whether the list of `owner_id` holds the item.
    pub open spec fn owns(self, owner_id: int, item_id: int) -> bool {
        let at = first_index(self.presents, has_present_id(item_id)) as int;
        at < self.presents.len() && self.presents[at].owner_id == owner_id
    }

    /// The relations after `owner_id` has asked to delete the item: it is
    /// gone if it was theirs, and nothing has changed otherwise.
    pub open spec fn without_present(self, item_id: int, owner_id: int) -> Relations {
        if self.owns(owner_id, item_id) {
            Relations {
                presents: self.presents.remove(
                    first_index(self.presents, has_present_id(item_id)) as int,
                ),
                ..self
            }
        } else {
            self
        }
    }

    /// The item with the id.
    pub open spec fn present_with_id(self, item_id: int) -> Option<PresentRow> {
        find_first(self.presents, has_present_id(item_id))
    }

    /// What an attempt of `claimer_id` to claim the item comes to.
    pub open spec fn allocation(self, item_id: int, claimer_id: int) -> Result<
        AllocationView,
        AllocationError,
    > {
        match self.present_with_id(item_id) {
            None => Err(AllocationError::NotFound),
            Some(item) => if self.user_with_id(claimer_id) is None {
                Err(AllocationError::NotFound)
            } else if item.taken {
                Err(AllocationError::AlreadyClaimed)
            } else {
                Ok(AllocationView { name: item.name, url: item.url, price: item.price })
            },
        }
    }

    /// The relations after that attempt: the item is taken by `claimer_id`
    /// if the attempt succeeded, and nothing has changed otherwise.
    pub open spec fn allocated(self, item_id: int, claimer_id: int) -> Relations {
        if self.allocation(item_id, claimer_id) is Ok {
            let at = first_index(self.presents, has_present_id(item_id)) as int;
            Relations {
                presents: self.presents.update(
                    at,
                    PresentRow {
                        taken: true,
                        taken_by_id: Some(claimer_id),
                        ..self.presents[at]
                    },
                ),
                ..self
            }
        } else {
            self
        }
    }

    /// The item joined to its claimer's name.
    pub open spec fn joined(self, item: PresentRow) -> PresentView {
        PresentView {
            id: item.id,
            name: item.name,
            url: item.url,
            price: item.price,
            taken: item.taken,
            taken_by_name: match item.taken_by_id {
                Some(claimer_id) => match self.user_with_id(claimer_id) {
                    Some(claimer) => Some(claimer.username),
                    None => None,
                },
                None => None,
            },
        }
    }

    /// The first `n` items of the relation that belong to `owner_id`, each
    /// joined to its claimer's name, in the relation's order.
    pub open spec fn presents_among(self, owner_id: int, n: int) -> Seq<PresentView>
        decreases n,
    {
        if n <= 0 {
            Seq::empty()
        } else if self.presents[n - 1].owner_id == owner_id {
            self.presents_among(owner_id, n - 1).push(self.joined(self.presents[n - 1]))
        } else {
            self.presents_among(owner_id, n - 1)
        }
    }

    /// The list of `owner_id`.
    pub open spec fn presents_of(self, owner_id: int) -> Seq<PresentView> {
        self.presents_among(owner_id, self.presents.len() as int)
    }

    /// Every user, in the order of their names.
    pub open spec fn user_views(self) -> Seq<UserView> {
        Seq::new(self.users.len(), |i: int| user_view(self.users[i]))
    }

    /// Every user but `caller_id`, in the order of their names.
    pub open spec fn others(self, caller_id: int) -> Seq<UserView> {
        others_in(self.user_views(), caller_id, self.users.len() as int)
    }
}

} // verus!
