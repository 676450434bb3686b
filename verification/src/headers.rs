//! Header fields of a request or response, and response status codes.

use crate::text::{
    lemma_lower_case_keeps, lemma_lower_case_twice, lower_case, same_text, to_lower_case,
};
use vstd::prelude::*;
use vstd::string::*;

verus! {

/// The request header that carries the browser's cookies.
pub const COOKIE: &'static str = "cookie";

/// The request header in which the authenticated user's id travels to the
/// handlers.
pub const USER_ID: &'static str = "user-id";

/// The request header in which the authenticated user's name travels to the
/// handlers.
pub const USERNAME: &'static str = "username";

/// The field map that a list of `(name, value)` pairs stands for: names
/// count in lower case, and a later pair replaces an earlier one of the
/// same name.
pub open spec fn fields_of(entries: Seq<(String, String)>) -> Map<Seq<char>, Seq<char>>
    decreases entries.len(),
{
    if entries.len() == 0 {
        Map::empty()
    } else {
        fields_of(entries.drop_last()).insert(lower_case(entries.last().0@), entries.last().1@)
    }
}

/// The names of the header fields that this library reads and writes are
/// in lower case, so each is the key of its own field.
pub proof fn lemma_field_names_are_lower_case()
    ensures
        lower_case(COOKIE@) == COOKIE@,
        lower_case(USER_ID@) == USER_ID@,
        lower_case(USERNAME@) == USERNAME@,
        lower_case("hx-redirect"@) == "hx-redirect"@,
        lower_case("set-cookie"@) == "set-cookie"@,
        lower_case("hx-location"@) == "hx-location"@,
        lower_case("hx-retarget"@) == "hx-retarget"@,
        lower_case("hx-trigger"@) == "hx-trigger"@,
        lower_case("hx-trigger-after-swap"@) == "hx-trigger-after-swap"@,
{
    reveal_strlit("cookie");
    reveal_strlit("user-id");
    reveal_strlit("username");
    reveal_strlit("hx-redirect");
    reveal_strlit("set-cookie");
    reveal_strlit("hx-location");
    reveal_strlit("hx-retarget");
    reveal_strlit("hx-trigger");
    reveal_strlit("hx-trigger-after-swap");
    lemma_lower_case_keeps("cookie"@);
    lemma_lower_case_keeps("user-id"@);
    lemma_lower_case_keeps("username"@);
    lemma_lower_case_keeps("hx-redirect"@);
    lemma_lower_case_keeps("set-cookie"@);
    lemma_lower_case_keeps("hx-location"@);
    lemma_lower_case_keeps("hx-retarget"@);
    lemma_lower_case_keeps("hx-trigger"@);
    lemma_lower_case_keeps("hx-trigger-after-swap"@);
}

/// Header fields, one value to a name. Names are told apart without
/// regard to capital and small letters, as the names of header fields are:
/// `Cookie` and `cookie` name one field.
#[derive(Debug)]
pub struct Headers {
    /// The fields in the order in which they were set. `insert` writes
    /// each name in lower case; a name written otherwise counts in lower
    /// case all the same.
    pub entries: Vec<(String, String)>,
}

impl View for Headers {
    type V = Map<Seq<char>, Seq<char>>;

    open spec fn view(&self) -> Map<Seq<char>, Seq<char>> {
        fields_of(self.entries@)
    }
}

impl Headers {
    /// No fields.
    pub fn new() -> (headers: Headers)
        ensures
            headers@ == Map::<Seq<char>, Seq<char>>::empty(),
    {
        Headers { entries: Vec::new() }
    }

    /// Sets the field `name` to `value`, replacing any earlier value.
    pub fn insert(&mut self, name: &str, value: String)
        ensures
            final(self)@ == old(self)@.insert(lower_case(name@), value@),
    {
        self.entries.push((to_lower_case(name), value));
        proof {
            assert(self.entries@.drop_last() == old(self).entries@);
            lemma_lower_case_twice(name@);
        }
    }

    /// The value of the field `name`, if it is set.
    pub fn get(&self, name: &str) -> (value: Option<&String>)
        ensures
            match value {
                Some(v) => self@.contains_key(lower_case(name@)) && self@[lower_case(name@)]
                    == v@,
                None => !self@.contains_key(lower_case(name@)),
            },
    {
        let key = to_lower_case(name);
        let mut i: usize = self.entries.len();
        assert(self.entries@.take(i as int) == self.entries@);
        while i > 0
            invariant
                i <= self.entries.len(),
                key@ == lower_case(name@),
                self@.contains_key(key@) == fields_of(self.entries@.take(i as int)).contains_key(
                    key@,
                ),
                self@.contains_key(key@) ==> self@[key@] == fields_of(
                    self.entries@.take(i as int),
                )[key@],
            decreases i,
        {
            i = i - 1;
            assert(self.entries@.take(i + 1).drop_last() == self.entries@.take(i as int));
            if same_text(to_lower_case(self.entries[i].0.as_str()).as_str(), key.as_str()) {
                return Some(&self.entries[i].1);
            }
        }
        None
    }
}

/// The status of a response.
#[derive(Clone, Copy, Debug, PartialEq, Eq)]
pub enum StatusCode {
    Success,
    Unauthorized,
    NotFound,
    Conflict,
    UnprocessableEntity,
    InternalServerError,
}

impl StatusCode {
    /// The numeric code of the status.
    pub open spec fn code(self) -> int {
        match self {
            StatusCode::Success => 200,
            StatusCode::Unauthorized => 401,
            StatusCode::NotFound => 404,
            StatusCode::Conflict => 409,
            StatusCode::UnprocessableEntity => 422,
            StatusCode::InternalServerError => 500,
        }
    }

    /// The numeric code of the status.
    pub fn as_u16(&self) -> (code: u16)
        ensures
            code == self.code(),
    {
        match self {
            StatusCode::Success => 200,
            StatusCode::Unauthorized => 401,
            StatusCode::NotFound => 404,
            StatusCode::Conflict => 409,
            StatusCode::UnprocessableEntity => 422,
            StatusCode::InternalServerError => 500,
        }
    }
}

} // verus!
