//! Finding the session token among a request's cookies.

use crate::search::{first_index, lemma_first_index_is};
use crate::text::chars_of;
use vstd::prelude::*;
use vstd::string::*;

verus! {

/// The name of the cookie that carries the session token.
pub const AUTH_COOKIE: &'static str = "auth_token";

/// Being the character `c`.
pub open spec fn is_char(c: char) -> spec_fn(char) -> bool {
    |x: char| x == c
}

/// What stands in `s` before the first `sep`: all of `s`, if it holds none.
pub open spec fn before_first(s: Seq<char>, sep: char) -> Seq<char> {
    s.take(first_index(s, is_char(sep)) as int)
}

/// What stands in `s` after the first `sep`: nothing, if it holds none.
pub open spec fn after_first(s: Seq<char>, sep: char) -> Seq<char> {
    let at = first_index(s, is_char(sep)) as int;
    if at < s.len() {
        s.skip(at + 1)
    } else {
        Seq::empty()
    }
}

/// Whether `c` is a blank: a space or a tab.
pub open spec fn is_blank(c: char) -> bool {
    c == ' ' || c == '\t'
}

/// `s` without the blanks it begins with.
pub open spec fn strip_leading(s: Seq<char>) -> Seq<char>
    decreases s.len(),
{
    if s.len() > 0 && is_blank(s[0]) {
        strip_leading(s.drop_first())
    } else {
        s
    }
}

/// `s` without the blanks it ends with.
pub open spec fn strip_trailing(s: Seq<char>) -> Seq<char>
    decreases s.len(),
{
    if s.len() > 0 && is_blank(s.last()) {
        strip_trailing(s.drop_last())
    } else {
        s
    }
}

/// `s` without the blanks around it.
pub open spec fn strip_blanks(s: Seq<char>) -> Seq<char> {
    strip_trailing(strip_leading(s))
}

/// The session token that one cookie carries. A cookie is a name, `=`, and
/// a value that ends at the next `=` or with the cookie. Blanks around the
/// name do not count, so the cookie is found behind the blank that follows
/// a `;`. A cookie of the right name without a value carries the empty
/// token.
pub open spec fn cookie_token(cookie: Seq<char>) -> Option<Seq<char>> {
    if strip_blanks(before_first(cookie, '=')) == AUTH_COOKIE@ {
        Some(before_first(after_first(cookie, '='), '='))
    } else {
        None
    }
}

/// The session token of the last cookie in `header` that carries one.
/// Cookies are separated by `;`.
pub open spec fn last_cookie_token(header: Seq<char>) -> Option<Seq<char>>
    decreases header.len(),
{
    let here = cookie_token(before_first(header, ';'));
    if first_index(header, is_char(';')) < header.len() {
        match last_cookie_token(after_first(header, ';')) {
            Some(token) => Some(token),
            None => here,
        }
    } else {
        here
    }
}

/// The session token that a cookie header carries, empty if it carries
/// none.
pub open spec fn auth_token_in(header: Seq<char>) -> Seq<char> {
    match last_cookie_token(header) {
        Some(token) => token,
        None => Seq::empty(),
    }
}

fn find_char(chars: &Vec<char>, from: usize, to: usize, c: char) -> (at: usize)
    requires
        from <= to <= chars.len(),
    ensures
        from <= at <= to,
        at - from == first_index(chars@.subrange(from as int, to as int), is_char(c)),
{
    let mut i: usize = from;
    while i < to && chars[i] != c
        invariant
            from <= i <= to,
            to <= chars.len(),
            forall|j: int| from <= j < i ==> chars@[j] != c,
        decreases to - i,
    {
        i = i + 1;
    }
    proof {
        let piece = chars@.subrange(from as int, to as int);
        assert forall|k: int| 0 <= k < i - from implies !is_char(c)(#[trigger] piece[k]) by {
            assert(piece[k] == chars@[from + k]);
        }
        lemma_first_index_is(piece, is_char(c), i - from);
    }
    i
}

fn range_is(chars: &Vec<char>, from: usize, to: usize, word: &Vec<char>) -> (same: bool)
    requires
        from <= to <= chars.len(),
    ensures
        same == (chars@.subrange(from as int, to as int) == word@),
{
    if to - from != word.len() {
        return false;
    }
    let ghost piece = chars@.subrange(from as int, to as int);
    let mut i: usize = 0;
    while i < word.len()
        invariant
            from <= to <= chars.len(),
            to - from == word.len(),
            i <= word.len(),
            piece == chars@.subrange(from as int, to as int),
            forall|j: int| 0 <= j < i ==> piece[j] == word@[j],
        decreases word.len() - i,
    {
        if chars[from + i] != word[i] {
            assert(piece[i as int] != word@[i as int]);
            return false;
        }
        i = i + 1;
    }
    assert(piece =~= word@);
    true
}

fn blank(c: char) -> (is: bool)
    ensures
        is == is_blank(c),
{
    c == ' ' || c == '\t'
}

/// Where `chars[from..to]` stands once the blanks around it are taken off.
fn unblanked(chars: &Vec<char>, from: usize, to: usize) -> (range: (usize, usize))
    requires
        from <= to <= chars.len(),
    ensures
        from <= range.0 <= range.1 <= to,
        chars@.subrange(range.0 as int, range.1 as int) == strip_blanks(
            chars@.subrange(from as int, to as int),
        ),
{
    let mut first: usize = from;
    while first < to && blank(chars[first])
        invariant
            from <= first <= to,
            to <= chars.len(),
            strip_leading(chars@.subrange(from as int, to as int)) == strip_leading(
                chars@.subrange(first as int, to as int),
            ),
        decreases to - first,
    {
        assert(chars@.subrange(first as int, to as int).drop_first() =~= chars@.subrange(
            first + 1,
            to as int,
        ));
        first = first + 1;
    }
    let mut last: usize = to;
    while last > first && blank(chars[last - 1])
        invariant
            first <= last <= to,
            to <= chars.len(),
            strip_trailing(chars@.subrange(first as int, to as int)) == strip_trailing(
                chars@.subrange(first as int, last as int),
            ),
        decreases last - first,
    {
        assert(chars@.subrange(first as int, last as int).drop_last() =~= chars@.subrange(
            first as int,
            last - 1,
        ));
        last = last - 1;
    }
    (first, last)
}

/// Where the session token of the cookie `chars[from..to]` stands, if the
/// cookie carries one.
fn token_range(chars: &Vec<char>, from: usize, to: usize, name: &Vec<char>) -> (range: Option<
    (usize, usize),
>)
    requires
        from <= to <= chars.len(),
        name@ == AUTH_COOKIE@,
    ensures
        match range {
            Some((a, b)) => from <= a <= b <= to && cookie_token(
                chars@.subrange(from as int, to as int),
            ) == Some(chars@.subrange(a as int, b as int)),
            None => cookie_token(chars@.subrange(from as int, to as int)) is None,
        },
{
    let ghost cookie = chars@.subrange(from as int, to as int);
    let eq = find_char(chars, from, to, '=');
    assert(before_first(cookie, '=') =~= chars@.subrange(from as int, eq as int));
    let (first, last) = unblanked(chars, from, eq);
    if !range_is(chars, first, last, name) {
        return None;
    }
    let value: usize = if eq < to {
        eq + 1
    } else {
        to
    };
    assert(after_first(cookie, '=') =~= chars@.subrange(value as int, to as int));
    let end = find_char(chars, value, to, '=');
    assert(before_first(chars@.subrange(value as int, to as int), '=') =~= chars@.subrange(
        value as int,
        end as int,
    ));
    Some((value, end))
}

/// The session token that a cookie header carries, empty if it carries
/// none.
pub fn auth_token_of(header: &str) -> (token: String)
    ensures
        token@ == auth_token_in(header@),
{
    let chars = chars_of(header);
    let name = chars_of(AUTH_COOKIE);
    let len = chars.len();
    let mut found: (usize, usize) = (0, 0);
    let ghost mut best: Option<Seq<char>> = None;
    let mut start: usize = 0;
    let mut end = find_char(&chars, start, len, ';');
    assert(header@.skip(0) == header@);
    while end < len
        invariant
            chars@ == header@,
            name@ == AUTH_COOKIE@,
            len == chars.len(),
            start <= end <= len,
            end - start == first_index(chars@.subrange(start as int, len as int), is_char(';')),
            found.0 <= found.1 <= len,
            best is Some ==> best->0 == header@.subrange(found.0 as int, found.1 as int),
            best is None ==> found.0 == found.1,
            last_cookie_token(header@) == (match last_cookie_token(header@.skip(start as int)) {
                Some(token) => Some(token),
                None => best,
            }),
        decreases len - start,
    {
        let ghost rest = header@.skip(start as int);
        assert(rest =~= chars@.subrange(start as int, len as int));
        assert(before_first(rest, ';') =~= chars@.subrange(start as int, end as int));
        assert(after_first(rest, ';') =~= header@.skip(end + 1));
        match token_range(&chars, start, end, &name) {
            Some(range) => {
                found = range;
                proof {
                    best = Some(header@.subrange(range.0 as int, range.1 as int));
                }
            },
            None => {},
        }
        start = end + 1;
        end = find_char(&chars, start, len, ';');
    }
    let ghost rest = header@.skip(start as int);
    assert(rest =~= chars@.subrange(start as int, len as int));
    assert(before_first(rest, ';') =~= rest);
    match token_range(&chars, start, len, &name) {
        Some(range) => {
            found = range;
            proof {
                best = Some(header@.subrange(range.0 as int, range.1 as int));
            }
        },
        None => {},
    }
    assert(last_cookie_token(header@) == best);
    let token = header.substring_char(found.0, found.1).to_owned();
    assert(best is None ==> token@ =~= Seq::<char>::empty());
    token
}

} // verus!
