//! The sanitation boundary: free text is escaped before it enters markup.

use vstd::prelude::*;

verus! {

/// What stands for `c` in element content: `&`, `<` and `>` become
/// entities, every other character stands for itself.
pub open spec fn text_entity(c: char) -> Seq<char> {
    if c == '&' {
        seq!['&', 'a', 'm', 'p', ';']
    } else if c == '<' {
        seq!['&', 'l', 't', ';']
    } else if c == '>' {
        seq!['&', 'g', 't', ';']
    } else {
        seq![c]
    }
}

/// What stands for `c` inside a quoted attribute value: as in element
/// content, and both quotes become entities too.
pub open spec fn attribute_entity(c: char) -> Seq<char> {
    if c == '"' {
        seq!['&', 'q', 'u', 'o', 't', ';']
    } else if c == '\'' {
        seq!['&', '#', 'x', '2', '7', ';']
    } else {
        text_entity(c)
    }
}

/// `s` escaped for element content.
pub open spec fn escaped_text(s: Seq<char>) -> Seq<char>
    decreases s.len(),
{
    if s.len() == 0 {
        Seq::empty()
    } else {
        escaped_text(s.drop_last()) + text_entity(s.last())
    }
}

/// `s` escaped for a quoted attribute value.
pub open spec fn escaped_attribute(s: Seq<char>) -> Seq<char>
    decreases s.len(),
{
    if s.len() == 0 {
        Seq::empty()
    } else {
        escaped_attribute(s.drop_last()) + attribute_entity(s.last())
    }
}

/// Escaped element content opens and closes no tag.
pub proof fn lemma_escaped_text_has_no_tag(s: Seq<char>)
    ensures
        forall|i: int|
            0 <= i < escaped_text(s).len() ==> {
                let c = #[trigger] escaped_text(s)[i];
                c != '<' && c != '>'
            },
    decreases s.len(),
{
    if s.len() > 0 {
        lemma_escaped_text_has_no_tag(s.drop_last());
        let head = escaped_text(s.drop_last());
        assert forall|i: int| 0 <= i < escaped_text(s).len() implies {
            let c = #[trigger] escaped_text(s)[i];
            c != '<' && c != '>'
        } by {
            if i < head.len() {
                assert(escaped_text(s)[i] == head[i]);
            } else {
                assert(escaped_text(s)[i] == text_entity(s.last())[i - head.len()]);
            }
        }
    }
}

/// An escaped attribute value opens and closes no tag and ends no quoted
/// value, whichever quote encloses it.
pub proof fn lemma_escaped_attribute_stays_quoted(s: Seq<char>)
    ensures
        forall|i: int|
            0 <= i < escaped_attribute(s).len() ==> {
                let c = #[trigger] escaped_attribute(s)[i];
                c != '<' && c != '>' && c != '\'' && c != '"'
            },
    decreases s.len(),
{
    if s.len() > 0 {
        lemma_escaped_attribute_stays_quoted(s.drop_last());
        let head = escaped_attribute(s.drop_last());
        assert forall|i: int| 0 <= i < escaped_attribute(s).len() implies {
            let c = #[trigger] escaped_attribute(s)[i];
            c != '<' && c != '>' && c != '\'' && c != '"'
        } by {
            if i < head.len() {
                assert(escaped_attribute(s)[i] == head[i]);
            } else {
                assert(escaped_attribute(s)[i] == attribute_entity(s.last())[i - head.len()]);
            }
        }
    }
}

/// `html_escape::encode_text`: the text with each `&`, `<` and `>` replaced
/// by `&amp;`, `&lt;` and `&gt;`, and nothing else changed.
#[verifier::external_body]
pub(crate) fn encode_text(text: &str) -> (encoded: String)
    ensures
        encoded@ == escaped_text(text@),
{
    html_escape::encode_text(text).into_owned()
}

/// `html_escape::encode_quoted_attribute`: as `encode_text`, and `"` and
/// `'` replaced by `&quot;` and `&#x27;`.
#[verifier::external_body]
pub(crate) fn encode_quoted_attribute(text: &str) -> (encoded: String)
    ensures
        encoded@ == escaped_attribute(text@),
{
    html_escape::encode_quoted_attribute(text).into_owned()
}

} // verus!
