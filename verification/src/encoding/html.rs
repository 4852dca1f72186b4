//! Escaping of text that is placed inside an HTML element.

use vstd::prelude::*;

verus! {

/// One character, escaped: the five characters with a meaning in HTML
/// become entities, any other character stands for itself.
pub open spec fn html_escaped_char(c: char) -> Seq<char> {
    if c == '"' {
        seq!['&', 'q', 'u', 'o', 't', ';']
    } else if c == '&' {
        seq!['&', 'a', 'm', 'p', ';']
    } else if c == '\'' {
        seq!['&', '#', 'x', '2', '7', ';']
    } else if c == '<' {
        seq!['&', 'l', 't', ';']
    } else if c == '>' {
        seq!['&', 'g', 't', ';']
    } else {
        seq![c]
    }
}

/// A text, escaped character by character.
pub open spec fn html_escaped(text: Seq<char>) -> Seq<char>
    decreases text.len(),
{
    if text.len() == 0 {
        Seq::empty()
    } else {
        html_escaped(text.drop_last()) + html_escaped_char(text.last())
    }
}

/// Whether `c` could open or close a tag or start an entity.
pub open spec fn is_html_special(c: char) -> bool {
    c == '"' || c == '&' || c == '\'' || c == '<' || c == '>'
}

/// `htmlescape::encode_minimal` replaces `"`, `&`, `'`, `<` and `>` by
/// `&quot;`, `&amp;`, `&#x27;`, `&lt;` and `&gt;` and copies every other
/// character.
#[verifier::external_body]
pub(crate) fn html_escape(text: &str) -> (escaped: String)
    ensures
        escaped@ == html_escaped(text@),
{
    htmlescape::encode_minimal(text)
}

/// Escaped text is inert: it holds no quote and no angle bracket, so it can
/// neither close the element it stands in nor open another.
pub proof fn lemma_html_escaped_is_inert(text: Seq<char>)
    ensures
        forall|i: int|
            0 <= i < html_escaped(text).len() ==> {
                let c = #[trigger] html_escaped(text)[i];
                c != '<' && c != '>' && c != '"' && c != '\''
            },
    decreases text.len(),
{
    if text.len() > 0 {
        lemma_html_escaped_is_inert(text.drop_last());
        let head = html_escaped(text.drop_last());
        let tail = html_escaped_char(text.last());
        assert forall|i: int| 0 <= i < html_escaped(text).len() implies {
            let c = #[trigger] html_escaped(text)[i];
            c != '<' && c != '>' && c != '"' && c != '\''
        } by {
            if i < head.len() {
                assert(html_escaped(text)[i] == head[i]);
            } else {
                assert(html_escaped(text)[i] == tail[i - head.len()]);
            }
        }
    }
}

} // verus!
