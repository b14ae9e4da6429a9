//! The addresses with which the application is opened.

use vstd::prelude::*;

verus! {

/// What `url::Url::parse` makes of a text: the serialized form of the absolute
/// URL that the text spells, or nothing where it spells none.
pub uninterp spec fn url_parse(text: Seq<char>) -> Option<Seq<char>>;

/// Calls `url::Url::parse` and serializes the URL that it returns. The claim is
/// that the outcome depends on the text alone.
#[verifier::external_body]
fn parse_url(text: &str) -> (r: Option<String>)
    ensures
        r is Some == url_parse(text@) is Some,
        r matches Some(url) ==> url@ == url_parse(text@)->Some_0,
{
    url::Url::parse(text).ok().map(String::from)
}

/// The addresses for a text: the parsed one, and none where the text is empty or
/// does not parse.
pub open spec fn addresses(text: Seq<char>, parsed: Option<Seq<char>>) -> Seq<Seq<char>> {
    if text.len() == 0 {
        Seq::empty()
    } else {
        match parsed {
            Some(url) => seq![url],
            None => Seq::empty(),
        }
    }
}

/// The serialized form of each address.
pub open spec fn texts(urls: Seq<String>) -> Seq<Seq<char>> {
    urls.map_values(|url: String| url@)
}

/// The optional text as a sequence of characters.
pub open spec fn optional_text(text: Option<String>) -> Option<Seq<char>> {
    match text {
        Some(text) => Some(text@),
        None => None,
    }
}

/// A text that parses brings the one address that it parses to; an empty one, and one that
/// does not parse, bring none.
pub proof fn lemma_address_is_what_the_text_parses_to(text: Seq<char>, parsed: Option<Seq<char>>)
    ensures
        addresses(text, parsed).len() == 1 <==> text.len() > 0 && parsed is Some,
        addresses(text, parsed).len() <= 1,
        text.len() > 0 && parsed is Some ==> addresses(text, parsed)[0] == parsed->Some_0,
{
}

/// The addresses for a text, given what parsing it gives.
pub fn urls_from_parsed(text: &str, parsed: Option<String>) -> (r: Vec<String>)
    ensures
        texts(r@) == addresses(text@, optional_text(parsed)),
{
    let mut urls: Vec<String> = Vec::new();
    if !text.is_empty() {
        if let Some(url) = parsed {
            urls.push(url);
        }
    }
    assert(texts(urls@) =~= addresses(text@, optional_text(parsed)));
    urls
}

/// The addresses for a text.
pub fn urls_from_text(text: &str) -> (r: Vec<String>)
    ensures
        texts(r@) == addresses(text@, url_parse(text@)),
{
    if text.is_empty() {
        let urls: Vec<String> = Vec::new();
        assert(texts(urls@) =~= Seq::<Seq<char>>::empty());
        return urls;
    }
    let parsed = parse_url(text);
    urls_from_parsed(text, parsed)
}

} // verus!
