//! Addresses that the application is asked to open.
use vstd::prelude::*;

verus! {

/// The normal form that `url::Url::parse` gives an address, or nothing if it rejects it.
pub uninterp spec fn parsed_url(uri: Seq<char>) -> Option<Seq<char>>;

/// `url::Url::parse` reads an absolute address. The result is named, not described: it depends on
/// the text alone. The parsed address is handed out as the text that `url::Url` holds for it.
#[verifier::external_body]
fn parse_url(uri: &str) -> (parsed: Option<String>)
    ensures
        text_of(parsed) == parsed_url(uri@),
{
    url::Url::parse(uri).ok().map(String::from)
}

/// The texts of a list of strings.
pub open spec fn texts(strings: Seq<String>) -> Seq<Seq<char>> {
    strings.map_values(|s: String| s@)
}

/// The address alone, if there is one.
pub open spec fn as_list(url: Option<Seq<char>>) -> Seq<Seq<char>> {
    match url {
        Some(url) => seq![url],
        None => Seq::empty(),
    }
}

/// The text of an optional string.
pub open spec fn text_of(s: Option<String>) -> Option<Seq<char>> {
    match s {
        Some(s) => Some(s@),
        None => None,
    }
}

/// The addresses to open for a launch with `uri`: its normal form, or nothing if there is no
/// address or none that can be read.
pub open spec fn urls_to_open(uri: Seq<char>) -> Seq<Seq<char>> {
    if uri.len() == 0 {
        Seq::empty()
    } else {
        as_list(parsed_url(uri))
    }
}

/// The addresses to open once the address of a launch has been read, or could not be.
pub fn urls_from_parsed(parsed: Option<String>) -> (urls: Vec<String>)
    ensures
        texts(urls@) == as_list(text_of(parsed)),
{
    let mut urls: Vec<String> = Vec::new();
    if let Some(url) = parsed {
        urls.push(url);
    }
    assert(texts(urls@) =~= as_list(text_of(parsed)));
    urls
}

/// The addresses to open for a launch with `uri`.
pub fn opened_urls(uri: &str) -> (urls: Vec<String>)
    ensures
        texts(urls@) == urls_to_open(uri@),
{
    if uri.is_empty() {
        let urls: Vec<String> = Vec::new();
        assert(texts(urls@) =~= Seq::<Seq<char>>::empty());
        urls
    } else {
        urls_from_parsed(parse_url(uri))
    }
}

/// What is told of a text is the text.
pub proof fn law_texts_are_kept(s: String, strings: Seq<String>)
    ensures
        text_of(Some(s)) == Some(s@),
        text_of(None) is None,
        texts(strings).len() == strings.len(),
        forall|i: int| 0 <= i < strings.len() ==> #[trigger] texts(strings)[i] == strings[i]@,
{
}

/// A launch opens the normal form of its address alone if it has one, and nothing if it has no
/// address or one that cannot be read.
pub proof fn law_launch_opens_its_address(uri: Seq<char>, urls: Seq<String>)
    requires
        texts(urls) == urls_to_open(uri),
    ensures
        uri.len() == 0 ==> urls.len() == 0,
        uri.len() > 0 && parsed_url(uri) is None ==> urls.len() == 0,
        uri.len() > 0 && parsed_url(uri) is Some ==> urls.len() == 1 && urls[0]@ == parsed_url(
            uri,
        )->0,
{
    assert(texts(urls).len() == urls.len());
    if urls.len() > 0 {
        assert(texts(urls)[0] == urls[0]@);
    }
}

/// An address that has been read is opened alone, as it is, and one that could not be read is not.
pub proof fn law_read_address_is_opened(parsed: Option<String>, urls: Vec<String>)
    requires
        call_ensures(urls_from_parsed, (parsed,), urls),
    ensures
        parsed matches Some(url) ==> urls@.len() == 1 && urls@[0]@ == url@,
        parsed is None ==> urls@.len() == 0,
{
    assert(texts(urls@).len() == urls@.len());
    if urls@.len() > 0 {
        assert(texts(urls@)[0] == urls@[0]@);
    }
}

} // verus!
