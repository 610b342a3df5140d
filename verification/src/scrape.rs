//! From a fetched web page to the text that is handed to the model.
//!
//! The text is the page's first heading followed by the page's embedded
//! metadata blocks, cut to a fixed number of words. The words are written one
//! after the other with nothing between them.

use vstd::prelude::*;
use vstd::string::StringSliceAdditionalSpecFns;
use vstd::utf8::encode_utf8;

use crate::chars::{extend_chars, is_white, is_whitespace, push_char};

verus! {

/// The selector of a page's headings.
pub const TITLE_SELECTOR: &'static str = "h1";

/// The selector of a page's embedded metadata blocks.
pub const METADATA_SELECTOR: &'static str = "script[type=\"application/ld+json\"]";

/// What stands for the title of a page without a heading.
pub const MISSING_TITLE: &'static str = "Recipe title not found";

/// How many words of a page are kept.
pub const WORD_LIMIT: usize = 800;

/// How many bytes, at most, a page has that is parsed: 512 MiB.
pub const PAGE_LIMIT: usize = 0x2000_0000;

/// Whether a page is short enough to be parsed: its UTF-8 form has at most
/// [`PAGE_LIMIT`] bytes.
pub open spec fn parseable(document: Seq<char>) -> bool {
    encode_utf8(document).len() <= PAGE_LIMIT
}

/// How many characters of white space `text` begins with.
pub open spec fn blank_length(text: Seq<char>) -> nat
    decreases text.len(),
{
    if text.len() > 0 && is_whitespace(text[0]) {
        1 + blank_length(text.drop_first())
    } else {
        0
    }
}

/// How many characters other than white space `text` begins with.
pub open spec fn word_length(text: Seq<char>) -> nat
    decreases text.len(),
{
    if text.len() > 0 && !is_whitespace(text[0]) {
        1 + word_length(text.drop_first())
    } else {
        0
    }
}

/// Neither count exceeds the text's length.
pub proof fn lemma_lengths(text: Seq<char>)
    ensures
        blank_length(text) <= text.len(),
        word_length(text) <= text.len(),
    decreases text.len(),
{
    if text.len() > 0 {
        lemma_lengths(text.drop_first());
    }
}

/// The first `limit` words of `text`, or all of them if there are fewer. A
/// word is a longest run of characters other than white space.
pub open spec fn first_words(text: Seq<char>, limit: nat) -> Seq<Seq<char>>
    decreases text.len(),
{
    let word = text.skip(blank_length(text) as int);
    let length = word_length(word);
    if limit == 0 || length == 0 {
        Seq::empty()
    } else {
        proof {
            lemma_lengths(text);
            lemma_lengths(word);
        }
        seq![word.take(length as int)] + first_words(
            word.skip(length as int),
            (limit - 1) as nat,
        )
    }
}

/// The text that stands for a page: its first `WORD_LIMIT` words, run
/// together.
pub open spec fn digest(text: Seq<char>) -> Seq<char> {
    first_words(text, WORD_LIMIT as nat).flatten()
}

/// The text of a page before it is cut: the title, or `MISSING_TITLE` for a
/// page without one, a space, and the metadata blocks one after the other.
pub open spec fn page_text(title: Option<Seq<char>>, blocks: Seq<Seq<char>>) -> Seq<char> {
    let title = match title {
        Some(title) => title,
        None => MISSING_TITLE@,
    };
    title + seq![' '] + blocks.flatten()
}

/// The characters of `text` that belong to its next `budget` words, read from
/// the left; `inside` says that the word at the start of `text` has begun
/// already, so that it costs nothing.
pub open spec fn squeeze(text: Seq<char>, budget: nat, inside: bool) -> Seq<char>
    decreases text.len(),
{
    if text.len() == 0 {
        Seq::empty()
    } else if is_whitespace(text[0]) {
        squeeze(text.drop_first(), budget, false)
    } else if inside {
        seq![text[0]] + squeeze(text.drop_first(), budget, true)
    } else if budget == 0 {
        Seq::empty()
    } else {
        seq![text[0]] + squeeze(text.drop_first(), (budget - 1) as nat, true)
    }
}

/// Leading white space adds nothing.
proof fn lemma_squeeze_blank(text: Seq<char>, budget: nat, inside: bool)
    requires
        text.len() > 0 ==> is_whitespace(text[0]),
    ensures
        squeeze(text, budget, inside) == squeeze(
            text.skip(blank_length(text) as int),
            budget,
            false,
        ),
    decreases text.len(),
{
    if text.len() == 0 {
        assert(text.skip(0) == text);
        assert(squeeze(text, budget, inside) == squeeze(text, budget, false));
    } else {
        let rest = text.drop_first();
        lemma_lengths(rest);
        assert(text.skip(blank_length(text) as int) == rest.skip(blank_length(rest) as int));
        if rest.len() > 0 && is_whitespace(rest[0]) {
            lemma_squeeze_blank(rest, budget, false);
        } else {
            assert(rest.skip(0) == rest);
        }
    }
}

/// A word that has begun is taken up to its end.
proof fn lemma_squeeze_word(text: Seq<char>, budget: nat)
    ensures
        squeeze(text, budget, true) == text.take(word_length(text) as int) + squeeze(
            text.skip(word_length(text) as int),
            budget,
            false,
        ),
    decreases text.len(),
{
    lemma_lengths(text);
    let length = word_length(text) as int;
    if text.len() == 0 {
        assert(text.skip(0) == text);
        assert(text.take(0) + squeeze(text, budget, false) == squeeze(text, budget, false));
    } else if is_whitespace(text[0]) {
        assert(text.skip(0) == text);
        assert(text.take(0) + squeeze(text, budget, false) == squeeze(text, budget, false));
    } else {
        let rest = text.drop_first();
        lemma_squeeze_word(rest, budget);
        lemma_lengths(rest);
        assert(text.take(length) == seq![text[0]] + rest.take(length - 1));
        assert(text.skip(length) == rest.skip(length - 1));
    }
}

/// Reading from the left gives the first words, run together.
pub proof fn lemma_squeeze_is_first_words(text: Seq<char>, limit: nat)
    ensures
        squeeze(text, limit, false) == first_words(text, limit).flatten(),
    decreases text.len(),
{
    lemma_lengths(text);
    let word = text.skip(blank_length(text) as int);
    let length = word_length(word);
    lemma_lengths(word);
    assert(squeeze(text, limit, false) == squeeze(word, limit, false)) by {
        if text.len() > 0 && is_whitespace(text[0]) {
            lemma_squeeze_blank(text, limit, false);
        } else {
            assert(text.skip(0) == text);
        }
    }
    if length == 0 {
        assert(word.len() == 0 || is_whitespace(word[0]));
        if word.len() > 0 {
            lemma_blank_is_whole(text);
        }
        assert(first_words(text, limit).flatten() == Seq::<char>::empty());
    } else if limit == 0 {
        assert(first_words(text, limit).flatten() == Seq::<char>::empty());
    } else {
        let rest = word.drop_first();
        let after = word.skip(length as int);
        lemma_squeeze_word(rest, (limit - 1) as nat);
        lemma_lengths(rest);
        assert(word.take(length as int) == seq![word[0]] + rest.take(length - 1));
        assert(after == rest.skip(length - 1));
        lemma_squeeze_is_first_words(after, (limit - 1) as nat);
        let tail = first_words(after, (limit - 1) as nat);
        let all = seq![word.take(length as int)] + tail;
        assert(all.first() == word.take(length as int));
        assert(all.drop_first() == tail);
        assert(all.flatten() == word.take(length as int) + tail.flatten());
    }
}

/// After the leading white space comes the end of the text or a character
/// that is no white space.
proof fn lemma_blank_is_whole(text: Seq<char>)
    ensures
        ({
            let word = text.skip(blank_length(text) as int);
            word.len() == 0 || !is_whitespace(word[0])
        }),
    decreases text.len(),
{
    lemma_lengths(text);
    if text.len() > 0 && is_whitespace(text[0]) {
        let rest = text.drop_first();
        lemma_blank_is_whole(rest);
        lemma_lengths(rest);
        assert(text.skip(blank_length(text) as int) == rest.skip(blank_length(rest) as int));
    } else {
        assert(text.skip(0) == text);
    }
}

/// The texts of the elements of `document` that `selector` matches, in the
/// order in which the parsed document yields them; `None` where `selector`
/// is no selector. The text of an element is the text of all its descendant
/// text nodes, run together.
pub uninterp spec fn selected_texts(document: Seq<char>, selector: Seq<char>) -> Option<
    Seq<Seq<char>>,
>;

/// Parses `document` with `scraper::Html::parse_document` and `selector`
/// with `scraper::Selector::parse`, and collects, for each element that
/// `Html::select` yields, what `ElementRef::text` yields. A selector that
/// does not parse gives `None`. The result depends on the two strings alone:
/// it is what [`selected_texts`] names.
///
/// The parser does not take every document. It keeps the document, and
/// every text, name and value that it builds from it, in buffers whose
/// length is a `u32` and whose capacity is rounded up to a power of two, and
/// it panics where a length passes `u32::MAX` or a capacity passes `2^31`.
/// What it builds from a stretch of the document is at most three times as
/// long as the stretch (a NUL byte becomes the three bytes of the
/// replacement character; nothing grows more), so that under
/// [`PAGE_LIMIT`] no buffer comes near those limits.
#[verifier::external_body]
pub(crate) fn select_texts(document: &str, selector: &str) -> (texts: Option<Vec<String>>)
    requires
        parseable(document@),
    ensures
        texts.deep_view() == selected_texts(document@, selector@),
{
    let selector = scraper::Selector::parse(selector).ok()?;
    let html = scraper::Html::parse_document(document);
    Some(html.select(&selector).map(|element| element.text().collect::<String>()).collect())
}

/// The title among the texts of a page's headings: the first, if there is
/// one.
pub open spec fn first_text(texts: Seq<Seq<char>>) -> Option<Seq<char>> {
    if texts.len() > 0 {
        Some(texts[0])
    } else {
        None
    }
}

/// The text that stands for the page `document`: the digest of its first
/// heading and its metadata blocks. A page that is too long to be parsed
/// has none.
pub open spec fn scraped(document: Seq<char>) -> Option<Seq<char>> {
    if !parseable(document) {
        None
    } else {
        match (
            selected_texts(document, TITLE_SELECTOR@),
            selected_texts(document, METADATA_SELECTOR@),
        ) {
            (Some(titles), Some(blocks)) => Some(digest(page_text(first_text(titles), blocks))),
            _ => None,
        }
    }
}

/// The text that stands for the page `document`: see [`scraped`]. The
/// headings and the metadata blocks are picked out of the parsed page;
/// [`page_digest`] makes the text from them.
pub fn scrape(document: &str) -> (text: Option<String>)
    ensures
        text.deep_view() == scraped(document@),
{
    if document.as_bytes().len() > PAGE_LIMIT {
        return None;
    }
    let titles = select_texts(document, TITLE_SELECTOR);
    let blocks = select_texts(document, METADATA_SELECTOR);
    match (titles, blocks) {
        (Some(titles), Some(blocks)) => {
            let title = if titles.len() > 0 {
                Some(titles[0].as_str())
            } else {
                None
            };
            Some(page_digest(title, &blocks))
        },
        _ => None,
    }
}

/// The text that stands for a page with the given title and metadata
/// blocks: see [`page_text`] and [`digest`].
pub fn page_digest(title: Option<&str>, blocks: &Vec<String>) -> (text: String)
    ensures
        text@ == digest(page_text(title.deep_view(), blocks.deep_view())),
{
    let mut page: Vec<char> = Vec::new();
    match title {
        Some(title) => extend_chars(&mut page, title),
        None => extend_chars(&mut page, MISSING_TITLE),
    }
    page.push(' ');
    let ghost head = page@;
    let mut k: usize = 0;
    while k < blocks.len()
        invariant
            k <= blocks.len(),
            page@ == head + blocks.deep_view().take(k as int).flatten(),
        decreases blocks.len() - k,
    {
        proof {
            let upto = blocks.deep_view().take(k + 1);
            assert(upto == blocks.deep_view().take(k as int).push(blocks[k as int]@));
            blocks.deep_view().take(k as int).lemma_flatten_push(blocks[k as int]@);
        }
        extend_chars(&mut page, blocks[k].as_str());
        k += 1;
    }
    assert(blocks.deep_view().take(blocks.len() as int) == blocks.deep_view());
    assert(page@ == page_text(title.deep_view(), blocks.deep_view()));

    let mut text = String::new();
    let mut budget: usize = WORD_LIMIT;
    let mut inside = false;
    let mut i: usize = 0;
    proof {
        assert(page@.skip(0) == page@);
        lemma_squeeze_is_first_words(page@, WORD_LIMIT as nat);
    }
    while i < page.len()
        invariant
            i <= page.len(),
            squeeze(page@, WORD_LIMIT as nat, false) == digest(
                page_text(title.deep_view(), blocks.deep_view()),
            ),
            squeeze(page@, WORD_LIMIT as nat, false) == text@ + squeeze(
                page@.skip(i as int),
                budget as nat,
                inside,
            ),
        decreases page.len() - i,
    {
        let ghost rest = page@.skip(i as int);
        assert(rest[0] == page[i as int]);
        assert(rest.drop_first() == page@.skip(i + 1));
        let c = page[i];
        if is_white(c) {
            inside = false;
        } else {
            if !inside {
                if budget == 0 {
                    assert(text@ + Seq::<char>::empty() == text@);
                    return text;
                }
                budget -= 1;
                inside = true;
            }
            push_char(&mut text, c);
        }
        i += 1;
    }
    assert(text@ + Seq::<char>::empty() == text@);
    text
}

} // verus!
