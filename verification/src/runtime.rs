//! The runtime locator's policy: which candidates the output of the
//! system's probes gives.

use vstd::prelude::*;
use crate::text::{lemma_texts_push, push_char, text_view, texts};

verus! {

/// Whether a character is white space: one of the twenty-five characters
/// that Unicode gives the property `White_Space`.
pub open spec fn is_whitespace(c: char) -> bool {
    c == '\u{9}' || c == '\u{a}' || c == '\u{b}' || c == '\u{c}' || c == '\u{d}' || c == ' '
        || c == '\u{85}' || c == '\u{a0}' || c == '\u{1680}' || c == '\u{2000}' || c == '\u{2001}'
        || c == '\u{2002}' || c == '\u{2003}' || c == '\u{2004}' || c == '\u{2005}' || c
        == '\u{2006}' || c == '\u{2007}' || c == '\u{2008}' || c == '\u{2009}' || c == '\u{200a}'
        || c == '\u{2028}' || c == '\u{2029}' || c == '\u{202f}' || c == '\u{205f}' || c
        == '\u{3000}'
}

/// Tells whether a character is white space.
pub fn char_is_whitespace(c: char) -> (white: bool)
    ensures
        white == is_whitespace(c),
{
    c == '\u{9}' || c == '\u{a}' || c == '\u{b}' || c == '\u{c}' || c == '\u{d}' || c == ' '
        || c == '\u{85}' || c == '\u{a0}' || c == '\u{1680}' || c == '\u{2000}' || c == '\u{2001}'
        || c == '\u{2002}' || c == '\u{2003}' || c == '\u{2004}' || c == '\u{2005}' || c
        == '\u{2006}' || c == '\u{2007}' || c == '\u{2008}' || c == '\u{2009}' || c == '\u{200a}'
        || c == '\u{2028}' || c == '\u{2029}' || c == '\u{202f}' || c == '\u{205f}' || c
        == '\u{3000}'
}

/// A text without the white space that it starts with.
pub open spec fn trim_start(s: Seq<char>) -> Seq<char>
    decreases s.len(),
{
    if s.len() > 0 && is_whitespace(s[0]) {
        trim_start(s.drop_first())
    } else {
        s
    }
}

/// A text without the white space that it ends with.
pub open spec fn trim_end(s: Seq<char>) -> Seq<char>
    decreases s.len(),
{
    if s.len() > 0 && is_whitespace(s.last()) {
        trim_end(s.drop_last())
    } else {
        s
    }
}

/// A text without the white space at either end.
pub open spec fn trimmed(s: Seq<char>) -> Seq<char> {
    trim_end(trim_start(s))
}

/// The words of a text of which `current` has been read as the start of a
/// word: a word ends at white space or at the end of the text.
pub open spec fn words_after(s: Seq<char>, current: Seq<char>) -> Seq<Seq<char>>
    decreases s.len(),
{
    let finished = if current.len() > 0 {
        seq![current]
    } else {
        Seq::empty()
    };
    if s.len() == 0 {
        finished
    } else if is_whitespace(s[0]) {
        finished + words_after(s.drop_first(), Seq::empty())
    } else {
        words_after(s.drop_first(), current.push(s[0]))
    }
}

/// The words of a text: its longest runs without white space, in order.
pub open spec fn words(s: Seq<char>) -> Seq<Seq<char>> {
    words_after(s, Seq::empty())
}

/// Whether a text holds no white space.
pub open spec fn without_space(w: Seq<char>) -> bool {
    forall|i: int| 0 <= i < w.len() ==> !is_whitespace(#[trigger] w[i])
}

/// Every word that follows a start without white space is non-empty and
/// without white space.
pub proof fn lemma_words_after(s: Seq<char>, current: Seq<char>)
    requires
        without_space(current),
    ensures
        forall|k: int|
            0 <= k < words_after(s, current).len() ==> (#[trigger] words_after(s, current)[k]).len()
                > 0 && without_space(words_after(s, current)[k]),
    decreases s.len(),
{
    let all = words_after(s, current);
    if s.len() == 0 {
        assert forall|k: int| 0 <= k < all.len() implies (#[trigger] all[k]).len() > 0
            && without_space(all[k]) by {
            assert(all[k] == current);
        }
    } else if is_whitespace(s[0]) {
        let rest = words_after(s.drop_first(), Seq::empty());
        lemma_words_after(s.drop_first(), Seq::empty());
        assert forall|k: int| 0 <= k < all.len() implies (#[trigger] all[k]).len() > 0
            && without_space(all[k]) by {
            if current.len() > 0 {
                if k > 0 {
                    assert(all[k] == rest[k - 1]);
                }
            } else {
                assert(all[k] == rest[k]);
            }
        }
    } else {
        assert(without_space(current.push(s[0])));
        lemma_words_after(s.drop_first(), current.push(s[0]));
        assert(all == words_after(s.drop_first(), current.push(s[0])));
    }
}

/// No word of a text is empty, and none holds white space.
pub proof fn lemma_words_hold_no_space(s: Seq<char>)
    ensures
        forall|k: int|
            0 <= k < words(s).len() ==> (#[trigger] words(s)[k]).len() > 0 && without_space(
                words(s)[k],
            ),
{
    lemma_words_after(s, Seq::empty());
}

/// What trimming the start leaves is the end of the text, and does not
/// start with white space.
pub proof fn lemma_trim_start(s: Seq<char>)
    ensures
        trim_start(s).len() <= s.len(),
        trim_start(s) == s.skip(s.len() - trim_start(s).len()),
        trim_start(s).len() > 0 ==> !is_whitespace(trim_start(s)[0]),
        forall|i: int| 0 <= i < s.len() - trim_start(s).len() ==> is_whitespace(#[trigger] s[i]),
    decreases s.len(),
{
    if s.len() > 0 && is_whitespace(s[0]) {
        let rest = s.drop_first();
        lemma_trim_start(rest);
        let kept = trim_start(rest).len();
        assert(rest.skip(rest.len() - kept) =~= s.skip(s.len() - kept));
        assert forall|i: int| 0 <= i < s.len() - kept implies is_whitespace(#[trigger] s[i]) by {
            if i > 0 {
                assert(s[i] == rest[i - 1]);
            }
        }
    } else {
        assert(s.skip(0) =~= s);
    }
}

/// What trimming the end leaves is the start of the text, and does not end
/// with white space.
pub proof fn lemma_trim_end(s: Seq<char>)
    ensures
        trim_end(s).len() <= s.len(),
        trim_end(s) == s.take(trim_end(s).len() as int),
        trim_end(s).len() > 0 ==> !is_whitespace(trim_end(s).last()),
        forall|i: int| trim_end(s).len() <= i < s.len() ==> is_whitespace(#[trigger] s[i]),
    decreases s.len(),
{
    if s.len() > 0 && is_whitespace(s.last()) {
        let rest = s.drop_last();
        lemma_trim_end(rest);
        let kept = trim_end(rest).len() as int;
        assert(rest.take(kept) =~= s.take(kept));
        assert forall|i: int| kept <= i < s.len() implies is_whitespace(#[trigger] s[i]) by {
            if i < rest.len() {
                assert(s[i] == rest[i]);
            }
        }
    } else {
        assert(s.take(s.len() as int) =~= s);
    }
}

/// A trimmed text is a stretch of the text that neither starts nor ends
/// with white space, and all that was left out around it is white space.
pub proof fn lemma_trimmed(s: Seq<char>)
    ensures
        trimmed(s).len() <= s.len(),
        trimmed(s).len() > 0 ==> !is_whitespace(trimmed(s)[0]) && !is_whitespace(
            trimmed(s).last(),
        ),
        exists|from: int|
            0 <= from <= s.len() - trimmed(s).len() && trimmed(s) == #[trigger] s.subrange(
                from,
                from + trimmed(s).len(),
            ) && (forall|i: int|
                0 <= i < s.len() && !(from <= i < from + trimmed(s).len()) ==> is_whitespace(
                    #[trigger] s[i],
                )),
{
    let inner = trim_start(s);
    lemma_trim_start(s);
    lemma_trim_end(inner);
    let from = s.len() - inner.len();
    let kept = trimmed(s).len() as int;
    assert(inner.take(kept) =~= s.subrange(from, from + kept));
    if kept > 0 {
        assert(trimmed(s)[0] == inner[0]);
    }
    assert forall|i: int|
        0 <= i < s.len() && !(from <= i < from + kept) implies is_whitespace(#[trigger] s[i]) by {
        if i >= from + kept {
            assert(s[i] == inner[i - from]);
        }
    }
}

/// The candidates that the probes' output gives.  The words of the
/// alternatives registry's listing are the candidates where there are any;
/// else the trimmed output of the path search is the one candidate, unless
/// it is empty; else there is none.
pub open spec fn candidates(alternatives: Option<Seq<char>>, path_search: Option<Seq<char>>) -> Seq<
    Seq<char>,
> {
    let listed = match alternatives {
        Some(listing) => words(trimmed(listing)),
        None => Seq::empty(),
    };
    if listed.len() > 0 {
        listed
    } else {
        match path_search {
            Some(found) => if trimmed(found).len() > 0 {
                seq![trimmed(found)]
            } else {
                Seq::empty()
            },
            None => Seq::empty(),
        }
    }
}

/// Whether the registry's listing names no candidate, so that the path
/// search counts.
pub open spec fn registry_lists_nothing(alternatives: Option<Seq<char>>) -> bool {
    match alternatives {
        Some(listing) => words(trimmed(listing)).len() == 0,
        None => true,
    }
}

/// Where the registry lists a candidate, the path search changes nothing:
/// it need not be run.
pub proof fn lemma_path_search_counts_only_then(
    alternatives: Option<Seq<char>>,
    path_search: Option<Seq<char>>,
)
    requires
        !registry_lists_nothing(alternatives),
    ensures
        candidates(alternatives, path_search) == candidates(alternatives, None),
{
}

/// No candidate is the empty text: where the probes give nothing to start,
/// there is no candidate at all.
pub proof fn lemma_candidates_are_not_empty(
    alternatives: Option<Seq<char>>,
    path_search: Option<Seq<char>>,
)
    ensures
        forall|k: int|
            0 <= k < candidates(alternatives, path_search).len() ==> (#[trigger] candidates(
                alternatives,
                path_search,
            )[k]).len() > 0,
        alternatives is None && path_search is None ==> candidates(alternatives, path_search).len()
            == 0,
{
    if alternatives is Some {
        lemma_words_hold_no_space(trimmed(alternatives->0));
    }
}

/// Takes the white space off both ends of a text.
pub fn trim(s: &str) -> (text: String)
    ensures
        text@ == trimmed(s@),
{
    let n: usize = s.unicode_len();
    let mut from: usize = 0;
    let mut scanning: bool = true;
    proof {
        assert(s@.skip(0) =~= s@);
    }
    while scanning && from < n
        invariant
            n == s@.len(),
            from <= n,
            trim_start(s@) == trim_start(s@.skip(from as int)),
            !scanning ==> from < n && !is_whitespace(s@[from as int]),
        decreases n - from + if scanning { 1nat } else { 0nat },
    {
        if char_is_whitespace(s.get_char(from)) {
            proof {
                assert(s@.skip(from as int).drop_first() =~= s@.skip(from + 1));
            }
            from = from + 1;
        } else {
            scanning = false;
        }
    }
    assert(trim_start(s@) == s@.skip(from as int));
    let mut to: usize = n;
    scanning = true;
    proof {
        assert(s@.skip(from as int) =~= s@.subrange(from as int, n as int));
    }
    while scanning && to > from
        invariant
            n == s@.len(),
            from <= to <= n,
            trimmed(s@) == trim_end(s@.subrange(from as int, to as int)),
            !scanning ==> to > from && !is_whitespace(s@[to - 1]),
        decreases to - from + if scanning { 1nat } else { 0nat },
    {
        if char_is_whitespace(s.get_char(to - 1)) {
            proof {
                assert(s@.subrange(from as int, to as int).drop_last() =~= s@.subrange(
                    from as int,
                    to - 1,
                ));
            }
            to = to - 1;
        } else {
            scanning = false;
        }
    }
    s.substring_char(from, to).to_owned()
}

/// Splits a text into its words.
pub fn split_words(s: &str) -> (found: Vec<String>)
    ensures
        texts(found@) == words(s@),
{
    let n: usize = s.unicode_len();
    let mut found: Vec<String> = Vec::new();
    let mut current = String::new();
    let mut i: usize = 0;
    proof {
        assert(s@.skip(0) =~= s@);
        assert(texts(found@) =~= Seq::<Seq<char>>::empty());
    }
    while i < n
        invariant
            n == s@.len(),
            i <= n,
            words(s@) =~= texts(found@) + words_after(s@.skip(i as int), current@),
        decreases n - i,
    {
        let c = s.get_char(i);
        let ghost rest = s@.skip(i as int);
        let ghost done = texts(found@);
        let ghost word = current@;
        proof {
            assert(rest.drop_first() =~= s@.skip(i + 1));
            assert(rest[0] == c);
        }
        if char_is_whitespace(c) {
            if current.as_str().unicode_len() > 0 {
                proof {
                    lemma_texts_push(found@, current);
                    assert(words_after(rest, word) == seq![word] + words_after(
                        rest.drop_first(),
                        Seq::empty(),
                    ));
                    assert(done + (seq![word] + words_after(rest.drop_first(), Seq::empty()))
                        =~= done.push(word) + words_after(rest.drop_first(), Seq::empty()));
                }
                found.push(current);
                current = String::new();
            } else {
                proof {
                    assert(words_after(rest, word) == Seq::<Seq<char>>::empty() + words_after(
                        rest.drop_first(),
                        Seq::empty(),
                    ));
                    assert(word =~= Seq::<char>::empty());
                }
            }
        } else {
            proof {
                assert(words_after(rest, word) == words_after(rest.drop_first(), word.push(c)));
            }
            push_char(&mut current, c);
        }
        i = i + 1;
    }
    if current.as_str().unicode_len() > 0 {
        let ghost before = found@;
        proof {
            lemma_texts_push(before, current);
        }
        found.push(current);
    }
    found
}

/// Whether the path search has to be run, given what the registry printed.
pub fn needs_path_search(alternatives: &Option<String>) -> (needed: bool)
    ensures
        needed == registry_lists_nothing(text_view(*alternatives)),
{
    match alternatives {
        Some(listing) => {
            let inner = trim(listing.as_str());
            let listed = split_words(inner.as_str());
            assert(texts(listed@).len() == listed@.len());
            listed.len() == 0
        },
        None => true,
    }
}

/// The runtime candidates, from what the two probes printed.  `None` stands
/// for a probe that could not be run or whose output is no text.  The
/// registry is preferred; the path search counts only where the registry
/// lists nothing.
pub fn find_jre(alternatives: Option<String>, path_search: Option<String>) -> (found: Vec<String>)
    ensures
        texts(found@) == candidates(text_view(alternatives), text_view(path_search)),
        found@.len() == candidates(text_view(alternatives), text_view(path_search)).len(),
{
    if let Some(listing) = alternatives {
        let inner = trim(listing.as_str());
        let listed = split_words(inner.as_str());
        assert(texts(listed@).len() == listed@.len());
        if listed.len() > 0 {
            return listed;
        }
    }
    let mut found: Vec<String> = Vec::new();
    assert(texts(found@) =~= Seq::<Seq<char>>::empty());
    if let Some(output) = path_search {
        let only = trim(output.as_str());
        if only.as_str().unicode_len() > 0 {
            proof {
                lemma_texts_push(found@, only);
            }
            found.push(only);
        }
    }
    assert(texts(found@).len() == found@.len());
    found
}

} // verus!
