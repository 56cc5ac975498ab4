use vstd::prelude::*;

verus! {

/// Most characters of a message shown in a search result.
pub const PREVIEW_CHARS: usize = 200;

/// Page size of a conversation listing when the caller names none.
pub const DEFAULT_PAGE_SIZE: u32 = 50;

/// Largest page size of a conversation listing, whatever the caller asks.
pub const MAX_PAGE_SIZE: u32 = 200;

/// Most messages returned by a keyword search over conversations.
pub const MAX_MESSAGE_HITS: usize = 50;

/// Most conversations returned by a title search.
pub const MAX_TITLE_HITS: usize = 100;

/// Most notes returned by a keyword search over memory.
pub const MAX_MEMORY_HITS: usize = 10;

/// Most notes returned by a category filter.
pub const MAX_CATEGORY_HITS: usize = 50;

/// Importance of a note whose caller names none.
pub const DEFAULT_IMPORTANCE: i32 = 5;

/// The keywords that are not empty, in their order.
pub open spec fn nonempty_keywords(ks: Seq<String>) -> Seq<Seq<char>>
    decreases ks.len(),
{
    if ks.len() == 0 {
        Seq::empty()
    } else {
        let rest = nonempty_keywords(ks.drop_last());
        if ks.last()@.len() == 0 {
            rest
        } else {
            rest.push(ks.last()@)
        }
    }
}

pub open spec fn or_separator() -> Seq<char> {
    seq![' ', 'O', 'R', ' ']
}

/// Terms joined by the full-text operator `OR`.
pub open spec fn or_join(terms: Seq<Seq<char>>) -> Seq<char>
    decreases terms.len(),
{
    if terms.len() == 0 {
        Seq::empty()
    } else if terms.len() == 1 {
        terms[0]
    } else {
        or_join(terms.drop_last()) + or_separator() + terms.last()
    }
}

/// Every keyword is the empty string (true of an empty list).
pub open spec fn all_blank(ks: Seq<String>) -> bool {
    forall|i: int| 0 <= i < ks.len() ==> (#[trigger] ks[i])@.len() == 0
}

pub proof fn lemma_nonempty_keywords_empty(ks: Seq<String>)
    ensures
        nonempty_keywords(ks).len() == 0 <==> all_blank(ks),
    decreases ks.len(),
{
    if ks.len() > 0 {
        lemma_nonempty_keywords_empty(ks.drop_last());
        if all_blank(ks) {
            assert(ks.last() == ks[ks.len() - 1]);
            assert forall|i: int| 0 <= i < ks.drop_last().len() implies (
            #[trigger] ks.drop_last()[i])@.len() == 0 by {
                assert(ks.drop_last()[i] == ks[i]);
            }
        }
        if nonempty_keywords(ks).len() == 0 {
            assert forall|i: int| 0 <= i < ks.len() implies (#[trigger] ks[i])@.len() == 0 by {
                if i < ks.len() - 1 {
                    assert(ks.drop_last()[i] == ks[i]);
                }
            }
        }
    }
}

/// A search for one non-empty keyword hands the index that keyword itself,
/// so a note whose content holds it is searched for by exactly that term.
pub proof fn lemma_single_keyword_query(k: String)
    requires
        k@.len() > 0,
    ensures
        !all_blank(seq![k]),
        or_join(nonempty_keywords(seq![k])) == k@,
{
    let ks = seq![k];
    assert(ks.drop_last() =~= Seq::<String>::empty());
    assert(ks[0] == k && ks.last() == k);
    assert(nonempty_keywords(Seq::<String>::empty()) =~= Seq::<Seq<char>>::empty());
    assert(nonempty_keywords(ks) == nonempty_keywords(ks.drop_last()).push(k@));
    assert(nonempty_keywords(ks) =~= seq![k@]);
}

/// The full-text query that matches any of the non-empty keywords, or `None`
/// when there is none, in which case no query is to be run.
pub fn match_expression(keywords: &Vec<String>) -> (r: Option<String>)
    ensures
        r is None <==> all_blank(keywords@),
        r is None <==> nonempty_keywords(keywords@).len() == 0,
        r matches Some(q) ==> q@ == or_join(nonempty_keywords(keywords@)),
{
    let mut q = String::new();
    let mut any = false;
    let mut i: usize = 0;
    proof {
        reveal_strlit(" OR ");
        assert(keywords@.subrange(0, 0).len() == 0);
    }
    while i < keywords.len()
        invariant
            i <= keywords.len(),
            any == (nonempty_keywords(keywords@.subrange(0, i as int)).len() > 0),
            q@ == or_join(nonempty_keywords(keywords@.subrange(0, i as int))),
            " OR "@ == or_separator(),
        decreases keywords.len() - i,
    {
        let k = keywords[i].as_str();
        let ghost before = keywords@.subrange(0, i as int);
        let ghost after = keywords@.subrange(0, i + 1);
        assert(after.drop_last() == before);
        assert(after.last() == keywords@[i as int]);
        let ghost ne = nonempty_keywords(before);
        if k.unicode_len() > 0 {
            assert(nonempty_keywords(after) == ne.push(k@));
            assert(ne.push(k@).drop_last() == ne);
            if any {
                q.append(" OR ");
            } else {
                assert(q@ + k@ == k@);
            }
            q.append(k);
            any = true;
        }
        i += 1;
    }
    assert(keywords@.subrange(0, keywords@.len() as int) == keywords@);
    proof {
        lemma_nonempty_keywords_empty(keywords@);
    }
    if any {
        Some(q)
    } else {
        None
    }
}

/// The page size actually used for a requested one.
pub open spec fn page_limit_of(limit: Option<u32>) -> u32 {
    match limit {
        Some(n) => if n <= MAX_PAGE_SIZE { n } else { MAX_PAGE_SIZE },
        None => DEFAULT_PAGE_SIZE,
    }
}

/// The requested page size, 50 when absent, and never above 200.
pub fn page_limit(limit: Option<u32>) -> (r: u32)
    ensures
        r == page_limit_of(limit),
        r <= MAX_PAGE_SIZE,
{
    match limit {
        Some(n) => if n <= MAX_PAGE_SIZE { n } else { MAX_PAGE_SIZE },
        None => DEFAULT_PAGE_SIZE,
    }
}

/// The requested number of conversations to skip, 0 when absent.
pub fn page_offset(offset: Option<u32>) -> (r: u32)
    ensures
        r == match offset { Some(n) => n, None => 0u32 },
{
    match offset {
        Some(n) => n,
        None => 0,
    }
}

/// The first 200 characters of a text, or all of it when it is shorter.
pub open spec fn preview_of(s: Seq<char>) -> Seq<char> {
    if s.len() <= PREVIEW_CHARS {
        s
    } else {
        s.subrange(0, PREVIEW_CHARS as int)
    }
}

/// The first 200 characters of `content`.
pub fn preview(content: &str) -> (r: String)
    ensures
        r@ == preview_of(content@),
        r@.len() <= PREVIEW_CHARS,
{
    if content.unicode_len() <= PREVIEW_CHARS {
        String::from_str(content)
    } else {
        String::from_str(content.substring_char(0, PREVIEW_CHARS))
    }
}

/// The `LIKE` pattern that matches any title holding `q`.
pub open spec fn contains_pattern_of(q: Seq<char>) -> Seq<char> {
    seq!['%'] + q + seq!['%']
}

/// The `LIKE` pattern that matches any title holding `query`.
pub fn contains_pattern(query: &str) -> (r: String)
    ensures
        r@ == contains_pattern_of(query@),
{
    proof {
        reveal_strlit("%");
    }
    let mut p = String::from_str("%");
    p.append(query);
    p.append("%");
    p
}

/// The importance of a new note: the one given, else 5.
pub fn importance_or_default(importance: Option<i32>) -> (r: i32)
    ensures
        r == match importance { Some(n) => n, None => DEFAULT_IMPORTANCE },
{
    match importance {
        Some(n) => n,
        None => DEFAULT_IMPORTANCE,
    }
}

} // verus!
