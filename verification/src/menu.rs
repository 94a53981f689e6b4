use vstd::prelude::*;
use vstd::string::StrSliceExecFns;

use crate::text::{
    chars_of, is_ascii_alphanumeric, spec_ascii_lower, spec_is_ascii_alphanumeric, spec_is_ascii_uppercase,
    string_from_chars, to_ascii_lowercase,
};

verus! {

/// The Unicode lower-case mapping of a text, as `str::to_lowercase` gives it.
pub uninterp spec fn spec_to_lowercase(s: Seq<char>) -> Seq<char>;

/// `str::to_lowercase`: the text in lower case, by Unicode's mapping. The
/// contract names the result, `spec_to_lowercase` of the text's
/// characters, and says only that an empty text stays empty; what the
/// mapping gives on given characters is not stated.
#[verifier::external_body]
fn to_lowercase(s: &str) -> (r: String)
    ensures
        r@ == spec_to_lowercase(s@),
        s@.len() == 0 ==> r@.len() == 0,
{
    s.to_lowercase()
}

/// The matcher of an option's text: its ASCII letters and digits, in
/// order and in lower case.
pub open spec fn spec_build_matcher(s: Seq<char>) -> Seq<char>
    decreases s.len(),
{
    if s.len() == 0 {
        Seq::empty()
    } else {
        let rest = spec_build_matcher(s.drop_last());
        if spec_is_ascii_alphanumeric(s.last()) {
            rest.push(spec_ascii_lower(s.last()))
        } else {
            rest
        }
    }
}

/// The pieces of `s` between the characters that are not ASCII letters or
/// digits, empty pieces included: `n` separators give `n + 1` pieces.
pub open spec fn spec_split_query(s: Seq<char>) -> Seq<Seq<char>>
    decreases s.len(),
{
    if s.len() == 0 {
        seq![Seq::empty()]
    } else {
        let rest = spec_split_query(s.drop_last());
        if spec_is_ascii_alphanumeric(s.last()) {
            rest.update(rest.len() - 1, rest.last().push(s.last()))
        } else {
            rest.push(Seq::empty())
        }
    }
}

/// `needle` occurs in `hay` as a contiguous run.
pub open spec fn spec_contains(hay: Seq<char>, needle: Seq<char>) -> bool {
    exists|i: int|
        0 <= i && i + needle.len() <= hay.len() && #[trigger] hay.subrange(i, i + needle.len())
            == needle
}

/// Every part of the query occurs in the matcher.
pub open spec fn spec_matches(matcher: Seq<char>, parts: Seq<Seq<char>>) -> bool {
    forall|p: int| 0 <= p < parts.len() ==> spec_contains(matcher, #[trigger] parts[p])
}

/// The options among the first `n` whose matcher holds every part.
pub open spec fn spec_search_prefix<T>(
    options: Seq<T>,
    matchers: Seq<Seq<char>>,
    parts: Seq<Seq<char>>,
    n: int,
) -> Seq<T>
    decreases n,
{
    if n <= 0 {
        Seq::empty()
    } else {
        let rest = spec_search_prefix(options, matchers, parts, n - 1);
        if spec_matches(matchers[n - 1], parts) {
            rest.push(options[n - 1])
        } else {
            rest
        }
    }
}

/// The number of options that are paired with a matcher.
pub open spec fn spec_paired_len(options_len: nat, matchers_len: nat) -> int {
    if options_len < matchers_len {
        options_len as int
    } else {
        matchers_len as int
    }
}

/// The options, paired with their matchers as far as both go, whose matcher
/// holds every part of the query, the query being already in lower case.
pub open spec fn spec_search_lowered<T>(
    options: Seq<T>,
    matchers: Seq<Seq<char>>,
    lowered: Seq<char>,
) -> Seq<T> {
    spec_search_prefix(
        options,
        matchers,
        spec_split_query(lowered),
        spec_paired_len(options.len(), matchers.len()),
    )
}

/// The options, paired with their matchers as far as both go, whose matcher
/// holds every part of the lower-cased query.
pub open spec fn spec_search<T>(
    options: Seq<T>,
    matchers: Seq<Seq<char>>,
    query: Seq<char>,
) -> Seq<T> {
    spec_search_lowered(options, matchers, spec_to_lowercase(query))
}

/// The matcher of an option's text: its ASCII letters and digits, in
/// order and in lower case.
pub fn build_matcher(option: &str) -> (r: String)
    ensures
        r@ == spec_build_matcher(option@),
{
    let chars = chars_of(option);
    let mut kept: Vec<char> = Vec::new();
    let mut i: usize = 0;
    while i < chars.len()
        invariant
            i <= chars@.len(),
            chars@ == option@,
            kept@ == spec_build_matcher(chars@.subrange(0, i as int)),
        decreases chars@.len() - i,
    {
        let c = chars[i];
        assert(chars@.subrange(0, i + 1).drop_last() =~= chars@.subrange(0, i as int));
        if is_ascii_alphanumeric(c) {
            kept.push(to_ascii_lowercase(c));
        }
        i = i + 1;
    }
    assert(chars@.subrange(0, chars@.len() as int) =~= chars@);
    string_from_chars(&kept)
}

/// The matchers of all the options, in order.
pub fn build_matchers(options: &Vec<String>) -> (r: Vec<String>)
    ensures
        r@.len() == options@.len(),
        forall|i: int| 0 <= i < options@.len() ==> (#[trigger] r@[i])@ == spec_build_matcher(
            options@[i]@,
        ),
{
    let mut r: Vec<String> = Vec::new();
    let mut i: usize = 0;
    while i < options.len()
        invariant
            i <= options@.len(),
            r@.len() == i,
            forall|j: int| 0 <= j < i ==> (#[trigger] r@[j])@ == spec_build_matcher(options@[j]@),
        decreases options@.len() - i,
    {
        r.push(build_matcher(options[i].as_str()));
        i = i + 1;
    }
    r
}

proof fn lemma_split_query_nonempty(s: Seq<char>)
    ensures
        spec_split_query(s).len() >= 1,
    decreases s.len(),
{
    if s.len() > 0 {
        lemma_split_query_nonempty(s.drop_last());
    }
}

/// The pieces of `s` between its non-alphanumeric characters.
fn split_query(s: &Vec<char>) -> (r: Vec<Vec<char>>)
    ensures
        r@.len() == spec_split_query(s@).len(),
        forall|i: int| 0 <= i < r@.len() ==> (#[trigger] r@[i])@ == spec_split_query(s@)[i],
{
    let mut parts: Vec<Vec<char>> = Vec::new();
    let mut current: Vec<char> = Vec::new();
    let mut i: usize = 0;
    while i < s.len()
        invariant
            i <= s@.len(),
            spec_split_query(s@.subrange(0, i as int)).len() == parts@.len() + 1,
            forall|j: int|
                0 <= j < parts@.len() ==> (#[trigger] parts@[j])@ == spec_split_query(
                    s@.subrange(0, i as int),
                )[j],
            current@ == spec_split_query(s@.subrange(0, i as int)).last(),
        decreases s@.len() - i,
    {
        let c = s[i];
        assert(s@.subrange(0, i + 1).drop_last() =~= s@.subrange(0, i as int));
        proof {
            lemma_split_query_nonempty(s@.subrange(0, i as int));
        }
        if is_ascii_alphanumeric(c) {
            current.push(c);
        } else {
            let done = current;
            parts.push(done);
            current = Vec::new();
        }
        i = i + 1;
    }
    assert(s@.subrange(0, s@.len() as int) =~= s@);
    parts.push(current);
    parts
}

/// Whether `needle` occurs in `hay` as a contiguous run.
fn contains(hay: &Vec<char>, needle: &Vec<char>) -> (r: bool)
    ensures
        r == spec_contains(hay@, needle@),
{
    let n = hay.len();
    let m = needle.len();
    if m > n {
        assert forall|i: int| 0 <= i && i + m <= n implies #[trigger] hay@.subrange(i, i + m)
            != needle@ by {}
        return false;
    }
    let mut start: usize = 0;
    while start <= n - m
        invariant
            n == hay@.len(),
            m == needle@.len(),
            m <= n,
            start <= n - m + 1,
            forall|i: int| 0 <= i < start ==> #[trigger] hay@.subrange(i, i + m) != needle@,
        decreases n - m + 1 - start,
    {
        let mut k: usize = 0;
        let mut same = true;
        while k < m
            invariant
                n == hay@.len(),
                m == needle@.len(),
                start + m <= n,
                k <= m,
                same == (forall|j: int| 0 <= j < k ==> hay@[start + j] == needle@[j]),
            decreases m - k,
        {
            if hay[start + k] != needle[k] {
                same = false;
            }
            k = k + 1;
        }
        if same {
            assert(hay@.subrange(start as int, start + m) =~= needle@);
            return true;
        }
        assert(hay@.subrange(start as int, start + m)[0] == hay@[start as int]);
        assert(hay@.subrange(start as int, start + m) != needle@) by {
            if hay@.subrange(start as int, start + m) == needle@ {
                assert forall|j: int| 0 <= j < m implies hay@[start + j] == needle@[j] by {
                    assert(hay@.subrange(start as int, start + m)[j] == hay@[start + j]);
                }
            }
        }
        start = start + 1;
    }
    false
}

/// Whether every part occurs in the matcher.
fn matches(matcher: &Vec<char>, parts: &Vec<Vec<char>>) -> (r: bool)
    ensures
        r == spec_matches(matcher@, parts@.map_values(|p: Vec<char>| p@)),
{
    let ghost views = parts@.map_values(|p: Vec<char>| p@);
    let mut i: usize = 0;
    while i < parts.len()
        invariant
            i <= parts@.len(),
            views == parts@.map_values(|p: Vec<char>| p@),
            forall|p: int| 0 <= p < i ==> spec_contains(matcher@, #[trigger] views[p]),
        decreases parts@.len() - i,
    {
        if !contains(matcher, &parts[i]) {
            assert(!spec_contains(matcher@, views[i as int]));
            return false;
        }
        i = i + 1;
    }
    true
}

/// The options whose matcher holds every part of a query that is already
/// in lower case, the query being cut at every character that is not an
/// ASCII letter or digit. Options are paired with matchers by position, as
/// far as both lists go.
pub fn search_lowered<T: Copy>(options: &Vec<T>, option_matchers: &Vec<String>, lowered: &str) -> (r:
    Vec<T>)
    ensures
        r@ == spec_search_lowered(options@, option_matchers@.map_values(|m: String| m@), lowered@),
{
    let lowered_chars = chars_of(lowered);
    let parts = split_query(&lowered_chars);
    let ghost part_views = parts@.map_values(|p: Vec<char>| p@);
    assert(part_views =~= spec_split_query(lowered@));
    let ghost matcher_views = option_matchers@.map_values(|m: String| m@);
    let n = if options.len() < option_matchers.len() {
        options.len()
    } else {
        option_matchers.len()
    };
    let mut r: Vec<T> = Vec::new();
    let mut i: usize = 0;
    while i < n
        invariant
            i <= n,
            n <= options@.len(),
            n <= option_matchers@.len(),
            matcher_views == option_matchers@.map_values(|m: String| m@),
            part_views == parts@.map_values(|p: Vec<char>| p@),
            r@ == spec_search_prefix(options@, matcher_views, part_views, i as int),
        decreases n - i,
    {
        let matcher = chars_of(option_matchers[i].as_str());
        if matches(&matcher, &parts) {
            r.push(options[i]);
        }
        i = i + 1;
    }
    r
}

/// The options whose matcher holds every part of the query, where the
/// query is lower-cased and cut at every character that is not an ASCII
/// letter or digit. Options are paired with matchers by position, as far
/// as both lists go.
pub fn search<T: Copy>(options: &Vec<T>, option_matchers: &Vec<String>, query: &str) -> (r: Vec<T>)
    ensures
        r@ == spec_search(options@, option_matchers@.map_values(|m: String| m@), query@),
        query@.len() == 0 ==> r@ == options@.take(
            spec_paired_len(options@.len(), option_matchers@.len()),
        ),
{
    let lowered = to_lowercase(query);
    proof {
        if query@.len() == 0 {
            assert(lowered@ =~= Seq::<char>::empty());
            lemma_empty_query_keeps_all(options@, option_matchers@.map_values(|m: String| m@));
        }
    }
    search_lowered(options, option_matchers, lowered.as_str())
}

} // verus!

verus! {

/// A character a matcher may hold: a lower-case ASCII letter or a digit.
pub open spec fn spec_is_matcher_char(c: char) -> bool {
    ('a' <= c && c <= 'z') || ('0' <= c && c <= '9')
}

/// Every character of a matcher is a lower-case ASCII letter or a digit.
pub proof fn lemma_matcher_chars(s: Seq<char>)
    ensures
        forall|k: int|
            0 <= k < spec_build_matcher(s).len() ==> spec_is_matcher_char(
                #[trigger] spec_build_matcher(s)[k],
            ),
    decreases s.len(),
{
    if s.len() > 0 {
        lemma_matcher_chars(s.drop_last());
        let c = s.last();
        let rest = spec_build_matcher(s.drop_last());
        if spec_is_ascii_alphanumeric(c) {
            let l = spec_ascii_lower(c);
            assert(spec_is_matcher_char(l)) by {
                if spec_is_ascii_uppercase(c) {
                    assert(('A' as u32) + 32 <= (c as u32) + 32 <= ('Z' as u32) + 32);
                    assert(l == ((c as u32) + 32) as char);
                    assert('a' <= l <= 'z');
                }
            }
            assert forall|k: int| 0 <= k < rest.push(l).len() implies spec_is_matcher_char(
                #[trigger] rest.push(l)[k],
            ) by {
                if k < rest.len() {
                    assert(rest.push(l)[k] == rest[k]);
                }
            }
        }
    }
}

/// A text made of matcher characters is its own matcher.
pub proof fn lemma_matcher_text_is_its_matcher(m: Seq<char>)
    requires
        forall|k: int| 0 <= k < m.len() ==> spec_is_matcher_char(#[trigger] m[k]),
    ensures
        spec_build_matcher(m) == m,
    decreases m.len(),
{
    if m.len() > 0 {
        let prefix = m.drop_last();
        assert forall|k: int| 0 <= k < prefix.len() implies spec_is_matcher_char(
            #[trigger] prefix[k],
        ) by {
            assert(prefix[k] == m[k]);
        }
        lemma_matcher_text_is_its_matcher(prefix);
        assert(spec_is_matcher_char(m.last()));
        assert(prefix.push(m.last()) =~= m);
    }
}

/// Building the matcher of a matcher gives that matcher back.
pub proof fn lemma_matcher_is_fixed_point(s: Seq<char>)
    ensures
        spec_build_matcher(spec_build_matcher(s)) == spec_build_matcher(s),
{
    lemma_matcher_chars(s);
    lemma_matcher_text_is_its_matcher(spec_build_matcher(s));
}

proof fn lemma_split_alphanumeric(m: Seq<char>)
    requires
        forall|k: int| 0 <= k < m.len() ==> spec_is_ascii_alphanumeric(#[trigger] m[k]),
    ensures
        spec_split_query(m) == seq![m],
    decreases m.len(),
{
    if m.len() > 0 {
        let prefix = m.drop_last();
        assert forall|k: int| 0 <= k < prefix.len() implies spec_is_ascii_alphanumeric(
            #[trigger] prefix[k],
        ) by {
            assert(prefix[k] == m[k]);
        }
        lemma_split_alphanumeric(prefix);
        assert(spec_is_ascii_alphanumeric(m.last()));
        assert(prefix.push(m.last()) =~= m);
        assert(seq![prefix].update(0, prefix.push(m.last())) =~= seq![m]);
    } else {
        assert(m =~= Seq::<char>::empty());
    }
}

proof fn lemma_prefix_keeps_match<T>(
    options: Seq<T>,
    matchers: Seq<Seq<char>>,
    parts: Seq<Seq<char>>,
    n: int,
    i: int,
)
    requires
        0 <= i < n,
        spec_matches(matchers[i], parts),
    ensures
        spec_search_prefix(options, matchers, parts, n).contains(options[i]),
    decreases n,
{
    let rest = spec_search_prefix(options, matchers, parts, n - 1);
    if i == n - 1 {
        assert(rest.push(options[i])[rest.len() as int] == options[i]);
    } else {
        lemma_prefix_keeps_match(options, matchers, parts, n - 1, i);
        let k = choose|k: int| 0 <= k < rest.len() && rest[k] == options[i];
        if spec_matches(matchers[n - 1], parts) {
            assert(rest.push(options[n - 1])[k] == options[i]);
        }
    }
}

proof fn lemma_prefix_all<T>(options: Seq<T>, matchers: Seq<Seq<char>>, n: int)
    requires
        0 <= n <= options.len(),
    ensures
        spec_search_prefix(options, matchers, seq![Seq::<char>::empty()], n) == options.take(n),
    decreases n,
{
    if n > 0 {
        lemma_prefix_all(options, matchers, n - 1);
        let parts = seq![Seq::<char>::empty()];
        assert(spec_contains(matchers[n - 1], parts[0])) by {
            assert(matchers[n - 1].subrange(0, 0int + parts[0].len()) =~= parts[0]);
        }
        assert(spec_matches(matchers[n - 1], parts));
        assert(options.take(n - 1).push(options[n - 1]) =~= options.take(n));
    } else {
        assert(options.take(0) =~= Seq::<T>::empty());
    }
}

/// An empty query keeps every option that has a matcher, in order.
pub proof fn lemma_empty_query_keeps_all<T>(options: Seq<T>, matchers: Seq<Seq<char>>)
    ensures
        spec_search_lowered(options, matchers, Seq::empty()) == options.take(
            spec_paired_len(options.len(), matchers.len()),
        ),
{
    lemma_prefix_all(options, matchers, spec_paired_len(options.len(), matchers.len()));
}

/// Searching with the matcher of an option's text finds that option.
pub proof fn lemma_option_found_by_its_matcher<T>(
    options: Seq<T>,
    matchers: Seq<Seq<char>>,
    text: Seq<char>,
    i: int,
)
    requires
        0 <= i < spec_paired_len(options.len(), matchers.len()),
        matchers[i] == spec_build_matcher(text),
    ensures
        spec_search_lowered(options, matchers, spec_build_matcher(text)).contains(options[i]),
{
    let m = spec_build_matcher(text);
    lemma_matcher_chars(text);
    assert forall|k: int| 0 <= k < m.len() implies spec_is_ascii_alphanumeric(#[trigger] m[k]) by {
        assert(spec_is_matcher_char(m[k]));
    }
    lemma_split_alphanumeric(m);
    assert(spec_contains(m, m)) by {
        assert(m.subrange(0, 0int + m.len()) =~= m);
    }
    assert(spec_matches(matchers[i], spec_split_query(m)));
    lemma_prefix_keeps_match(
        options,
        matchers,
        spec_split_query(m),
        spec_paired_len(options.len(), matchers.len()),
        i,
    );
}

} // verus!

verus! {

/// `a` is a subsequence of `b`: `b` with some of its items left out.
pub open spec fn spec_is_subsequence<T>(a: Seq<T>, b: Seq<T>) -> bool
    decreases b.len(),
{
    if a.len() == 0 {
        true
    } else if b.len() == 0 {
        false
    } else if a.last() == b.last() {
        spec_is_subsequence(a.drop_last(), b.drop_last())
    } else {
        spec_is_subsequence(a, b.drop_last())
    }
}

proof fn lemma_subsequence_push<T>(a: Seq<T>, b: Seq<T>, x: T)
    requires
        spec_is_subsequence(a, b),
    ensures
        spec_is_subsequence(a, b.push(x)),
    decreases b.len(), 1int,
{
    assert(b.push(x).drop_last() =~= b);
    if a.len() > 0 && a.last() == x {
        lemma_subsequence_drop_last(a, b);
    }
}

proof fn lemma_subsequence_drop_last<T>(a: Seq<T>, b: Seq<T>)
    requires
        spec_is_subsequence(a, b),
        a.len() > 0,
    ensures
        spec_is_subsequence(a.drop_last(), b),
    decreases b.len(), 0int,
{
    if a.drop_last().len() > 0 {
        let bl = b.drop_last();
        assert(bl.push(b.last()) =~= b);
        if a.last() == b.last() {
            lemma_subsequence_push(a.drop_last(), bl, b.last());
        } else {
            lemma_subsequence_drop_last(a, bl);
            lemma_subsequence_push(a.drop_last(), bl, b.last());
        }
    }
}

proof fn lemma_split_space_concat(s1: Seq<char>, s2: Seq<char>)
    ensures
        spec_split_query(s1 + seq![' '] + s2) == spec_split_query(s1) + spec_split_query(s2),
    decreases s2.len(),
{
    let s = s1 + seq![' '] + s2;
    if s2.len() == 0 {
        assert(s.drop_last() =~= s1);
        assert(spec_split_query(s1).push(Seq::empty()) =~= spec_split_query(s1) + seq![
            Seq::<char>::empty(),
        ]);
    } else {
        let prev = s2.drop_last();
        let c = s2.last();
        assert(s.drop_last() =~= s1 + seq![' '] + prev);
        assert(s.last() == c);
        lemma_split_space_concat(s1, prev);
        lemma_split_query_nonempty(prev);
        let a = spec_split_query(s1);
        let b = spec_split_query(prev);
        if spec_is_ascii_alphanumeric(c) {
            assert((a + b).update((a + b).len() - 1, (a + b).last().push(c)) =~= a + b.update(
                b.len() - 1,
                b.last().push(c),
            ));
        } else {
            assert((a + b).push(Seq::empty()) =~= a + b.push(Seq::empty()));
        }
    }
}

proof fn lemma_matches_front_parts(m: Seq<char>, p1: Seq<Seq<char>>, p2: Seq<Seq<char>>)
    requires
        spec_matches(m, p1 + p2),
    ensures
        spec_matches(m, p1),
{
    assert forall|p: int| 0 <= p < p1.len() implies spec_contains(m, #[trigger] p1[p]) by {
        assert((p1 + p2)[p] == p1[p]);
    }
}

proof fn lemma_prefix_subsequence<T>(
    options: Seq<T>,
    matchers: Seq<Seq<char>>,
    narrow: Seq<Seq<char>>,
    wide: Seq<Seq<char>>,
    n: int,
)
    requires
        forall|k: int|
            0 <= k < n && spec_matches(matchers[k], narrow) ==> spec_matches(
                #[trigger] matchers[k],
                wide,
            ),
    ensures
        spec_is_subsequence(
            spec_search_prefix(options, matchers, narrow, n),
            spec_search_prefix(options, matchers, wide, n),
        ),
    decreases n,
{
    if n > 0 {
        lemma_prefix_subsequence(options, matchers, narrow, wide, n - 1);
        let a = spec_search_prefix(options, matchers, narrow, n - 1);
        let b = spec_search_prefix(options, matchers, wide, n - 1);
        let x = options[n - 1];
        if spec_matches(matchers[n - 1], narrow) {
            assert(a.push(x).drop_last() =~= a);
            assert(b.push(x).drop_last() =~= b);
        } else if spec_matches(matchers[n - 1], wide) {
            lemma_subsequence_push(a, b, x);
        }
    }
}

/// Adding a word to a query (after a space) only filters the results
/// further: what the longer query finds is a subsequence of what the
/// shorter one finds.
pub proof fn lemma_extra_word_filters<T>(
    options: Seq<T>,
    matchers: Seq<Seq<char>>,
    query: Seq<char>,
    word: Seq<char>,
)
    ensures
        spec_is_subsequence(
            spec_search_lowered(options, matchers, query + seq![' '] + word),
            spec_search_lowered(options, matchers, query),
        ),
{
    let narrow = spec_split_query(query + seq![' '] + word);
    let wide = spec_split_query(query);
    lemma_split_space_concat(query, word);
    assert forall|k: int|
        0 <= k < spec_paired_len(options.len(), matchers.len()) && spec_matches(
            matchers[k],
            narrow,
        ) implies spec_matches(#[trigger] matchers[k], wide) by {
        lemma_matches_front_parts(matchers[k], wide, spec_split_query(word));
    }
    lemma_prefix_subsequence(
        options,
        matchers,
        narrow,
        wide,
        spec_paired_len(options.len(), matchers.len()),
    );
}

} // verus!

verus! {

/// Adding a word to a query only filters the results of `search` further,
/// wherever lower-casing the longer query gives the lower-cased query, a
/// space and the lower-cased word.
pub proof fn lemma_extra_word_filters_search<T>(
    options: Seq<T>,
    matchers: Seq<Seq<char>>,
    query: Seq<char>,
    longer: Seq<char>,
    word: Seq<char>,
)
    ensures
        spec_to_lowercase(longer) == spec_to_lowercase(query) + seq![' '] + word
            ==> spec_is_subsequence(
            spec_search(options, matchers, longer),
            spec_search(options, matchers, query),
        ),
{
    lemma_extra_word_filters(options, matchers, spec_to_lowercase(query), word);
}

} // verus!
