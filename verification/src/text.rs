//! Text helpers on Unicode scalar sequences: lower-casing, substring search
//! and whitespace word splitting.

use vstd::prelude::*;

verus! {

/// What `str::to_lowercase` returns for a text: its Unicode lower-case
/// mapping, which is per character except for a Greek capital sigma, whose
/// lower case depends on whether it ends a word.
pub uninterp spec fn unicode_lowercase(s: Seq<char>) -> Seq<char>;

/// Lower-case a text.
///
/// Trusted: calls `str::to_lowercase` from std. Claimed of it: the result is
/// a function of the text's characters alone (it depends on no locale).
#[verifier::external_body]
pub fn to_lowercase(s: &str) -> (r: String)
    ensures
        r@ == unicode_lowercase(s@),
{
    s.to_lowercase()
}

/// Whether `needle` occurs in `hay` as a contiguous run (the empty text
/// occurs everywhere).
pub open spec fn is_substring(needle: Seq<char>, hay: Seq<char>) -> bool {
    exists|i: int|
        0 <= i && i + needle.len() <= hay.len() && #[trigger] hay.subrange(i, i + needle.len())
            == needle
}

/// Unicode `White_Space` characters, as `char::is_whitespace` defines them.
pub open spec fn is_whitespace_char(c: char) -> bool {
    let u = c as u32;
    ||| (0x09 <= u && u <= 0x0d)
    ||| u == 0x20
    ||| u == 0x85
    ||| u == 0xa0
    ||| u == 0x1680
    ||| (0x2000 <= u && u <= 0x200a)
    ||| u == 0x2028
    ||| u == 0x2029
    ||| u == 0x202f
    ||| u == 0x205f
    ||| u == 0x3000
}

/// Whether a character is Unicode white space.
pub fn is_whitespace(c: char) -> (b: bool)
    ensures
        b == is_whitespace_char(c),
{
    let u = c as u32;
    (0x09 <= u && u <= 0x0d) || u == 0x20 || u == 0x85 || u == 0xa0 || u == 0x1680 || (0x2000
        <= u && u <= 0x200a) || u == 0x2028 || u == 0x2029 || u == 0x202f || u == 0x205f || u
        == 0x3000
}

/// The maximal runs of non-white-space characters of `s`, in order, as
/// `str::split_whitespace` yields them.
pub open spec fn split_words(s: Seq<char>) -> Seq<Seq<char>>
    decreases s.len(),
{
    if s.len() == 0 {
        seq![]
    } else {
        let prev = split_words(s.drop_last());
        let c = s.last();
        if is_whitespace_char(c) {
            prev
        } else if s.len() == 1 || is_whitespace_char(s[s.len() - 2]) {
            prev.push(seq![c])
        } else {
            prev.update(prev.len() - 1, prev.last().push(c))
        }
    }
}

/// The characters of a text.
pub fn chars_of(s: &str) -> (v: Vec<char>)
    ensures
        v@ == s@,
{
    let n = s.unicode_len();
    let mut v: Vec<char> = Vec::new();
    for i in 0..n
        invariant
            n == s@.len(),
            v@ =~= s@.take(i as int),
    {
        v.push(s.get_char(i));
    }
    v
}

/// Whether `needle` occurs in `hay`.
pub fn contains_str(hay: &str, needle: &str) -> (b: bool)
    ensures
        b == is_substring(needle@, hay@),
{
    let h = chars_of(hay);
    let n = chars_of(needle);
    if n.len() > h.len() {
        return false;
    }
    let hl = h.len();
    let nl = n.len();
    let last = hl - nl;
    let mut i: usize = 0;
    while i <= last
        invariant
            hl == h@.len(),
            nl == n@.len(),
            h@ == hay@,
            n@ == needle@,
            last == h@.len() - n@.len(),
            i <= last + 1,
            forall|k: int| 0 <= k < i ==> #[trigger] h@.subrange(k, k + n@.len()) != n@,
        decreases last + 1 - i,
    {
        let mut j: usize = 0;
        let mut same = true;
        while j < nl
            invariant
                hl == h@.len(),
                nl == n@.len(),
                h@ == hay@,
                n@ == needle@,
                last == h@.len() - n@.len(),
                i <= last,
                j <= n@.len(),
                same == (forall|t: int| 0 <= t < j ==> #[trigger] h@[i + t] == n@[t]),
            decreases n@.len() - j,
        {
            if h[i + j] != n[j] {
                same = false;
            }
            j = j + 1;
        }
        if same {
            assert forall|t: int| 0 <= t < n@.len() implies #[trigger] h@.subrange(
                i as int,
                i + n@.len(),
            )[t] == n@[t] by {
                assert(h@[i + t] == n@[t]);
            }
            assert(h@.subrange(i as int, i + n@.len()) =~= n@);
            return true;
        }
        proof {
            let k = choose|t: int| 0 <= t < n@.len() && h@[i + t] != n@[t];
            assert(h@.subrange(i as int, i + n@.len())[k] != n@[k]);
        }
        i = i + 1;
    }
    assert forall|k: int|
        0 <= k && k + needle@.len() <= hay@.len() implies #[trigger] hay@.subrange(
            k,
            k + needle@.len(),
        ) != needle@ by {
        assert(k < i);
    }
    false
}

/// The views of a sequence of strings.
pub open spec fn string_views(v: Seq<String>) -> Seq<Seq<char>> {
    v.map_values(|w: String| w@)
}

/// Split a text into its white-space separated words.
pub fn split_whitespace(s: &str) -> (words: Vec<String>)
    ensures
        string_views(words@) == split_words(s@),
{
    let c = chars_of(s);
    let n = c.len();
    let mut words: Vec<String> = Vec::new();
    let mut in_word = false;
    let mut start: usize = 0;
    for i in 0..n
        invariant
            n == c@.len(),
            c@ == s@,
            in_word ==> start < i && !is_whitespace_char(c@[i - 1]),
            !in_word ==> (i == 0 || is_whitespace_char(c@[i - 1])),
            string_views(words@) + (if in_word {
                seq![c@.subrange(start as int, i as int)]
            } else {
                Seq::<Seq<char>>::empty()
            }) == split_words(c@.take(i as int)),
    {
        let ch = c[i];
        let ghost prev_words = string_views(words@);
        assert(c@.take(i + 1).drop_last() =~= c@.take(i as int));
        assert(c@.take(i + 1).last() == ch);
        if is_whitespace(ch) {
            if in_word {
                let w = String::from_str(s.substring_char(start, i));
                words.push(w);
                assert(string_views(words@) =~= prev_words.push(c@.subrange(start as int, i as int)));
            }
            in_word = false;
        } else {
            if in_word {
                proof {
                    let p = split_words(c@.take(i as int));
                    assert(p =~= prev_words.push(c@.subrange(start as int, i as int)));
                    assert(c@.take(i + 1)[i - 1] == c@[i - 1]);
                    assert(p.last() == c@.subrange(start as int, i as int));
                    assert(c@.subrange(start as int, i as int).push(ch) =~= c@.subrange(
                        start as int,
                        i + 1,
                    ));
                    assert(p.update(p.len() - 1, p.last().push(ch)) =~= prev_words.push(
                        c@.subrange(start as int, i + 1),
                    ));
                }
            } else {
                proof {
                    if i > 0 {
                        assert(c@.take(i + 1)[i - 1] == c@[i - 1]);
                    }
                    assert(c@.subrange(i as int, i + 1) =~= seq![ch]);
                    assert(prev_words + Seq::<Seq<char>>::empty() =~= prev_words);
                }
                start = i;
                in_word = true;
            }
        }
    }
    assert(c@.take(n as int) =~= c@);
    if in_word {
        let ghost prev_words = string_views(words@);
        let w = String::from_str(s.substring_char(start, n));
        words.push(w);
        assert(string_views(words@) =~= prev_words.push(c@.subrange(start as int, n as int)));
    } else {
        assert(string_views(words@) + Seq::<Seq<char>>::empty() =~= string_views(words@));
    }
    words
}

} // verus!
