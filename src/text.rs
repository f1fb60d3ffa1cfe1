//! Character-level helpers: the whitespace class of `char::is_whitespace`,
//! trimming, and scanning for a character.
use vstd::prelude::*;
use vstd::string::*;

verus! {

/// The Unicode `White_Space` property, which `char::is_whitespace` and
/// `str::trim` go by.
pub open spec fn is_white(c: char) -> bool {
    ||| ('\t' <= c && c <= '\r')
    ||| c == ' '
    ||| c == '\u{85}'
    ||| c == '\u{a0}'
    ||| c == '\u{1680}'
    ||| ('\u{2000}' <= c && c <= '\u{200a}')
    ||| c == '\u{2028}'
    ||| c == '\u{2029}'
    ||| c == '\u{202f}'
    ||| c == '\u{205f}'
    ||| c == '\u{3000}'
}

/// Which characters a strip removes from both ends of a piece of text.
#[derive(Clone, Copy, Debug, PartialEq, Eq, Structural)]
pub enum Strip {
    /// Whitespace, as `str::trim` does.
    Whitespace,
    /// The double quote, as `str::trim_matches('"')` does.
    Quote,
}

pub open spec fn stripped_by(c: char, strip: Strip) -> bool {
    match strip {
        Strip::Whitespace => is_white(c),
        Strip::Quote => c == '"',
    }
}

/// `s` without the leading characters of the class.
pub open spec fn strip_start(s: Seq<char>, strip: Strip) -> Seq<char>
    decreases s.len(),
{
    if s.len() > 0 && stripped_by(s[0], strip) {
        strip_start(s.drop_first(), strip)
    } else {
        s
    }
}

/// `s` without the trailing characters of the class.
pub open spec fn strip_end(s: Seq<char>, strip: Strip) -> Seq<char>
    decreases s.len(),
{
    if s.len() > 0 && stripped_by(s.last(), strip) {
        strip_end(s.drop_last(), strip)
    } else {
        s
    }
}

/// `s` without the characters of the class at either end.
pub open spec fn strip_both(s: Seq<char>, strip: Strip) -> Seq<char> {
    strip_end(strip_start(s, strip), strip)
}

/// `str::trim`.
pub open spec fn trim(s: Seq<char>) -> Seq<char> {
    strip_both(s, Strip::Whitespace)
}

/// `str::trim_matches('"')`.
pub open spec fn unquote(s: Seq<char>) -> Seq<char> {
    strip_both(s, Strip::Quote)
}

/// Whether every character of `s` belongs to the class.
pub open spec fn all_stripped(s: Seq<char>, strip: Strip) -> bool {
    forall|k: int| 0 <= k < s.len() ==> stripped_by(#[trigger] s[k], strip)
}

/// A prefix made only of the class goes in the strip at the start.
pub proof fn lemma_strip_start_prefix(w: Seq<char>, s: Seq<char>, strip: Strip)
    requires
        all_stripped(w, strip),
    ensures
        strip_start(w + s, strip) == strip_start(s, strip),
    decreases w.len(),
{
    if w.len() == 0 {
        assert(w + s =~= s);
    } else {
        assert((w + s)[0] == w[0]);
        assert((w + s).drop_first() =~= w.drop_first() + s);
        assert(all_stripped(w.drop_first(), strip)) by {
            assert forall|k: int| 0 <= k < w.drop_first().len() implies stripped_by(
                #[trigger] w.drop_first()[k],
                strip,
            ) by {
                assert(w.drop_first()[k] == w[k + 1]);
            }
        }
        lemma_strip_start_prefix(w.drop_first(), s, strip);
    }
}

/// A suffix made only of the class goes in the strip at the end.
pub proof fn lemma_strip_end_suffix(s: Seq<char>, w: Seq<char>, strip: Strip)
    requires
        all_stripped(w, strip),
    ensures
        strip_end(s + w, strip) == strip_end(s, strip),
    decreases w.len(),
{
    if w.len() == 0 {
        assert(s + w =~= s);
    } else {
        assert((s + w).last() == w.last());
        assert((s + w).drop_last() =~= s + w.drop_last());
        assert(all_stripped(w.drop_last(), strip)) by {
            assert forall|k: int| 0 <= k < w.drop_last().len() implies stripped_by(
                #[trigger] w.drop_last()[k],
                strip,
            ) by {
                assert(w.drop_last()[k] == w[k]);
            }
        }
        lemma_strip_end_suffix(s, w.drop_last(), strip);
    }
}

/// The first position at or after `from` that holds `c`, or the length of
/// `s` when there is none.
pub open spec fn index_of(s: Seq<char>, c: char, from: int) -> int
    decreases s.len() - from,
{
    if from < 0 || from >= s.len() {
        s.len() as int
    } else if s[from] == c {
        from
    } else {
        index_of(s, c, from + 1)
    }
}

pub proof fn lemma_index_of_bounds(s: Seq<char>, c: char, from: int)
    requires
        0 <= from <= s.len(),
    ensures
        from <= index_of(s, c, from) <= s.len(),
        index_of(s, c, from) < s.len() ==> s[index_of(s, c, from)] == c,
        forall|k: int| from <= k < index_of(s, c, from) ==> s[k] != c,
    decreases s.len() - from,
{
    if from < s.len() && s[from] != c {
        lemma_index_of_bounds(s, c, from + 1);
    }
}

/// Whether `c` belongs to the class (exec counterpart of `stripped_by`).
pub fn is_stripped(c: char, strip: Strip) -> (r: bool)
    ensures
        r == stripped_by(c, strip),
{
    match strip {
        Strip::Whitespace => {
            ('\t' <= c && c <= '\r') || c == ' ' || c == '\u{85}' || c == '\u{a0}'
                || c == '\u{1680}' || ('\u{2000}' <= c && c <= '\u{200a}') || c == '\u{2028}'
                || c == '\u{2029}' || c == '\u{202f}' || c == '\u{205f}' || c == '\u{3000}'
        },
        Strip::Quote => c == '"',
    }
}

/// Narrows the range `lo..hi` of `chars` to what a strip of the class keeps.
pub fn strip_range(chars: &Vec<char>, lo: usize, hi: usize, strip: Strip) -> (r: (usize, usize))
    requires
        lo <= hi <= chars@.len(),
    ensures
        lo <= r.0 <= r.1 <= hi,
        chars@.subrange(r.0 as int, r.1 as int) == strip_both(
            chars@.subrange(lo as int, hi as int),
            strip,
        ),
{
    let mut a: usize = lo;
    while a < hi && is_stripped(chars[a], strip)
        invariant
            lo <= a <= hi <= chars@.len(),
            strip_start(chars@.subrange(lo as int, hi as int), strip) == strip_start(
                chars@.subrange(a as int, hi as int),
                strip,
            ),
        decreases hi - a,
    {
        assert(chars@.subrange(a as int, hi as int).drop_first() =~= chars@.subrange(
            a + 1,
            hi as int,
        ));
        a = a + 1;
    }
    let mut b: usize = hi;
    while b > a && is_stripped(chars[b - 1], strip)
        invariant
            lo <= a <= b <= hi <= chars@.len(),
            strip_end(chars@.subrange(a as int, hi as int), strip) == strip_end(
                chars@.subrange(a as int, b as int),
                strip,
            ),
        decreases b - a,
    {
        assert(chars@.subrange(a as int, b as int).drop_last() =~= chars@.subrange(
            a as int,
            b - 1,
        ));
        b = b - 1;
    }
    (a, b)
}

/// The first position at or after `from` that holds `c`, or the length.
pub fn find_char(chars: &Vec<char>, c: char, from: usize) -> (r: usize)
    requires
        from <= chars@.len(),
    ensures
        r == index_of(chars@, c, from as int),
{
    let mut i: usize = from;
    while i < chars.len() && chars[i] != c
        invariant
            from <= i <= chars@.len(),
            index_of(chars@, c, from as int) == index_of(chars@, c, i as int),
        decreases chars@.len() - i,
    {
        i = i + 1;
    }
    i
}

/// The characters of `s`, in order.
pub fn chars_of(s: &str) -> (r: Vec<char>)
    ensures
        r@ == s@,
{
    let n = s.unicode_len();
    let mut out: Vec<char> = Vec::new();
    let mut i: usize = 0;
    while i < n
        invariant
            n == s@.len(),
            i <= n,
            out@ == s@.subrange(0, i as int),
        decreases n - i,
    {
        out.push(s.get_char(i));
        i = i + 1;
    }
    assert(out@ =~= s@);
    out
}

/// The characters of `s` in `from..to`, as a new `String`.
pub fn substring(s: &str, from: usize, to: usize) -> (r: String)
    requires
        from <= to <= s@.len(),
    ensures
        r@ == s@.subrange(from as int, to as int),
{
    String::from_str(s.substring_char(from, to))
}

} // verus!
