//! Text helpers shared by the settings reader: trimming, comparing,
//! lower-casing and splitting of user input and environment values.
use vstd::prelude::*;
use vstd::string::*;

verus! {

/// Whether `c` has the Unicode `White_Space` property: the controls
/// U+0009 to U+000D, U+0020, U+0085, U+00A0, U+1680, U+2000 to U+200A,
/// U+2028, U+2029, U+202F, U+205F and U+3000.
pub open spec fn is_white_space(c: char) -> bool {
    let u = c as int;
    ||| 0x09 <= u <= 0x0d
    ||| u == 0x20
    ||| u == 0x85
    ||| u == 0xa0
    ||| u == 0x1680
    ||| 0x2000 <= u <= 0x200a
    ||| u == 0x2028
    ||| u == 0x2029
    ||| u == 0x202f
    ||| u == 0x205f
    ||| u == 0x3000
}

/// Calls `char::is_whitespace`, which holds of exactly the characters that
/// have the Unicode `White_Space` property; the contract lists them.
#[verifier::external_body]
pub(crate) fn char_is_whitespace(c: char) -> (r: bool)
    ensures
        r == is_white_space(c),
{
    c.is_whitespace()
}

/// `s` without its leading white space.
pub open spec fn trim_start_spec(s: Seq<char>) -> Seq<char>
    decreases s.len(),
{
    if s.len() > 0 && is_white_space(s[0]) {
        trim_start_spec(s.drop_first())
    } else {
        s
    }
}

/// `s` without its trailing white space.
pub open spec fn trim_end_spec(s: Seq<char>) -> Seq<char>
    decreases s.len(),
{
    if s.len() > 0 && is_white_space(s.last()) {
        trim_end_spec(s.drop_last())
    } else {
        s
    }
}

/// `s` without leading and trailing white space, as `str::trim` gives it.
pub open spec fn trimmed(s: Seq<char>) -> Seq<char> {
    trim_end_spec(trim_start_spec(s))
}

/// The pieces of `s` between occurrences of `sep`, as `str::split` with a
/// one-character pattern yields them: one piece more than there are
/// separators, empty pieces included.
pub open spec fn split_on(s: Seq<char>, sep: char) -> Seq<Seq<char>>
    decreases s.len(),
{
    if s.len() == 0 {
        seq![Seq::<char>::empty()]
    } else {
        let prev = split_on(s.drop_last(), sep);
        if s.last() == sep {
            prev.push(Seq::<char>::empty())
        } else {
            prev.update(prev.len() - 1, prev.last().push(s.last()))
        }
    }
}

/// The value `str::parse::<bool>` gives: only `"true"` and `"false"` parse.
pub open spec fn parse_bool_spec(s: Seq<char>) -> Option<bool> {
    if s == "true"@ {
        Some(true)
    } else if s == "false"@ {
        Some(false)
    } else {
        None
    }
}

/// Removes leading and trailing white space, as `str::trim` does.
pub fn trim(s: &str) -> (r: String)
    ensures
        r@ == trimmed(s@),
{
    let n = s.unicode_len();
    let mut i: usize = 0;
    assert(s@.subrange(0, n as int) =~= s@);
    while i < n && char_is_whitespace(s.get_char(i))
        invariant
            n == s@.len(),
            i <= n,
            trim_start_spec(s@) == trim_start_spec(s@.subrange(i as int, n as int)),
        decreases n - i,
    {
        assert(s@.subrange(i as int, n as int).drop_first() =~= s@.subrange(i + 1, n as int));
        i = i + 1;
    }
    assert(trim_start_spec(s@) == s@.subrange(i as int, n as int));
    let mut j: usize = n;
    while j > i && char_is_whitespace(s.get_char(j - 1))
        invariant
            n == s@.len(),
            i <= j <= n,
            trim_end_spec(s@.subrange(i as int, n as int)) == trim_end_spec(
                s@.subrange(i as int, j as int),
            ),
        decreases j - i,
    {
        assert(s@.subrange(i as int, j as int).drop_last() =~= s@.subrange(i as int, j - 1));
        j = j - 1;
    }
    s.substring_char(i, j).to_owned()
}

/// Whether two strings hold the same characters.
pub fn str_eq(a: &str, b: &str) -> (r: bool)
    ensures
        r == (a@ == b@),
{
    a.to_owned() == b.to_owned()
}

/// Parses `"true"` or `"false"`, as `str::parse::<bool>` does.
pub fn parse_bool(s: &str) -> (r: Option<bool>)
    ensures
        r == parse_bool_spec(s@),
{
    if str_eq(s, "true") {
        Some(true)
    } else if str_eq(s, "false") {
        Some(false)
    } else {
        None
    }
}

/// Splitting yields at least one piece, even of an empty text.
pub proof fn lemma_split_on_nonempty(s: Seq<char>, sep: char)
    ensures
        split_on(s, sep).len() >= 1,
    decreases s.len(),
{
    if s.len() > 0 {
        lemma_split_on_nonempty(s.drop_last(), sep);
    }
}

/// Splits `s` at each `','` and trims every piece, as
/// `s.split(",").map(|p| p.trim().to_string())` does.
pub fn split_trimmed(s: &str) -> (r: Vec<String>)
    ensures
        r.deep_view() == split_on(s@, ',').map_values(|p: Seq<char>| trimmed(p)),
{
    let n = s.unicode_len();
    let mut pieces: Vec<String> = Vec::new();
    let ghost mut raw: Seq<Seq<char>> = Seq::empty();
    let mut start: usize = 0;
    let mut i: usize = 0;
    proof {
        assert(s@.take(0) =~= Seq::<char>::empty());
    }
    while i < n
        invariant
            n == s@.len(),
            start <= i <= n,
            split_on(s@.take(i as int), ',') == raw.push(s@.subrange(start as int, i as int)),
            pieces.deep_view() == raw.map_values(|p: Seq<char>| trimmed(p)),
        decreases n - i,
    {
        let c = s.get_char(i);
        proof {
            lemma_split_on_nonempty(s@.take(i as int), ',');
            assert(s@.take(i + 1).drop_last() =~= s@.take(i as int));
            assert(s@.take(i + 1).last() == c);
        }
        if c == ',' {
            let piece = trim(s.substring_char(start, i));
            let ghost before = pieces.deep_view();
            pieces.push(piece);
            proof {
                assert(pieces.deep_view() =~= before.push(piece@));
                assert(raw.push(s@.subrange(start as int, i as int)).map_values(
                    |p: Seq<char>| trimmed(p),
                ) =~= raw.map_values(|p: Seq<char>| trimmed(p)).push(
                    trimmed(s@.subrange(start as int, i as int)),
                ));
                raw = raw.push(s@.subrange(start as int, i as int));
                assert(s@.subrange(i + 1, i + 1) =~= Seq::<char>::empty());
                assert(pieces.deep_view() =~= raw.map_values(|p: Seq<char>| trimmed(p)));
            }
            start = i + 1;
        } else {
            proof {
                assert(s@.subrange(start as int, i as int).push(c) =~= s@.subrange(
                    start as int,
                    i + 1,
                ));
                let prev = raw.push(s@.subrange(start as int, i as int));
                assert(prev.update(prev.len() - 1, prev.last().push(c)) =~= raw.push(
                    s@.subrange(start as int, i + 1),
                ));
            }
        }
        i = i + 1;
    }
    let last = trim(s.substring_char(start, n));
    let ghost before = pieces.deep_view();
    pieces.push(last);
    proof {
        assert(s@.take(n as int) =~= s@);
        assert(pieces.deep_view() =~= before.push(last@));
        let full = raw.push(s@.subrange(start as int, n as int));
        assert(full.map_values(|p: Seq<char>| trimmed(p)) =~= raw.map_values(
            |p: Seq<char>| trimmed(p),
        ).push(trimmed(s@.subrange(start as int, n as int))));
        assert(pieces.deep_view() =~= full.map_values(|p: Seq<char>| trimmed(p)));
    }
    pieces
}

} // verus!

verus! {

/// The pieces joined again, with `sep` between each two.
pub open spec fn join_with(pieces: Seq<Seq<char>>, sep: char) -> Seq<char>
    decreases pieces.len(),
{
    if pieces.len() == 0 {
        Seq::empty()
    } else if pieces.len() == 1 {
        pieces[0]
    } else {
        join_with(pieces.drop_last(), sep) + seq![sep] + pieces.last()
    }
}

/// Splitting at a separator loses nothing: joining the pieces again with the
/// separator gives back the text, and no piece holds the separator.
pub proof fn lemma_split_join(s: Seq<char>, sep: char)
    ensures
        join_with(split_on(s, sep), sep) == s,
        forall|i: int|
            0 <= i < split_on(s, sep).len() ==> !(#[trigger] split_on(s, sep)[i]).contains(sep),
    decreases s.len(),
{
    lemma_split_on_nonempty(s, sep);
    if s.len() == 0 {
        assert(split_on(s, sep)[0] =~= Seq::<char>::empty());
        assert(join_with(split_on(s, sep), sep) =~= s);
    } else {
        let prev = split_on(s.drop_last(), sep);
        lemma_split_join(s.drop_last(), sep);
        lemma_split_on_nonempty(s.drop_last(), sep);
        let c = s.last();
        if c == sep {
            let now = prev.push(Seq::<char>::empty());
            assert(now.drop_last() =~= prev);
            assert(join_with(now, sep) == join_with(prev, sep) + seq![sep] + Seq::<char>::empty());
            assert(join_with(now, sep) =~= s);
            assert forall|i: int| 0 <= i < now.len() implies !(#[trigger] now[i]).contains(sep) by {
                if i < prev.len() {
                    assert(now[i] == prev[i]);
                }
            }
        } else {
            let last = prev.last();
            let now = prev.update(prev.len() - 1, last.push(c));
            if prev.len() == 1 {
                assert(join_with(now, sep) == last.push(c));
                assert(join_with(prev, sep) == last);
            } else {
                assert(now.drop_last() =~= prev.drop_last());
                assert(join_with(now, sep) == join_with(prev.drop_last(), sep) + seq![sep] + last.push(c));
                assert(join_with(prev, sep) == join_with(prev.drop_last(), sep) + seq![sep] + last);
            }
            assert(join_with(now, sep) =~= join_with(prev, sep).push(c));
            assert(s =~= s.drop_last().push(c));
            assert forall|i: int| 0 <= i < now.len() implies !(#[trigger] now[i]).contains(sep) by {
                if i < prev.len() - 1 {
                    assert(now[i] == prev[i]);
                } else {
                    assert(!prev[i].contains(sep));
                    if last.push(c).contains(sep) {
                        let k = choose|k: int| 0 <= k < last.push(c).len() && last.push(c)[k] == sep;
                        assert(last[k] == sep);
                    }
                }
            }
        }
    }
}

} // verus!

verus! {

/// Splitting yields one piece more than there are separators.
pub proof fn lemma_split_count(s: Seq<char>, sep: char)
    ensures
        split_on(s, sep).len() == s.filter(|c: char| c == sep).len() + 1,
    decreases s.len(),
{
    reveal_with_fuel(Seq::<_>::filter, 1);
    if s.len() > 0 {
        lemma_split_count(s.drop_last(), sep);
        lemma_split_on_nonempty(s.drop_last(), sep);
    }
}

} // verus!

verus! {

proof fn lemma_trim_start_cut(s: Seq<char>) -> (i: int)
    ensures
        0 <= i <= s.len(),
        trim_start_spec(s) == s.subrange(i, s.len() as int),
        forall|k: int| 0 <= k < i ==> is_white_space(#[trigger] s[k]),
        i < s.len() ==> !is_white_space(s[i]),
    decreases s.len(),
{
    if s.len() > 0 && is_white_space(s[0]) {
        let j = lemma_trim_start_cut(s.drop_first());
        assert(s.drop_first().subrange(j, s.len() - 1) =~= s.subrange(j + 1, s.len() as int));
        assert forall|k: int| 0 <= k < j + 1 implies is_white_space(#[trigger] s[k]) by {
            if k > 0 {
                assert(s[k] == s.drop_first()[k - 1]);
            }
        }
        if j + 1 < s.len() {
            assert(s[j + 1] == s.drop_first()[j]);
        }
        j + 1
    } else {
        assert(s.subrange(0, s.len() as int) =~= s);
        0
    }
}

proof fn lemma_trim_end_cut(s: Seq<char>) -> (j: int)
    ensures
        0 <= j <= s.len(),
        trim_end_spec(s) == s.subrange(0, j),
        forall|k: int| j <= k < s.len() ==> is_white_space(#[trigger] s[k]),
        j > 0 ==> !is_white_space(s[j - 1]),
    decreases s.len(),
{
    if s.len() > 0 && is_white_space(s.last()) {
        let j = lemma_trim_end_cut(s.drop_last());
        assert(s.drop_last().subrange(0, j) =~= s.subrange(0, j));
        assert forall|k: int| j <= k < s.len() implies is_white_space(#[trigger] s[k]) by {
            if k < s.len() - 1 {
                assert(s[k] == s.drop_last()[k]);
            }
        }
        if j > 0 {
            assert(s[j - 1] == s.drop_last()[j - 1]);
        }
        j
    } else {
        assert(s.subrange(0, s.len() as int) =~= s);
        s.len() as int
    }
}

/// Trimming keeps a contiguous part of the text, from position `i` on,
/// cutting only white space before and after it, and the part kept neither
/// starts nor ends with white space.
pub proof fn lemma_trimmed_strips_white_space(s: Seq<char>) -> (i: int)
    ensures
        0 <= i,
        i + trimmed(s).len() <= s.len(),
        trimmed(s) == s.subrange(i, i + trimmed(s).len()),
        forall|k: int| 0 <= k < i ==> is_white_space(#[trigger] s[k]),
        forall|k: int| i + trimmed(s).len() <= k < s.len() ==> is_white_space(#[trigger] s[k]),
        trimmed(s).len() > 0 ==> !is_white_space(trimmed(s)[0]) && !is_white_space(
            trimmed(s).last(),
        ),
{
    let i = lemma_trim_start_cut(s);
    let t1 = s.subrange(i, s.len() as int);
    let j = lemma_trim_end_cut(t1);
    let t = trimmed(s);
    assert(t == t1.subrange(0, j));
    assert(t =~= s.subrange(i, i + j));
    assert forall|k: int| i + t.len() <= k < s.len() implies is_white_space(#[trigger] s[k]) by {
        assert(s[k] == t1[k - i]);
    }
    if t.len() > 0 {
        assert(t[0] == s[i]);
        assert(t.last() == t1[j - 1]);
    }
    i
}

/// A text without white space at either end is its own trimming, and
/// trimming twice is trimming once.
pub proof fn lemma_trimmed_of_clean(s: Seq<char>)
    ensures
        (s.len() == 0 || (!is_white_space(s[0]) && !is_white_space(s.last()))) ==> trimmed(s) == s,
        trimmed(trimmed(s)) == trimmed(s),
{
    if s.len() == 0 || (!is_white_space(s[0]) && !is_white_space(s.last())) {
        let i = lemma_trimmed_strips_white_space(s);
        if s.len() > 0 {
            assert(i == 0) by {
                if i > 0 {
                    assert(is_white_space(s[0]));
                }
            }
            assert(trimmed(s).len() == s.len()) by {
                if trimmed(s).len() < s.len() {
                    assert(is_white_space(s[s.len() - 1]));
                }
            }
            assert(trimmed(s) =~= s);
        } else {
            assert(trimmed(s).len() == 0);
            assert(trimmed(s) =~= s);
        }
    }
    let t = trimmed(s);
    lemma_trimmed_strips_white_space(s);
    let i2 = lemma_trimmed_strips_white_space(t);
    if t.len() > 0 {
        assert(i2 == 0) by {
            if i2 > 0 {
                assert(is_white_space(t[0]));
            }
        }
        assert(trimmed(t).len() == t.len()) by {
            if trimmed(t).len() < t.len() {
                assert(is_white_space(t[t.len() - 1]));
            }
        }
        assert(trimmed(t) =~= t);
    } else {
        assert(trimmed(t).len() == 0);
        assert(trimmed(t) =~= t);
    }
}

/// Only `true` and `false` parse, to `true` and `false`.
pub proof fn lemma_parse_bool(s: Seq<char>)
    ensures
        (parse_bool_spec(s) == Some(true)) <==> s == "true"@,
        (parse_bool_spec(s) == Some(false)) <==> s == "false"@,
        (parse_bool_spec(s) is None) <==> (s != "true"@ && s != "false"@),
{
    reveal_strlit("true");
    reveal_strlit("false");
    assert("true"@ != "false"@) by {
        assert("true"@.len() != "false"@.len());
    }
}

} // verus!
