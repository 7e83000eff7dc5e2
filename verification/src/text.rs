use vstd::prelude::*;
use vstd::string::StrSliceExecFns;

verus! {

/// Unicode `White_Space`, the property by which `str::trim` and
/// `char::is_whitespace` decide what is whitespace.
pub open spec fn is_white_space_spec(c: char) -> bool {
    ||| '\u{9}' <= c <= '\u{d}'
    ||| c == ' '
    ||| c == '\u{85}'
    ||| c == '\u{a0}'
    ||| c == '\u{1680}'
    ||| '\u{2000}' <= c <= '\u{200a}'
    ||| c == '\u{2028}'
    ||| c == '\u{2029}'
    ||| c == '\u{202f}'
    ||| c == '\u{205f}'
    ||| c == '\u{3000}'
}

/// The text without its leading whitespace.
pub open spec fn trim_start_spec(s: Seq<char>) -> Seq<char>
    decreases s.len(),
{
    if s.len() > 0 && is_white_space_spec(s[0]) {
        trim_start_spec(s.drop_first())
    } else {
        s
    }
}

/// The text without its trailing whitespace.
pub open spec fn trim_end_spec(s: Seq<char>) -> Seq<char>
    decreases s.len(),
{
    if s.len() > 0 && is_white_space_spec(s.last()) {
        trim_end_spec(s.drop_last())
    } else {
        s
    }
}

/// The text without leading and trailing whitespace.
pub open spec fn trim_spec(s: Seq<char>) -> Seq<char> {
    trim_end_spec(trim_start_spec(s))
}

/// The pieces of the text between commas; text without a comma is one piece.
pub open spec fn split_commas_spec(s: Seq<char>) -> Seq<Seq<char>>
    decreases s.len(),
{
    if s.len() == 0 {
        seq![Seq::<char>::empty()]
    } else {
        let pieces = split_commas_spec(s.drop_last());
        if s.last() == ',' {
            pieces.push(Seq::<char>::empty())
        } else {
            pieces.update(pieces.len() - 1, pieces.last().push(s.last()))
        }
    }
}

/// The pieces, each trimmed, with those that are empty after trimming left out.
pub open spec fn trimmed_nonempty_spec(pieces: Seq<Seq<char>>) -> Seq<Seq<char>>
    decreases pieces.len(),
{
    if pieces.len() == 0 {
        Seq::<Seq<char>>::empty()
    } else {
        let rest = trimmed_nonempty_spec(pieces.drop_last());
        let t = trim_spec(pieces.last());
        if t.len() > 0 {
            rest.push(t)
        } else {
            rest
        }
    }
}

/// The views of a vector of strings.
pub open spec fn string_views(v: Seq<String>) -> Seq<Seq<char>> {
    v.map_values(|s: String| s@)
}

proof fn lemma_split_commas_nonempty(s: Seq<char>)
    ensures
        split_commas_spec(s).len() >= 1,
    decreases s.len(),
{
    if s.len() > 0 {
        lemma_split_commas_nonempty(s.drop_last());
    }
}

/// Whether `c` is whitespace in the sense of Unicode `White_Space`.
pub fn is_white_space(c: char) -> (r: bool)
    ensures
        r == is_white_space_spec(c),
{
    ('\u{9}' <= c && c <= '\u{d}') || c == ' ' || c == '\u{85}' || c == '\u{a0}' || c
        == '\u{1680}' || ('\u{2000}' <= c && c <= '\u{200a}') || c == '\u{2028}' || c
        == '\u{2029}' || c == '\u{202f}' || c == '\u{205f}' || c == '\u{3000}'
}

/// The text without leading and trailing whitespace.
pub fn trim(s: &str) -> (r: String)
    ensures
        r@ == trim_spec(s@),
{
    let n = s.unicode_len();
    let mut i: usize = 0;
    assert(s@.subrange(0, n as int) =~= s@);
    while i < n && is_white_space(s.get_char(i))
        invariant
            n == s@.len(),
            i <= n,
            trim_start_spec(s@) == trim_start_spec(s@.subrange(i as int, n as int)),
        decreases n - i,
    {
        assert(s@.subrange(i as int, n as int).drop_first() =~= s@.subrange(
            i + 1,
            n as int,
        ));
        i = i + 1;
    }
    assert(trim_start_spec(s@.subrange(i as int, n as int)) == s@.subrange(i as int, n as int));
    let ghost start = s@.subrange(i as int, n as int);
    let mut j: usize = n;
    while j > i && is_white_space(s.get_char(j - 1))
        invariant
            n == s@.len(),
            i <= j <= n,
            start == s@.subrange(i as int, n as int),
            trim_end_spec(start) == trim_end_spec(s@.subrange(i as int, j as int)),
        decreases j - i,
    {
        assert(s@.subrange(i as int, j as int).drop_last() =~= s@.subrange(
            i as int,
            j - 1,
        ));
        j = j - 1;
    }
    let piece = s.substring_char(i, j);
    piece.to_owned()
}

/// Splits the text at each comma.
pub fn split_commas(s: &str) -> (r: Vec<String>)
    ensures
        string_views(r@) == split_commas_spec(s@),
{
    let n = s.unicode_len();
    let mut pieces: Vec<String> = Vec::new();
    let mut start: usize = 0;
    let mut i: usize = 0;
    assert(s@.subrange(0, 0) =~= Seq::<char>::empty());
    while i < n
        invariant
            n == s@.len(),
            start <= i <= n,
            string_views(pieces@).push(s@.subrange(start as int, i as int)) == split_commas_spec(
                s@.subrange(0, i as int),
            ),
        decreases n - i,
    {
        let c = s.get_char(i);
        let ghost prefix = s@.subrange(0, i + 1);
        assert(prefix.drop_last() =~= s@.subrange(0, i as int));
        assert(prefix.last() == c);
        proof {
            lemma_split_commas_nonempty(s@.subrange(0, i as int));
        }
        if c == ',' {
            let piece = s.substring_char(start, i).to_owned();
            pieces.push(piece);
            i = i + 1;
            start = i;
            assert(string_views(pieces@) =~= string_views(pieces@.drop_last()).push(piece@));
            assert(s@.subrange(start as int, i as int) =~= Seq::<char>::empty());
        } else {
            let ghost before = string_views(pieces@);
            i = i + 1;
            assert(s@.subrange(start as int, i as int) =~= s@.subrange(start as int, i - 1).push(
                c,
            ));
            assert(before.push(s@.subrange(start as int, i as int)) =~= before.push(
                s@.subrange(start as int, i - 1),
            ).update(before.len() as int, s@.subrange(start as int, i - 1).push(c)));
        }
    }
    let last = s.substring_char(start, n).to_owned();
    pieces.push(last);
    assert(s@.subrange(0, n as int) =~= s@);
    assert(string_views(pieces@) =~= string_views(pieces@.drop_last()).push(last@));
    pieces
}

/// Splits the text at each comma, trims each piece and keeps the pieces
/// that are not empty, in their order.
pub fn comma_separated_items(s: &str) -> (r: Vec<String>)
    ensures
        string_views(r@) == trimmed_nonempty_spec(split_commas_spec(s@)),
{
    let pieces = split_commas(s);
    let mut items: Vec<String> = Vec::new();
    let mut k: usize = 0;
    assert(string_views(pieces@).take(0) =~= Seq::<Seq<char>>::empty());
    while k < pieces.len()
        invariant
            k <= pieces.len(),
            string_views(pieces@) == split_commas_spec(s@),
            string_views(items@) == trimmed_nonempty_spec(string_views(pieces@).take(k as int)),
        decreases pieces.len() - k,
    {
        let t = trim(pieces[k].as_str());
        let ghost taken = string_views(pieces@).take(k + 1);
        assert(taken.drop_last() =~= string_views(pieces@).take(k as int));
        assert(taken.last() == pieces@[k as int]@);
        if t.unicode_len() > 0 {
            let ghost before = string_views(items@);
            items.push(t);
            assert(string_views(items@) =~= before.push(t@));
        }
        k = k + 1;
    }
    assert(string_views(pieces@).take(pieces.len() as int) =~= string_views(pieces@));
    items
}

} // verus!
