//! Splitting a line into whitespace-separated words.

use vstd::prelude::*;
use vstd::string::StrSliceExecFns;
use vstd::string::StringExecFns;

verus! {

/// Whether `c` is white space in the sense of `char::is_whitespace`.
pub uninterp spec fn is_space(c: char) -> bool;

/// Relies on `char::is_whitespace`: the answer depends on the character alone.
#[verifier::external_body]
fn char_is_whitespace(c: char) -> (r: bool)
    ensures
        r == is_space(c),
{
    c.is_whitespace()
}

/// The maximal runs of non-space characters of `s`, in order.
pub open spec fn words_of(s: Seq<char>) -> Seq<Seq<char>>
    decreases s.len(),
{
    if s.len() == 0 {
        Seq::empty()
    } else {
        let prev = words_of(s.drop_last());
        let c = s.last();
        if is_space(c) {
            prev
        } else if s.len() >= 2 && !is_space(s[s.len() - 2]) && prev.len() > 0 {
            prev.update(prev.len() - 1, prev.last().push(c))
        } else {
            prev.push(seq![c])
        }
    }
}

/// The character sequences that a list of strings holds.
pub open spec fn views_of(v: Seq<String>) -> Seq<Seq<char>> {
    v.map_values(|t: String| t@)
}

/// Splits `line` at white space, dropping empty pieces.
pub fn split_words(line: &str) -> (r: Vec<String>)
    ensures
        views_of(r@) == words_of(line@),
{
    let n = line.unicode_len();
    let mut out: Vec<String> = Vec::new();
    let mut in_word = false;
    let mut start: usize = 0;
    let mut i: usize = 0;
    while i < n
        invariant
            i <= n == line@.len(),
            !in_word ==> words_of(line@.take(i as int)) == views_of(out@),
            !in_word ==> (i == 0 || is_space(line@[i - 1])),
            in_word ==> start < i && !is_space(line@[i - 1]),
            in_word ==> words_of(line@.take(i as int)) == views_of(out@).push(
                line@.subrange(start as int, i as int),
            ),
        decreases n - i,
    {
        let c = line.get_char(i);
        let ghost pre = line@.take(i as int);
        let ghost before = views_of(out@);
        assert(line@.take(i + 1).drop_last() =~= pre);
        assert(line@.take(i + 1).last() == c);
        if char_is_whitespace(c) {
            if in_word {
                let w = String::from_str(line.substring_char(start, i));
                out.push(w);
                assert(views_of(out@) =~= before.push(w@));
                in_word = false;
            }
        } else {
            if !in_word {
                start = i;
                in_word = true;
                assert(line@.subrange(i as int, i + 1) =~= seq![c]);
            } else {
                assert(line@.subrange(start as int, i + 1) =~= line@.subrange(
                    start as int,
                    i as int,
                ).push(c));
                assert(views_of(out@).push(line@.subrange(start as int, i as int)).update(
                    views_of(out@).len() as int,
                    line@.subrange(start as int, i + 1),
                ) =~= views_of(out@).push(line@.subrange(start as int, i + 1)));
            }
        }
        i = i + 1;
    }
    let ghost before = views_of(out@);
    if in_word {
        let w = String::from_str(line.substring_char(start, n));
        out.push(w);
        assert(views_of(out@) =~= before.push(w@));
    }
    assert(line@.take(n as int) =~= line@);
    out
}

} // verus!
