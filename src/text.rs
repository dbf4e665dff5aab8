//! Text helpers: splitting a line into tokens, joining them back, case
//! folding, and the textual forms of integers and booleans.

use vstd::prelude::*;
use vstd::string::{StrSliceExecFns, StringExecFns};

verus! {

/// What `str::to_uppercase` gives for a text.
pub uninterp spec fn upper_of(s: Seq<char>) -> Seq<char>;

/// What `str::to_lowercase` gives for a text.
pub uninterp spec fn lower_of(s: Seq<char>) -> Seq<char>;

/// Relies on str::to_uppercase: the result depends on the characters alone.
#[verifier::external_body]
pub(crate) fn to_upper(s: &str) -> (r: String)
    ensures
        r@ == upper_of(s@),
{
    s.to_uppercase()
}

/// Relies on str::to_lowercase: the result depends on the characters alone.
#[verifier::external_body]
pub(crate) fn to_lower(s: &str) -> (r: String)
    ensures
        r@ == lower_of(s@),
{
    s.to_lowercase()
}

/// The numeric value of a decimal digit.
pub open spec fn digit_value(c: char) -> int {
    (c as int) - ('0' as int)
}

/// Whether a character is an ASCII decimal digit.
pub open spec fn is_digit(c: char) -> bool {
    '0' <= c <= '9'
}

/// The value of a run of decimal digits, most significant first.
pub open spec fn digits_value(d: Seq<char>) -> int
    decreases d.len(),
{
    if d.len() == 0 {
        0
    } else {
        10 * digits_value(d.drop_last()) + digit_value(d.last())
    }
}

/// The number that a text writes in decimal: an optional `+` or `-`, then
/// one or more digits.
pub open spec fn decimal_value(s: Seq<char>) -> Option<int> {
    let neg = s.len() > 0 && s[0] == '-';
    let body = if s.len() > 0 && (s[0] == '+' || s[0] == '-') {
        s.drop_first()
    } else {
        s
    };
    if body.len() > 0 && forall|i: int| 0 <= i < body.len() ==> is_digit(#[trigger] body[i]) {
        Some(
            if neg {
                -digits_value(body)
            } else {
                digits_value(body)
            },
        )
    } else {
        None
    }
}

/// The 64-bit integer that a text writes, if it writes one in range.
pub open spec fn int_of_text(s: Seq<char>) -> Option<i64> {
    match decimal_value(s) {
        Some(v) => if i64::MIN <= v <= i64::MAX {
            Some(v as i64)
        } else {
            None
        },
        None => None,
    }
}

/// Relies on `str::parse::<i64>`: an optional sign followed by decimal
/// digits, whose value fits, gives that value; any other text is an error.
#[verifier::external_body]
pub(crate) fn parse_i64(s: &str) -> (r: Option<i64>)
    ensures
        r == int_of_text(s@),
{
    s.parse::<i64>().ok()
}

/// The digits of a natural number in decimal, without leading zeros.
pub open spec fn nat_text(n: nat) -> Seq<char>
    decreases n,
{
    if n < 10 {
        seq![(('0' as nat) + n) as char]
    } else {
        nat_text(n / 10).push((('0' as nat) + n % 10) as char)
    }
}

/// The decimal form of an integer, with a leading `-` when it is negative.
pub open spec fn int_text(i: int) -> Seq<char> {
    if i < 0 {
        seq!['-'] + nat_text((-i) as nat)
    } else {
        nat_text(i as nat)
    }
}

/// Relies on i64's `Display`: decimal digits, with `-` before a negative value.
#[verifier::external_body]
pub(crate) fn i64_to_text(i: i64) -> (r: String)
    ensures
        r@ == int_text(i as int),
{
    i.to_string()
}

/// The boolean that a text names: exactly `true` or `false`.
pub open spec fn bool_of_text(s: Seq<char>) -> Option<bool> {
    if s == seq!['t', 'r', 'u', 'e'] {
        Some(true)
    } else if s == seq!['f', 'a', 'l', 's', 'e'] {
        Some(false)
    } else {
        None
    }
}

/// Relies on `str::parse::<bool>`: only `true` and `false` parse.
#[verifier::external_body]
pub(crate) fn parse_bool(s: &str) -> (r: Option<bool>)
    ensures
        r == bool_of_text(s@),
{
    s.parse::<bool>().ok()
}

/// The pieces of a text between single spaces; a text with no space is one
/// piece, and two spaces in a row leave an empty piece between them.
pub open spec fn split_on_space(s: Seq<char>) -> Seq<Seq<char>>
    decreases s.len(),
{
    if s.len() == 0 {
        seq![Seq::<char>::empty()]
    } else {
        let t = split_on_space(s.drop_last());
        if s.last() == ' ' {
            t.push(Seq::<char>::empty())
        } else {
            t.update(t.len() - 1, t.last().push(s.last()))
        }
    }
}

/// The tokens of a line: none for an empty line, else its pieces between
/// single spaces.
pub open spec fn tokens(s: Seq<char>) -> Seq<Seq<char>> {
    if s.len() == 0 {
        Seq::empty()
    } else {
        split_on_space(s)
    }
}

/// The tokens joined back with single spaces.
pub open spec fn join_spaces(ts: Seq<Seq<char>>) -> Seq<char>
    decreases ts.len(),
{
    if ts.len() == 0 {
        Seq::empty()
    } else if ts.len() == 1 {
        ts[0]
    } else {
        join_spaces(ts.drop_last()) + seq![' '] + ts.last()
    }
}

/// The texts that a sequence of strings holds.
pub open spec fn views(v: Seq<String>) -> Seq<Seq<char>> {
    v.map_values(|t: String| t@)
}

proof fn lemma_split_nonempty(s: Seq<char>)
    ensures
        split_on_space(s).len() >= 1,
    decreases s.len(),
{
    if s.len() > 0 {
        lemma_split_nonempty(s.drop_last());
    }
}

/// Splits a line into its tokens.
pub fn split_tokens(line: &str) -> (r: Vec<String>)
    ensures
        views(r@) == tokens(line@),
{
    let n = line.unicode_len();
    let mut r: Vec<String> = Vec::new();
    if n == 0 {
        assert(views(r@) =~= tokens(line@));
        return r;
    }
    let mut start: usize = 0;
    let mut i: usize = 0;
    assert(line@.subrange(0, 0) =~= Seq::<char>::empty());
    assert(views(r@).push(line@.subrange(0, 0)) =~= split_on_space(line@.subrange(0, 0)));
    while i < n
        invariant
            n == line@.len(),
            start <= i <= n,
            views(r@).push(line@.subrange(start as int, i as int)) == split_on_space(
                line@.subrange(0, i as int),
            ),
        decreases n - i,
    {
        let c = line.get_char(i);
        let ghost pre = line@.subrange(0, i as int);
        let ghost post = line@.subrange(0, i + 1);
        proof {
            assert(post.drop_last() =~= pre);
            lemma_split_nonempty(pre);
        }
        if c == ' ' {
            let piece = line.substring_char(start, i).to_owned();
            let ghost done = views(r@);
            assert(split_on_space(post) == split_on_space(pre).push(Seq::<char>::empty()));
            r.push(piece);
            assert(views(r@) =~= done.push(line@.subrange(start as int, i as int)));
            start = i + 1;
            assert(line@.subrange(start as int, i + 1) =~= Seq::<char>::empty());
            assert(views(r@).push(line@.subrange(start as int, i + 1)) =~= split_on_space(post));
        } else {
            let ghost t = split_on_space(pre);
            assert(post.last() == c);
            assert(split_on_space(post) == t.update(t.len() - 1, t.last().push(c)));
            assert(line@.subrange(start as int, i + 1) =~= line@.subrange(
                start as int,
                i as int,
            ).push(c));
            assert(views(r@).push(line@.subrange(start as int, i + 1)) =~= split_on_space(post));
        }
        i = i + 1;
    }
    let last = line.substring_char(start, n).to_owned();
    r.push(last);
    assert(line@.subrange(0, n as int) =~= line@);
    assert(views(r@) =~= tokens(line@));
    r
}

/// Joins `ts[from..]` with single spaces.
pub fn join_from(ts: &Vec<String>, from: usize) -> (r: String)
    requires
        from <= ts@.len(),
    ensures
        r@ == join_spaces(views(ts@).subrange(from as int, ts@.len() as int)),
{
    let mut r = String::new();
    let mut i: usize = from;
    while i < ts.len()
        invariant
            from <= i <= ts@.len(),
            r@ == join_spaces(views(ts@).subrange(from as int, i as int)),
        decreases ts@.len() - i,
    {
        let ghost before = views(ts@).subrange(from as int, i as int);
        let ghost after = views(ts@).subrange(from as int, i + 1);
        assert(after.drop_last() =~= before);
        assert(after.last() == ts@[i as int]@);
        if i > from {
            proof {
                reveal_strlit(" ");
            }
            r.append(" ");
            r.append(ts[i].as_str());
            assert(r@ =~= join_spaces(after));
        } else {
            r.append(ts[i].as_str());
            assert(r@ =~= join_spaces(after));
        }
        i = i + 1;
    }
    r
}

/// Whether two texts hold the same characters.
pub fn same_text(a: &str, b: &str) -> (r: bool)
    ensures
        r == (a@ == b@),
{
    let n = a.unicode_len();
    if n != b.unicode_len() {
        return false;
    }
    let mut i: usize = 0;
    while i < n
        invariant
            n == a@.len() == b@.len(),
            i <= n,
            forall|j: int| 0 <= j < i ==> a@[j] == b@[j],
        decreases n - i,
    {
        if a.get_char(i) != b.get_char(i) {
            return false;
        }
        i = i + 1;
    }
    assert(a@ =~= b@);
    true
}

} // verus!
