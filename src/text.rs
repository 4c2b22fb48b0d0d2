//! Decimal numbers and short text.
use vstd::prelude::*;

verus! {

pub open spec fn digit_char(d: nat) -> char {
    if d == 0 {
        '0'
    } else if d == 1 {
        '1'
    } else if d == 2 {
        '2'
    } else if d == 3 {
        '3'
    } else if d == 4 {
        '4'
    } else if d == 5 {
        '5'
    } else if d == 6 {
        '6'
    } else if d == 7 {
        '7'
    } else if d == 8 {
        '8'
    } else {
        '9'
    }
}

/// Decimal digits of `n`, most significant first, without leading zeros.
pub open spec fn decimal(n: nat) -> Seq<char>
    decreases n,
{
    if n < 10 {
        seq![digit_char(n)]
    } else {
        decimal(n / 10).push(digit_char(n % 10))
    }
}

fn digit_str(d: u64) -> (r: &'static str)
    requires
        d < 10,
    ensures
        r@ == seq![digit_char(d as nat)],
{
    proof {
        reveal_strlit("0");
        reveal_strlit("1");
        reveal_strlit("2");
        reveal_strlit("3");
        reveal_strlit("4");
        reveal_strlit("5");
        reveal_strlit("6");
        reveal_strlit("7");
        reveal_strlit("8");
        reveal_strlit("9");
    }
    let r = if d == 0 {
        "0"
    } else if d == 1 {
        "1"
    } else if d == 2 {
        "2"
    } else if d == 3 {
        "3"
    } else if d == 4 {
        "4"
    } else if d == 5 {
        "5"
    } else if d == 6 {
        "6"
    } else if d == 7 {
        "7"
    } else if d == 8 {
        "8"
    } else {
        "9"
    };
    assert(r@ =~= seq![digit_char(d as nat)]);
    r
}

/// Appends the decimal digits of `n` to `out`.
pub fn push_decimal(out: &mut String, n: u64)
    ensures
        final(out)@ == old(out)@ + decimal(n as nat),
    decreases n,
{
    if n >= 10 {
        push_decimal(out, n / 10);
    }
    out.append(digit_str(n % 10));
}

/// The decimal form of `n`.
pub fn decimal_string(n: u64) -> (r: String)
    ensures
        r@ == decimal(n as nat),
{
    let mut s = String::new();
    push_decimal(&mut s, n);
    assert(s@ =~= decimal(n as nat));
    s
}

/// `s` cut to `max` characters: when longer, its first `max - 3` characters
/// followed by an ellipsis.
pub open spec fn truncated_spec(s: Seq<char>, max: nat) -> Seq<char> {
    if s.len() <= max {
        s
    } else {
        s.take(max - 3) + "..."@
    }
}

/// Text that can be shortened for display.
pub trait Truncate: View<V = Seq<char>> {
    /// At most `max` characters, the end replaced by an ellipsis when cut. A
    /// cut needs room for the ellipsis.
    fn truncated(&self, max: usize) -> (r: String)
        requires
            self@.len() <= max || max >= 3,
        ensures
            r@ == truncated_spec(self@, max as nat),
    ;
}

impl Truncate for String {
    fn truncated(&self, max: usize) -> (r: String) {
        if self.as_str().unicode_len() <= max {
            return self.clone();
        }
        let keep = max - 3;
        let mut cut = self.as_str().substring_char(0, keep).to_owned();
        cut.append("...");
        assert(self@.subrange(0, keep as int) == self@.take(keep as int));
        cut
    }
}

/// The decimal identifiers of `ids`, separated by commas.
pub open spec fn joined_ids(ids: Seq<u64>) -> Seq<char>
    decreases ids.len(),
{
    if ids.len() == 0 {
        Seq::empty()
    } else if ids.len() == 1 {
        decimal(ids[0] as nat)
    } else {
        joined_ids(ids.drop_last()) + ","@ + decimal(ids.last() as nat)
    }
}

/// Project identifiers as they are edited: decimal, separated by commas.
pub fn format_project_ids(ids: &Vec<u64>) -> (r: String)
    ensures
        r@ == joined_ids(ids@),
{
    let mut out = String::new();
    let mut i: usize = 0;
    while i < ids.len()
        invariant
            i <= ids@.len(),
            out@ == joined_ids(ids@.take(i as int)),
        decreases ids@.len() - i,
    {
        if i > 0 {
            out.append(",");
        }
        push_decimal(&mut out, ids[i]);
        assert(ids@.take(i + 1).drop_last() =~= ids@.take(i as int));
        i = i + 1;
    }
    assert(ids@.take(i as int) =~= ids@);
    out
}

pub open spec fn is_digit(c: char) -> bool {
    '0' <= c && c <= '9'
}

pub open spec fn digit_value(c: char) -> nat {
    ((c as u32) - ('0' as u32)) as nat
}

/// Value of a string of decimal digits.
pub open spec fn digits_value(s: Seq<char>) -> nat
    decreases s.len(),
{
    if s.len() == 0 {
        0
    } else {
        digits_value(s.drop_last()) * 10 + digit_value(s.last())
    }
}

pub open spec fn all_digits(s: Seq<char>) -> bool {
    forall|i: int| 0 <= i < s.len() ==> is_digit(#[trigger] s[i])
}

/// An unsigned 64-bit integer in decimal: an optional `+`, at least one
/// digit, nothing else, and no more than `u64::MAX`.
pub open spec fn parse_u64_spec(s: Seq<char>) -> Option<u64> {
    let d = if s.len() > 0 && s[0] == '+' {
        s.drop_first()
    } else {
        s
    };
    if d.len() > 0 && all_digits(d) && digits_value(d) <= u64::MAX {
        Some(digits_value(d) as u64)
    } else {
        None
    }
}

proof fn lemma_digits_value_grows(s: Seq<char>, k: int)
    requires
        0 <= k <= s.len(),
        all_digits(s),
    ensures
        digits_value(s.take(k)) <= digits_value(s),
    decreases s.len(),
{
    if k < s.len() {
        assert(s.drop_last().take(k) =~= s.take(k));
        lemma_digits_value_grows(s.drop_last(), k);
    } else {
        assert(s.take(k) =~= s);
    }
}

/// Parses `raw[start..end]` (in characters) as an identifier.
fn parse_id(raw: &str, start: usize, end: usize) -> (r: Option<u64>)
    requires
        start <= end <= raw@.len(),
    ensures
        r == parse_u64_spec(raw@.subrange(start as int, end as int)),
{
    let ghost s = raw@.subrange(start as int, end as int);
    let mut i = start;
    if i < end && raw.get_char(i) == '+' {
        i = i + 1;
    }
    let ghost d = raw@.subrange(i as int, end as int);
    assert(d == (if s.len() > 0 && s[0] == '+' { s.drop_first() } else { s }));
    if i == end {
        return None;
    }
    let first = i;
    let mut acc: u64 = 0;
    while i < end
        invariant
            first <= i <= end <= raw@.len(),
            d == raw@.subrange(first as int, end as int),
            s == raw@.subrange(start as int, end as int),
            d == (if s.len() > 0 && s[0] == '+' { s.drop_first() } else { s }),
            d.len() > 0,
            all_digits(raw@.subrange(first as int, i as int)),
            acc as nat == digits_value(raw@.subrange(first as int, i as int)),
        decreases end - i,
    {
        let c = raw.get_char(i);
        let ghost prefix = raw@.subrange(first as int, i as int);
        let ghost next = raw@.subrange(first as int, i + 1);
        assert(next.drop_last() =~= prefix);
        assert(next.last() == c);
        if !('0' <= c && c <= '9') {
            assert(d[i - first] == c);
            assert(!is_digit(d[i - first]));
            return None;
        }
        let v = (c as u32 - '0' as u32) as u64;
        if acc > (u64::MAX - v) / 10 {
            proof {
                assert(d.take(i + 1 - first) =~= next);
                assert(digits_value(next) > u64::MAX) by (nonlinear_arith)
                    requires
                        digits_value(next) == acc * 10 + v,
                        acc > (u64::MAX - v) / 10,
                        v <= 9,
                ;
                if all_digits(d) {
                    lemma_digits_value_grows(d, i + 1 - first);
                }
            }
            return None;
        }
        acc = acc * 10 + v;
        assert(all_digits(next)) by {
            assert forall|k: int| 0 <= k < next.len() implies is_digit(#[trigger] next[k]) by {
                if k < prefix.len() {
                    assert(next[k] == prefix[k]);
                }
            }
        }
        i = i + 1;
    }
    Some(acc)
}

/// The pieces of `s` between commas, in order; `s` without a comma is one
/// piece.
pub open spec fn split_commas(s: Seq<char>) -> Seq<Seq<char>>
    decreases s.len(),
{
    if s.len() == 0 {
        seq![Seq::empty()]
    } else {
        let p = split_commas(s.drop_last());
        if s.last() == ',' {
            p.push(Seq::empty())
        } else {
            p.update(p.len() - 1, p.last().push(s.last()))
        }
    }
}

proof fn lemma_split_commas_nonempty(s: Seq<char>)
    ensures
        split_commas(s).len() >= 1,
    decreases s.len(),
{
    if s.len() > 0 {
        lemma_split_commas_nonempty(s.drop_last());
    }
}

/// The identifiers in an edited list: each comma-separated piece that reads
/// as an identifier, in order; the others are skipped.
pub open spec fn project_ids_of(raw: Seq<char>) -> Seq<u64> {
    split_commas(raw).filter_map(|p: Seq<char>| parse_u64_spec(p))
}

/// Reads an edited list of project identifiers.
pub fn parse_project_ids(raw: &str) -> (r: Vec<u64>)
    ensures
        r@ == project_ids_of(raw@),
{
    let ghost f = |p: Seq<char>| parse_u64_spec(p);
    let n = raw.unicode_len();
    let mut out: Vec<u64> = Vec::new();
    let mut start: usize = 0;
    let mut i: usize = 0;
    while i < n
        invariant
            n == raw@.len(),
            start <= i <= n,
            f == (|p: Seq<char>| parse_u64_spec(p)),
            split_commas(raw@.take(i as int)).len() >= 1,
            split_commas(raw@.take(i as int)).last() == raw@.subrange(start as int, i as int),
            out@ == split_commas(raw@.take(i as int)).drop_last().filter_map(f),
        decreases n - i,
    {
        let c = raw.get_char(i);
        let ghost sp = split_commas(raw@.take(i as int));
        assert(raw@.take(i + 1).drop_last() =~= raw@.take(i as int));
        assert(raw@.take(i + 1).last() == c);
        if c == ',' {
            let ghost sp2 = sp.push(Seq::empty());
            assert(sp2.drop_last() =~= sp);
            assert(sp == sp.drop_last().push(sp.last()));
            assert(sp.drop_last().push(sp.last()).drop_last() =~= sp.drop_last());
            match parse_id(raw, start, i) {
                Some(id) => out.push(id),
                None => {},
            }
            assert(sp2.last() =~= raw@.subrange((i + 1) as int, (i + 1) as int));
            start = i + 1;
        } else {
            let ghost sp2 = sp.update(sp.len() - 1, sp.last().push(c));
            assert(sp2.drop_last() =~= sp.drop_last());
            assert(sp2.last() =~= raw@.subrange(start as int, (i + 1) as int));
        }
        i = i + 1;
    }
    let ghost sp = split_commas(raw@.take(n as int));
    assert(raw@.take(n as int) =~= raw@);
    assert(sp == sp.drop_last().push(sp.last()));
    assert(sp.drop_last().push(sp.last()).drop_last() =~= sp.drop_last());
    match parse_id(raw, start, n) {
        Some(id) => out.push(id),
        None => {},
    }
    out
}

} // verus!
