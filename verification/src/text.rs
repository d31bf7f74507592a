//! Building text: decimal numbers and comma-separated lists.
use vstd::prelude::*;

verus! {

/// The character of a decimal digit `d` (0 to 9).
pub open spec fn digit_char(d: int) -> char {
    (d + 48) as char
}

/// The decimal digits of `n`, most significant first, with no leading zero.
pub open spec fn decimal_digits(n: nat) -> Seq<char>
    decreases n,
{
    if n < 10 {
        seq![digit_char(n as int)]
    } else {
        decimal_digits(n / 10).push(digit_char((n % 10) as int))
    }
}

/// How Rust displays the integer `i`: a minus sign for negative values, then its digits.
pub open spec fn decimal(i: int) -> Seq<char> {
    if i < 0 {
        seq!['-'] + decimal_digits((-i) as nat)
    } else {
        decimal_digits(i as nat)
    }
}

/// The parts, in order, with a comma between each two of them.
pub open spec fn join_with_commas(parts: Seq<Seq<char>>) -> Seq<char>
    decreases parts.len(),
{
    if parts.len() == 0 {
        Seq::empty()
    } else if parts.len() == 1 {
        parts[0]
    } else {
        join_with_commas(parts.drop_last()) + seq![','] + parts.last()
    }
}

/// `String::push` of std: appends one character.
#[verifier::external_body]
pub(crate) fn push_char(s: &mut String, c: char)
    ensures
        final(s)@ == old(s)@.push(c),
{
    s.push(c);
}

fn digit(d: u64) -> (c: char)
    requires
        d < 10,
    ensures
        c == digit_char(d as int),
{
    let b: u8 = 48u8 + (d as u8);
    b as char
}

/// Appends the decimal digits of `n`.
pub fn push_digits(s: &mut String, n: u64)
    ensures
        final(s)@ == old(s)@ + decimal_digits(n as nat),
    decreases n,
{
    if n >= 10 {
        push_digits(s, n / 10);
    }
    let c = digit(n % 10);
    push_char(s, c);
    proof {
        if n >= 10 {
            assert(decimal_digits(n as nat) == decimal_digits((n / 10) as nat).push(c));
        } else {
            assert(decimal_digits(n as nat) == seq![c]);
        }
    }
    assert(final(s)@ =~= old(s)@ + decimal_digits(n as nat));
}

/// Appends `v` as Rust displays it.
pub fn push_i64(s: &mut String, v: i64)
    ensures
        final(s)@ == old(s)@ + decimal(v as int),
{
    if v < 0 {
        push_char(s, '-');
        let magnitude: u64 = if v == i64::MIN {
            9_223_372_036_854_775_808u64
        } else {
            (-v) as u64
        };
        push_digits(s, magnitude);
        assert(s@ =~= old(s)@ + decimal(v as int));
    } else {
        push_digits(s, v as u64);
    }
}

/// `v` as Rust displays it, as `v.to_string()` gives it.
pub fn i64_text(v: i64) -> (r: String)
    ensures
        r@ == decimal(v as int),
{
    let mut s = String::new();
    push_i64(&mut s, v);
    assert(s@ =~= decimal(v as int));
    s
}

/// The views of some strings.
pub open spec fn string_views(strings: Seq<String>) -> Seq<Seq<char>> {
    strings.map_values(|s: String| s@)
}

/// `prefix` followed by the rows, a comma between each two.
pub fn join_rows(prefix: &str, rows: &Vec<String>) -> (r: String)
    ensures
        r@ == prefix@ + join_with_commas(string_views(rows@)),
{
    let ghost views = string_views(rows@);
    let mut s = String::from_str(prefix);
    let mut i: usize = 0;
    assert(views.take(0) =~= Seq::<Seq<char>>::empty());
    while i < rows.len()
        invariant
            i <= rows@.len(),
            views == string_views(rows@),
            s@ == prefix@ + join_with_commas(views.take(i as int)),
        decreases rows@.len() - i,
    {
        let ghost before = s@;
        if i > 0 {
            s.append(",");
        }
        s.append(rows[i].as_str());
        proof {
            reveal_strlit(",");
            let next = views.take(i + 1);
            assert(next.drop_last() =~= views.take(i as int));
            assert(next.last() == rows@[i as int]@);
            if i == 0 {
                assert(join_with_commas(next) == next[0]);
                assert(s@ =~= prefix@ + join_with_commas(next));
            } else {
                assert(join_with_commas(next) == join_with_commas(next.drop_last()) + seq![','] + next.last());
                assert(s@ =~= prefix@ + join_with_commas(next));
            }
        }
        i = i + 1;
    }
    assert(views.take(rows@.len() as int) =~= views);
    s
}

} // verus!
