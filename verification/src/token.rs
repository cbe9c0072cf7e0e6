//! The authentication token carried in the `auth-token` cookie.
//!
//! A token reads `user-<user id>.<expiration>.<signature>`. It is accepted
//! exactly where the pattern `^user-(\d+)\.(.+)\.(.+)` matches it (`.`
//! standing for any character but a line feed, the repetitions being greedy)
//! and the captured user id fits in a `u32`.
use vstd::prelude::*;

use crate::error::Error;
use crate::text::chars_of;

verus! {

// ---------------------------------------------------------------------------
// Decimal numerals
// ---------------------------------------------------------------------------

pub open spec fn is_digit_char(c: char) -> bool {
    '0' <= c && c <= '9'
}

/// The character of a decimal digit.
pub open spec fn digit_char(d: nat) -> char
    recommends
        d < 10,
{
    (48 + d) as char
}

/// The value of a decimal digit character.
pub open spec fn digit_value(c: char) -> nat {
    (c as int - 48) as nat
}

/// The decimal numeral of `n`, without leading zeros.
pub open spec fn decimal(n: nat) -> Seq<char>
    decreases n,
{
    if n < 10 {
        seq![digit_char(n)]
    } else {
        decimal(n / 10).push(digit_char(n % 10))
    }
}

/// The decimal numeral of `i`, with a leading `-` when it is negative.
pub open spec fn signed_decimal(i: int) -> Seq<char> {
    if i < 0 {
        seq!['-'] + decimal((-i) as nat)
    } else {
        decimal(i as nat)
    }
}

/// The value of a numeral made of decimal digits.
pub open spec fn digits_value(s: Seq<char>) -> nat
    decreases s.len(),
{
    if s.len() == 0 {
        0
    } else {
        digits_value(s.drop_last()) * 10 + digit_value(s.last())
    }
}

pub open spec fn all_digits(s: Seq<char>) -> bool {
    forall|i: int| 0 <= i < s.len() ==> is_digit_char(#[trigger] s[i])
}

// ---------------------------------------------------------------------------
// The token grammar
// ---------------------------------------------------------------------------

/// `user-`
pub open spec fn token_prefix() -> Seq<char> {
    seq!['u', 's', 'e', 'r', '-']
}

/// `.exp.sign`, the expiration and signature that issued tokens carry.
pub open spec fn issued_token_suffix() -> Seq<char> {
    seq!['.', 'e', 'x', 'p', '.', 's', 'i', 'g', 'n']
}

/// The number of decimal digits that `s` starts with.
pub open spec fn digit_run(s: Seq<char>) -> nat
    decreases s.len(),
{
    if s.len() > 0 && is_digit_char(s[0]) {
        1 + digit_run(s.drop_first())
    } else {
        0
    }
}

/// The number of characters before the first line feed of `s` (all of them
/// when there is none).
pub open spec fn line_len(s: Seq<char>) -> nat
    decreases s.len(),
{
    if s.len() > 0 && s[0] != '\n' {
        1 + line_len(s.drop_first())
    } else {
        0
    }
}

/// The position of the last `.` of `l` that has a character on each side.
pub open spec fn last_separator(l: Seq<char>) -> Option<nat>
    decreases l.len(),
{
    if l.len() < 3 {
        None
    } else if l[l.len() - 2] == '.' {
        Some((l.len() - 2) as nat)
    } else {
        last_separator(l.drop_last())
    }
}

/// What parsing a token gives: the user id, the expiration and the signature.
pub open spec fn token_fields(t: Seq<char>) -> core::result::Result<(u32, Seq<char>, Seq<char>), Error> {
    let rest = t.skip(5);
    let k = digit_run(rest);
    if t.len() < 5 || t.take(5) != token_prefix() {
        Err(Error::AuthFailTokenWrongFormat)
    } else if k == 0 || k >= rest.len() || rest[k as int] != '.' {
        Err(Error::AuthFailTokenWrongFormat)
    } else {
        let tail = rest.skip(k + 1 as int);
        let line = tail.take(line_len(tail) as int);
        let id = digits_value(rest.take(k as int));
        match last_separator(line) {
            None => Err(Error::AuthFailTokenWrongFormat),
            Some(j) => if id > u32::MAX {
                Err(Error::AuthFailTokenWrongFormat)
            } else {
                Ok((id as u32, line.take(j as int), line.skip(j + 1 as int)))
            },
        }
    }
}

// ---------------------------------------------------------------------------
// Lemmas
// ---------------------------------------------------------------------------

/// `decimal(n)` is the decimal numeral of `n`: a non-empty run of digits
/// whose value is `n`, without a leading zero.
pub proof fn lemma_decimal_digits(n: nat)
    ensures
        decimal(n).len() >= 1,
        all_digits(decimal(n)),
        digits_value(decimal(n)) == n,
        decimal(n).len() > 1 ==> decimal(n)[0] != '0',
        n >= 10 ==> decimal(n).len() > 1,
    decreases n,
{
    if n >= 10 {
        lemma_decimal_digits(n / 10);
        let d = decimal(n);
        assert(d[0] == decimal(n / 10)[0]);
        if n / 10 < 10 {
            assert(decimal(n / 10) == seq![digit_char(n / 10)]);
            assert(((48 + n / 10) as char) as int == 48 + n / 10);
        }
        assert(d.drop_last() =~= decimal(n / 10));
        assert(d.last() == digit_char(n % 10));
        assert(digit_value(digit_char(n % 10)) == n % 10);
        assert(digits_value(d) == digits_value(d.drop_last()) * 10 + digit_value(d.last()));
        assert((n / 10) * 10 + n % 10 == n);
        assert forall|i: int| 0 <= i < d.len() implies is_digit_char(#[trigger] d[i]) by {
            if i < d.len() - 1 {
                assert(d[i] == decimal(n / 10)[i]);
            }
        }
    } else {
        assert(decimal(n).drop_last() =~= Seq::<char>::empty());
        assert(digit_value(digit_char(n)) == n);
        assert(digits_value(decimal(n)) == digits_value(decimal(n).drop_last()) * 10 + digit_value(
            decimal(n).last(),
        ));
    }
}

proof fn lemma_digit_run_of_digits(a: Seq<char>, b: Seq<char>)
    requires
        all_digits(a),
    ensures
        digit_run(a + b) == a.len() + digit_run(b),
    decreases a.len(),
{
    if a.len() > 0 {
        assert((a + b)[0] == a[0]);
        assert((a + b).drop_first() =~= a.drop_first() + b);
        assert(all_digits(a.drop_first())) by {
            assert forall|i: int| 0 <= i < a.drop_first().len() implies is_digit_char(
                #[trigger] a.drop_first()[i],
            ) by {
                assert(a.drop_first()[i] == a[i + 1]);
            }
        }
        lemma_digit_run_of_digits(a.drop_first(), b);
    } else {
        assert(a + b =~= b);
    }
}

proof fn lemma_line_len_without_line_feed(s: Seq<char>)
    requires
        forall|i: int| 0 <= i < s.len() ==> #[trigger] s[i] != '\n',
    ensures
        line_len(s) == s.len(),
    decreases s.len(),
{
    if s.len() > 0 {
        assert forall|i: int| 0 <= i < s.drop_first().len() implies #[trigger] s.drop_first()[i]
            != '\n' by {
            assert(s.drop_first()[i] == s[i + 1]);
        }
        lemma_line_len_without_line_feed(s.drop_first());
    }
}

proof fn lemma_skip_step(s: Seq<char>, i: int)
    requires
        0 <= i < s.len(),
    ensures
        s.skip(i).len() > 0,
        s.skip(i)[0] == s[i],
        s.skip(i).drop_first() =~= s.skip(i + 1),
{
}

proof fn lemma_digits_value_push(s: Seq<char>, c: char)
    ensures
        digits_value(s.push(c)) == digits_value(s) * 10 + digit_value(c),
        digits_value(s.push(c)) >= digits_value(s),
{
    assert(s.push(c).drop_last() =~= s);
}

// ---------------------------------------------------------------------------
// Formatting
// ---------------------------------------------------------------------------

fn digit_str(d: u32) -> (s: &'static str)
    requires
        d < 10,
    ensures
        s@ == seq![digit_char(d as nat)],
{
    proof {
        reveal_strlit("0");
        reveal_strlit("1");
        reveal_strlit("2");
        reveal_strlit("3");
        reveal_strlit("4");
        reveal_strlit("5");
        reveal_strlit("6");
        reveal_strlit("7");
        reveal_strlit("8");
        reveal_strlit("9");
    }
    match d {
        0 => "0",
        1 => "1",
        2 => "2",
        3 => "3",
        4 => "4",
        5 => "5",
        6 => "6",
        7 => "7",
        8 => "8",
        _ => "9",
    }
}

/// Appends the decimal numeral of `n` to `s`.
pub fn push_decimal(s: &mut String, n: u32)
    ensures
        final(s)@ == old(s)@ + decimal(n as nat),
    decreases n,
{
    if n >= 10 {
        push_decimal(s, n / 10);
    }
    s.append(digit_str(n % 10));
    proof {
        if n >= 10 {
            assert(decimal(n as nat) == decimal((n / 10) as nat).push(digit_char((n % 10) as nat)));
        }
    }
}

/// Appends the decimal numeral of `i`, signed when negative, to `s`.
pub fn push_signed_decimal(s: &mut String, i: i32)
    ensures
        final(s)@ == old(s)@ + signed_decimal(i as int),
{
    if i < 0 {
        proof {
            reveal_strlit("-");
        }
        s.append("-");
        let magnitude: u32 = (0i64 - i as i64) as u32;
        push_decimal(s, magnitude);
        proof {
            assert(old(s)@ + signed_decimal(i as int) =~= old(s)@ + seq!['-'] + decimal(
                magnitude as nat,
            ));
        }
    } else {
        push_decimal(s, i as u32);
    }
}

/// The value of the `auth-token` cookie issued to a signed-in user:
/// `user-<user id>.exp.sign`.
pub fn auth_token_value(user_id: i32) -> (token: String)
    ensures
        token@ == token_prefix() + signed_decimal(user_id as int) + issued_token_suffix(),
{
    proof {
        reveal_strlit("user-");
        reveal_strlit(".exp.sign");
    }
    let mut token = "user-".to_owned();
    push_signed_decimal(&mut token, user_id);
    token.append(".exp.sign");
    token
}

// ---------------------------------------------------------------------------
// Parsing
// ---------------------------------------------------------------------------

/// Parses a token of format `user-<user id>.<expiration>.<signature>`.
pub fn parse_token(token: String) -> (r: Result<(u32, String, String), Error>)
    ensures
        match (r, token_fields(token@)) {
            (Ok((id, exp, sign)), Ok((spec_id, spec_exp, spec_sign))) => id == spec_id
                && exp@ == spec_exp && sign@ == spec_sign,
            (Err(e), Err(spec_e)) => e == spec_e,
            _ => false,
        },
{
    let ghost t = token@;
    let chars = chars_of(token.as_str());
    let n = chars.len();
    // The `user-` prefix.
    if n < 5 || chars[0] != 'u' || chars[1] != 's' || chars[2] != 'e' || chars[3] != 'r'
        || chars[4] != '-' {
        proof {
            if n >= 5 {
                assert(t.take(5)[0] == t[0]);
                assert(t.take(5)[1] == t[1]);
                assert(t.take(5)[2] == t[2]);
                assert(t.take(5)[3] == t[3]);
                assert(t.take(5)[4] == t[4]);
            }
        }
        return Err(Error::AuthFailTokenWrongFormat);
    }
    assert(t.take(5) =~= token_prefix());
    // The user id: the run of digits after the prefix.
    let mut i: usize = 5;
    let mut value: u64 = 0;
    let mut overflow = false;
    while i < n && '0' <= chars[i] && chars[i] <= '9'
        invariant
            chars@ == t,
            n == t.len(),
            5 <= i <= n,
            all_digits(t.subrange(5, i as int)),
            digit_run(t.skip(5)) == (i - 5) + digit_run(t.skip(i as int)),
            overflow ==> digits_value(t.subrange(5, i as int)) > u32::MAX,
            !overflow ==> value == digits_value(t.subrange(5, i as int)) && value <= u32::MAX,
        decreases n - i,
    {
        proof {
            lemma_skip_step(t, i as int);
            assert(t.subrange(5, i + 1) =~= t.subrange(5, i as int).push(t[i as int]));
            lemma_digits_value_push(t.subrange(5, i as int), t[i as int]);
        }
        if !overflow {
            let d = (chars[i] as u32 - 48) as u64;
            value = value * 10 + d;
            if value > 0xffff_ffff {
                overflow = true;
            }
        }
        i = i + 1;
        proof {
            assert forall|m: int| 0 <= m < t.subrange(5, i as int).len() implies is_digit_char(
                #[trigger] t.subrange(5, i as int)[m],
            ) by {
                if m < i - 6 {
                    assert(t.subrange(5, i as int)[m] == t.subrange(5, i - 1)[m]);
                }
            }
        }
    }
    proof {
        if i < n {
            lemma_skip_step(t, i as int);
        }
        assert(t.skip(5).take(i - 5) =~= t.subrange(5, i as int));
    }
    let k = i - 5;
    if k == 0 || i >= n || chars[i] != '.' {
        proof {
            assert(i < n ==> t.skip(5)[k as int] == t[i as int]);
        }
        return Err(Error::AuthFailTokenWrongFormat);
    }
    assert(t.skip(5)[k as int] == t[i as int]);
    // The rest of the line after the separating `.`.
    let start = i + 1;
    let mut e = start;
    while e < n && chars[e] != '\n'
        invariant
            chars@ == t,
            n == t.len(),
            start <= e <= n,
            line_len(t.skip(start as int)) == (e - start) + line_len(t.skip(e as int)),
        decreases n - e,
    {
        proof {
            lemma_skip_step(t, e as int);
        }
        e = e + 1;
    }
    proof {
        if e < n {
            lemma_skip_step(t, e as int);
        }
        assert(t.skip(5).skip(k + 1) =~= t.skip(start as int));
    }
    let ghost line = t.subrange(start as int, e as int);
    assert(t.skip(start as int).take(line_len(t.skip(start as int)) as int) =~= line);
    // The last `.` of the line with a character on each side.
    let mut m = e - start;
    let mut found = false;
    assert(line.take(m as int) =~= line);
    while m >= 3 && !found
        invariant
            chars@ == t,
            n == t.len(),
            start <= e <= n,
            line == t.subrange(start as int, e as int),
            m <= e - start,
            !found ==> last_separator(line) == last_separator(line.take(m as int)),
            found ==> m >= 3 && last_separator(line) == Some((m - 2) as nat),
        decreases m + (if found { 0int } else { 1int }),
    {
        let ghost lm = line.take(m as int);
        assert(lm[m - 2] == t[start + m - 2]);
        if chars[start + m - 2] == '.' {
            found = true;
        } else {
            assert(lm.drop_last() =~= line.take(m - 1));
            m = m - 1;
        }
    }
    if !found {
        assert(last_separator(line.take(m as int)) == None::<nat>);
        return Err(Error::AuthFailTokenWrongFormat);
    }
    if overflow {
        return Err(Error::AuthFailTokenWrongFormat);
    }
    let j = m - 2;
    let exp = token.as_str().substring_char(start, start + j).to_owned();
    let sign = token.as_str().substring_char(start + j + 1, e).to_owned();
    assert(exp@ =~= line.take(j as int));
    assert(sign@ =~= line.skip(j + 1));
    Ok((value as u32, exp, sign))
}

// ---------------------------------------------------------------------------
// Laws
// ---------------------------------------------------------------------------

proof fn lemma_last_separator(e: Seq<char>, g: Seq<char>)
    requires
        e.len() > 0,
        g.len() > 0,
        forall|i: int| 0 <= i < g.len() ==> #[trigger] g[i] != '.',
    ensures
        last_separator(e + seq!['.'] + g) == Some(e.len()),
    decreases g.len(),
{
    let l = e + seq!['.'] + g;
    if g.len() == 1 {
        assert(l[l.len() - 2] == '.');
    } else {
        assert(l[l.len() - 2] == g[g.len() - 2]);
        assert(l.drop_last() =~= e + seq!['.'] + g.drop_last());
        assert forall|i: int| 0 <= i < g.drop_last().len() implies #[trigger] g.drop_last()[i]
            != '.' by {
            assert(g.drop_last()[i] == g[i]);
        }
        lemma_last_separator(e, g.drop_last());
    }
}

/// A token `user-<user id>.<expiration>.<signature>` parses back to its
/// fields, when the expiration and the signature are not empty, hold no line
/// feed, and the signature holds no `.`.
pub proof fn token_parses_to_its_fields(user_id: u32, exp: Seq<char>, sign: Seq<char>)
    requires
        exp.len() > 0,
        sign.len() > 0,
        forall|i: int| 0 <= i < exp.len() ==> #[trigger] exp[i] != '\n',
        forall|i: int| 0 <= i < sign.len() ==> #[trigger] sign[i] != '\n' && sign[i] != '.',
    ensures
        token_fields(token_prefix() + decimal(user_id as nat) + seq!['.'] + exp + seq!['.'] + sign)
            == Ok::<(u32, Seq<char>, Seq<char>), Error>((user_id, exp, sign)),
{
    let d = decimal(user_id as nat);
    let after = seq!['.'] + exp + seq!['.'] + sign;
    let t = token_prefix() + d + seq!['.'] + exp + seq!['.'] + sign;
    assert(t =~= token_prefix() + d + after);
    lemma_decimal_digits(user_id as nat);
    assert(t.take(5) =~= token_prefix());
    let rest = t.skip(5);
    assert(rest =~= d + after);
    lemma_digit_run_of_digits(d, after);
    reveal_with_fuel(digit_run, 2);
    assert(after[0] == '.');
    assert(digit_run(after) == 0);
    let k = digit_run(rest);
    assert(k == d.len());
    assert(rest[k as int] == '.');
    assert(rest.take(k as int) =~= d);
    let tail = rest.skip(k + 1 as int);
    assert(tail =~= exp + seq!['.'] + sign);
    assert forall|i: int| 0 <= i < tail.len() implies #[trigger] tail[i] != '\n' by {
        if i < exp.len() {
            assert(tail[i] == exp[i]);
        } else if i > exp.len() {
            assert(tail[i] == sign[i - exp.len() - 1]);
        }
    }
    lemma_line_len_without_line_feed(tail);
    let line = tail.take(line_len(tail) as int);
    assert(line =~= tail);
    assert forall|i: int| 0 <= i < sign.len() implies #[trigger] sign[i] != '.' by {}
    lemma_last_separator(exp, sign);
    assert(line.take(exp.len() as int) =~= exp);
    assert(line.skip(exp.len() + 1 as int) =~= sign);
}

/// A token issued to a user with a non-negative id parses back to that id,
/// with expiration `exp` and signature `sign`.
pub proof fn issued_token_parses_back(user_id: i32)
    requires
        user_id >= 0,
    ensures
        token_fields(token_prefix() + signed_decimal(user_id as int) + issued_token_suffix())
            == Ok::<(u32, Seq<char>, Seq<char>), Error>(
            (user_id as u32, seq!['e', 'x', 'p'], seq!['s', 'i', 'g', 'n']),
        ),
{
    let exp = seq!['e', 'x', 'p'];
    let sign = seq!['s', 'i', 'g', 'n'];
    assert(token_prefix() + signed_decimal(user_id as int) + issued_token_suffix() =~= token_prefix()
        + decimal((user_id as u32) as nat) + seq!['.'] + exp + seq!['.'] + sign);
    token_parses_to_its_fields(user_id as u32, exp, sign);
}

} // verus!
