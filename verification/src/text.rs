//! Building strings piece by piece: repeated characters, padding and
//! grouped decimal digits.

use vstd::prelude::*;

verus! {

/// Appends one character to a `String` (std's `String::push`).
/// Trusted: the contract claims that the new contents are the old contents
/// followed by `c`, as std's documentation of `push` says.
#[verifier::external_body]
pub(crate) fn push_char(s: &mut String, c: char)
    ensures
        final(s)@ == old(s)@.push(c),
{
    s.push(c);
}

/// `n` copies of `ch`.
pub open spec fn repeat_char(ch: char, n: nat) -> Seq<char> {
    Seq::new(n, |_i: int| ch)
}

/// Returns `s` with `n` copies of `ch` appended.
pub fn add_chars_n(s: String, ch: char, n: u32) -> (r: String)
    ensures
        r@ == s@ + repeat_char(ch, n as nat),
{
    let ghost start = s@;
    let mut s = s;
    let mut k: u32 = n;
    while k > 0
        invariant
            k <= n,
            s@ =~= start + repeat_char(ch, (n - k) as nat),
        decreases k,
    {
        push_char(&mut s, ch);
        k = k - 1;
    }
    s
}

/// Appends `n` copies of `ch` to `s` in place.
pub fn add_chars_n2(s: &mut String, ch: char, n: u32)
    ensures
        final(s)@ == old(s)@ + repeat_char(ch, n as nat),
{
    let ghost start = s@;
    let mut k: u32 = n;
    while k > 0
        invariant
            k <= n,
            s@ =~= start + repeat_char(ch, (n - k) as nat),
        decreases k,
    {
        push_char(s, ch);
        k = k - 1;
    }
}

/// The number of spaces `add_space` writes for a requested count: none
/// when the count is zero or negative.
pub open spec fn space_count(n: i32) -> nat {
    if n > 0 { n as nat } else { 0 }
}

/// Appends `n` spaces to `s`; a count of zero or less appends nothing.
pub fn add_space(s: &mut String, n: i32)
    ensures
        final(s)@ == old(s)@ + repeat_char(' ', space_count(n)),
{
    let ghost start = s@;
    let mut k: i32 = n;
    while k > 0
        invariant
            k <= n,
            k > 0 ==> s@ =~= start + repeat_char(' ', (n - k) as nat),
            k <= 0 ==> s@ =~= start + repeat_char(' ', space_count(n)),
        decreases k,
    {
        push_char(s, ' ');
        k = k - 1;
    }
}

/// Appends the text of `s2` to `s`.
pub fn add_str(s: &mut String, s2: &str)
    ensures
        final(s)@ == old(s)@ + s2@,
{
    s.append(s2);
}

/// The character of the decimal digit `d` (0 to 9).
pub open spec fn digit_char(d: int) -> char {
    (d + 48) as char
}

/// The text `add_integer` writes for `n`: the decimal digits of `n` from the
/// least significant one to the most significant one, with an underscore
/// after every third digit that is followed by another digit. `phase` counts
/// the digits already written, modulo 3.
pub open spec fn grouped_digits(n: int, phase: int) -> Seq<char>
    decreases n,
{
    if n <= 0 {
        seq![]
    } else {
        let rest = n / 10;
        let next = (phase + 1) % 3;
        seq![digit_char(n % 10)] + (if next == 0 && rest != 0 {
            seq!['_']
        } else {
            seq![]
        }) + grouped_digits(rest, next)
    }
}

/// Appends the decimal digits of `n`, least significant first, with an
/// underscore after every third digit unless it is the last; a number of
/// zero or less appends nothing.
pub fn add_integer(s: &mut String, n: i32)
    ensures
        final(s)@ == old(s)@ + grouped_digits(n as int, 0),
{
    let ghost start = s@;
    let mut m: i32 = n;
    let mut phase: i32 = 0;
    while m > 0
        invariant
            0 <= phase < 3,
            start + grouped_digits(n as int, 0) =~= s@ + grouped_digits(m as int, phase as int),
        decreases m,
    {
        let i: i32 = m % 10;
        push_char(s, (i as u8 + '0' as u8) as char);
        m = m / 10;
        phase = (phase + 1) % 3;
        if phase == 0 && m != 0 {
            push_char(s, '_');
        }
    }
}


/// Appending `a` copies and then `b` copies of a character gives the same
/// text as appending `a + b` copies at once.
pub proof fn lemma_repeat_concat(ch: char, a: nat, b: nat)
    ensures
        repeat_char(ch, a) + repeat_char(ch, b) == repeat_char(ch, a + b),
{
    assert(repeat_char(ch, a) + repeat_char(ch, b) =~= repeat_char(ch, a + b));
}

/// For a count that is not negative, `add_space` appends exactly what
/// `add_chars_n2` appends for the space character and the same count.
pub proof fn lemma_space_is_repeated_blank(n: i32)
    requires
        n >= 0,
    ensures
        repeat_char(' ', space_count(n)) == repeat_char(' ', n as nat),
{
}

/// The value of a text of digits and underscores read with the least
/// significant digit first; underscores are skipped.
pub open spec fn lsd_first_value(s: Seq<char>) -> int
    decreases s.len(),
{
    if s.len() == 0 {
        0
    } else if s[0] == '_' {
        lsd_first_value(s.drop_first())
    } else {
        (s[0] as int - 48) + 10 * lsd_first_value(s.drop_first())
    }
}

/// Whatever the phase, the text written by `add_integer` for a number that
/// is not negative, read least significant digit first and with the
/// underscores skipped, gives the number back.
pub proof fn lemma_grouped_digits_value(n: int, phase: int)
    requires
        n >= 0,
    ensures
        lsd_first_value(grouped_digits(n, phase)) == n,
    decreases n,
{
    if n > 0 {
        let rest = n / 10;
        let next = (phase + 1) % 3;
        let tail = grouped_digits(rest, next);
        lemma_grouped_digits_value(rest, next);
        let sep: Seq<char> = if next == 0 && rest != 0 { seq!['_'] } else { seq![] };
        let whole = seq![digit_char(n % 10)] + sep + tail;
        assert(whole.drop_first() =~= sep + tail);
        if next == 0 && rest != 0 {
            assert((sep + tail).drop_first() =~= tail);
        } else {
            assert(sep + tail =~= tail);
        }
        assert(digit_char(n % 10) as int == n % 10 + 48);
        assert(whole[0] == digit_char(n % 10));
        assert(lsd_first_value(sep + tail) == rest);
        assert(lsd_first_value(whole) == n % 10 + 10 * rest);
        assert(grouped_digits(n, phase) == whole);
    }
}


/// The number of decimal digits of `n` (1 for 0).
pub open spec fn decimal_len(n: nat) -> nat
    decreases n,
{
    if n < 10 {
        1
    } else {
        1 + decimal_len(n / 10)
    }
}

/// The layout of the text `add_integer` writes when `phase` digits of the
/// current group are already written: a positive `n` with `d` digits gives
/// `d` digits and `(phase + d - 1) / 3` underscores, and the character at
/// index `i` is an underscore exactly when `i + phase` leaves 3 modulo 4,
/// whatever the digits are.
pub proof fn lemma_grouped_digits_layout(n: int, phase: int)
    requires
        n > 0,
        0 <= phase < 3,
    ensures
        grouped_digits(n, phase).len() == decimal_len(n as nat) + (phase + decimal_len(n as nat)
            - 1) / 3,
        forall|i: int|
            0 <= i < grouped_digits(n, phase).len() ==> ((#[trigger] grouped_digits(n, phase)[i]
                == '_') <==> ((i + phase) % 4 == 3)),
    decreases n,
{
    let rest = n / 10;
    let next = (phase + 1) % 3;
    let dig = digit_char(n % 10);
    assert(dig != '_');
    if rest == 0 {
        assert(grouped_digits(rest, next) =~= Seq::<char>::empty());
        assert(grouped_digits(n, phase) =~= seq![dig]);
    } else {
        lemma_grouped_digits_layout(rest, next);
        let tail = grouped_digits(rest, next);
        assert(decimal_len(n as nat) == 1 + decimal_len(rest as nat));
        if next == 0 {
            assert(grouped_digits(n, phase) =~= seq![dig, '_'] + tail);
            assert forall|i: int| 0 <= i < grouped_digits(n, phase).len() implies ((
            #[trigger] grouped_digits(n, phase)[i] == '_') <==> ((i + phase) % 4 == 3)) by {
                if i >= 2 {
                    assert(grouped_digits(n, phase)[i] == tail[i - 2]);
                }
            }
        } else {
            assert(grouped_digits(n, phase) =~= seq![dig] + tail);
            assert forall|i: int| 0 <= i < grouped_digits(n, phase).len() implies ((
            #[trigger] grouped_digits(n, phase)[i] == '_') <==> ((i + phase) % 4 == 3)) by {
                if i >= 1 {
                    assert(grouped_digits(n, phase)[i] == tail[i - 1]);
                }
            }
        }
    }
}

/// `add_integer` on a positive number writes its `d` digits with
/// `(d - 1) / 3` underscores, one after every third digit that more digits
/// follow: the underscores stand exactly at the indices 3, 7, 11, ...
pub proof fn lemma_add_integer_separators(n: int)
    requires
        n > 0,
    ensures
        grouped_digits(n, 0).len() == decimal_len(n as nat) + (decimal_len(n as nat) - 1) / 3,
        forall|i: int|
            0 <= i < grouped_digits(n, 0).len() ==> ((#[trigger] grouped_digits(n, 0)[i] == '_')
                <==> (i % 4 == 3)),
{
    lemma_grouped_digits_layout(n, 0);
}

} // verus!
