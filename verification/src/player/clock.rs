use vstd::prelude::*;
use vstd::string::*;

verus! {

/// The character of a decimal digit.
pub open spec fn digit_char(d: nat) -> char {
    if d == 0 { '0' }
    else if d == 1 { '1' }
    else if d == 2 { '2' }
    else if d == 3 { '3' }
    else if d == 4 { '4' }
    else if d == 5 { '5' }
    else if d == 6 { '6' }
    else if d == 7 { '7' }
    else if d == 8 { '8' }
    else { '9' }
}

/// The decimal text of a number, without leading zeros.
pub open spec fn decimal(n: nat) -> Seq<char>
    decreases n,
{
    if n < 10 {
        seq![digit_char(n)]
    } else {
        decimal(n / 10).push(digit_char(n % 10))
    }
}

/// The decimal text of a number below 100, on two digits.
pub open spec fn two_digits(n: nat) -> Seq<char> {
    if n < 10 {
        seq!['0', digit_char(n)]
    } else {
        decimal(n)
    }
}

/// The clock text of a duration in whole seconds: `M:SS` under an hour,
/// `H:MM:SS` from an hour on.
pub open spec fn clock_text(total_secs: nat) -> Seq<char> {
    let hours = total_secs / 3600;
    let minutes = (total_secs % 3600) / 60;
    let seconds = total_secs % 60;
    if hours > 0 {
        decimal(hours) + seq![':'] + two_digits(minutes) + seq![':'] + two_digits(seconds)
    } else {
        decimal(minutes) + seq![':'] + two_digits(seconds)
    }
}

fn push_digit(s: &mut String, d: u64)
    requires
        d < 10,
    ensures
        final(s)@ == old(s)@.push(digit_char(d as nat)),
{
    let t = if d == 0 { "0" }
        else if d == 1 { "1" }
        else if d == 2 { "2" }
        else if d == 3 { "3" }
        else if d == 4 { "4" }
        else if d == 5 { "5" }
        else if d == 6 { "6" }
        else if d == 7 { "7" }
        else if d == 8 { "8" }
        else { "9" };
    proof {
        reveal_strlit("0");
        reveal_strlit("1");
        reveal_strlit("2");
        reveal_strlit("3");
        reveal_strlit("4");
        reveal_strlit("5");
        reveal_strlit("6");
        reveal_strlit("7");
        reveal_strlit("8");
        reveal_strlit("9");
        assert(t@ =~= seq![digit_char(d as nat)]);
    }
    s.append(t);
}

fn push_decimal(s: &mut String, n: u64)
    ensures
        final(s)@ == old(s)@ + decimal(n as nat),
    decreases n,
{
    if n >= 10 {
        push_decimal(s, n / 10);
    }
    push_digit(s, n % 10);
    proof {
        if n >= 10 {
            assert(old(s)@ + decimal((n / 10) as nat) + seq![digit_char((n % 10) as nat)]
                =~= old(s)@ + decimal(n as nat));
        } else {
            assert(old(s)@.push(digit_char((n % 10) as nat)) =~= old(s)@ + decimal(n as nat));
        }
    }
}

fn push_two_digits(s: &mut String, n: u64)
    requires
        n < 100,
    ensures
        final(s)@ == old(s)@ + two_digits(n as nat),
{
    if n < 10 {
        push_digit(s, 0);
        push_digit(s, n);
        proof {
            assert(old(s)@.push('0').push(digit_char(n as nat)) =~= old(s)@ + two_digits(n as nat));
        }
    } else {
        push_decimal(s, n);
    }
}

fn push_colon(s: &mut String)
    ensures
        final(s)@ == old(s)@ + seq![':'],
{
    let c = ":";
    proof {
        reveal_strlit(":");
    }
    s.append(c);
}

/// Formats a duration, given in whole seconds, as `M:SS` or `H:MM:SS`.
pub fn format_duration(total_secs: u64) -> (s: String)
    ensures
        s@ == clock_text(total_secs as nat),
{
    let hours = total_secs / 3600;
    let minutes = (total_secs % 3600) / 60;
    let seconds = total_secs % 60;
    let mut s = String::new();
    if hours > 0 {
        push_decimal(&mut s, hours);
        push_colon(&mut s);
        push_two_digits(&mut s, minutes);
        push_colon(&mut s);
        push_two_digits(&mut s, seconds);
    } else {
        push_decimal(&mut s, minutes);
        push_colon(&mut s);
        push_two_digits(&mut s, seconds);
    }
    proof {
        assert(s@ =~= clock_text(total_secs as nat));
    }
    s
}

/// The number that a text of decimal digits stands for.
pub open spec fn digits_value(t: Seq<char>) -> int
    decreases t.len(),
{
    if t.len() == 0 {
        0
    } else {
        digits_value(t.drop_last()) * 10 + (t.last() as int - '0' as int)
    }
}

/// Whether every character of a text is a decimal digit.
pub open spec fn all_digits(t: Seq<char>) -> bool {
    forall|j: int| 0 <= j < t.len() ==> '0' <= #[trigger] t[j] <= '9'
}

proof fn lemma_digit_char_code(d: nat)
    requires
        d < 10,
    ensures
        digit_char(d) as int == '0' as int + d,
{
}

/// The decimal text of a number is made of digits, reads back as the
/// number, and has no leading zero (zero itself is the single digit `0`).
pub proof fn lemma_decimal_reads_back(n: nat)
    ensures
        decimal(n).len() >= 1,
        all_digits(decimal(n)),
        digits_value(decimal(n)) == n,
        n > 0 ==> decimal(n)[0] != '0',
        n == 0 ==> decimal(n).len() == 1,
    decreases n,
{
    assert(digits_value(Seq::<char>::empty()) == 0);
    if n < 10 {
        lemma_digit_char_code(n);
        let t = seq![digit_char(n)];
        assert(t.drop_last() =~= Seq::<char>::empty());
        assert(digits_value(t) == digits_value(t.drop_last()) * 10 + (t.last() as int - '0' as int));
    } else {
        lemma_decimal_reads_back(n / 10);
        lemma_digit_char_code(n % 10);
        let t = decimal(n);
        let r = decimal(n / 10);
        assert(t == r.push(digit_char(n % 10)));
        assert(t.drop_last() =~= r);
        assert(t.last() == digit_char(n % 10));
        assert(digits_value(t) == digits_value(r) * 10 + (t.last() as int - '0' as int));
        assert((n / 10) * 10 + n % 10 == n);
        assert(t[0] == r[0]);
        assert(forall|j: int| 0 <= j < r.len() ==> t[j] == r[j]);
    }
}

/// A two-digit field is exactly two digits and reads back as its value:
/// the tens, then the units.
pub proof fn lemma_two_digits_reads_back(n: nat)
    requires
        n < 100,
    ensures
        two_digits(n).len() == 2,
        two_digits(n)[0] as int == '0' as int + n / 10,
        two_digits(n)[1] as int == '0' as int + n % 10,
        all_digits(two_digits(n)),
        digits_value(two_digits(n)) == n,
{
    lemma_digit_char_code(n / 10);
    lemma_digit_char_code(n % 10);
    if n >= 10 {
        assert(decimal(n / 10) =~= seq![digit_char(n / 10)]);
        assert(decimal(n) =~= seq![digit_char(n / 10), digit_char(n % 10)]);
    }
    let t = two_digits(n);
    assert(t =~= seq![digit_char(n / 10), digit_char(n % 10)]);
    assert(t.drop_last() =~= seq![t[0]]);
    assert(t.drop_last().drop_last() =~= Seq::<char>::empty());
    assert(digits_value(Seq::<char>::empty()) == 0);
    assert(digits_value(seq![t[0]]) == digits_value(seq![t[0]].drop_last()) * 10 + (t[0] as int - '0' as int));
    assert(digits_value(t) == digits_value(t.drop_last()) * 10 + (t[1] as int - '0' as int));
}

/// The clock text reads back as the duration: under an hour, the minutes,
/// a colon and the seconds on two digits; from an hour on, the hours, a
/// colon, the minutes on two digits, a colon and the seconds on two digits.
/// The leading field has no leading zero, the others are below 60.
pub proof fn lemma_clock_text_reads_back(total_secs: nat)
    ensures
        ({
            let c = clock_text(total_secs);
            if total_secs < 3600 {
                let k = c.len() - 3;
                &&& k >= 1
                &&& c[k] == ':'
                &&& all_digits(c.subrange(0, k)) && all_digits(c.subrange(k + 1, c.len() as int))
                &&& digits_value(c.subrange(0, k)) == total_secs / 60
                &&& (k > 1 ==> c[0] != '0')
                &&& digits_value(c.subrange(k + 1, c.len() as int)) == total_secs % 60
            } else {
                let k = c.len() - 6;
                &&& k >= 1
                &&& c[k] == ':' && c[k + 3] == ':'
                &&& all_digits(c.subrange(0, k)) && all_digits(c.subrange(k + 1, k + 3))
                &&& all_digits(c.subrange(k + 4, c.len() as int))
                &&& digits_value(c.subrange(0, k)) == total_secs / 3600
                &&& c[0] != '0'
                &&& digits_value(c.subrange(k + 1, k + 3)) * 60 + digits_value(
                    c.subrange(k + 4, c.len() as int),
                ) == total_secs % 3600
                &&& digits_value(c.subrange(k + 1, k + 3)) < 60
                &&& digits_value(c.subrange(k + 4, c.len() as int)) < 60
            }
        }),
{
    let h = total_secs / 3600;
    let m = (total_secs % 3600) / 60;
    let sec = total_secs % 60;
    let c = clock_text(total_secs);
    lemma_two_digits_reads_back(sec);
    lemma_two_digits_reads_back(m);
    if total_secs < 3600 {
        assert(h == 0);
        assert(m == total_secs / 60);
        lemma_decimal_reads_back(m);
        let a = decimal(m);
        let k = a.len() as int;
        assert(c =~= a + seq![':'] + two_digits(sec));
        assert(c.subrange(0, k) =~= a);
        assert(c.subrange(k + 1, c.len() as int) =~= two_digits(sec));
        if k > 1 {
            assert(c[0] == a[0]);
        }
    } else {
        assert(h >= 1);
        lemma_decimal_reads_back(h);
        let a = decimal(h);
        let k = a.len() as int;
        assert(c =~= a + seq![':'] + two_digits(m) + seq![':'] + two_digits(sec));
        assert(c.subrange(0, k) =~= a);
        assert(c.subrange(k + 1, k + 3) =~= two_digits(m));
        assert(c.subrange(k + 4, c.len() as int) =~= two_digits(sec));
        assert(c[0] == a[0]);
        assert(m * 60 + sec == total_secs % 3600);
    }
}

} // verus!
