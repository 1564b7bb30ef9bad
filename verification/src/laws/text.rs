//! Trimming and decimal numbers, said of the characters themselves.

use vstd::prelude::*;

verus! {

// ---------------------------------------------------------------------------
// Trailing slashes
// ---------------------------------------------------------------------------

/// Trimming cuts off slashes at the end and nothing else: what is left is the
/// beginning of the text, everything behind it is slashes, and it does not end
/// in one. A text that does not end in a slash is left as it is.
pub proof fn trimming_cuts_only_trailing_slashes(s: Seq<char>)
    ensures
        ({
            let left = crate::text::trimmed(s);
            &&& left.len() <= s.len()
            &&& left == s.take(left.len() as int)
            &&& forall|i: int| left.len() <= i < s.len() ==> #[trigger] s[i] == '/'
            &&& left.len() > 0 ==> left.last() != '/'
            &&& (s.len() == 0 || s.last() != '/') ==> left == s
        }),
    decreases s.len(),
{
    let left = crate::text::trimmed(s);
    if s.len() > 0 && s.last() == '/' {
        let shorter = s.drop_last();
        trimming_cuts_only_trailing_slashes(shorter);
        assert(left == crate::text::trimmed(shorter));
        assert(left =~= s.take(left.len() as int));
        assert forall|i: int| left.len() <= i < s.len() implies #[trigger] s[i] == '/' by {
            if i < s.len() - 1 {
                assert(shorter[i] == s[i]);
            }
        }
    } else {
        assert(s.take(s.len() as int) =~= s);
    }
}

/// There is only one way to cut off all the slashes at the end: any beginning of
/// the text that does not end in a slash and is followed by slashes alone is what
/// trimming leaves.
pub proof fn trimming_has_one_outcome(s: Seq<char>, base: Seq<char>)
    requires
        base.is_prefix_of(s),
        forall|i: int| base.len() <= i < s.len() ==> #[trigger] s[i] == '/',
        base.len() > 0 ==> base.last() != '/',
    ensures
        crate::text::trimmed(s) == base,
{
    trimming_cuts_only_trailing_slashes(s);
    let left = crate::text::trimmed(s);
    if left.len() < base.len() {
        assert(s[base.len() - 1] == '/');
        assert(base.last() == s[base.len() - 1]);
    }
    if base.len() < left.len() {
        assert(s[left.len() - 1] == '/');
        assert(left.last() == s[left.len() - 1]);
    }
    assert(left =~= base);
}

// ---------------------------------------------------------------------------
// Decimal numbers
// ---------------------------------------------------------------------------

/// A number below ten is written as its digit.
pub proof fn digit_is_written_as_itself(d: int)
    requires
        0 <= d < 10,
    ensures
        crate::text::decimal(d as nat) == seq!["0123456789"@[d]],
{
    reveal_strlit("0123456789");
}

/// Ten times a number and a digit more is written as the number and then the
/// digit.
pub proof fn last_digit_is_written_last(n: nat, d: nat)
    requires
        n > 0,
        d < 10,
    ensures
        crate::text::decimal(n * 10 + d) == crate::text::decimal(n) + crate::text::decimal(d),
{
    assert((n * 10 + d) / 10 == n);
    assert((n * 10 + d) % 10 == d);
    assert(crate::text::decimal(n * 10 + d) =~= crate::text::decimal(n) + crate::text::decimal(d));
}

/// A digit alone is read as the number that it stands for.
pub proof fn digit_is_read_as_itself(d: int)
    requires
        0 <= d < 10,
    ensures
        crate::text::u64_of_text(seq!["0123456789"@[d]]) == Some(d as u64),
{
    reveal_strlit("0123456789");
    let s = seq!["0123456789"@[d]];
    reveal_with_fuel(crate::text::decimal_value, 2);
    assert(s.drop_last() =~= Seq::<char>::empty());
    assert(s.last() == s[0]);
}

/// One more digit makes the number ten times as large and adds the digit; a
/// number that then does not fit is refused.
pub proof fn one_more_digit_is_read(s: Seq<char>, n: u64, d: int)
    requires
        crate::text::u64_of_text(s) == Some(n),
        0 <= d < 10,
    ensures
        crate::text::u64_of_text(s.push("0123456789"@[d])) == if n * 10 + d <= u64::MAX {
            Some((n * 10 + d) as u64)
        } else {
            None::<u64>
        },
{
    reveal_strlit("0123456789");
    let c = "0123456789"@[d];
    let digits = crate::text::unsigned_digits(s);
    let longer = crate::text::unsigned_digits(s.push(c));
    assert(longer =~= digits.push(c));
    assert(longer.drop_last() =~= digits);
    crate::text::decimal_value_of_prefix(digits, 0);
    assert(digits.take(0) =~= Seq::<char>::empty());
    assert forall|i: int| 0 <= i < longer.len() implies crate::text::is_digit(
        #[trigger] longer[i],
    ) by {
        if i < digits.len() {
            assert(longer[i] == digits[i]);
        }
    }
}

/// A text that is refused, and more than a lone sign, is not accepted with
/// another character behind it: neither a stray character nor a number that is
/// too large is mended by what follows.
pub proof fn refused_number_stays_refused(s: Seq<char>, c: char)
    requires
        crate::text::u64_of_text(s) is None,
        s.len() > 0,
        s != seq!['+'],
    ensures
        crate::text::u64_of_text(s.push(c)) is None,
{
    let digits = crate::text::unsigned_digits(s);
    let longer = crate::text::unsigned_digits(s.push(c));
    assert(longer =~= digits.push(c));
    if digits.len() == 0 {
        assert(s =~= seq!['+']);
    }
    if crate::text::all_digits(longer) {
        assert forall|i: int| 0 <= i < digits.len() implies crate::text::is_digit(
            #[trigger] digits[i],
        ) by {
            assert(longer[i] == digits[i]);
        }
        crate::text::decimal_value_of_prefix(longer, digits.len() as int);
        assert(longer.take(digits.len() as int) =~= digits);
    }
}

/// A plus sign in front makes no difference, and a second one is refused.
pub proof fn plus_sign_is_skipped(s: Seq<char>)
    ensures
        crate::text::u64_of_text(seq!['+'] + s) == if s.len() > 0 && s[0] == '+' {
            None::<u64>
        } else {
            crate::text::u64_of_text(s)
        },
{
    assert((seq!['+'] + s).skip(1) =~= s);
}

/// No text is accepted that is empty, or that holds a character besides digits
/// and a plus sign in front.
pub proof fn only_digits_are_read(s: Seq<char>, i: int)
    ensures
        crate::text::u64_of_text(seq![]) is None,
        0 <= i < s.len() && !('0' <= s[i] <= '9') && !(i == 0 && s[i] == '+')
            ==> crate::text::u64_of_text(s) is None,
{
    let digits = crate::text::unsigned_digits(s);
    if 0 <= i < s.len() && !('0' <= s[i] <= '9') && !(i == 0 && s[i] == '+') {
        let k = if s[0] == '+' { i - 1 } else { i };
        assert(digits[k] == s[i]);
        assert(!crate::text::is_digit(digits[k]));
    }
}

// ---------------------------------------------------------------------------
// Views
// ---------------------------------------------------------------------------

/// Contracts compare texts character by character, wherever a text stands: in an
/// option, in a list or in a result.
pub proof fn texts_are_compared_in_full(
    v: Seq<String>,
    s: Option<String>,
    t: Option<&str>,
    r: Result<String, String>,
)
    ensures
        crate::text::texts(v).len() == v.len(),
        forall|i: int| 0 <= i < v.len() ==> crate::text::texts(v)[i] == (#[trigger] v[i])@,
        s is None ==> crate::text::optional_text(s) is None,
        s is Some ==> crate::text::optional_text(s) == Some((s->0)@),
        t is None ==> crate::text::optional_str(t) is None,
        t is Some ==> crate::text::optional_str(t) == Some((t->0)@),
        r is Ok ==> crate::text::texts_of_result(r) == Ok::<Seq<char>, Seq<char>>((r->Ok_0)@),
        r is Err ==> crate::text::texts_of_result(r) == Err::<Seq<char>, Seq<char>>((r->Err_0)@),
{
}

} // verus!
