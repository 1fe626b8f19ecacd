//! Correlation keys: the identifier that a reason form carries back, made of
//! the `sanction` namespace and the id of the command interaction in decimal.
use vstd::prelude::*;
use vstd::arithmetic::div_mod::lemma_fundamental_div_mod;

verus! {

/// The bytes of `sanction:`.
pub open spec fn namespace() -> Seq<u8> {
    seq![115u8, 97u8, 110u8, 99u8, 116u8, 105u8, 111u8, 110u8, 58u8]
}

/// Length of the namespace prefix.
pub const NAMESPACE_LEN: usize = 9;

/// Whether `b` is an ASCII decimal digit.
pub open spec fn is_digit(b: u8) -> bool {
    48 <= b <= 57
}

/// The decimal digits of `n`, most significant first, without leading zeros.
pub open spec fn decimal(n: nat) -> Seq<u8>
    decreases n,
{
    if n < 10 {
        seq![(48 + n) as u8]
    } else {
        decimal(n / 10).push((48 + n % 10) as u8)
    }
}

/// The number that the digits `s` write in decimal.
pub open spec fn digits_value(s: Seq<u8>) -> nat
    decreases s.len(),
{
    if s.len() == 0 {
        0
    } else {
        digits_value(s.drop_last()) * 10 + (s.last() - 48) as nat
    }
}

/// The key of the command interaction `id`.
pub open spec fn key_of(id: u64) -> Seq<u8> {
    namespace() + decimal(id as nat)
}

/// The interaction id that the key `s` carries, if `s` is one.
pub open spec fn parse_key(s: Seq<u8>) -> Option<u64> {
    let digits = s.skip(NAMESPACE_LEN as int);
    if s.len() > NAMESPACE_LEN && s.take(NAMESPACE_LEN as int) == namespace()
        && (forall|i: int| 0 <= i < digits.len() ==> is_digit(#[trigger] digits[i]))
        && digits_value(digits) <= u64::MAX {
        Some(digits_value(digits) as u64)
    } else {
        None
    }
}

proof fn lemma_decimal(n: nat)
    ensures
        decimal(n).len() >= 1,
        forall|i: int| 0 <= i < decimal(n).len() ==> is_digit(#[trigger] decimal(n)[i]),
        digits_value(decimal(n)) == n,
    decreases n,
{
    let d = decimal(n);
    if n >= 10 {
        lemma_decimal(n / 10);
        lemma_fundamental_div_mod(n as int, 10);
        assert(d.drop_last() =~= decimal(n / 10));
        assert(d.last() == (48 + n % 10) as u8);
        assert(digits_value(d) == digits_value(decimal(n / 10)) * 10 + n % 10);
    } else {
        assert(d.drop_last() =~= Seq::<u8>::empty());
        assert(digits_value(d) == digits_value(d.drop_last()) * 10 + (d.last() - 48) as nat);
    }
}

proof fn lemma_digits_grow(s: Seq<u8>, i: int)
    requires
        0 <= i < s.len(),
        is_digit(s[i]),
    ensures
        digits_value(s.take(i + 1)) == digits_value(s.take(i)) * 10 + (s[i] - 48) as nat,
        digits_value(s.take(i + 1)) >= digits_value(s.take(i)),
{
    assert(s.take(i + 1).drop_last() =~= s.take(i));
}

proof fn lemma_digits_monotone(s: Seq<u8>, i: int, j: int)
    requires
        0 <= i <= j <= s.len(),
        forall|k: int| 0 <= k < s.len() ==> is_digit(#[trigger] s[k]),
    ensures
        digits_value(s.take(j)) >= digits_value(s.take(i)),
    decreases j - i,
{
    if i < j {
        lemma_digits_monotone(s, i, j - 1);
        lemma_digits_grow(s, j - 1);
    }
}

fn push_decimal(n: u64, out: &mut Vec<u8>)
    ensures
        final(out)@ == old(out)@ + decimal(n as nat),
    decreases n,
{
    if n >= 10 {
        push_decimal(n / 10, out);
    }
    out.push(48 + (n % 10) as u8);
    proof {
        if n >= 10 {
            assert(old(out)@ + decimal(n as nat) =~= (old(out)@ + decimal((n / 10) as nat)).push((48 + n % 10) as u8));
        } else {
            assert(old(out)@ + decimal(n as nat) =~= old(out)@.push((48 + n % 10) as u8));
        }
    }
}

/// The correlation key of the command interaction `interaction_id`.
pub fn correlation_key(interaction_id: u64) -> (r: Vec<u8>)
    ensures
        r@ == key_of(interaction_id),
{
    let mut out: Vec<u8> = vec![115u8, 97u8, 110u8, 99u8, 116u8, 105u8, 111u8, 110u8, 58u8];
    proof {
        assert(out@ =~= namespace());
    }
    push_decimal(interaction_id, &mut out);
    out
}

/// Reads back the interaction id from a correlation key; `None` for bytes
/// that are no key, or whose number does not fit.
pub fn parse_correlation_key(s: &[u8]) -> (r: Option<u64>)
    ensures
        r == parse_key(s@),
{
    let ns: [u8; 9] = [115u8, 97u8, 110u8, 99u8, 116u8, 105u8, 111u8, 110u8, 58u8];
    if s.len() <= NAMESPACE_LEN {
        return None;
    }
    let mut i: usize = 0;
    while i < NAMESPACE_LEN
        invariant
            i <= NAMESPACE_LEN < s@.len(),
            ns@ == namespace(),
            forall|k: int| 0 <= k < i ==> s@[k] == namespace()[k],
        decreases NAMESPACE_LEN - i,
    {
        if s[i] != ns[i] {
            proof {
                assert(s@.take(NAMESPACE_LEN as int)[i as int] != namespace()[i as int]);
            }
            return None;
        }
        i = i + 1;
    }
    proof {
        assert(s@.take(NAMESPACE_LEN as int) =~= namespace());
    }
    let ghost digits = s@.skip(NAMESPACE_LEN as int);
    let mut value: u64 = 0;
    let mut j: usize = NAMESPACE_LEN;
    while j < s.len()
        invariant
            NAMESPACE_LEN <= j <= s@.len(),
            digits == s@.skip(NAMESPACE_LEN as int),
            s@.take(NAMESPACE_LEN as int) == namespace(),
            forall|k: int| 0 <= k < j - NAMESPACE_LEN ==> is_digit(#[trigger] digits[k]),
            value as nat == digits_value(digits.take(j - NAMESPACE_LEN)),
        decreases s@.len() - j,
    {
        let b = s[j];
        let ghost k = j - NAMESPACE_LEN;
        if b < 48 || b > 57 {
            proof {
                assert(digits[k] == b);
            }
            return None;
        }
        proof {
            assert(digits[k] == b);
            lemma_digits_grow(digits, k);
        }
        let d = (b - 48) as u64;
        if value > (18446744073709551615u64 - d) / 10 {
            proof {
                assert(value * 10 + d > 18446744073709551615u64) by (nonlinear_arith)
                    requires value > (18446744073709551615u64 - d) / 10, d <= 9;
                assert forall|m: int| 0 <= m < k + 1 implies is_digit(#[trigger] digits.take(k + 1)[m]) by {
                    assert(digits.take(k + 1)[m] == digits[m]);
                }
                if forall|m: int| 0 <= m < digits.len() ==> is_digit(#[trigger] digits[m]) {
                    lemma_digits_monotone(digits, k + 1, digits.len() as int);
                    assert(digits.take(digits.len() as int) =~= digits);
                }
            }
            return None;
        }
        proof {
            assert(value * 10 + d <= 18446744073709551615u64) by (nonlinear_arith)
                requires value <= (18446744073709551615u64 - d) / 10, d <= 9;
        }
        value = value * 10 + d;
        j = j + 1;
    }
    proof {
        assert(digits.take(j - NAMESPACE_LEN) =~= digits);
    }
    Some(value)
}

/// Reading back a correlation key gives the interaction id it was made from.
pub proof fn key_round_trip(interaction_id: u64)
    ensures
        parse_key(key_of(interaction_id)) == Some(interaction_id),
{
    let k = key_of(interaction_id);
    lemma_decimal(interaction_id as nat);
    assert(k.take(NAMESPACE_LEN as int) =~= namespace());
    assert(k.skip(NAMESPACE_LEN as int) =~= decimal(interaction_id as nat));
}

/// Distinct interactions have distinct correlation keys.
pub proof fn keys_are_distinct(a: u64, b: u64)
    requires
        a != b,
    ensures
        key_of(a) != key_of(b),
{
    key_round_trip(a);
    key_round_trip(b);
}

} // verus!
