//! Text forms of hashes and numbers, and the joining of texts.

use vstd::arithmetic::div_mod::lemma_div_denominator;
use vstd::arithmetic::power::{lemma_pow0, lemma_pow1, lemma_pow_positive, pow};
use vstd::prelude::*;
use vstd::string::StringExecFns;

use crate::types::B256;

verus! {

/// The lower-case hexadecimal digit of `n`.
pub open spec fn hex_digit(n: int) -> char
    recommends
        0 <= n < 16,
{
    if n < 10 {
        ('0' as int + n) as char
    } else {
        ('a' as int + n - 10) as char
    }
}

/// Two lower-case hexadecimal digits for each byte, the high half first.
pub open spec fn hex_digits(bytes: Seq<u8>) -> Seq<char> {
    Seq::new(
        2 * bytes.len(),
        |i: int|
            if i % 2 == 0 {
                hex_digit(bytes[i / 2] as int / 16)
            } else {
                hex_digit(bytes[i / 2] as int % 16)
            },
    )
}

/// The text of a hash: `0x`, then its 64 hexadecimal digits.
pub open spec fn hash_chars(hash: B256) -> Seq<char> {
    "0x"@ + hex_digits(hash@)
}

/// The decimal digits of `n`, without leading zeros.
pub open spec fn decimal_digits(n: nat) -> Seq<char>
    decreases n,
{
    if n < 10 {
        seq![('0' as int + n) as char]
    } else {
        decimal_digits(n / 10).push(('0' as int + n % 10) as char)
    }
}

/// Text of a hash, as `alloy_primitives::B256` displays itself.
///
/// Trusted: the `Display` impl of `FixedBytes<32>`, asked for without the
/// alternate flag, writes `0x` and the full lower-case hexadecimal form.
#[verifier::external_body]
pub(crate) fn hash_text(hash: &B256) -> (text: String)
    ensures
        text@ == hash_chars(*hash),
{
    alloy_primitives::B256::new(*hash).to_string()
}

/// The one-character text of a decimal digit.
fn digit_text(digit: u64) -> (text: &'static str)
    requires
        digit < 10,
    ensures
        text@ == seq![('0' as int + digit) as char],
{
    proof {
        reveal_strlit("0");
        reveal_strlit("1");
        reveal_strlit("2");
        reveal_strlit("3");
        reveal_strlit("4");
        reveal_strlit("5");
        reveal_strlit("6");
        reveal_strlit("7");
        reveal_strlit("8");
        reveal_strlit("9");
    }
    match digit {
        0 => "0",
        1 => "1",
        2 => "2",
        3 => "3",
        4 => "4",
        5 => "5",
        6 => "6",
        7 => "7",
        8 => "8",
        _ => "9",
    }
}

/// Decimal text of a number.
pub(crate) fn number_text(n: u64) -> (text: String)
    ensures
        text@ == decimal_digits(n as nat),
    decreases n,
{
    if n < 10 {
        digit_text(n).to_owned()
    } else {
        let mut text = number_text(n / 10);
        text.append(digit_text(n % 10));
        text
    }
}

/// Decimal text spells the number: the digit at each place is the number's
/// digit there, no place is missing, and the first digit of several is not zero.
pub proof fn law_decimal_digits_spell_the_number(n: nat)
    ensures
        1 <= decimal_digits(n).len(),
        n < pow(10, decimal_digits(n).len()),
        decimal_digits(n).len() > 1 ==> decimal_digits(n)[0] != '0',
        forall|i: int|
            0 <= i < decimal_digits(n).len() ==> #[trigger] decimal_digits(n)[i] as int == '0' as int
                + (n as int / pow(10, (decimal_digits(n).len() - 1 - i) as nat)) % 10,
    decreases n,
{
    let digits = decimal_digits(n);
    lemma_pow0(10);
    lemma_pow1(10);
    if n >= 10 {
        law_decimal_digits_spell_the_number(n / 10);
        let head = decimal_digits(n / 10);
        assert(digits.len() == head.len() + 1);
        assert(pow(10, digits.len()) == 10 * pow(10, head.len())) by {
            reveal(pow);
        }
        assert forall|i: int| 0 <= i < digits.len() implies #[trigger] digits[i] as int == '0' as int
            + (n as int / pow(10, (digits.len() - 1 - i) as nat)) % 10 by {
            if i < head.len() {
                let place = (head.len() - 1 - i) as nat;
                assert(digits[i] == head[i]);
                lemma_pow_positive(10, place);
                assert(pow(10, place + 1) == 10 * pow(10, place)) by {
                    reveal(pow);
                }
                lemma_div_denominator(n as int, 10, pow(10, place));
                assert((digits.len() - 1 - i) as nat == place + 1);
            }
        }
        if head.len() == 1 {
            assert(head[0] as int == '0' as int + (n / 10) as int % 10);
        }
    }
}

/// The text of a hash is `0x` and two lower-case hexadecimal digits for each
/// byte, the high half before the low one.
pub proof fn law_hash_text_spells_every_byte(hash: B256)
    ensures
        hash_chars(hash).len() == 66,
        hash_chars(hash)[0] == '0',
        hash_chars(hash)[1] == 'x',
        forall|i: int|
            #![trigger hash@[i]]
            0 <= i < 32 ==> {
                &&& hash_chars(hash)[2 + 2 * i] == "0123456789abcdef"@[hash@[i] as int / 16]
                &&& hash_chars(hash)[3 + 2 * i] == "0123456789abcdef"@[hash@[i] as int % 16]
            },
{
    reveal_strlit("0x");
    reveal_strlit("0123456789abcdef");
    assert forall|i: int|
        #![trigger hash@[i]]
        0 <= i < 32 implies {
        &&& hash_chars(hash)[2 + 2 * i] == "0123456789abcdef"@[hash@[i] as int / 16]
        &&& hash_chars(hash)[3 + 2 * i] == "0123456789abcdef"@[hash@[i] as int % 16]
    } by {
        assert(hex_digits(hash@)[2 * i] == hex_digit(hash@[i] as int / 16));
        assert(hex_digits(hash@)[2 * i + 1] == hex_digit(hash@[i] as int % 16));
    }
}

} // verus!
