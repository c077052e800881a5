use vstd::prelude::*;
use vstd::arithmetic::power::{pow, lemma_pow_positive};
use vstd::arithmetic::div_mod::{lemma_div_denominator, lemma_div_is_ordered, lemma_fundamental_div_mod};

verus! {

/// The letter that encodes a four-bit value: `A` for 0 up to `P` for 15.
pub open spec fn nibble_letter(n: int) -> char {
    if n == 0 {
        'A'
    } else if n == 1 {
        'B'
    } else if n == 2 {
        'C'
    } else if n == 3 {
        'D'
    } else if n == 4 {
        'E'
    } else if n == 5 {
        'F'
    } else if n == 6 {
        'G'
    } else if n == 7 {
        'H'
    } else if n == 8 {
        'I'
    } else if n == 9 {
        'J'
    } else if n == 10 {
        'K'
    } else if n == 11 {
        'L'
    } else if n == 12 {
        'M'
    } else if n == 13 {
        'N'
    } else if n == 14 {
        'O'
    } else {
        'P'
    }
}

/// Eight letters that encode the low 32 bits of `x`, least significant
/// four bits first.
pub open spec fn word_letters(x: int) -> Seq<char> {
    Seq::new(8, |i: int| nibble_letter((x / pow(16, i as nat)) % 16))
}

/// The business key of a surrogate key: the letters of its high 32 bits
/// followed by those of its low 32 bits (two's complement).
pub open spec fn business_key_spec(primary: int) -> Seq<char> {
    let u = (primary as u64) as int;
    word_letters(u / 0x1_0000_0000) + word_letters(u % 0x1_0000_0000)
}

/// Distinct four-bit values have distinct letters.
proof fn lemma_nibble_letter_injective(a: int, b: int)
    requires
        0 <= a < 16,
        0 <= b < 16,
    ensures
        nibble_letter(a) == nibble_letter(b) ==> a == b,
{
}

/// Two numbers below `16^n` with the same `n` base-16 digits are equal.
proof fn lemma_same_digits_same_number(x: int, y: int, n: nat)
    requires
        0 <= x < pow(16, n),
        0 <= y < pow(16, n),
        forall|i: nat| i < n ==> (x / pow(16, i)) % 16 == #[trigger] ((y / pow(16, i)) % 16),
    ensures
        x == y,
    decreases n,
{
    reveal(pow);
    if n > 0 {
        assert((x / pow(16, 0)) % 16 == (y / pow(16, 0)) % 16);
        let xs = x / 16;
        let ys = y / 16;
        assert forall|i: nat| i < (n - 1) as nat implies (xs / pow(16, i)) % 16 == #[trigger] ((ys
            / pow(16, i)) % 16) by {
            lemma_pow_positive(16, i);
            lemma_div_denominator(x, 16, pow(16, i));
            lemma_div_denominator(y, 16, pow(16, i));
            assert(pow(16, i + 1) == 16 * pow(16, i));
            assert((x / pow(16, i + 1)) % 16 == (y / pow(16, i + 1)) % 16);
        }
        lemma_pow_positive(16, (n - 1) as nat);
        lemma_div_is_ordered(x, pow(16, n) - 1, 16);
        lemma_div_is_ordered(y, pow(16, n) - 1, 16);
        assert(pow(16, n) == 16 * pow(16, (n - 1) as nat));
        assert((pow(16, n) - 1) / 16 < pow(16, (n - 1) as nat)) by (nonlinear_arith)
            requires
                pow(16, n) == 16 * pow(16, (n - 1) as nat),
        ;
        lemma_same_digits_same_number(xs, ys, (n - 1) as nat);
        lemma_fundamental_div_mod(x, 16);
        lemma_fundamental_div_mod(y, 16);
    }
}

/// Distinct 32-bit words have distinct letters.
proof fn lemma_word_letters_injective(x: int, y: int)
    requires
        0 <= x < 0x1_0000_0000,
        0 <= y < 0x1_0000_0000,
        word_letters(x) == word_letters(y),
    ensures
        x == y,
{
    reveal_with_fuel(pow, 9);
    assert(pow(16, 8) == 0x1_0000_0000);
    assert forall|i: nat| i < 8 implies (x / pow(16, i)) % 16 == #[trigger] ((y / pow(16, i)) % 16) by {
        lemma_pow_positive(16, i);
        let dx = (x / pow(16, i)) % 16;
        let dy = (y / pow(16, i)) % 16;
        assert(((i as int) as nat) == i);
        assert(word_letters(x)[i as int] == nibble_letter(dx));
        assert(word_letters(y)[i as int] == nibble_letter(dy));
        lemma_nibble_letter_injective(dx, dy);
    }
    lemma_same_digits_same_number(x, y, 8);
}

/// Distinct surrogate keys have distinct business keys.
pub proof fn lemma_business_key_injective(a: i64, b: i64)
    ensures
        business_key_spec(a as int) == business_key_spec(b as int) ==> a == b,
{
    if business_key_spec(a as int) == business_key_spec(b as int) {
        let u = (a as u64) as int;
        let v = (b as u64) as int;
        let ku = business_key_spec(a as int);
        let kv = business_key_spec(b as int);
        assert(ku.subrange(0, 8) =~= word_letters(u / 0x1_0000_0000));
        assert(kv.subrange(0, 8) =~= word_letters(v / 0x1_0000_0000));
        assert(ku.subrange(8, 16) =~= word_letters(u % 0x1_0000_0000));
        assert(kv.subrange(8, 16) =~= word_letters(v % 0x1_0000_0000));
        lemma_word_letters_injective(u / 0x1_0000_0000, v / 0x1_0000_0000);
        lemma_word_letters_injective(u % 0x1_0000_0000, v % 0x1_0000_0000);
        lemma_fundamental_div_mod(u, 0x1_0000_0000);
        lemma_fundamental_div_mod(v, 0x1_0000_0000);
        assert(a as u64 == b as u64);
        assert((a as u64) == (b as u64) ==> a == b) by (bit_vector);
    }
}

/// The letter of a four-bit value.
fn letter_of(n: u64) -> (r: char)
    requires
        n < 16,
    ensures
        r == nibble_letter(n as int),
{
    match n {
        0 => 'A',
        1 => 'B',
        2 => 'C',
        3 => 'D',
        4 => 'E',
        5 => 'F',
        6 => 'G',
        7 => 'H',
        8 => 'I',
        9 => 'J',
        10 => 'K',
        11 => 'L',
        12 => 'M',
        13 => 'N',
        14 => 'O',
        _ => 'P',
    }
}

/// Appends the eight letters of a 32-bit word.
fn append_word(key: &mut String, word: u64)
    requires
        word < 0x1_0000_0000,
    ensures
        final(key)@ == old(key)@ + word_letters(word as int),
{
    let mut n: u64 = word;
    let mut i: usize = 0;
    let ghost start = key@;
    proof {
        vstd::arithmetic::power::lemma_pow0(16);
    }
    while i < 8
        invariant
            i <= 8,
            word < 0x1_0000_0000,
            0 <= pow(16, i as nat),
            n as int == (word as int) / pow(16, i as nat),
            key@ == start + word_letters(word as int).subrange(0, i as int),
        decreases 8 - i,
    {
        let c = letter_of(n % 16);
        key.push(c);
        proof {
            vstd::arithmetic::power::lemma_pow_adds(16, i as nat, 1);
            vstd::arithmetic::power::lemma_pow1(16);
            vstd::arithmetic::power::lemma_pow_positive(16, i as nat);
            vstd::arithmetic::div_mod::lemma_div_denominator(
                word as int,
                pow(16, i as nat),
                16,
            );
            assert(pow(16, (i + 1) as nat) == pow(16, i as nat) * 16);
            assert(word_letters(word as int)[i as int] == nibble_letter(((word as int) / pow(16, i as nat)) % 16));
            assert(key@ =~= start + word_letters(word as int).subrange(0, i + 1));
        }
        n = n / 16;
        i += 1;
    }
    assert(word_letters(word as int).subrange(0, 8) =~= word_letters(word as int));
}

/// The business key of a surrogate key: sixteen letters from `A` to `P`
/// that spell out its 64 bits, four at a time.
pub fn make_business_key(primary: i64) -> (r: String)
    ensures
        r@ == business_key_spec(primary as int),
{
    let u: u64 = primary as u64;
    let mut key = String::new();
    append_word(&mut key, u / 0x1_0000_0000);
    append_word(&mut key, u % 0x1_0000_0000);
    key
}

} // verus!
