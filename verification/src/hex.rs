//! Hexadecimal row identifiers: the digit accumulator that the framer runs
//! while reading an id field, and the lowercase renderer that turns the
//! accumulated number back into the id string carried by every chunk.

use vstd::prelude::*;
use vstd::string::StringExecFns;

verus! {

/// True of the sixteen characters the id field of a row may contain.
pub open spec fn is_hex_digit(c: char) -> bool {
    ||| c == '0'
    ||| c == '1'
    ||| c == '2'
    ||| c == '3'
    ||| c == '4'
    ||| c == '5'
    ||| c == '6'
    ||| c == '7'
    ||| c == '8'
    ||| c == '9'
    ||| c == 'a'
    ||| c == 'b'
    ||| c == 'c'
    ||| c == 'd'
    ||| c == 'e'
    ||| c == 'f'
}

/// Numeric value of a lowercase hexadecimal digit; zero on any other character.
pub open spec fn hex_digit_value(c: char) -> u64 {
    if c == '0' {
        0
    } else if c == '1' {
        1
    } else if c == '2' {
        2
    } else if c == '3' {
        3
    } else if c == '4' {
        4
    } else if c == '5' {
        5
    } else if c == '6' {
        6
    } else if c == '7' {
        7
    } else if c == '8' {
        8
    } else if c == '9' {
        9
    } else if c == 'a' {
        10
    } else if c == 'b' {
        11
    } else if c == 'c' {
        12
    } else if c == 'd' {
        13
    } else if c == 'e' {
        14
    } else if c == 'f' {
        15
    } else {
        0
    }
}

/// Lowercase hexadecimal digit for a value below sixteen.
pub open spec fn hex_char_of(v: u64) -> char
    recommends
        v < 16,
{
    if v == 0 {
        '0'
    } else if v == 1 {
        '1'
    } else if v == 2 {
        '2'
    } else if v == 3 {
        '3'
    } else if v == 4 {
        '4'
    } else if v == 5 {
        '5'
    } else if v == 6 {
        '6'
    } else if v == 7 {
        '7'
    } else if v == 8 {
        '8'
    } else if v == 9 {
        '9'
    } else if v == 10 {
        'a'
    } else if v == 11 {
        'b'
    } else if v == 12 {
        'c'
    } else if v == 13 {
        'd'
    } else if v == 14 {
        'e'
    } else {
        'f'
    }
}

/// One accumulation step of the id field: shift the previous value by one
/// hexadecimal digit and add the new digit, truncating to 64 bits.
pub open spec fn hex_step(prev: u64, c: char) -> u64 {
    (prev << 4) | hex_digit_value(c)
}

/// The number a sequence of hexadecimal digit characters denotes.
pub open spec fn hex_value_of(s: Seq<char>) -> nat
    decreases s.len(),
{
    if s.len() == 0 {
        0
    } else {
        hex_value_of(s.drop_last()) * 16 + hex_digit_value(s.last()) as nat
    }
}

/// The accumulator run left to right over a digit string, as the framer does.
pub open spec fn hex_fold(prev: u64, s: Seq<char>) -> u64
    decreases s.len(),
{
    if s.len() == 0 {
        prev
    } else {
        hex_fold(hex_step(prev, s[0]), s.skip(1))
    }
}

/// Sixteen to the given power.
pub open spec fn pow16(n: nat) -> nat
    decreases n,
{
    if n == 0 {
        1
    } else {
        16 * pow16((n - 1) as nat)
    }
}

/// Digits of a number in lowercase hexadecimal, most significant first;
/// empty for zero.
pub open spec fn hex_digits(n: u64) -> Seq<char>
    decreases n,
{
    if n == 0 {
        Seq::empty()
    } else {
        hex_digits(n / 16).push(hex_char_of(n % 16))
    }
}

/// A chunk id as rendered from the row's accumulated identifier: lowercase
/// hexadecimal with no leading zeros, and `"0"` for zero.
pub open spec fn hex_render(n: u64) -> Seq<char> {
    if n == 0 {
        seq!['0']
    } else {
        hex_digits(n)
    }
}

/// Accumulates one digit character of a row's id field onto the value read so
/// far, exactly as `hex_step` states.
pub fn hex_accumulate_u64(prev: u64, c: char) -> (r: u64)
    ensures
        r == hex_step(prev, c),
{
    let v: u64 = hex_digit_value_exec(c);
    (prev << 4) | v
}

/// Executable table of `hex_digit_value`.
pub fn hex_digit_value_exec(c: char) -> (v: u64)
    ensures
        v == hex_digit_value(c),
{
    match c {
        '0' => 0,
        '1' => 1,
        '2' => 2,
        '3' => 3,
        '4' => 4,
        '5' => 5,
        '6' => 6,
        '7' => 7,
        '8' => 8,
        '9' => 9,
        'a' => 10,
        'b' => 11,
        'c' => 12,
        'd' => 13,
        'e' => 14,
        'f' => 15,
        _ => 0,
    }
}

/// Executable test for `is_hex_digit`.
pub fn is_hex_digit_exec(c: char) -> (r: bool)
    ensures
        r == is_hex_digit(c),
{
    matches!(c, '0' | '1' | '2' | '3' | '4' | '5' | '6' | '7' | '8' | '9' | 'a' | 'b' | 'c' | 'd'
        | 'e' | 'f')
}

/// One lowercase hexadecimal digit as a string slice.
fn hex_char_str(v: u64) -> (r: &'static str)
    requires
        v < 16,
    ensures
        r@ == seq![hex_char_of(v)],
{
    proof {
        reveal_strlit("0");
        reveal_strlit("1");
        reveal_strlit("2");
        reveal_strlit("3");
        reveal_strlit("4");
        reveal_strlit("5");
        reveal_strlit("6");
        reveal_strlit("7");
        reveal_strlit("8");
        reveal_strlit("9");
        reveal_strlit("a");
        reveal_strlit("b");
        reveal_strlit("c");
        reveal_strlit("d");
        reveal_strlit("e");
        reveal_strlit("f");
    }
    let r: &'static str = if v == 0 {
        "0"
    } else if v == 1 {
        "1"
    } else if v == 2 {
        "2"
    } else if v == 3 {
        "3"
    } else if v == 4 {
        "4"
    } else if v == 5 {
        "5"
    } else if v == 6 {
        "6"
    } else if v == 7 {
        "7"
    } else if v == 8 {
        "8"
    } else if v == 9 {
        "9"
    } else if v == 10 {
        "a"
    } else if v == 11 {
        "b"
    } else if v == 12 {
        "c"
    } else if v == 13 {
        "d"
    } else if v == 14 {
        "e"
    } else {
        "f"
    };
    proof {
        assert(r@ =~= seq![hex_char_of(v)]);
    }
    r
}

/// Digits of a nonzero number, most significant first.
fn render_digits(n: u64) -> (r: String)
    ensures
        r@ == hex_digits(n),
    decreases n,
{
    if n == 0 {
        String::new()
    } else {
        proof {
            vstd::arithmetic::div_mod::lemma_div_decreases(n as int, 16);
        }
        let mut r = render_digits(n / 16);
        let d = hex_char_str(n % 16);
        r.append(d);
        proof {
            assert(r@ =~= hex_digits(n));
        }
        r
    }
}

/// Renders a row identifier the way every chunk carries it: lowercase
/// hexadecimal, no leading zeros, `"0"` for zero.
pub fn render_hex(n: u64) -> (r: String)
    ensures
        r@ == hex_render(n),
{
    if n == 0 {
        let r = String::from_str("0");
        proof {
            reveal_strlit("0");
            assert(r@ =~= seq!['0']);
        }
        r
    } else {
        render_digits(n)
    }
}

proof fn lemma_hex_step_value(prev: u64, v: u64)
    requires
        prev < 0x1000000000000000,
        v < 16,
    ensures
        ((prev << 4) | v) == prev * 16 + v,
{
    assert(((prev << 4) | v) == prev * 16 + v) by (bit_vector)
        requires
            prev < 0x1000000000000000,
            v < 16,
    ;
}

proof fn lemma_hex_fold_snoc(prev: u64, s: Seq<char>, c: char)
    ensures
        hex_fold(prev, s.push(c)) == hex_step(hex_fold(prev, s), c),
    decreases s.len(),
{
    if s.len() == 0 {
        assert(s.push(c)[0] == c);
        assert(s.push(c).skip(1) =~= Seq::<char>::empty());
        assert(hex_fold(prev, s.push(c)) == hex_fold(hex_step(prev, c), s.push(c).skip(1)));
        assert(hex_fold(hex_step(prev, c), Seq::<char>::empty()) == hex_step(prev, c));
    } else {
        assert(s.push(c)[0] == s[0]);
        assert(s.push(c).skip(1) =~= s.skip(1).push(c));
        assert(hex_fold(prev, s.push(c)) == hex_fold(hex_step(prev, s[0]), s.skip(1).push(c)));
        lemma_hex_fold_snoc(hex_step(prev, s[0]), s.skip(1), c);
    }
}

proof fn lemma_hex_digit_value_bound(c: char)
    ensures
        hex_digit_value(c) < 16,
{
}

proof fn lemma_pow16_increases(a: nat, b: nat)
    requires
        a <= b,
    ensures
        pow16(a) <= pow16(b),
    decreases b,
{
    if a < b {
        lemma_pow16_increases(a, (b - 1) as nat);
        assert(pow16(b) == 16 * pow16((b - 1) as nat));
    }
}

proof fn lemma_hex_value_bound(s: Seq<char>)
    ensures
        hex_value_of(s) < pow16(s.len()),
    decreases s.len(),
{
    if s.len() > 0 {
        lemma_hex_value_bound(s.drop_last());
        lemma_hex_digit_value_bound(s.last());
        let p = pow16(s.drop_last().len());
        let h = hex_value_of(s.drop_last());
        assert(h * 16 + 15 < p * 16) by (nonlinear_arith)
            requires
                h < p,
        ;
        assert(pow16(s.len()) == 16 * p);
    }
}

proof fn lemma_hex_value_pos(s: Seq<char>)
    requires
        s.len() >= 1,
        forall|i: int| 0 <= i < s.len() ==> is_hex_digit(#[trigger] s[i]),
        s[0] != '0',
    ensures
        hex_value_of(s) >= 1,
    decreases s.len(),
{
    if s.len() == 1 {
        assert(s.last() == s[0]);
        assert(is_hex_digit(s[0]));
    } else {
        let s0 = s.drop_last();
        assert(s0[0] == s[0]);
        assert(forall|i: int| 0 <= i < s0.len() ==> is_hex_digit(#[trigger] s0[i]));
        lemma_hex_value_pos(s0);
        assert(hex_value_of(s) >= hex_value_of(s0) * 16) by (nonlinear_arith)
            requires
                hex_value_of(s) == hex_value_of(s0) * 16 + hex_digit_value(s.last()) as nat,
        ;
        assert(hex_value_of(s0) * 16 >= 16) by (nonlinear_arith)
            requires
                hex_value_of(s0) >= 1,
        ;
    }
}

proof fn lemma_hex_fold_is_value(s: Seq<char>)
    requires
        s.len() <= 16,
    ensures
        hex_fold(0, s) == hex_value_of(s),
        hex_value_of(s) < 0x10000000000000000,
    decreases s.len(),
{
    reveal_with_fuel(pow16, 17);
    lemma_hex_value_bound(s);
    lemma_pow16_increases(s.len(), 16);
    assert(pow16(16) == 0x10000000000000000);
    if s.len() > 0 {
        let s0 = s.drop_last();
        let c = s.last();
        assert(s0.push(c) =~= s);
        lemma_hex_fold_is_value(s0);
        lemma_hex_fold_snoc(0, s0, c);
        lemma_hex_value_bound(s0);
        lemma_pow16_increases(s0.len(), 15);
        assert(pow16(15) == 0x1000000000000000);
        lemma_hex_digit_value_bound(c);
        lemma_hex_step_value(hex_fold(0, s0), hex_digit_value(c));
    }
}

proof fn lemma_hex_char_of_value(c: char)
    requires
        is_hex_digit(c),
    ensures
        hex_char_of(hex_digit_value(c)) == c,
{
}

proof fn lemma_hex_digits_inverse(s: Seq<char>)
    requires
        1 <= s.len() <= 16,
        forall|i: int| 0 <= i < s.len() ==> is_hex_digit(#[trigger] s[i]),
        s[0] != '0',
    ensures
        1 <= hex_value_of(s) < 0x10000000000000000,
        hex_digits(hex_value_of(s) as u64) == s,
    decreases s.len(),
{
    reveal_with_fuel(pow16, 17);
    lemma_hex_value_pos(s);
    lemma_hex_value_bound(s);
    lemma_pow16_increases(s.len(), 16);
    assert(pow16(16) == 0x10000000000000000);
    let s0 = s.drop_last();
    let c = s.last();
    let v = hex_digit_value(c);
    lemma_hex_digit_value_bound(c);
    lemma_hex_char_of_value(c);
    let n = hex_value_of(s);
    if s.len() == 1 {
        assert(hex_value_of(s0) == 0);
        assert(n == v as nat);
        assert((n as u64) / 16 == 0 && (n as u64) % 16 == v);
        assert(hex_digits(0u64) =~= Seq::<char>::empty());
        assert(hex_digits(n as u64) == hex_digits(0u64).push(hex_char_of(v)));
        assert(hex_digits(n as u64) =~= seq![c]);
        assert(s =~= seq![c]);
    } else {
        assert(s0[0] == s[0]);
        assert(forall|i: int| 0 <= i < s0.len() ==> is_hex_digit(#[trigger] s0[i]));
        lemma_hex_digits_inverse(s0);
        let h = hex_value_of(s0);
        vstd::arithmetic::div_mod::lemma_fundamental_div_mod_converse(
            n as int,
            16,
            h as int,
            v as int,
        );
        assert((n as u64) / 16 == h && (n as u64) % 16 == v);
        assert(n >= 16);
        assert(hex_digits(n as u64) =~= hex_digits(h as u64).push(c));
        assert(s0.push(c) =~= s);
    }
}

/// Law: a canonical id string of lowercase hexadecimal digits — no leading
/// zero, at most sixteen digits — round-trips through the framer's digit
/// accumulator and the chunk renderer; the empty id renders as `"0"`.
pub proof fn lemma_hex_round_trip(s: Seq<char>)
    requires
        s.len() <= 16,
        forall|i: int| 0 <= i < s.len() ==> is_hex_digit(#[trigger] s[i]),
        s.len() >= 1 ==> (s[0] != '0' || s.len() == 1),
    ensures
        hex_render(hex_fold(0, s)) == if s.len() == 0 {
            seq!['0']
        } else {
            s
        },
{
    lemma_hex_fold_is_value(s);
    if s.len() == 0 {
    } else if s.len() == 1 && s[0] == '0' {
        assert(s.last() == s[0]);
        assert(s.drop_last().len() == 0);
        assert(hex_value_of(s.drop_last()) == 0);
        assert(hex_value_of(s) == 0);
        assert(hex_render(0) =~= seq!['0']);
        assert(s =~= seq!['0']);
    } else {
        lemma_hex_digits_inverse(s);
    }
}

} // verus!
