//! Small verified text utilities: character search, decimal numerals, and
//! the `"V<n>"` version tags of the descriptor.

use vstd::prelude::*;

verus! {

/// Index of the first occurrence of `c` in `s` at or after `from`,
/// or `s.len()` when there is none.
pub open spec fn find_char(s: Seq<char>, c: char, from: int) -> int
    decreases s.len() - from when 0 <= from <= s.len()
{
    if from >= s.len() {
        s.len() as int
    } else if s[from] == c {
        from
    } else {
        find_char(s, c, from + 1)
    }
}

pub proof fn lemma_find_char(s: Seq<char>, c: char, from: int)
    requires
        0 <= from <= s.len(),
    ensures
        from <= find_char(s, c, from) <= s.len(),
        find_char(s, c, from) < s.len() ==> s[find_char(s, c, from)] == c,
        forall|j: int| from <= j < find_char(s, c, from) ==> s[j] != c,
    decreases s.len() - from,
{
    if from < s.len() && s[from] != c {
        lemma_find_char(s, c, from + 1);
    }
}

/// First index of `c` in `s` at or after `from`, or the length of `s`.
pub fn char_index_of(s: &str, c: char, from: usize) -> (i: usize)
    requires
        from <= s@.len(),
    ensures
        i == find_char(s@, c, from as int),
{
    let len: usize = s.unicode_len();
    let mut i: usize = from;
    while i < len
        invariant
            from <= i <= len,
            len == s@.len(),
            find_char(s@, c, from as int) == find_char(s@, c, i as int),
        decreases len - i,
    {
        if s.get_char(i) == c {
            return i;
        }
        i = i + 1;
    }
    i
}

/// Whether `c` is a decimal digit.
pub open spec fn is_dec_digit(c: char) -> bool {
    48 <= c as u32 <= 57
}

/// Numeric value of a decimal digit character.
pub open spec fn digit_val(c: char) -> nat {
    (c as u32 - 48) as nat
}

/// The digit character for a value below ten.
pub open spec fn dec_digit(n: nat) -> char {
    if n == 0 { '0' }
    else if n == 1 { '1' }
    else if n == 2 { '2' }
    else if n == 3 { '3' }
    else if n == 4 { '4' }
    else if n == 5 { '5' }
    else if n == 6 { '6' }
    else if n == 7 { '7' }
    else if n == 8 { '8' }
    else { '9' }
}

pub open spec fn all_digits(s: Seq<char>) -> bool {
    forall|i: int| 0 <= i < s.len() ==> is_dec_digit(#[trigger] s[i])
}

/// Value of a string of decimal digits, most significant first.
pub open spec fn digits_val(s: Seq<char>) -> nat
    decreases s.len()
{
    if s.len() == 0 {
        0
    } else {
        digits_val(s.drop_last()) * 10 + digit_val(s.last())
    }
}

/// The usual decimal numeral of `n`, without leading zeros.
pub open spec fn dec_str(n: nat) -> Seq<char>
    decreases n
{
    if n < 10 {
        seq![dec_digit(n)]
    } else {
        dec_str(n / 10) + seq![dec_digit(n % 10)]
    }
}

pub proof fn lemma_dec_digit_val(n: nat)
    requires
        n < 10,
    ensures
        is_dec_digit(dec_digit(n)),
        digit_val(dec_digit(n)) == n,
{
    assert('0' as u32 == 48);
    assert('1' as u32 == 49);
    assert('2' as u32 == 50);
    assert('3' as u32 == 51);
    assert('4' as u32 == 52);
    assert('5' as u32 == 53);
    assert('6' as u32 == 54);
    assert('7' as u32 == 55);
    assert('8' as u32 == 56);
    assert('9' as u32 == 57);
}

pub proof fn lemma_dec_str_val(n: nat)
    ensures
        all_digits(dec_str(n)),
        digits_val(dec_str(n)) == n,
        dec_str(n).len() >= 1,
    decreases n,
{
    lemma_dec_digit_val(n % 10);
    if n < 10 {
        assert(dec_str(n) =~= seq![dec_digit(n)]);
        assert(dec_str(n).drop_last() =~= Seq::<char>::empty());
        assert(digits_val(dec_str(n)) == digits_val(Seq::<char>::empty()) * 10 + digit_val(dec_digit(n)));
    } else {
        lemma_dec_str_val(n / 10);
        let s = dec_str(n);
        assert(s =~= dec_str(n / 10) + seq![dec_digit(n % 10)]);
        assert(s.drop_last() =~= dec_str(n / 10));
        assert(s.last() == dec_digit(n % 10));
        assert(digit_val(dec_digit(n % 10)) == n % 10);
        assert(digits_val(s) == (n / 10) * 10 + n % 10);
        assert((n / 10) * 10 + n % 10 == n) by (nonlinear_arith);
    }
}

/// Append the decimal numeral of `n` to `s`.
pub fn push_decimal(s: &mut String, n: u64)
    ensures
        final(s)@ == old(s)@ + dec_str(n as nat),
    decreases n,
{
    proof {
        reveal_strlit("0");
        reveal_strlit("1");
        reveal_strlit("2");
        reveal_strlit("3");
        reveal_strlit("4");
        reveal_strlit("5");
        reveal_strlit("6");
        reveal_strlit("7");
        reveal_strlit("8");
        reveal_strlit("9");
    }
    if n >= 10 {
        push_decimal(s, n / 10);
    }
    let d: u64 = n % 10;
    if d == 0 { s.append("0"); }
    else if d == 1 { s.append("1"); }
    else if d == 2 { s.append("2"); }
    else if d == 3 { s.append("3"); }
    else if d == 4 { s.append("4"); }
    else if d == 5 { s.append("5"); }
    else if d == 6 { s.append("6"); }
    else if d == 7 { s.append("7"); }
    else if d == 8 { s.append("8"); }
    else { s.append("9"); }
    proof {
        if n >= 10 {
            assert(dec_str(n as nat) =~= dec_str((n / 10) as nat) + seq![dec_digit((n % 10) as nat)]);
        }
    }
}

/// The value of a digit prefix never exceeds the value of the whole numeral.
pub proof fn lemma_digits_val_take(t: Seq<char>, j: int)
    requires
        0 <= j <= t.len(),
    ensures
        digits_val(t.take(j)) <= digits_val(t),
    decreases t.len(),
{
    if j == t.len() {
        assert(t.take(j) =~= t);
    } else {
        assert(t.take(j) =~= t.drop_last().take(j));
        lemma_digits_val_take(t.drop_last(), j);
        assert(digits_val(t.drop_last()) * 10 >= digits_val(t.drop_last())) by (nonlinear_arith);
    }
}

/// The number in a version tag `"V<digits>"`, when the tag is well formed
/// and its value fits in a machine word.
pub open spec fn spec_parse_version(s: Seq<char>) -> Option<u64> {
    let tail = s.subrange(1, s.len() as int);
    if s.len() >= 2 && s[0] == 'V' && all_digits(tail) && digits_val(tail) <= u64::MAX {
        Some(digits_val(tail) as u64)
    } else {
        None
    }
}

/// Parse a version tag `"V<digits>"` into its number.
pub fn parse_version(s: &str) -> (r: Option<u64>)
    ensures
        r == spec_parse_version(s@),
{
    let len: usize = s.unicode_len();
    if len < 2 {
        return None;
    }
    if s.get_char(0) != 'V' {
        return None;
    }
    let ghost tail = s@.subrange(1, s@.len() as int);
    let mut acc: u64 = 0;
    let mut i: usize = 1;
    while i < len
        invariant
            1 <= i <= len,
            len == s@.len(),
            2 <= len,
            s@[0] == 'V',
            tail == s@.subrange(1, s@.len() as int),
            all_digits(s@.subrange(1, i as int)),
            acc == digits_val(s@.subrange(1, i as int)),
        decreases len - i,
    {
        let c = s.get_char(i);
        let v: u32 = c as u32;
        if v < 48 || v > 57 {
            proof {
                assert(tail[i - 1] == s@[i as int]);
                assert(!is_dec_digit(tail[i - 1]));
            }
            return None;
        }
        let d: u64 = (v - 48) as u64;
        if acc > (u64::MAX - d) / 10 {
            proof {
                let prefix = s@.subrange(1, i + 1 as int);
                assert(prefix.drop_last() =~= s@.subrange(1, i as int));
                assert(prefix.last() == s@[i as int]);
                assert(digits_val(prefix) == acc * 10 + d);
                assert(acc * 10 + d > u64::MAX) by (nonlinear_arith)
                    requires
                        acc > (u64::MAX - d) / 10,
                        d <= 9,
                ;
                assert(prefix =~= tail.take(i as int));
                lemma_digits_val_take(tail, i as int);
                assert(digits_val(tail) > u64::MAX);
            }
            return None;
        }
        acc = acc * 10 + d;
        proof {
            let prefix = s@.subrange(1, i + 1 as int);
            assert(prefix.drop_last() =~= s@.subrange(1, i as int));
            assert(prefix.last() == s@[i as int]);
        }
        i = i + 1;
    }
    proof {
        assert(s@.subrange(1, i as int) =~= tail);
    }
    Some(acc)
}

/// The version tag of the next deploy: the number grows by exactly one.
pub open spec fn spec_bump_version(s: Seq<char>) -> Option<Seq<char>> {
    match spec_parse_version(s) {
        Some(n) => if n < u64::MAX {
            Some(seq!['V'] + dec_str((n + 1) as nat))
        } else {
            None
        },
        None => None,
    }
}

/// Render the version tag with the number increased by one.
pub fn bump_version(s: &str) -> (r: Option<String>)
    ensures
        r is Some <==> spec_bump_version(s@) is Some,
        r matches Some(v) ==> v@ == spec_bump_version(s@).unwrap(),
{
    match parse_version(s) {
        Some(n) => {
            if n < u64::MAX {
                let mut out = String::new();
                out.append("V");
                push_decimal(&mut out, n + 1);
                proof {
                    reveal_strlit("V");
                    assert(out@ =~= seq!['V'] + dec_str((n + 1) as nat));
                }
                Some(out)
            } else {
                None
            }
        },
        None => None,
    }
}

/// Bumping a well-formed version tag yields a well-formed tag whose number
/// is greater by exactly one.
pub proof fn lemma_bump_version_parses(s: Seq<char>)
    requires
        spec_parse_version(s) is Some,
        spec_parse_version(s).unwrap() < u64::MAX,
    ensures
        spec_bump_version(s) is Some,
        spec_parse_version(spec_bump_version(s).unwrap()) == Some(
            (spec_parse_version(s).unwrap() + 1) as u64,
        ),
{
    let n = spec_parse_version(s).unwrap() as nat;
    let b = seq!['V'] + dec_str(n + 1);
    lemma_dec_str_val(n + 1);
    assert(b.subrange(1, b.len() as int) =~= dec_str(n + 1));
    assert(b[0] == 'V');
    assert(spec_parse_version(b) == Some((n + 1) as u64));
}

/// Characters that may stand unescaped in the shell commands the pipeline
/// builds: letters, digits, `-`, `.` and `_`.
pub open spec fn safe_char(c: char) -> bool {
    (48 <= c as u32 <= 57) || (65 <= c as u32 <= 90) || (97 <= c as u32 <= 122)
        || c as u32 == 45 || c as u32 == 46 || c as u32 == 95
}

/// A non-empty word of safe characters, fit for interpolation into a command.
pub open spec fn safe_name(s: Seq<char>) -> bool {
    s.len() > 0 && forall|i: int| 0 <= i < s.len() ==> safe_char(#[trigger] s[i])
}

pub fn is_safe_name(s: &str) -> (r: bool)
    ensures
        r == safe_name(s@),
{
    let len: usize = s.unicode_len();
    if len == 0 {
        return false;
    }
    let mut i: usize = 0;
    while i < len
        invariant
            0 <= i <= len,
            len == s@.len(),
            forall|j: int| 0 <= j < i ==> safe_char(#[trigger] s@[j]),
        decreases len - i,
    {
        let v: u32 = s.get_char(i) as u32;
        if !((48 <= v && v <= 57) || (65 <= v && v <= 90) || (97 <= v && v <= 122)
            || v == 45 || v == 46 || v == 95) {
            return false;
        }
        i = i + 1;
    }
    true
}

/// View a `String` as a `&str` (the identity on the underlying text).
pub fn self_str(s: &String) -> (r: &str)
    ensures
        r@ == s@,
{
    s.as_str()
}

} // verus!
