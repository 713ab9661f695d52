//! Text as sequences of characters: whitespace, word splitting, trimming, and
//! the hexadecimal and decimal forms of integers.
use vstd::prelude::*;

verus! {

/// The characters with the Unicode `White_Space` property.
pub open spec fn is_ws(c: char) -> bool {
    let u = c as u32;
    ||| 0x09 <= u <= 0x0D
    ||| u == 0x20
    ||| u == 0x85
    ||| u == 0xA0
    ||| u == 0x1680
    ||| 0x2000 <= u <= 0x200A
    ||| u == 0x2028
    ||| u == 0x2029
    ||| u == 0x202F
    ||| u == 0x205F
    ||| u == 0x3000
}

/// Whether `c` has the Unicode `White_Space` property.
pub fn is_whitespace(c: char) -> (r: bool)
    ensures
        r == is_ws(c),
{
    let u = c as u32;
    (0x09 <= u && u <= 0x0D) || u == 0x20 || u == 0x85 || u == 0xA0 || u == 0x1680 || (0x2000 <= u && u <= 0x200A)
        || u == 0x2028 || u == 0x2029 || u == 0x202F || u == 0x205F || u == 0x3000
}

/// The words finished so far, and the word being read, after reading `s`.
pub open spec fn words_acc(s: Seq<char>) -> (Seq<Seq<char>>, Seq<char>)
    decreases s.len(),
{
    if s.len() == 0 {
        (Seq::empty(), Seq::empty())
    } else {
        let (done, cur) = words_acc(s.drop_last());
        if is_ws(s.last()) {
            if cur.len() > 0 {
                (done.push(cur), Seq::empty())
            } else {
                (done, Seq::empty())
            }
        } else {
            (done, cur.push(s.last()))
        }
    }
}

/// The maximal runs of non-whitespace characters of `s`, in order.
pub open spec fn words(s: Seq<char>) -> Seq<Seq<char>> {
    let (done, cur) = words_acc(s);
    if cur.len() > 0 {
        done.push(cur)
    } else {
        done
    }
}

/// Splits `s` into its words.
pub fn split_whitespace(s: &[char]) -> (r: Vec<Vec<char>>)
    ensures
        r@.len() == words(s@).len(),
        forall|i: int| 0 <= i < r@.len() ==> #[trigger] r@[i]@ == words(s@)[i],
{
    let mut done: Vec<Vec<char>> = Vec::new();
    let mut cur: Vec<char> = Vec::new();
    let mut i: usize = 0;
    while i < s.len()
        invariant
            i <= s@.len(),
            done@.len() == words_acc(s@.take(i as int)).0.len(),
            forall|k: int| 0 <= k < done@.len() ==> #[trigger] done@[k]@ == words_acc(s@.take(i as int)).0[k],
            cur@ == words_acc(s@.take(i as int)).1,
        decreases s@.len() - i,
    {
        assert(s@.take(i + 1).drop_last() =~= s@.take(i as int));
        let c = s[i];
        if is_whitespace(c) {
            if cur.len() > 0 {
                let mut word: Vec<char> = Vec::new();
                std::mem::swap(&mut word, &mut cur);
                done.push(word);
            }
        } else {
            cur.push(c);
        }
        i += 1;
    }
    assert(s@.take(s@.len() as int) =~= s@);
    if cur.len() > 0 {
        done.push(cur);
    }
    done
}

/// The number of whitespace characters that start `s`.
pub open spec fn leading_ws(s: Seq<char>) -> nat
    decreases s.len(),
{
    if s.len() > 0 && is_ws(s[0]) {
        1 + leading_ws(s.drop_first())
    } else {
        0
    }
}

/// The number of whitespace characters that end `s`.
pub open spec fn trailing_ws(s: Seq<char>) -> nat
    decreases s.len(),
{
    if s.len() > 0 && is_ws(s.last()) {
        1 + trailing_ws(s.drop_last())
    } else {
        0
    }
}

/// `s` without its leading and trailing whitespace.
pub open spec fn trim(s: Seq<char>) -> Seq<char> {
    let t = s.subrange(leading_ws(s) as int, s.len() as int);
    t.subrange(0, t.len() - trailing_ws(t))
}

proof fn lemma_leading_ws(s: Seq<char>, i: int)
    requires
        0 <= i <= s.len(),
        forall|k: int| 0 <= k < i ==> is_ws(#[trigger] s[k]),
        i == s.len() || !is_ws(s[i]),
    ensures
        leading_ws(s) == i,
    decreases i,
{
    if i > 0 {
        lemma_leading_ws(s.drop_first(), i - 1);
    }
}

proof fn lemma_trailing_ws(s: Seq<char>, j: int)
    requires
        0 <= j <= s.len(),
        forall|k: int| j <= k < s.len() ==> is_ws(#[trigger] s[k]),
        j == 0 || !is_ws(s[j - 1]),
    ensures
        trailing_ws(s) == s.len() - j,
    decreases s.len() - j,
{
    if j < s.len() {
        lemma_trailing_ws(s.drop_last(), j);
    }
}

/// `s` without leading and trailing whitespace.
pub fn trim_chars(s: &[char]) -> (r: Vec<char>)
    ensures
        r@ == trim(s@),
{
    let mut start: usize = 0;
    while start < s.len() && is_whitespace(s[start])
        invariant
            start <= s@.len(),
            forall|k: int| 0 <= k < start ==> is_ws(#[trigger] s@[k]),
        decreases s@.len() - start,
    {
        start += 1;
    }
    proof {
        lemma_leading_ws(s@, start as int);
    }
    let ghost t = s@.subrange(start as int, s@.len() as int);
    let mut end: usize = s.len();
    while end > start && is_whitespace(s[end - 1])
        invariant
            start <= end <= s@.len(),
            forall|k: int| end <= k < s@.len() ==> is_ws(#[trigger] s@[k]),
        decreases end,
    {
        end -= 1;
    }
    proof {
        assert forall|k: int| end - start <= k < t.len() implies is_ws(#[trigger] t[k]) by {
            assert(t[k] == s@[k + start]);
        }
        if end > start {
            assert(t[end - start - 1] == s@[end - 1]);
        }
        lemma_trailing_ws(t, end - start);
    }
    let mut r: Vec<char> = Vec::new();
    let mut i: usize = start;
    while i < end
        invariant
            start <= i <= end,
            end <= s@.len(),
            r@ == s@.subrange(start as int, i as int),
        decreases end - i,
    {
        r.push(s[i]);
        assert(r@ =~= s@.subrange(start as int, i + 1));
        i += 1;
    }
    assert(r@ =~= trim(s@));
    r
}

/// The value of `c` as a digit in base `radix` (at most 16), if it is one.
pub open spec fn digit_value(c: char, radix: nat) -> Option<nat> {
    let u = c as u32;
    let d: int = if 0x30 <= u <= 0x39 {
        u - 0x30
    } else if 0x61 <= u <= 0x66 {
        u - 0x61 + 10
    } else if 0x41 <= u <= 0x46 {
        u - 0x41 + 10
    } else {
        16
    };
    if d < radix {
        Some(d as nat)
    } else {
        None
    }
}

/// The digit value of `c` in base `radix`.
pub fn digit_of(c: char, radix: u32) -> (r: Option<u32>)
    requires
        radix <= 16,
    ensures
        r matches Some(d) ==> digit_value(c, radix as nat) == Some(d as nat),
        r is None ==> digit_value(c, radix as nat) is None,
{
    let u = c as u32;
    let d: u32 = if 0x30 <= u && u <= 0x39 {
        u - 0x30
    } else if 0x61 <= u && u <= 0x66 {
        u - 0x61 + 10
    } else if 0x41 <= u && u <= 0x46 {
        u - 0x41 + 10
    } else {
        16
    };
    if d < radix {
        Some(d)
    } else {
        None
    }
}

/// Why text is not an integer of the expected type.
#[derive(Debug, Clone, Copy, PartialEq, Eq, Structural)]
pub enum IntParseError {
    /// The text is empty.
    Empty,
    /// A character is not a digit, or a sign stands alone or where none is allowed.
    InvalidDigit,
    /// The value is too large for the type.
    PosOverflow,
    /// The value is too small for the type.
    NegOverflow,
}

/// Reading digits from position `i` on, onto the value `acc`: the first
/// non-digit, or the first digit that takes the value past `max`, stops it.
pub open spec fn scan_up(s: Seq<char>, i: int, acc: int, radix: nat, max: int) -> Result<int, IntParseError>
    decreases s.len() - i,
{
    if i < 0 || i >= s.len() {
        Ok(acc)
    } else {
        match digit_value(s[i], radix) {
            None => Err(IntParseError::InvalidDigit),
            Some(d) => if acc * radix + d > max {
                Err(IntParseError::PosOverflow)
            } else {
                scan_up(s, i + 1, acc * radix + d, radix, max)
            },
        }
    }
}

/// Reading the digits of a negative number: each digit moves the value down,
/// and the first that takes it below `min` stops it.
pub open spec fn scan_down(s: Seq<char>, i: int, acc: int, radix: nat, min: int) -> Result<int, IntParseError>
    decreases s.len() - i,
{
    if i < 0 || i >= s.len() {
        Ok(acc)
    } else {
        match digit_value(s[i], radix) {
            None => Err(IntParseError::InvalidDigit),
            Some(d) => if acc * radix - d < min {
                Err(IntParseError::NegOverflow)
            } else {
                scan_down(s, i + 1, acc * radix - d, radix, min)
            },
        }
    }
}

/// An unsigned integer in base `radix` no larger than `max`, with an optional
/// leading `+`, as `from_str_radix` of the standard library reads it.
pub open spec fn parse_unsigned(s: Seq<char>, radix: nat, max: int) -> Result<int, IntParseError> {
    if s.len() == 0 {
        Err(IntParseError::Empty)
    } else if s[0] == '+' {
        if s.len() == 1 {
            Err(IntParseError::InvalidDigit)
        } else {
            scan_up(s, 1, 0, radix, max)
        }
    } else {
        scan_up(s, 0, 0, radix, max)
    }
}

/// A signed integer in base `radix` within `min..=max`, with an optional
/// leading `+` or `-`, as `from_str_radix` of the standard library reads it.
pub open spec fn parse_signed(s: Seq<char>, radix: nat, min: int, max: int) -> Result<int, IntParseError> {
    if s.len() == 0 {
        Err(IntParseError::Empty)
    } else if s[0] == '+' || s[0] == '-' {
        if s.len() == 1 {
            Err(IntParseError::InvalidDigit)
        } else if s[0] == '+' {
            scan_up(s, 1, 0, radix, max)
        } else {
            scan_down(s, 1, 0, radix, min)
        }
    } else {
        scan_up(s, 0, 0, radix, max)
    }
}

/// Reads an unsigned integer in base `radix` that is at most `max`.
pub fn parse_unsigned_chars(s: &[char], radix: u32, max: u64) -> (r: Result<u64, IntParseError>)
    requires
        2 <= radix <= 16,
        max <= u32::MAX,
    ensures
        match r {
            Ok(v) => parse_unsigned(s@, radix as nat, max as int) == Ok::<int, IntParseError>(v as int),
            Err(e) => parse_unsigned(s@, radix as nat, max as int) == Err::<int, IntParseError>(e),
        },
        r matches Ok(v) ==> v <= max,
{
    if s.len() == 0 {
        return Err(IntParseError::Empty);
    }
    let mut i: usize = 0;
    if s[0] == '+' {
        if s.len() == 1 {
            return Err(IntParseError::InvalidDigit);
        }
        i = 1;
    }
    let mut acc: u64 = 0;
    while i < s.len()
        invariant
            i <= s@.len(),
            acc <= max,
            max <= u32::MAX,
            2 <= radix <= 16,
            parse_unsigned(s@, radix as nat, max as int) == scan_up(s@, i as int, acc as int, radix as nat, max as int),
        decreases s@.len() - i,
    {
        match digit_of(s[i], radix) {
            None => return Err(IntParseError::InvalidDigit),
            Some(d) => {
                assert(acc * radix <= 0xF_FFFF_FFF0) by (nonlinear_arith)
                    requires
                        acc <= 0xFFFF_FFFF,
                        radix <= 16,
                ;
                let next = acc * (radix as u64) + (d as u64);
                if next > max {
                    return Err(IntParseError::PosOverflow);
                }
                acc = next;
            },
        }
        i += 1;
    }
    Ok(acc)
}

/// Reads a signed integer in base `radix` within `min..=max`.
pub fn parse_signed_chars(s: &[char], radix: u32, min: i64, max: i64) -> (r: Result<i64, IntParseError>)
    requires
        2 <= radix <= 16,
        i32::MIN <= min <= 0 <= max <= i32::MAX,
    ensures
        match r {
            Ok(v) => parse_signed(s@, radix as nat, min as int, max as int) == Ok::<int, IntParseError>(v as int),
            Err(e) => parse_signed(s@, radix as nat, min as int, max as int) == Err::<int, IntParseError>(e),
        },
        r matches Ok(v) ==> min <= v <= max,
{
    if s.len() == 0 {
        return Err(IntParseError::Empty);
    }
    let mut negative = false;
    let mut i: usize = 0;
    if s[0] == '+' || s[0] == '-' {
        if s.len() == 1 {
            return Err(IntParseError::InvalidDigit);
        }
        negative = s[0] == '-';
        i = 1;
    }
    let mut acc: i64 = 0;
    while i < s.len()
        invariant
            i <= s@.len(),
            min <= acc <= max,
            negative ==> acc <= 0,
            !negative ==> acc >= 0,
            i32::MIN <= min <= 0 <= max <= i32::MAX,
            2 <= radix <= 16,
            parse_signed(s@, radix as nat, min as int, max as int) == (if negative {
                scan_down(s@, i as int, acc as int, radix as nat, min as int)
            } else {
                scan_up(s@, i as int, acc as int, radix as nat, max as int)
            }),
        decreases s@.len() - i,
    {
        match digit_of(s[i], radix) {
            None => return Err(IntParseError::InvalidDigit),
            Some(d) => {
                assert(-0x8_0000_0000 <= acc * radix <= 0x8_0000_0000 && (acc <= 0 ==> acc * radix <= 0) && (acc >= 0
                    ==> acc * radix >= 0)) by (nonlinear_arith)
                    requires
                        -0x8000_0000 <= acc <= 0x8000_0000,
                        2 <= radix <= 16,
                ;
                if negative {
                    let next = acc * (radix as i64) - (d as i64);
                    if next < min {
                        return Err(IntParseError::NegOverflow);
                    }
                    acc = next;
                } else {
                    let next = acc * (radix as i64) + (d as i64);
                    if next > max {
                        return Err(IntParseError::PosOverflow);
                    }
                    acc = next;
                }
            },
        }
        i += 1;
    }
    Ok(acc)
}

/// The character of a digit below 16, upper case.
pub open spec fn hex_char(d: u32) -> char {
    if d < 10 {
        (0x30 + d) as char
    } else {
        (0x41 + d - 10) as char
    }
}

/// A word as eight upper-case hexadecimal digits, most significant first.
pub open spec fn hex8(n: u32) -> Seq<char> {
    seq![
        hex_char((n >> 28u32) & 0xFu32),
        hex_char((n >> 24u32) & 0xFu32),
        hex_char((n >> 20u32) & 0xFu32),
        hex_char((n >> 16u32) & 0xFu32),
        hex_char((n >> 12u32) & 0xFu32),
        hex_char((n >> 8u32) & 0xFu32),
        hex_char((n >> 4u32) & 0xFu32),
        hex_char(n & 0xFu32),
    ]
}

/// The decimal digits of `n`, without leading zeros.
pub open spec fn dec_digits(n: nat) -> Seq<char>
    decreases n,
{
    if n < 10 {
        seq![(0x30 + n) as char]
    } else {
        dec_digits(n / 10).push((0x30 + n % 10) as char)
    }
}

/// The decimal form of an integer, with a `-` when it is negative.
pub open spec fn dec_signed(n: int) -> Seq<char> {
    if n < 0 {
        seq!['-'] + dec_digits((-n) as nat)
    } else {
        dec_digits(n as nat)
    }
}

fn digit_char(d: u32) -> (c: char)
    requires
        d < 16,
    ensures
        c == hex_char(d),
{
    if d < 10 {
        ((d as u8) + 0x30) as char
    } else {
        ((d as u8) + 0x37) as char
    }
}

/// Appends `n` as eight upper-case hexadecimal digits.
pub fn push_hex8(out: &mut Vec<char>, n: u32)
    ensures
        final(out)@ == old(out)@ + hex8(n),
{
    let ghost start = out@;
    proof {
        lemma_nibbles_small(n);
    }
    out.push(digit_char((n >> 28) & 0xF));
    out.push(digit_char((n >> 24) & 0xF));
    out.push(digit_char((n >> 20) & 0xF));
    out.push(digit_char((n >> 16) & 0xF));
    out.push(digit_char((n >> 12) & 0xF));
    out.push(digit_char((n >> 8) & 0xF));
    out.push(digit_char((n >> 4) & 0xF));
    out.push(digit_char(n & 0xF));
    assert(out@ =~= start + hex8(n));
}

proof fn lemma_nibbles_small(n: u32)
    by (bit_vector)
    ensures
        (n >> 28u32) & 0xFu32 < 16,
        (n >> 24u32) & 0xFu32 < 16,
        (n >> 20u32) & 0xFu32 < 16,
        (n >> 16u32) & 0xFu32 < 16,
        (n >> 12u32) & 0xFu32 < 16,
        (n >> 8u32) & 0xFu32 < 16,
        (n >> 4u32) & 0xFu32 < 16,
        n & 0xFu32 < 16,
{
}

/// Appends the decimal digits of `n`.
pub fn push_decimal(out: &mut Vec<char>, n: u128)
    ensures
        final(out)@ == old(out)@ + dec_digits(n as nat),
    decreases n,
{
    if n < 10 {
        out.push(((n as u8) + 0x30) as char);
        assert(dec_digits(n as nat) =~= seq![(0x30 + n) as char]);
    } else {
        push_decimal(out, n / 10);
        out.push((((n % 10) as u8) + 0x30) as char);
    }
}

/// Appends the decimal form of `n`, with a `-` when it is negative.
pub fn push_signed_decimal(out: &mut Vec<char>, n: i64)
    requires
        n > i64::MIN,
    ensures
        final(out)@ == old(out)@ + dec_signed(n as int),
{
    if n < 0 {
        out.push('-');
        push_decimal(out, (-n) as u128);
        assert(out@ =~= old(out)@ + dec_signed(n as int));
    } else {
        push_decimal(out, n as u128);
    }
}

/// Appends the characters of `s`.
pub fn push_str(out: &mut Vec<char>, s: &str)
    ensures
        final(out)@ == old(out)@ + s@,
{
    let ghost start = out@;
    proof {
        vstd::string::axiom_spec_iter(s);
    }
    for c in it: s.chars()
        invariant
            it.seq() == s@,
            out@ == start + it.seq().take(it.index()),
    {
        out.push(c);
        assert(out@ =~= start + it.seq().take(it.index() + 1));
    }
    assert(s@.take(s@.len() as int) =~= s@);
}

/// The characters of `s`.
pub fn chars_of(s: &str) -> (r: Vec<char>)
    ensures
        r@ == s@,
{
    let mut r: Vec<char> = Vec::new();
    push_str(&mut r, s);
    assert(r@ =~= s@);
    r
}

/// A `String` holding `chars`, built by the standard library's
/// `FromIterator<char>` for `String`, which appends the characters in order.
#[verifier::external_body]
pub fn string_from_chars(chars: &[char]) -> (r: String)
    ensures
        r@ == chars@,
{
    chars.iter().collect()
}

/// Whether two character sequences are equal.
pub fn chars_equal(a: &[char], b: &[char]) -> (r: bool)
    ensures
        r == (a@ == b@),
{
    if a.len() != b.len() {
        return false;
    }
    let mut i: usize = 0;
    while i < a.len()
        invariant
            a@.len() == b@.len(),
            i <= a@.len(),
            forall|k: int| 0 <= k < i ==> a@[k] == b@[k],
        decreases a@.len() - i,
    {
        if a[i] != b[i] {
            return false;
        }
        i += 1;
    }
    assert(a@ =~= b@);
    true
}

/// Whether `a` holds the characters of `b`.
pub fn chars_equal_str(a: &[char], b: &str) -> (r: bool)
    ensures
        r == (a@ == b@),
{
    let bc = chars_of(b);
    chars_equal(a, bc.as_slice())
}

/// How the standard library describes an integer parse error.
pub open spec fn int_error_text(e: IntParseError) -> Seq<char> {
    match e {
        IntParseError::Empty => "cannot parse integer from empty string"@,
        IntParseError::InvalidDigit => "invalid digit found in string"@,
        IntParseError::PosOverflow => "number too large to fit in target type"@,
        IntParseError::NegOverflow => "number too small to fit in target type"@,
    }
}

/// Appends the description of an integer parse error.
pub fn push_int_error(out: &mut Vec<char>, e: IntParseError)
    ensures
        final(out)@ == old(out)@ + int_error_text(e),
{
    match e {
        IntParseError::Empty => push_str(out, "cannot parse integer from empty string"),
        IntParseError::InvalidDigit => push_str(out, "invalid digit found in string"),
        IntParseError::PosOverflow => push_str(out, "number too large to fit in target type"),
        IntParseError::NegOverflow => push_str(out, "number too small to fit in target type"),
    }
}

/// Reads an unsigned integer in base `radix` that fits a `usize`.
pub fn parse_usize_chars(s: &[char], radix: u32) -> (r: Result<usize, IntParseError>)
    requires
        2 <= radix <= 16,
    ensures
        match r {
            Ok(v) => parse_unsigned(s@, radix as nat, usize::MAX as int) == Ok::<int, IntParseError>(v as int),
            Err(e) => parse_unsigned(s@, radix as nat, usize::MAX as int) == Err::<int, IntParseError>(e),
        },
{
    if s.len() == 0 {
        return Err(IntParseError::Empty);
    }
    let mut i: usize = 0;
    if s[0] == '+' {
        if s.len() == 1 {
            return Err(IntParseError::InvalidDigit);
        }
        i = 1;
    }
    let mut acc: usize = 0;
    while i < s.len()
        invariant
            i <= s@.len(),
            2 <= radix <= 16,
            parse_unsigned(s@, radix as nat, usize::MAX as int) == scan_up(s@, i as int, acc as int, radix as nat, usize::MAX as int),
        decreases s@.len() - i,
    {
        match digit_of(s[i], radix) {
            None => return Err(IntParseError::InvalidDigit),
            Some(d) => {
                let next = match acc.checked_mul(radix as usize) {
                    Some(m) => m.checked_add(d as usize),
                    None => None,
                };
                match next {
                    Some(n) => {
                        acc = n;
                    },
                    None => {
                        assert(acc * radix + d > usize::MAX) by (nonlinear_arith)
                            requires
                                acc * radix > usize::MAX || acc * radix + d > usize::MAX,
                                d >= 0,
                        ;
                        return Err(IntParseError::PosOverflow);
                    },
                }
            },
        }
        i += 1;
    }
    Ok(acc)
}

/// The upper-case hexadecimal digits of `n`, without leading zeros.
pub open spec fn hex_upper(n: nat) -> Seq<char>
    decreases n,
{
    if n < 16 {
        seq![hex_char(n as u32)]
    } else {
        hex_upper(n / 16).push(hex_char((n % 16) as u32))
    }
}

/// `s` with zeros in front of it up to `width` characters.
pub open spec fn zero_padded(s: Seq<char>, width: nat) -> Seq<char> {
    if s.len() < width {
        Seq::new((width - s.len()) as nat, |i: int| '0') + s
    } else {
        s
    }
}

/// `s` with spaces after it up to `width` characters.
pub open spec fn space_padded(s: Seq<char>, width: nat) -> Seq<char> {
    if s.len() < width {
        s + Seq::new((width - s.len()) as nat, |i: int| ' ')
    } else {
        s
    }
}

fn push_hex_digits(out: &mut Vec<char>, n: u64)
    ensures
        final(out)@ == old(out)@ + hex_upper(n as nat),
    decreases n,
{
    if n < 16 {
        out.push(digit_char(n as u32));
        assert(hex_upper(n as nat) =~= seq![hex_char(n as u32)]);
    } else {
        push_hex_digits(out, n / 16);
        out.push(digit_char((n % 16) as u32));
    }
}

/// Appends the upper-case hex digits of `n`, zero-padded to `width`.
pub fn push_hex_padded(out: &mut Vec<char>, n: u64, width: usize)
    ensures
        final(out)@ == old(out)@ + zero_padded(hex_upper(n as nat), width as nat),
{
    let mut digits: Vec<char> = Vec::new();
    push_hex_digits(&mut digits, n);
    assert(digits@ =~= hex_upper(n as nat));
    let ghost start = out@;
    let mut k: usize = digits.len();
    while k < width
        invariant
            digits@.len() <= k <= width || (k == digits@.len() && k >= width),
            out@ == start + Seq::new((k - digits@.len()) as nat, |i: int| '0'),
        decreases width - k,
    {
        out.push('0');
        assert(out@ =~= start + Seq::new((k + 1 - digits@.len()) as nat, |i: int| '0'));
        k += 1;
    }
    out.extend_from_slice(digits.as_slice());
    assert(out@ =~= start + zero_padded(hex_upper(n as nat), width as nat));
}

/// Appends `s`, then spaces up to `width` characters.
pub fn push_padded_str(out: &mut Vec<char>, s: &str, width: usize)
    ensures
        final(out)@ == old(out)@ + space_padded(s@, width as nat),
{
    let chars = chars_of(s);
    let ghost start = out@;
    out.extend_from_slice(chars.as_slice());
    let mut k: usize = chars.len();
    while k < width
        invariant
            chars@.len() <= k <= width || (k == chars@.len() && k >= width),
            out@ == start + s@ + Seq::new((k - chars@.len()) as nat, |i: int| ' '),
        decreases width - k,
    {
        out.push(' ');
        assert(out@ =~= start + s@ + Seq::new((k + 1 - chars@.len()) as nat, |i: int| ' '));
        k += 1;
    }
    assert(out@ =~= start + space_padded(s@, width as nat));
}

/// Whether `a` comes before `b` in the order in which `str` values compare:
/// at the first character where they differ, or else the shorter first.
/// (UTF-8 keeps the order of code points, so comparing bytes and comparing
/// characters agree.)
pub open spec fn chars_lt(a: Seq<char>, b: Seq<char>) -> bool
    decreases a.len(),
{
    if b.len() == 0 {
        false
    } else if a.len() == 0 {
        true
    } else if a[0] != b[0] {
        (a[0] as u32) < (b[0] as u32)
    } else {
        chars_lt(a.drop_first(), b.drop_first())
    }
}

/// The order of texts is transitive.
pub proof fn lemma_chars_lt_transitive(a: Seq<char>, b: Seq<char>, c: Seq<char>)
    requires
        chars_lt(a, b),
        chars_lt(b, c),
    ensures
        chars_lt(a, c),
    decreases a.len(),
{
    if a.len() > 0 && b.len() > 0 && c.len() > 0 && a[0] == b[0] && b[0] == c[0] {
        lemma_chars_lt_transitive(a.drop_first(), b.drop_first(), c.drop_first());
    }
}

/// The order of texts is asymmetric.
pub proof fn lemma_chars_lt_asymmetric(a: Seq<char>, b: Seq<char>)
    requires
        chars_lt(a, b),
    ensures
        !chars_lt(b, a),
    decreases a.len(),
{
    if a.len() > 0 && b.len() > 0 && a[0] == b[0] {
        lemma_chars_lt_asymmetric(a.drop_first(), b.drop_first());
    }
}

/// Whether `a` comes before `b` in the order in which `str` values compare.
pub fn chars_less(a: &[char], b: &[char]) -> (r: bool)
    ensures
        r == chars_lt(a@, b@),
{
    let mut i: usize = 0;
    assert(a@.skip(0) =~= a@ && b@.skip(0) =~= b@);
    while i < a.len() && i < b.len() && a[i] == b[i]
        invariant
            i <= a@.len(),
            i <= b@.len(),
            chars_lt(a@, b@) == chars_lt(a@.skip(i as int), b@.skip(i as int)),
        decreases a@.len() - i,
    {
        assert(a@.skip(i as int).drop_first() =~= a@.skip(i + 1));
        assert(b@.skip(i as int).drop_first() =~= b@.skip(i + 1));
        i += 1;
    }
    if i == b.len() {
        false
    } else if i == a.len() {
        true
    } else {
        (a[i] as u32) < (b[i] as u32)
    }
}

/// A digit character has its value as a digit.
proof fn lemma_decimal_digit(d: nat)
    requires
        d < 10,
    ensures
        digit_value((0x30 + d) as char, 10) == Some(d),
        !is_ws((0x30 + d) as char),
        (0x30 + d) as char != '+',
        (0x30 + d) as char != '-',
{
}

/// Reading one more digit after digits that read to `v` gives `v * radix + d`.
proof fn lemma_scan_up_push(s: Seq<char>, c: char, i: int, acc: int, radix: nat, max: int, v: int, d: nat)
    requires
        0 <= i <= s.len(),
        scan_up(s, i, acc, radix, max) == Ok::<int, IntParseError>(v),
        digit_value(c, radix) == Some(d),
        v * radix + d <= max,
    ensures
        scan_up(s.push(c), i, acc, radix, max) == Ok::<int, IntParseError>(v * radix + d),
    decreases s.len() - i,
{
    assert(s.push(c)[i] == if i < s.len() { s[i] } else { c });
    if i < s.len() {
        match digit_value(s[i], radix) {
            Some(di) => {
                lemma_scan_up_push(s, c, i + 1, acc * radix + di, radix, max, v, d);
            },
            None => {},
        }
    } else {
        assert(v == acc);
        let t = s.push(c);
        assert(scan_up(t, i + 1, acc * radix + d, radix, max) == Ok::<int, IntParseError>(acc * radix + d));
    }
}

/// The decimal digits of `n` read back as `n`.
pub proof fn lemma_dec_digits_scan(n: nat, max: int)
    requires
        n <= max,
    ensures
        scan_up(dec_digits(n), 0, 0, 10, max) == Ok::<int, IntParseError>(n as int),
        dec_digits(n).len() > 0,
        digit_value(dec_digits(n)[0], 10) is Some,
        forall|k: int| 0 <= k < dec_digits(n).len() ==> digit_value(#[trigger] dec_digits(n)[k], 10) is Some && !is_ws(dec_digits(n)[k]),
    decreases n,
{
    if n < 10 {
        lemma_decimal_digit(n);
        let s = dec_digits(n);
        assert(s == seq![(0x30 + n) as char]);
        assert(scan_up(s, 1, n as int, 10, max) == Ok::<int, IntParseError>(n as int));
    } else {
        lemma_dec_digits_scan(n / 10, max);
        lemma_decimal_digit(n % 10);
        lemma_scan_up_push(dec_digits(n / 10), (0x30 + n % 10) as char, 0, 0, 10, max, (n / 10) as int, n % 10);
        let s = dec_digits(n);
        assert forall|k: int| 0 <= k < s.len() implies digit_value(#[trigger] s[k], 10) is Some && !is_ws(s[k]) by {
            if k < s.len() - 1 {
                assert(s[k] == dec_digits(n / 10)[k]);
            }
        }
    }
}

/// The decimal digits of `n` parse back as `n`.
pub proof fn lemma_dec_digits_parse(n: nat, max: int)
    requires
        n <= max,
    ensures
        parse_unsigned(dec_digits(n), 10, max) == Ok::<int, IntParseError>(n as int),
{
    lemma_dec_digits_scan(n, max);
    lemma_decimal_digit(0);
    let s = dec_digits(n);
    assert(s[0] != '+') by {
        assert(digit_value('+', 10) is None);
    }
}

/// Reading one more digit of a negative number after digits that read to
/// `v` gives `v * radix - d`.
proof fn lemma_scan_down_push(s: Seq<char>, c: char, i: int, acc: int, radix: nat, min: int, v: int, d: nat)
    requires
        0 <= i <= s.len(),
        scan_down(s, i, acc, radix, min) == Ok::<int, IntParseError>(v),
        digit_value(c, radix) == Some(d),
        v * radix - d >= min,
    ensures
        scan_down(s.push(c), i, acc, radix, min) == Ok::<int, IntParseError>(v * radix - d),
    decreases s.len() - i,
{
    assert(s.push(c)[i] == if i < s.len() { s[i] } else { c });
    if i < s.len() {
        match digit_value(s[i], radix) {
            Some(di) => {
                lemma_scan_down_push(s, c, i + 1, acc * radix - di, radix, min, v, d);
            },
            None => {},
        }
    } else {
        assert(v == acc);
        let t = s.push(c);
        assert(scan_down(t, i + 1, acc * radix - d, radix, min) == Ok::<int, IntParseError>(acc * radix - d));
    }
}

/// The decimal digits of `m` after a prefix read down to `-m`.
proof fn lemma_dec_digits_scan_down(p: Seq<char>, m: nat, min: int)
    requires
        -m >= min,
    ensures
        scan_down(p + dec_digits(m), p.len() as int, 0, 10, min) == Ok::<int, IntParseError>(-m),
    decreases m,
{
    if m < 10 {
        lemma_decimal_digit(m);
        let s = p + dec_digits(m);
        assert(s[p.len() as int] == (0x30 + m) as char);
        assert(scan_down(s, (p.len() + 1) as int, -m, 10, min) == Ok::<int, IntParseError>(-m));
    } else {
        lemma_dec_digits_scan_down(p, m / 10, min);
        lemma_decimal_digit(m % 10);
        assert(p + dec_digits(m) =~= (p + dec_digits(m / 10)).push((0x30 + m % 10) as char));
        lemma_scan_down_push(p + dec_digits(m / 10), (0x30 + m % 10) as char, p.len() as int, 0, 10, min, -(m / 10), m % 10);
    }
}

/// The decimal form of `n` parses back as `n`.
pub proof fn lemma_dec_signed_parse(n: int, min: int, max: int)
    requires
        min <= n <= max,
    ensures
        parse_signed(dec_signed(n), 10, min, max) == Ok::<int, IntParseError>(n),
        dec_signed(n).len() > 0,
        forall|k: int| 0 <= k < dec_signed(n).len() ==> !is_ws(#[trigger] dec_signed(n)[k]),
{
    if n < 0 {
        let m = (-n) as nat;
        lemma_dec_digits_scan_down(seq!['-'], m, min);
        lemma_dec_digits_scan(m, m as int);
        let s = dec_signed(n);
        assert(s[0] == '-');
        assert forall|k: int| 0 <= k < s.len() implies !is_ws(#[trigger] s[k]) by {
            if k > 0 {
                assert(s[k] == dec_digits(m)[k - 1]);
            }
        }
    } else {
        lemma_dec_digits_scan(n as nat, max);
        let s = dec_digits(n as nat);
        assert(s[0] != '+' && s[0] != '-') by {
            assert(digit_value('+', 10) is None);
            assert(digit_value('-', 10) is None);
        }
    }
}

/// A hexadecimal digit character has its value as a digit.
pub proof fn lemma_hex_digit(d: u32)
    requires
        d < 16,
    ensures
        digit_value(hex_char(d), 16) == Some(d as nat),
        !is_ws(hex_char(d)),
        hex_char(d) != '+',
        hex_char(d) != 'Y',
        (hex_char(d) as u32) < 0x80,
{
}

proof fn lemma_nibble_steps(n: u32)
    by (bit_vector)
    ensures
        (n >> 28u32) & 0xFu32 == n >> 28u32,
        (n >> 28u32) * 16 + ((n >> 24u32) & 0xFu32) == n >> 24u32,
        (n >> 24u32) * 16 + ((n >> 20u32) & 0xFu32) == n >> 20u32,
        (n >> 20u32) * 16 + ((n >> 16u32) & 0xFu32) == n >> 16u32,
        (n >> 16u32) * 16 + ((n >> 12u32) & 0xFu32) == n >> 12u32,
        (n >> 12u32) * 16 + ((n >> 8u32) & 0xFu32) == n >> 8u32,
        (n >> 8u32) * 16 + ((n >> 4u32) & 0xFu32) == n >> 4u32,
        (n >> 4u32) * 16 + (n & 0xFu32) == n,
        n >> 24u32 <= n,
        n >> 20u32 <= n,
        n >> 16u32 <= n,
        n >> 12u32 <= n,
        n >> 8u32 <= n,
        n >> 4u32 <= n,
        n >> 28u32 <= n,
{
}

/// Eight hexadecimal digits of `n` parse back as `n`.
pub proof fn lemma_hex8_parse(n: u32, max: int)
    requires
        n <= max,
    ensures
        parse_unsigned(hex8(n), 16, max) == Ok::<int, IntParseError>(n as int),
        forall|k: int| 0 <= k < 8 ==> !is_ws(#[trigger] hex8(n)[k]) && (hex8(n)[k] as u32) < 0x80 && hex8(n)[k] != 'Y',
{
    let h = hex8(n);
    lemma_nibbles_small(n);
    lemma_nibble_steps(n);
    lemma_hex_digit((n >> 28u32) & 0xFu32);
    lemma_hex_digit((n >> 24u32) & 0xFu32);
    lemma_hex_digit((n >> 20u32) & 0xFu32);
    lemma_hex_digit((n >> 16u32) & 0xFu32);
    lemma_hex_digit((n >> 12u32) & 0xFu32);
    lemma_hex_digit((n >> 8u32) & 0xFu32);
    lemma_hex_digit((n >> 4u32) & 0xFu32);
    lemma_hex_digit(n & 0xFu32);
    let e = Seq::<char>::empty();
    assert(scan_up(e, 0, 0, 16, max) == Ok::<int, IntParseError>(0));
    assert(h.take(1) =~= e.push(h[0]));
    lemma_scan_up_push(e, h[0], 0, 0, 16, max, 0, ((n >> 28u32) & 0xFu32) as nat);
    assert(h.take(2) =~= h.take(1).push(h[1]));
    lemma_scan_up_push(h.take(1), h[1], 0, 0, 16, max, (n >> 28u32) as int, ((n >> 24u32) & 0xFu32) as nat);
    assert(h.take(3) =~= h.take(2).push(h[2]));
    lemma_scan_up_push(h.take(2), h[2], 0, 0, 16, max, (n >> 24u32) as int, ((n >> 20u32) & 0xFu32) as nat);
    assert(h.take(4) =~= h.take(3).push(h[3]));
    lemma_scan_up_push(h.take(3), h[3], 0, 0, 16, max, (n >> 20u32) as int, ((n >> 16u32) & 0xFu32) as nat);
    assert(h.take(5) =~= h.take(4).push(h[4]));
    lemma_scan_up_push(h.take(4), h[4], 0, 0, 16, max, (n >> 16u32) as int, ((n >> 12u32) & 0xFu32) as nat);
    assert(h.take(6) =~= h.take(5).push(h[5]));
    lemma_scan_up_push(h.take(5), h[5], 0, 0, 16, max, (n >> 12u32) as int, ((n >> 8u32) & 0xFu32) as nat);
    assert(h.take(7) =~= h.take(6).push(h[6]));
    lemma_scan_up_push(h.take(6), h[6], 0, 0, 16, max, (n >> 8u32) as int, ((n >> 4u32) & 0xFu32) as nat);
    assert(h =~= h.take(7).push(h[7]));
    lemma_scan_up_push(h.take(7), h[7], 0, 0, 16, max, (n >> 4u32) as int, (n & 0xFu32) as nat);
}

/// Whether a text is a word: not empty, without whitespace.
pub open spec fn is_word(w: Seq<char>) -> bool {
    w.len() > 0 && forall|k: int| 0 <= k < w.len() ==> !is_ws(#[trigger] w[k])
}

/// Words joined by single spaces.
pub open spec fn spaced(ws: Seq<Seq<char>>) -> Seq<char>
    decreases ws.len(),
{
    if ws.len() == 0 {
        Seq::empty()
    } else if ws.len() == 1 {
        ws[0]
    } else {
        spaced(ws.drop_last()) + seq![' '] + ws.last()
    }
}

/// Characters without whitespace extend the word being read.
proof fn lemma_words_acc_extend(x: Seq<char>, w: Seq<char>)
    requires
        forall|k: int| 0 <= k < w.len() ==> !is_ws(#[trigger] w[k]),
    ensures
        words_acc(x + w) == (words_acc(x).0, words_acc(x).1 + w),
    decreases w.len(),
{
    if w.len() == 0 {
        assert(x + w =~= x);
        assert(words_acc(x).1 + w =~= words_acc(x).1);
    } else {
        lemma_words_acc_extend(x, w.drop_last());
        assert((x + w).drop_last() =~= x + w.drop_last());
        assert((x + w).last() == w.last());
        assert((words_acc(x).1 + w.drop_last()).push(w.last()) =~= words_acc(x).1 + w);
    }
}

/// Words joined by single spaces are read back as those words.
pub proof fn lemma_words_spaced(ws: Seq<Seq<char>>)
    requires
        ws.len() > 0,
        forall|i: int| 0 <= i < ws.len() ==> is_word(#[trigger] ws[i]),
    ensures
        words_acc(spaced(ws)) == (ws.drop_last(), ws.last()),
        words(spaced(ws)) == ws,
    decreases ws.len(),
{
    if ws.len() == 1 {
        let e = Seq::<char>::empty();
        assert(is_word(ws[0]));
        lemma_words_acc_extend(e, ws[0]);
        assert(e + ws[0] =~= ws[0]);
        assert(ws.drop_last() =~= Seq::<Seq<char>>::empty());
        assert(words_acc(e).1 + ws[0] =~= ws[0]);
        assert(ws =~= seq![ws[0]]);
    } else {
        let init = ws.drop_last();
        assert forall|i: int| 0 <= i < init.len() implies is_word(#[trigger] init[i]) by {
            assert(init[i] == ws[i]);
        }
        lemma_words_spaced(init);
        let x = spaced(init) + seq![' '];
        assert(x.drop_last() =~= spaced(init));
        assert(is_ws(' '));
        assert(init.last().len() > 0) by {
            assert(is_word(ws[init.len() - 1]));
        }
        assert(init.drop_last().push(init.last()) =~= init);
        assert(words_acc(x) == (init, Seq::<char>::empty()));
        assert(is_word(ws.last())) by {
            assert(is_word(ws[ws.len() - 1]));
        }
        lemma_words_acc_extend(x, ws.last());
        assert(Seq::<char>::empty() + ws.last() =~= ws.last());
        assert(init.push(ws.last()) =~= ws);
    }
}

} // verus!
