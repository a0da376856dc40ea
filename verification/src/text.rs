//! Text primitives: characters, trimming, decimal numerals.

use vstd::prelude::*;

verus! {

/// `String::push`: the documentation says that it appends the character to the end of the string.
pub assume_specification[ String::push ](text: &mut String, c: char)
    ensures
        final(text)@ == old(text)@.push(c),
;

/// Whether two texts hold the same characters.
pub fn same_text(a: &str, b: &str) -> (same: bool)
    ensures
        same == (a@ == b@),
{
    a.to_owned() == b.to_owned()
}

/// The characters of a text, in order.
pub fn chars_of(text: &str) -> (chars: Vec<char>)
    ensures
        chars@ == text@,
{
    let mut chars: Vec<char> = Vec::new();
    for c in it: text.chars()
        invariant
            it.seq() == text@,
            chars@ == text@.take(it.index()),
    {
        chars.push(c);
        assert(text@.take(it.index() + 1) == text@.take(it.index()).push(c));
    }
    assert(text@.take(text@.len() as int) == text@);
    chars
}

/// The text made of the characters from position `from` up to position `to`.
pub fn text_of(chars: &Vec<char>, from: usize, to: usize) -> (text: String)
    requires
        from <= to <= chars@.len(),
    ensures
        text@ == chars@.subrange(from as int, to as int),
{
    let mut text = String::new();
    let mut i: usize = from;
    while i < to
        invariant
            from <= i <= to <= chars@.len(),
            text@ == chars@.subrange(from as int, i as int),
        decreases to - i,
    {
        text.push(chars[i]);
        i += 1;
        assert(chars@.subrange(from as int, i as int) == chars@.subrange(from as int, i - 1).push(
            chars@[i - 1],
        ));
    }
    text
}


/// The characters with the Unicode `White_Space` property.
pub open spec fn whitespace(c: char) -> bool {
    let n = c as u32;
    ||| 0x09 <= n <= 0x0d
    ||| n == 0x20
    ||| n == 0x85
    ||| n == 0xa0
    ||| n == 0x1680
    ||| 0x2000 <= n <= 0x200a
    ||| n == 0x2028
    ||| n == 0x2029
    ||| n == 0x202f
    ||| n == 0x205f
    ||| n == 0x3000
}

/// Whether a character has the Unicode `White_Space` property.
pub fn is_whitespace(c: char) -> (yes: bool)
    ensures
        yes == whitespace(c),
{
    let n: u32 = c as u32;
    (0x09 <= n && n <= 0x0d) || n == 0x20 || n == 0x85 || n == 0xa0 || n == 0x1680 || (0x2000 <= n
        && n <= 0x200a) || n == 0x2028 || n == 0x2029 || n == 0x202f || n == 0x205f || n == 0x3000
}

/// A text without its leading whitespace.
pub open spec fn trimmed_start(s: Seq<char>) -> Seq<char>
    decreases s.len(),
{
    if s.len() > 0 && whitespace(s[0]) {
        trimmed_start(s.subrange(1, s.len() as int))
    } else {
        s
    }
}

/// A text without its trailing whitespace.
pub open spec fn trimmed_end(s: Seq<char>) -> Seq<char>
    decreases s.len(),
{
    if s.len() > 0 && whitespace(s.last()) {
        trimmed_end(s.drop_last())
    } else {
        s
    }
}

/// A text without its leading and trailing whitespace.
pub open spec fn trimmed(s: Seq<char>) -> Seq<char> {
    trimmed_end(trimmed_start(s))
}

/// Whether a text holds nothing but whitespace.
pub open spec fn blank(s: Seq<char>) -> bool {
    forall|i: int| 0 <= i < s.len() ==> whitespace(#[trigger] s[i])
}

/// A text is blank exactly when trimming leaves nothing of it.
pub proof fn lemma_blank_is_trimmed_empty(s: Seq<char>)
    ensures
        blank(s) <==> trimmed(s).len() == 0,
    decreases s.len(),
{
    if s.len() > 0 && whitespace(s[0]) {
        let rest = s.subrange(1, s.len() as int);
        lemma_blank_is_trimmed_empty(rest);
        if blank(rest) {
            assert forall|i: int| 0 <= i < s.len() implies whitespace(#[trigger] s[i]) by {
                if i > 0 {
                    assert(rest[i - 1] == s[i]);
                }
            }
        }
        if blank(s) {
            assert forall|i: int| 0 <= i < rest.len() implies whitespace(#[trigger] rest[i]) by {
                assert(rest[i] == s[i + 1]);
            }
        }
    } else if s.len() > 0 {
        lemma_trimmed_end_keeps(s, 0);
    }
}

proof fn lemma_trimmed_end_keeps(s: Seq<char>, k: int)
    requires
        0 <= k < s.len(),
        !whitespace(s[k]),
    ensures
        trimmed_end(s).len() > k,
    decreases s.len(),
{
    if whitespace(s.last()) {
        lemma_trimmed_end_keeps(s.drop_last(), k);
    }
}

/// A copy of the text without leading and trailing whitespace.
pub fn trim(text: &str) -> (r: String)
    ensures
        r@ == trimmed(text@),
{
    let chars = chars_of(text);
    let mut from: usize = 0;
    assert(chars@.subrange(0, chars@.len() as int) == chars@);
    while from < chars.len() && is_whitespace(chars[from])
        invariant
            from <= chars@.len(),
            trimmed_start(chars@) == trimmed_start(chars@.subrange(from as int, chars@.len() as int)),
        decreases chars@.len() - from,
    {
        let ghost rest = chars@.subrange(from as int, chars@.len() as int);
        assert(rest.subrange(1, rest.len() as int) == chars@.subrange(
            from + 1,
            chars@.len() as int,
        ));
        from += 1;
    }
    let ghost body = chars@.subrange(from as int, chars@.len() as int);
    assert(trimmed_start(chars@) == body);
    let mut to: usize = chars.len();
    while to > from && is_whitespace(chars[to - 1])
        invariant
            from <= to <= chars@.len(),
            trimmed_end(body) == trimmed_end(chars@.subrange(from as int, to as int)),
        decreases to - from,
    {
        let ghost rest = chars@.subrange(from as int, to as int);
        assert(rest.drop_last() == chars@.subrange(from as int, to - 1));
        to -= 1;
    }
    text_of(&chars, from, to)
}

/// Whether a text holds nothing but whitespace.
pub fn is_blank(text: &str) -> (yes: bool)
    ensures
        yes == blank(text@),
{
    let chars = chars_of(text);
    let mut i: usize = 0;
    while i < chars.len()
        invariant
            i <= chars@.len(),
            chars@ == text@,
            forall|j: int| 0 <= j < i ==> whitespace(#[trigger] chars@[j]),
        decreases chars@.len() - i,
    {
        if !is_whitespace(chars[i]) {
            return false;
        }
        i += 1;
    }
    true
}

/// The ASCII lower-case form of a character; other characters stand for themselves.
pub open spec fn lowered_char(c: char) -> char {
    if 'A' <= c <= 'Z' {
        ((c as u8) + 32) as char
    } else {
        c
    }
}

/// A text with every ASCII capital replaced by its lower-case form.
pub open spec fn lowered(s: Seq<char>) -> Seq<char> {
    Seq::new(s.len(), |i: int| lowered_char(s[i]))
}

/// A copy of the text with every ASCII capital replaced by its lower-case form.
pub fn to_ascii_lowercase(text: &str) -> (r: String)
    ensures
        r@ == lowered(text@),
{
    let chars = chars_of(text);
    let mut r = String::new();
    let mut i: usize = 0;
    while i < chars.len()
        invariant
            i <= chars@.len(),
            r@ == lowered(chars@).take(i as int),
        decreases chars@.len() - i,
    {
        let c = chars[i];
        let low: char = if 'A' <= c && c <= 'Z' {
            (c as u8 + 32) as char
        } else {
            c
        };
        r.push(low);
        i += 1;
        assert(lowered(chars@).take(i as int) == lowered(chars@).take(i - 1).push(low));
    }
    assert(lowered(chars@).take(i as int) == lowered(chars@));
    r
}

/// The numeral of a single decimal digit.
pub open spec fn digit_char(d: nat) -> char {
    (('0' as u8) + d) as char
}

/// The decimal numeral of a number, without leading zeros.
pub open spec fn decimal(n: nat) -> Seq<char>
    decreases n,
{
    if n < 10 {
        seq![digit_char(n)]
    } else {
        decimal(n / 10).push(digit_char(n % 10))
    }
}

/// Whether a character is one of the ten decimal digits.
pub open spec fn is_digit(c: char) -> bool {
    '0' <= c <= '9'
}

/// Whether a text is a non-empty run of decimal digits.
pub open spec fn is_numeral(s: Seq<char>) -> bool {
    s.len() > 0 && forall|i: int| 0 <= i < s.len() ==> is_digit(#[trigger] s[i])
}

/// The value of a run of decimal digits.
pub open spec fn numeral_value(s: Seq<char>) -> nat
    decreases s.len(),
{
    if s.len() == 0 {
        0
    } else {
        numeral_value(s.drop_last()) * 10 + (s.last() as u32 - '0' as u32) as nat
    }
}

/// Reading a numeral gives back the number that was written.
pub proof fn lemma_decimal_round_trip(n: nat)
    ensures
        is_numeral(decimal(n)),
        numeral_value(decimal(n)) == n,
    decreases n,
{
    if n < 10 {
        assert(decimal(n).drop_last() == Seq::<char>::empty());
        assert(numeral_value(Seq::<char>::empty()) == 0);
    } else {
        lemma_decimal_round_trip(n / 10);
        let head = decimal(n / 10);
        assert(decimal(n).drop_last() == head);
        assert forall|i: int| 0 <= i < decimal(n).len() implies is_digit(#[trigger] decimal(n)[i]) by {
            if i < head.len() {
                assert(decimal(n)[i] == head[i]);
            }
        }
    }
}

/// Different numbers have different numerals.
pub proof fn lemma_decimal_injective(a: nat, b: nat)
    requires
        decimal(a) == decimal(b),
    ensures
        a == b,
{
    lemma_decimal_round_trip(a);
    lemma_decimal_round_trip(b);
}

/// The decimal numeral of a number.
pub fn decimal_text(n: u64) -> (r: String)
    ensures
        r@ == decimal(n as nat),
    decreases n,
{
    let mut head = if n < 10 {
        String::new()
    } else {
        decimal_text(n / 10)
    };
    let digit: u8 = (n % 10) as u8;
    head.push((48 + digit) as char);
    assert(head@ == decimal(n as nat));
    head
}

/// What an unsigned integer of at most `max` is read from: an optional `+`, then digits only.
pub open spec fn unsigned_value(s: Seq<char>, max: nat) -> Option<nat> {
    let digits = if s.len() > 0 && s[0] == '+' {
        s.subrange(1, s.len() as int)
    } else {
        s
    };
    if is_numeral(digits) && numeral_value(digits) <= max {
        Some(numeral_value(digits))
    } else {
        None
    }
}

/// What a signed integer within `min..=max` is read from: an optional sign, then digits only.
pub open spec fn signed_value(s: Seq<char>, min: int, max: int) -> Option<int> {
    let digits = if s.len() > 0 && (s[0] == '+' || s[0] == '-') {
        s.subrange(1, s.len() as int)
    } else {
        s
    };
    let value: int = if s.len() > 0 && s[0] == '-' {
        -(numeral_value(digits) as int)
    } else {
        numeral_value(digits) as int
    };
    if is_numeral(digits) && min <= value <= max {
        Some(value)
    } else {
        None
    }
}

/// An unsigned number within bounds is read back from its numeral.
pub proof fn lemma_unsigned_round_trip(n: nat, max: nat)
    requires
        n <= max,
    ensures
        unsigned_value(decimal(n), max) == Some(n),
{
    lemma_decimal_round_trip(n);
    assert(is_digit(decimal(n)[0]));
}

/// The value of the digits from position `from` to the end, where it is at most `limit`.
fn parse_digits(chars: &Vec<char>, from: usize, limit: u64) -> (r: Option<u64>)
    requires
        from <= chars@.len(),
    ensures
        ({
            let digits = chars@.subrange(from as int, chars@.len() as int);
            match r {
                Some(v) => is_numeral(digits) && numeral_value(digits) == v && v <= limit,
                None => !is_numeral(digits) || numeral_value(digits) > limit,
            }
        }),
{
    let ghost digits = chars@.subrange(from as int, chars@.len() as int);
    if from == chars.len() {
        return None;
    }
    let mut acc: u64 = 0;
    let mut over: bool = false;
    let mut i: usize = from;
    while i < chars.len()
        invariant
            from <= i <= chars@.len(),
            from < chars@.len(),
            digits == chars@.subrange(from as int, chars@.len() as int),
            forall|j: int| 0 <= j < i - from ==> is_digit(#[trigger] digits[j]),
            !over ==> acc == numeral_value(digits.take(i - from)) && acc <= limit,
            over ==> numeral_value(digits.take(i - from)) > limit,
        decreases chars@.len() - i,
    {
        let c = chars[i];
        let ghost k = i - from;
        assert(digits[k] == c);
        if !('0' <= c && c <= '9') {
            return None;
        }
        let d: u64 = (c as u32 - 48) as u64;
        assert(digits.take(k + 1).drop_last() == digits.take(k));
        assert(numeral_value(digits.take(k + 1)) == numeral_value(digits.take(k)) * 10 + d);
        if !over {
            let next: u128 = acc as u128 * 10 + d as u128;
            if next > limit as u128 {
                over = true;
            } else {
                acc = next as u64;
            }
        }
        i += 1;
    }
    assert(digits.take(i - from) == digits);
    if over {
        None
    } else {
        Some(acc)
    }
}

/// Reads an unsigned integer of at most `max`.
pub fn parse_unsigned(text: &str, max: u64) -> (r: Option<u64>)
    ensures
        match r {
            Some(v) => unsigned_value(text@, max as nat) == Some(v as nat),
            None => unsigned_value(text@, max as nat) is None,
        },
{
    let chars = chars_of(text);
    let from: usize = if chars.len() > 0 && chars[0] == '+' {
        1
    } else {
        0
    };
    assert(from == 0 ==> chars@.subrange(0, chars@.len() as int) == text@);
    parse_digits(&chars, from, max)
}

/// Reads an integer that fits in an `i32`.
pub fn parse_i32(text: &str) -> (r: Option<i32>)
    ensures
        match r {
            Some(v) => signed_value(text@, i32::MIN as int, i32::MAX as int) == Some(v as int),
            None => signed_value(text@, i32::MIN as int, i32::MAX as int) is None,
        },
{
    let chars = chars_of(text);
    let negative: bool = chars.len() > 0 && chars[0] == '-';
    let from: usize = if chars.len() > 0 && (chars[0] == '+' || chars[0] == '-') {
        1
    } else {
        0
    };
    assert(from == 0 ==> chars@.subrange(0, chars@.len() as int) == text@);
    let limit: u64 = if negative {
        2147483648
    } else {
        2147483647
    };
    match parse_digits(&chars, from, limit) {
        Some(v) => Some(
            if negative {
                (-(v as i64)) as i32
            } else {
                v as i32
            },
        ),
        None => None,
    }
}

/// The text in an option, where there is one.
pub open spec fn text_in(text: Option<String>) -> Option<Seq<char>> {
    match text {
        Some(t) => Some(t@),
        None => None,
    }
}

/// A copy of the text in an option.
pub fn copy_text(text: &Option<String>) -> (r: Option<String>)
    ensures
        text_in(r) == text_in(*text),
{
    match text {
        Some(t) => Some(t.clone()),
        None => None,
    }
}

/// A numeral is made digit by digit: that of a number below ten is its digit, and one more digit
/// behind it makes the numeral of ten times the number and that digit.
pub proof fn lemma_numerals_grow_by_digits(n: u64, d: u64, short: String, long: String)
    requires
        call_ensures(decimal_text, (n,), short),
        10 * n + d <= u64::MAX,
        d < 10,
        call_ensures(decimal_text, ((10 * n + d) as u64,), long),
    ensures
        n == 0 ==> short@ == "0"@,
        n == 0 ==> long@ == seq![digit_char(d as nat)],
        n > 0 ==> long@ == short@.push(digit_char(d as nat)),
        digit_char(0) == '0' && digit_char(1) == '1' && digit_char(2) == '2' && digit_char(3) == '3',
        digit_char(4) == '4' && digit_char(5) == '5' && digit_char(6) == '6' && digit_char(7) == '7',
        digit_char(8) == '8' && digit_char(9) == '9',
{
    reveal_strlit("0");
    assert((10 * n + d) / 10 == n && (10 * n + d) % 10 == d);
    if n == 0 {
        assert(short@ =~= "0"@);
    }
}

/// Reading the numeral of a number gives the number, with or without a sign in front, wherever it is
/// not too large. What holds anything but digits behind the sign is no number.
pub proof fn lemma_reading_undoes_writing(n: u64, max: u64, text: &str, r: Option<u64>)
    requires
        call_ensures(parse_unsigned, (text, max), r),
    ensures
        text@ == decimal(n as nat) || text@ == seq!['+'] + decimal(n as nat) ==> r == (if n <= max {
            Some(n)
        } else {
            None
        }),
        text@.len() == 0 ==> r is None,
        forall|i: int|
            0 <= i < text@.len() && !('0' <= #[trigger] text@[i] <= '9') && !(i == 0 && text@[i]
                == '+') ==> r is None,
        r matches Some(v) ==> v <= max,
{
    lemma_decimal_round_trip(n as nat);
    let s = text@;
    let signed = seq!['+'] + decimal(n as nat);
    assert(signed.subrange(1, signed.len() as int) =~= decimal(n as nat));
    assert(is_digit(decimal(n as nat)[0]));
    assert forall|i: int|
        0 <= i < s.len() && !('0' <= #[trigger] s[i] <= '9') && !(i == 0 && s[i]
            == '+') implies r is None by {
        if s[0] == '+' {
            assert(s.subrange(1, s.len() as int)[i - 1] == s[i]);
        } else {
            assert(!is_digit(s[i]));
        }
    }
}

/// A signed number is read back from its numeral, behind a minus where it is negative.
pub proof fn lemma_reading_signed(n: u32, text: &str, r: Option<i32>)
    requires
        call_ensures(parse_i32, (text,), r),
    ensures
        text@ == decimal(n as nat) ==> r == (if n <= i32::MAX {
            Some(n as i32)
        } else {
            None
        }),
        text@ == seq!['-'] + decimal(n as nat) ==> match r {
            Some(v) => n <= 0x8000_0000 && v == -(n as int),
            None => n > 0x8000_0000,
        },
{
    lemma_decimal_round_trip(n as nat);
    let signed = seq!['-'] + decimal(n as nat);
    assert(signed.subrange(1, signed.len() as int) =~= decimal(n as nat));
    assert(is_digit(decimal(n as nat)[0]));
}

proof fn lemma_trimmed_start_is_suffix(s: Seq<char>)
    ensures
        trimmed_start(s).len() <= s.len(),
        trimmed_start(s) == s.skip(s.len() - trimmed_start(s).len()),
        forall|i: int|
            0 <= i < s.len() - trimmed_start(s).len() ==> whitespace(#[trigger] s[i]),
        trimmed_start(s).len() > 0 ==> !whitespace(trimmed_start(s)[0]),
    decreases s.len(),
{
    if s.len() > 0 && whitespace(s[0]) {
        let rest = s.subrange(1, s.len() as int);
        lemma_trimmed_start_is_suffix(rest);
        let t = trimmed_start(s);
        assert(t =~= s.skip(s.len() - t.len()));
        assert forall|i: int| 0 <= i < s.len() - t.len() implies whitespace(#[trigger] s[i]) by {
            if i > 0 {
                assert(rest[i - 1] == s[i]);
            }
        }
    } else {
        assert(s.skip(0) =~= s);
    }
}

proof fn lemma_trimmed_end_is_prefix(s: Seq<char>)
    ensures
        trimmed_end(s).len() <= s.len(),
        trimmed_end(s) == s.take(trimmed_end(s).len() as int),
        forall|i: int| trimmed_end(s).len() <= i < s.len() ==> whitespace(#[trigger] s[i]),
        trimmed_end(s).len() > 0 ==> !whitespace(trimmed_end(s).last()),
    decreases s.len(),
{
    if s.len() > 0 && whitespace(s.last()) {
        lemma_trimmed_end_is_prefix(s.drop_last());
        let t = trimmed_end(s);
        assert(t =~= s.take(t.len() as int));
        assert forall|i: int| t.len() <= i < s.len() implies whitespace(#[trigger] s[i]) by {
            if i < s.len() - 1 {
                assert(s.drop_last()[i] == s[i]);
            }
        }
    } else {
        assert(s.take(s.len() as int) =~= s);
    }
}

/// Trimming takes whitespace off both ends and nothing else: a text is what is left of it between
/// two runs of whitespace, and what is left begins and ends with something else.
pub proof fn lemma_trim_takes_whitespace(text: &str, r: String)
    requires
        call_ensures(trim, (text,), r),
    ensures
        exists|front: Seq<char>, back: Seq<char>|
            text@ == #[trigger] (front + r@ + back) && blank(front) && blank(back),
        r@.len() > 0 ==> !whitespace(r@[0]) && !whitespace(r@.last()),
        whitespace(' ') && whitespace('\t') && whitespace('\n') && whitespace('\r'),
        !whitespace('a') && !whitespace('-') && !whitespace('0'),
{
    let s = text@;
    let body = trimmed_start(s);
    lemma_trimmed_start_is_suffix(s);
    lemma_trimmed_end_is_prefix(body);
    let front = s.take(s.len() - body.len());
    let back = body.skip(r@.len() as int);
    assert(s =~= front + r@ + back);
    assert forall|i: int| 0 <= i < back.len() implies whitespace(#[trigger] back[i]) by {
        assert(back[i] == body[r@.len() + i]);
    }
    assert(blank(front) && blank(back));
}

/// A text is blank where every character of it is whitespace.
pub proof fn lemma_blank_means_whitespace(text: &str, r: bool)
    requires
        call_ensures(is_blank, (text,), r),
    ensures
        r <==> forall|i: int| 0 <= i < text@.len() ==> whitespace(#[trigger] text@[i]),
{
}

/// The characters with the `White_Space` property, by their code points.
pub proof fn lemma_whitespace_by_code(c: char, r: bool)
    requires
        call_ensures(is_whitespace, (c,), r),
    ensures
        r <==> (c as u32 == 0x09 || c as u32 == 0x0a || c as u32 == 0x0b || c as u32 == 0x0c
            || c as u32 == 0x0d || c as u32 == 0x20 || c as u32 == 0x85 || c as u32 == 0xa0
            || c as u32 == 0x1680 || 0x2000 <= c as u32 <= 0x200a || c as u32 == 0x2028
            || c as u32 == 0x2029 || c as u32 == 0x202f || c as u32 == 0x205f
            || c as u32 == 0x3000),
{
}

/// Lowering a text turns its ASCII capitals into small letters, and keeps everything else.
pub proof fn lemma_lowering(text: &str, r: String, i: int)
    requires
        call_ensures(to_ascii_lowercase, (text,), r),
        0 <= i < text@.len(),
    ensures
        r@.len() == text@.len(),
        'A' <= text@[i] <= 'Z' ==> r@[i] as u32 == text@[i] as u32 + 32,
        !('A' <= text@[i] <= 'Z') ==> r@[i] == text@[i],
        'a' as u32 == 'A' as u32 + 32,
{
}

/// Texts are the same where their characters are, and are taken apart and put together again
/// character by character.
pub proof fn lemma_characters(
    a: &str,
    b: &str,
    same: bool,
    chars: Vec<char>,
    from: usize,
    to: usize,
    text: String,
    given: Option<String>,
    copy: Option<String>,
)
    requires
        call_ensures(same_text, (a, b), same),
        call_ensures(chars_of, (a,), chars),
        from <= to <= chars@.len(),
        call_ensures(text_of, (&chars, from, to), text),
        call_ensures(copy_text, (&given,), copy),
    ensures
        same <==> a@ == b@,
        chars@ == a@,
        text@ == a@.subrange(from as int, to as int),
        copy is Some <==> given is Some,
        copy is Some ==> copy->0@ == given->0@,
{
}

} // verus!
