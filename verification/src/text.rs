//! Text primitives: white space, trimming, comparison, decimal numbers.
use vstd::prelude::*;
use vstd::string::*;

verus! {

/// `String::push` of the standard library: appends one character.
pub assume_specification[ String::push ](s: &mut String, c: char)
    ensures
        final(s)@ == old(s)@.push(c),
;

/// A character with the Unicode property White_Space.
pub open spec fn whitespace(c: char) -> bool {
    let n = c as u32;
    ||| 0x9 <= n <= 0xd
    ||| n == 0x20
    ||| n == 0x85
    ||| n == 0xa0
    ||| n == 0x1680
    ||| 0x2000 <= n <= 0x200a
    ||| n == 0x2028
    ||| n == 0x2029
    ||| n == 0x202f
    ||| n == 0x205f
    ||| n == 0x3000
}

/// Text that holds nothing but white space.
pub open spec fn blank(s: Seq<char>) -> bool {
    forall|i: int| 0 <= i < s.len() ==> whitespace(#[trigger] s[i])
}

/// `s` without its leading white space.
pub open spec fn trimmed_start(s: Seq<char>) -> Seq<char>
    decreases s.len(),
{
    if s.len() > 0 && whitespace(s[0]) {
        trimmed_start(s.drop_first())
    } else {
        s
    }
}

/// `s` without its trailing white space.
pub open spec fn trimmed_end(s: Seq<char>) -> Seq<char>
    decreases s.len(),
{
    if s.len() > 0 && whitespace(s.last()) {
        trimmed_end(s.drop_last())
    } else {
        s
    }
}

/// `s` without leading and trailing white space.
pub open spec fn trimmed(s: Seq<char>) -> Seq<char> {
    trimmed_end(trimmed_start(s))
}

/// `s` without the slashes at its end.
pub open spec fn without_trailing_slashes(s: Seq<char>) -> Seq<char>
    decreases s.len(),
{
    if s.len() > 0 && s.last() == '/' {
        without_trailing_slashes(s.drop_last())
    } else {
        s
    }
}

/// What is left of `s` when every white space character is dropped.
pub open spec fn compact(s: Seq<char>) -> Seq<char> {
    s.filter(|c: char| !whitespace(c))
}

/// The texts of `parts`, one after the other.
pub open spec fn concatenated(parts: Seq<Seq<char>>) -> Seq<char>
    decreases parts.len(),
{
    if parts.len() == 0 {
        Seq::empty()
    } else {
        concatenated(parts.drop_last()) + parts.last()
    }
}

/// The texts of `parts` with `separator` between each two of them.
pub open spec fn joined(parts: Seq<Seq<char>>, separator: Seq<char>) -> Seq<char>
    decreases parts.len(),
{
    if parts.len() == 0 {
        Seq::empty()
    } else if parts.len() == 1 {
        parts[0]
    } else {
        joined(parts.drop_last(), separator) + separator + parts.last()
    }
}

/// The views of the strings in `parts`.
pub open spec fn texts(parts: Seq<String>) -> Seq<Seq<char>> {
    Seq::new(parts.len(), |i: int| parts[i]@)
}

/// The decimal digit for a value below ten.
pub open spec fn digit(n: nat) -> char {
    ('0' as u32 + n) as char
}

/// The decimal digits of `n`, without leading zeros.
pub open spec fn digits(n: nat) -> Seq<char>
    decreases n,
{
    if n < 10 {
        seq![digit(n)]
    } else {
        digits(n / 10).push(digit(n % 10))
    }
}

/// `n` in decimal, with a minus sign where it is negative.
pub open spec fn decimal(n: int) -> Seq<char> {
    if n < 0 {
        seq!['-'] + digits((-n) as nat)
    } else {
        digits(n as nat)
    }
}

/// The number that a sequence of decimal digits stands for.
pub open spec fn digits_value(s: Seq<char>) -> int
    decreases s.len(),
{
    if s.len() == 0 {
        0
    } else {
        digits_value(s.drop_last()) * 10 + (s.last() as u32 - '0' as u32)
    }
}

pub open spec fn all_digits(s: Seq<char>) -> bool {
    forall|i: int| 0 <= i < s.len() ==> '0' <= #[trigger] s[i] <= '9'
}

/// The 64-bit integer that `s` writes in decimal: an optional sign and at least
/// one digit, nothing else, and a value within range.
pub open spec fn parsed_i64(s: Seq<char>) -> Option<i64> {
    let signed = s.len() > 0 && (s[0] == '+' || s[0] == '-');
    let body = if signed { s.drop_first() } else { s };
    let value = if s.len() > 0 && s[0] == '-' { -digits_value(body) } else { digits_value(body) };
    if body.len() > 0 && all_digits(body) && i64::MIN <= value <= i64::MAX {
        Some(value as i64)
    } else {
        None
    }
}

pub fn is_whitespace(c: char) -> (r: bool)
    ensures
        r == whitespace(c),
{
    let n: u32 = c as u32;
    (0x9 <= n && n <= 0xd) || n == 0x20 || n == 0x85 || n == 0xa0 || n == 0x1680 || (0x2000 <= n
        && n <= 0x200a) || n == 0x2028 || n == 0x2029 || n == 0x202f || n == 0x205f || n == 0x3000
}

pub fn str_eq(a: &str, b: &str) -> (r: bool)
    ensures
        r == (a@ == b@),
{
    a.to_owned() == b.to_owned()
}

pub fn is_blank(value: &str) -> (r: bool)
    ensures
        r == blank(value@),
{
    for c in it: value.chars()
        invariant
            it.seq() == value@,
            forall|i: int| 0 <= i < it.index() ==> whitespace(#[trigger] value@[i]),
    {
        if !is_whitespace(c) {
            assert(value@[it.index()] == c);
            return false;
        }
    }
    true
}

proof fn lemma_trimmed_start(s: Seq<char>, n: int)
    requires
        0 <= n <= s.len(),
        forall|i: int| 0 <= i < n ==> whitespace(#[trigger] s[i]),
        n < s.len() ==> !whitespace(s[n]),
    ensures
        trimmed_start(s) == s.subrange(n, s.len() as int),
    decreases n,
{
    if n == 0 {
        assert(s.subrange(0, s.len() as int) =~= s);
    } else {
        let t = s.drop_first();
        assert(whitespace(s[0]));
        assert forall|i: int| 0 <= i < n - 1 implies whitespace(#[trigger] t[i]) by {
            assert(t[i] == s[i + 1]);
        }
        lemma_trimmed_start(t, n - 1);
        assert(t.subrange(n - 1, t.len() as int) =~= s.subrange(n, s.len() as int));
    }
}

proof fn lemma_trimmed_end(s: Seq<char>, n: int)
    requires
        0 <= n <= s.len(),
        forall|i: int| n <= i < s.len() ==> whitespace(#[trigger] s[i]),
        n > 0 ==> !whitespace(s[n - 1]),
    ensures
        trimmed_end(s) == s.subrange(0, n),
    decreases s.len() - n,
{
    if n == s.len() {
        assert(s.subrange(0, n) =~= s);
    } else {
        let t = s.drop_last();
        assert(whitespace(s[s.len() - 1]));
        assert forall|i: int| n <= i < t.len() implies whitespace(#[trigger] t[i]) by {
            assert(t[i] == s[i]);
        }
        lemma_trimmed_end(t, n);
        assert(t.subrange(0, n) =~= s.subrange(0, n));
    }
}

/// The characters of `value`.
pub fn characters(value: &str) -> (r: Vec<char>)
    ensures
        r@ == value@,
{
    let mut out: Vec<char> = Vec::new();
    for c in it: value.chars()
        invariant
            it.seq() == value@,
            out@ == value@.take(it.index()),
    {
        assert(value@.take(it.index() + 1) =~= value@.take(it.index()).push(c));
        out.push(c);
    }
    assert(value@.take(value@.len() as int) =~= value@);
    out
}

/// The characters from `from` up to `to` as a string.
fn text_between(chars: &Vec<char>, from: usize, to: usize) -> (r: String)
    requires
        from <= to <= chars@.len(),
    ensures
        r@ == chars@.subrange(from as int, to as int),
{
    let mut out = String::new();
    let mut i: usize = from;
    while i < to
        invariant
            from <= i <= to <= chars@.len(),
            out@ == chars@.subrange(from as int, i as int),
        decreases to - i,
    {
        out.push(chars[i]);
        i += 1;
        assert(out@ =~= chars@.subrange(from as int, i as int));
    }
    out
}

/// `value` without leading and trailing white space.
pub fn trim(value: &str) -> (r: String)
    ensures
        r@ == trimmed(value@),
{
    let chars = characters(value);
    let mut start: usize = 0;
    while start < chars.len() && is_whitespace(chars[start])
        invariant
            start <= chars@.len(),
            forall|i: int| 0 <= i < start ==> whitespace(#[trigger] chars@[i]),
        decreases chars@.len() - start,
    {
        start += 1;
    }
    let mut end: usize = chars.len();
    while end > start && is_whitespace(chars[end - 1])
        invariant
            start <= end <= chars@.len(),
            forall|i: int| end <= i < chars@.len() ==> whitespace(#[trigger] chars@[i]),
        decreases end,
    {
        end -= 1;
    }
    proof {
        let rest = chars@.subrange(start as int, chars@.len() as int);
        lemma_trimmed_start(chars@, start as int);
        assert forall|i: int| end - start <= i < rest.len() implies whitespace(
            #[trigger] rest[i],
        ) by {
            assert(rest[i] == chars@[i + start]);
        }
        if end > start {
            assert(rest[end - start - 1] == chars@[end - 1]);
        }
        lemma_trimmed_end(rest, end - start);
        assert(rest.subrange(0, end - start) =~= chars@.subrange(start as int, end as int));
    }
    text_between(&chars, start, end)
}

/// Trimming leaves nothing exactly of the texts that hold nothing but white space.
pub proof fn law_trimmed_empty_iff_blank(s: Seq<char>)
    ensures
        trimmed(s).len() == 0 <==> blank(s),
    decreases s.len(),
{
    if s.len() > 0 && whitespace(s[0]) {
        let t = s.drop_first();
        law_trimmed_empty_iff_blank(t);
        assert(blank(t) <==> blank(s)) by {
            if blank(t) {
                assert forall|i: int| 0 <= i < s.len() implies whitespace(#[trigger] s[i]) by {
                    if i > 0 {
                        assert(s[i] == t[i - 1]);
                    }
                }
            }
            if blank(s) {
                assert forall|i: int| 0 <= i < t.len() implies whitespace(#[trigger] t[i]) by {
                    assert(t[i] == s[i + 1]);
                }
            }
        }
    } else if s.len() > 0 {
        lemma_trimmed_end_keeps_head(s);
    }
}

proof fn lemma_trimmed_end_keeps_head(s: Seq<char>)
    requires
        s.len() > 0,
        !whitespace(s[0]),
    ensures
        trimmed_end(s).len() > 0,
    decreases s.len(),
{
    if whitespace(s.last()) {
        lemma_trimmed_end_keeps_head(s.drop_last());
    }
}

/// `value` without the slashes at its end.
pub fn trim_trailing_slashes(value: &str) -> (r: String)
    ensures
        r@ == without_trailing_slashes(value@),
{
    let chars = characters(value);
    let mut end: usize = chars.len();
    assert(chars@.take(end as int) =~= chars@);
    while end > 0 && chars[end - 1] == '/'
        invariant
            end <= chars@.len(),
            without_trailing_slashes(chars@) == without_trailing_slashes(chars@.take(end as int)),
        decreases end,
    {
        assert(chars@.take(end as int).drop_last() =~= chars@.take(end - 1));
        end -= 1;
    }
    text_between(&chars, 0, end)
}

/// `value` without any white space.
pub fn without_whitespace(value: &str) -> (r: String)
    ensures
        r@ == compact(value@),
{
    let ghost keep = |c: char| !whitespace(c);
    let mut out = String::new();
    assert(value@.take(0).filter(keep) =~= Seq::empty()) by {
        reveal(Seq::filter);
    }
    for c in it: value.chars()
        invariant
            it.seq() == value@,
            keep == (|c: char| !whitespace(c)),
            out@ == value@.take(it.index()).filter(keep),
    {
        proof {
            assert(value@.take(it.index() + 1) =~= value@.take(it.index()).push(c));
            value@.take(it.index()).lemma_filter_push(c, keep);
        }
        if !is_whitespace(c) {
            out.push(c);
        }
    }
    assert(value@.take(value@.len() as int) =~= value@);
    out
}

/// The strings of `parts` with `separator` between each two of them.
pub fn join(parts: &Vec<String>, separator: &str) -> (r: String)
    ensures
        r@ == joined(texts(parts@), separator@),
{
    let mut out = String::new();
    let mut i: usize = 0;
    while i < parts.len()
        invariant
            i <= parts@.len(),
            out@ == joined(texts(parts@).take(i as int), separator@),
        decreases parts@.len() - i,
    {
        assert(texts(parts@).take(i + 1).drop_last() =~= texts(parts@).take(i as int));
        if i > 0 {
            out.append(separator);
        }
        out.append(parts[i].as_str());
        i += 1;
        assert(out@ =~= joined(texts(parts@).take(i as int), separator@));
    }
    assert(texts(parts@).take(i as int) =~= texts(parts@));
    out
}

fn push_digits(out: &mut String, n: u64)
    ensures
        final(out)@ == old(out)@ + digits(n as nat),
    decreases n,
{
    let ghost before = out@;
    if n >= 10 {
        push_digits(out, n / 10);
    }
    let d: u8 = (n % 10) as u8;
    out.push((48u8 + d) as char);
    assert(out@ =~= before + digits(n as nat));
}

/// `n` in decimal.
pub fn decimal_u64(n: u64) -> (r: String)
    ensures
        r@ == decimal(n as int),
{
    let mut out = String::new();
    push_digits(&mut out, n);
    assert(out@ =~= digits(n as nat));
    out
}

/// `n` in decimal, with a minus sign where it is negative.
pub fn decimal_i64(n: i64) -> (r: String)
    ensures
        r@ == decimal(n as int),
{
    let mut out = String::new();
    if n < 0 {
        out.push('-');
        let magnitude: u64 = (-(n as i128)) as u64;
        push_digits(&mut out, magnitude);
        assert(out@ =~= decimal(n as int));
    } else {
        push_digits(&mut out, n as u64);
        assert(out@ =~= decimal(n as int));
    }
    out
}

proof fn lemma_digits_value_grows(s: Seq<char>, n: int)
    requires
        0 <= n <= s.len(),
        all_digits(s),
    ensures
        0 <= digits_value(s.take(n)) <= digits_value(s),
    decreases s.len(),
{
    if n == s.len() {
        assert(s.take(n) =~= s);
        if n > 0 {
            let t = s.drop_last();
            assert(all_digits(t)) by {
                assert forall|i: int| 0 <= i < t.len() implies '0' <= #[trigger] t[i] <= '9' by {
                    assert(t[i] == s[i]);
                }
            }
            assert('0' <= s[n - 1] <= '9');
            lemma_digits_value_grows(t, t.len() as int);
            assert(t.take(t.len() as int) =~= t);
        }
    } else {
        let t = s.drop_last();
        assert(all_digits(t)) by {
            assert forall|i: int| 0 <= i < t.len() implies '0' <= #[trigger] t[i] <= '9' by {
                assert(t[i] == s[i]);
            }
        }
        assert('0' <= s[s.len() - 1] <= '9');
        lemma_digits_value_grows(t, n);
        assert(t.take(n) =~= s.take(n));
    }
}

/// The 64-bit integer that `value` writes in decimal, where it writes one.
pub fn parse_i64(value: &str) -> (r: Option<i64>)
    ensures
        r == parsed_i64(value@),
{
    let chars = characters(value);
    let signed = chars.len() > 0 && (chars[0] == '+' || chars[0] == '-');
    let negative = chars.len() > 0 && chars[0] == '-';
    let start: usize = if signed { 1 } else { 0 };
    let ghost body = if signed { value@.drop_first() } else { value@ };
    assert(body =~= value@.subrange(start as int, value@.len() as int));
    if start == chars.len() {
        return None;
    }
    let mut total: i128 = 0;
    let mut i: usize = start;
    assert(body.take(0) =~= Seq::empty());
    while i < chars.len()
        invariant
            chars@ == value@,
            start <= i <= chars@.len(),
            body == value@.subrange(start as int, value@.len() as int),
            body == if signed { value@.drop_first() } else { value@ },
            signed == (value@.len() > 0 && (value@[0] == '+' || value@[0] == '-')),
            negative == (value@.len() > 0 && value@[0] == '-'),
            forall|k: int| 0 <= k < i - start ==> '0' <= #[trigger] body[k] <= '9',
            total == digits_value(body.take(i - start)),
            0 <= total <= 0x1_0000_0000_0000_0000,
        decreases chars@.len() - i,
    {
        let c = chars[i];
        assert(c == body[i - start]);
        if c < '0' || c > '9' {
            assert(!all_digits(body));
            return None;
        }
        assert(body.take(i - start + 1).drop_last() =~= body.take(i - start));
        total = total * 10 + (c as u32 - 48) as i128;
        i += 1;
        if total > 0x1_0000_0000_0000_0000 {
            proof {
                if all_digits(body) {
                    lemma_digits_value_grows(body, i - start);
                }
            }
            return None;
        }
    }
    assert(body.take(body.len() as int) =~= body);
    let signed_total: i128 = if negative { -total } else { total };
    if signed_total < i64::MIN as i128 || signed_total > i64::MAX as i128 {
        None
    } else {
        Some(signed_total as i64)
    }
}

proof fn lemma_digits(n: nat)
    ensures
        digits(n).len() > 0,
        all_digits(digits(n)),
        digits_value(digits(n)) == n,
    decreases n,
{
    if n >= 10 {
        lemma_digits(n / 10);
        assert(digits(n).drop_last() =~= digits(n / 10));
        assert(digits(n).last() == digit(n % 10));
    } else {
        assert(digits(n).drop_last() =~= Seq::empty());
        assert(digits_value(Seq::<char>::empty()) == 0);
        assert(digits(n).last() == digit(n));
    }
}

/// A 64-bit integer that was written in decimal is read back as it was.
pub proof fn law_decimal_round_trip(n: i64)
    ensures
        parsed_i64(decimal(n as int)) == Some(n),
{
    if n < 0 {
        lemma_digits((-n) as nat);
        assert(decimal(n as int).drop_first() =~= digits((-n) as nat));
    } else {
        lemma_digits(n as nat);
        let d = digits(n as nat);
        assert('0' <= d[0] <= '9');
    }
}

/// No character of a decimal number is a colon.
pub proof fn lemma_decimal_without_colon(n: int)
    ensures
        forall|i: int| 0 <= i < decimal(n).len() ==> #[trigger] decimal(n)[i] != ':',
{
    lemma_digits((if n < 0 { -n } else { n }) as nat);
}

/// Whether `piece` stands somewhere in `text`.
pub open spec fn says(text: Seq<char>, piece: Seq<char>) -> bool {
    exists|at: int|
        0 <= at <= text.len() - piece.len() && #[trigger] text.subrange(at, at + piece.len())
            == piece
}

pub proof fn lemma_says(text: Seq<char>, before: Seq<char>, piece: Seq<char>, after: Seq<char>)
    requires
        text == before + piece + after,
    ensures
        says(text, piece),
{
    let at = before.len() as int;
    assert(text.subrange(at, at + piece.len()) =~= piece);
}

pub proof fn lemma_says_within(text: Seq<char>, middle: Seq<char>, piece: Seq<char>)
    requires
        says(text, middle),
        says(middle, piece),
    ensures
        says(text, piece),
{
    let a = choose|at: int|
        0 <= at <= text.len() - middle.len() && #[trigger] text.subrange(at, at + middle.len())
            == middle;
    let b = choose|at: int|
        0 <= at <= middle.len() - piece.len() && #[trigger] middle.subrange(at, at + piece.len())
            == piece;
    assert(text.subrange(a + b, a + b + piece.len()) =~= piece) by {
        assert forall|i: int| 0 <= i < piece.len() implies text[a + b + i] == piece[i] by {
            assert(text.subrange(a, a + middle.len())[b + i] == text[a + b + i]);
            assert(middle.subrange(b, b + piece.len())[i] == middle[b + i]);
        }
    }
}

/// Two texts that differ in one piece only are the same exactly where the piece is.
pub proof fn lemma_same_frame(before: Seq<char>, x: Seq<char>, y: Seq<char>, after: Seq<char>)
    ensures
        before + x + after == before + y + after <==> x == y,
{
    if before + x + after == before + y + after {
        let s = before + x + after;
        let t = before + y + after;
        assert(s.len() == t.len());
        assert(x =~= s.subrange(before.len() as int, (before.len() + x.len()) as int));
        assert(y =~= t.subrange(before.len() as int, (before.len() + y.len()) as int));
    }
}

/// White space is the space, the line breaks and tabulators, and the spaces of Unicode, and
/// nothing else: no letter, digit or punctuation mark of any script.
pub proof fn law_white_space_characters(c: char, r: bool)
    requires
        call_ensures(is_whitespace, (c,), r),
    ensures
        r <==> {
            ||| c == ' ' || c == '\t' || c == '\n' || c == '\r' || c == '\u{b}' || c == '\u{c}'
            ||| c == '\u{85}' || c == '\u{a0}' || c == '\u{1680}' || c == '\u{2028}'
            ||| c == '\u{2029}' || c == '\u{202f}' || c == '\u{205f}' || c == '\u{3000}'
            ||| '\u{2000}' <= c <= '\u{200a}'
        },
{
}

/// A text is blank exactly where each of its characters is white space.
pub proof fn law_blank_text(value: &str, r: bool)
    requires
        call_ensures(is_blank, (value,), r),
    ensures
        !r <==> exists|i: int| 0 <= i < value@.len() && !whitespace(#[trigger] value@[i]),
{
    if !r {
        assert(!blank(value@));
    }
}

proof fn lemma_white_head(s: Seq<char>) -> (n: int)
    ensures
        0 <= n <= s.len(),
        forall|i: int| 0 <= i < n ==> whitespace(#[trigger] s[i]),
        n < s.len() ==> !whitespace(s[n]),
    decreases s.len(),
{
    if s.len() > 0 && whitespace(s[0]) {
        let n = lemma_white_head(s.drop_first());
        assert forall|i: int| 0 <= i < n + 1 implies whitespace(#[trigger] s[i]) by {
            if i > 0 {
                assert(s[i] == s.drop_first()[i - 1]);
            }
        }
        n + 1
    } else {
        0
    }
}

proof fn lemma_white_tail(s: Seq<char>) -> (n: int)
    ensures
        0 <= n <= s.len(),
        forall|i: int| n <= i < s.len() ==> whitespace(#[trigger] s[i]),
        n > 0 ==> !whitespace(s[n - 1]),
    decreases s.len(),
{
    if s.len() > 0 && whitespace(s.last()) {
        let n = lemma_white_tail(s.drop_last());
        assert forall|i: int| n <= i < s.len() implies whitespace(#[trigger] s[i]) by {
            if i < s.len() - 1 {
                assert(s[i] == s.drop_last()[i]);
            }
        }
        n
    } else {
        s.len() as int
    }
}

/// Trimming takes nothing but white space, from both ends, and all of it: what is left stands
/// in the text as it is, and neither starts nor ends with white space.
pub proof fn law_trim_takes_white_space_only(value: &str, r: String)
    requires
        call_ensures(trim, (value,), r),
    ensures
        exists|start: int, end: int|
            #![trigger value@.subrange(start, end)]
            {
                &&& 0 <= start <= end <= value@.len()
                &&& r@ == value@.subrange(start, end)
                &&& forall|i: int|
                    0 <= i < value@.len() && !(start <= i < end) ==> whitespace(
                        #[trigger] value@[i],
                    )
            },
        r@.len() > 0 ==> !whitespace(r@[0]) && !whitespace(r@.last()),
{
    let s = value@;
    let start = lemma_white_head(s);
    lemma_trimmed_start(s, start);
    let rest = s.subrange(start, s.len() as int);
    let count = lemma_white_tail(rest);
    lemma_trimmed_end(rest, count);
    let end = start + count;
    assert(rest.subrange(0, count) =~= s.subrange(start, end));
    assert forall|i: int| 0 <= i < s.len() && !(start <= i < end) implies whitespace(
        #[trigger] s[i],
    ) by {
        if i >= end {
            assert(s[i] == rest[i - start]);
        }
    }
    if r@.len() > 0 {
        assert(r@[0] == s[start]);
        assert(r@.last() == rest[count - 1]);
    }
}

/// Taking the slashes off the end of a text takes nothing else, and leaves none there.
pub proof fn law_trailing_slashes(value: &str, r: String)
    requires
        call_ensures(trim_trailing_slashes, (value,), r),
    ensures
        r@.is_prefix_of(value@),
        forall|i: int| r@.len() <= i < value@.len() ==> #[trigger] value@[i] == '/',
        r@.len() > 0 ==> r@.last() != '/',
{
    lemma_trailing_slashes(value@);
}

pub proof fn lemma_trailing_slashes(s: Seq<char>)
    ensures
        without_trailing_slashes(s).is_prefix_of(s),
        forall|i: int| without_trailing_slashes(s).len() <= i < s.len() ==> #[trigger] s[i] == '/',
        without_trailing_slashes(s).len() > 0 ==> without_trailing_slashes(s).last() != '/',
    decreases s.len(),
{
    if s.len() > 0 && s.last() == '/' {
        let t = s.drop_last();
        lemma_trailing_slashes(t);
        assert forall|i: int| without_trailing_slashes(s).len() <= i < s.len() implies #[trigger]
            s[i] == '/' by {
            if i < s.len() - 1 {
                assert(s[i] == t[i]);
            }
        }
    }
}

/// Dropping the white space of a text drops each white space character and keeps every other,
/// in its place: of two texts one behind the other it leaves what it leaves of each.
pub proof fn law_without_white_space(left: Seq<char>, right: Seq<char>, c: char)
    ensures
        compact(left + right) == compact(left) + compact(right),
        compact(seq![c]) == if whitespace(c) {
            Seq::<char>::empty()
        } else {
            seq![c]
        },
        compact(Seq::<char>::empty()) == Seq::<char>::empty(),
        forall|i: int| 0 <= i < compact(left).len() ==> !whitespace(#[trigger] compact(left)[i]),
{
    let p = |c: char| !whitespace(c);
    Seq::filter_distributes_over_add(left, right, p);
    reveal_with_fuel(Seq::filter, 2);
    assert(seq![c].drop_last() =~= Seq::<char>::empty());
    assert(Seq::<char>::empty().filter(p) =~= Seq::<char>::empty());
    assert forall|i: int| 0 <= i < compact(left).len() implies !whitespace(
        #[trigger] compact(left)[i],
    ) by {
        left.lemma_filter_pred(p, i);
    }
}

/// Texts one after the other: a further text comes behind those before it, unchanged.
pub proof fn law_concatenation(parts: Seq<Seq<char>>, next: Seq<char>)
    ensures
        concatenated(Seq::<Seq<char>>::empty()) == Seq::<char>::empty(),
        concatenated(parts.push(next)) == concatenated(parts) + next,
{
    assert(parts.push(next).drop_last() =~= parts);
}

/// Texts with a separator between them: none before the first and none behind the last.
pub proof fn law_joined_texts(parts: Seq<Seq<char>>, next: Seq<char>, separator: Seq<char>)
    ensures
        joined(Seq::<Seq<char>>::empty(), separator) == Seq::<char>::empty(),
        parts.len() == 0 ==> joined(parts.push(next), separator) == next,
        parts.len() > 0 ==> joined(parts.push(next), separator) == joined(parts, separator)
            + separator + next,
{
    assert(parts.push(next).drop_last() =~= parts);
}

pub proof fn lemma_joined_says(parts: Seq<Seq<char>>, separator: Seq<char>, k: int)
    requires
        0 <= k < parts.len(),
    ensures
        says(joined(parts, separator), parts[k]),
    decreases parts.len(),
{
    let all = joined(parts, separator);
    if parts.len() == 1 {
        lemma_says(all, Seq::empty(), parts[0], Seq::empty());
        assert(all =~= Seq::<char>::empty() + parts[0] + Seq::<char>::empty());
    } else if k == parts.len() - 1 {
        let front = joined(parts.drop_last(), separator) + separator;
        assert(all =~= front + parts.last() + Seq::<char>::empty());
        lemma_says(all, front, parts.last(), Seq::empty());
    } else {
        lemma_joined_says(parts.drop_last(), separator, k);
        let front = joined(parts.drop_last(), separator);
        assert(all =~= Seq::<char>::empty() + front + (separator + parts.last()));
        lemma_says(all, Seq::empty(), front, separator + parts.last());
        lemma_says_within(all, front, parts[k]);
    }
}

/// A number is written by its decimal digits, the last of which is the remainder by ten and
/// those before it the quotient; a negative number by a minus sign and its amount.
pub proof fn law_decimal_digits(n: int)
    ensures
        0 <= n < 10 ==> decimal(n) == seq!["0123456789"@[n]],
        n >= 10 ==> decimal(n) == decimal(n / 10).push("0123456789"@[n % 10]),
        n < 0 ==> decimal(n) == seq!['-'] + decimal(-n),
{
    reveal_strlit("0123456789");
    if 0 <= n < 10 {
        assert(digit(n as nat) == "0123456789"@[n]);
    }
    if n >= 10 {
        assert(digit((n % 10) as nat) == "0123456789"@[n % 10]);
    }
}

/// What is read as a number is a sign, or none, and digits: the number that they write, where
/// it has 64 bits. Anything else, be it blank, with a space or with a letter, is no number.
pub proof fn law_number_read(value: &str, r: Option<i64>, n: i64, wide: int)
    requires
        call_ensures(parse_i64, (value,), r),
    ensures
        value@ == decimal(n as int) ==> r == Some(n),
        n >= 0 && value@ == seq!['+'] + decimal(n as int) ==> r == Some(n),
        !(i64::MIN <= wide <= i64::MAX) && value@ == decimal(wide) ==> r is None,
        value@.len() == 0 ==> r is None,
        (exists|i: int| 1 <= i < value@.len() && !('0' <= #[trigger] value@[i] <= '9')) ==> r is None,
        value@.len() > 0 && !('0' <= value@[0] <= '9') && value@[0] != '+' && value@[0] != '-'
            ==> r is None,
{
    law_decimal_round_trip(n);
    let s = value@;
    if !(i64::MIN <= wide <= i64::MAX) && s == decimal(wide) {
        let amount = (if wide < 0 { -wide } else { wide }) as nat;
        lemma_digits(amount);
        if wide < 0 {
            assert(s.drop_first() =~= digits(amount));
        } else {
            assert('0' <= s[0] <= '9');
        }
    }
    if n >= 0 && s == seq!['+'] + decimal(n as int) {
        lemma_digits(n as nat);
        assert(s.drop_first() =~= decimal(n as int));
    }
    if exists|i: int| 1 <= i < s.len() && !('0' <= #[trigger] s[i] <= '9') {
        let i = choose|i: int| 1 <= i < s.len() && !('0' <= #[trigger] s[i] <= '9');
        assert(s.drop_first()[i - 1] == s[i]);
    }
}

/// Texts are equal where all their characters are, in their order.
pub proof fn law_texts_by_their_characters(
    a: &str,
    b: &str,
    equal: bool,
    of_a: Vec<char>,
    of_b: Vec<char>,
)
    requires
        call_ensures(str_eq, (a, b), equal),
        call_ensures(characters, (a,), of_a),
        call_ensures(characters, (b,), of_b),
    ensures
        of_a@.len() == a@.len(),
        forall|i: int| 0 <= i < a@.len() ==> #[trigger] of_a@[i] == a@[i],
        equal <==> of_a@.len() == of_b@.len() && forall|i: int|
            #![trigger of_a@[i]]
            #![trigger of_b@[i]]
            0 <= i < of_a@.len() ==> of_a@[i] == of_b@[i],
{
    if of_a@.len() == of_b@.len() && forall|i: int|
        #![trigger of_a@[i]]
        #![trigger of_b@[i]]
        0 <= i < of_a@.len() ==> of_a@[i] == of_b@[i] {
        assert(a@ =~= b@);
    }
}

/// What is left of a text without its white space: of two texts one behind the other what is left
/// of each, of a white space character nothing, and of any other character itself.
pub proof fn law_text_without_white_space(
    whole: &str,
    left: &str,
    right: &str,
    of_whole: String,
    of_left: String,
    of_right: String,
    white: bool,
)
    requires
        whole@ == left@ + right@,
        call_ensures(without_whitespace, (whole,), of_whole),
        call_ensures(without_whitespace, (left,), of_left),
        call_ensures(without_whitespace, (right,), of_right),
        right@.len() == 1,
        call_ensures(is_whitespace, (right@[0],), white),
    ensures
        of_whole@ == of_left@ + of_right@,
        white ==> of_right@.len() == 0,
        !white ==> of_right@ == right@,
        left@.len() == 0 ==> of_left@.len() == 0,
{
    law_without_white_space(left@, right@, right@[0]);
    assert(right@ =~= seq![right@[0]]);
    if left@.len() == 0 {
        assert(left@ =~= Seq::<char>::empty());
    }
}

/// Texts that are joined stand one behind the other, with the separator between each two and
/// nowhere else.
pub proof fn law_join(
    none: Vec<String>,
    parts: Vec<String>,
    more: Vec<String>,
    next: String,
    separator: &str,
    of_none: String,
    of_parts: String,
    of_more: String,
)
    requires
        none@.len() == 0,
        parts@.len() > 0,
        more@ == parts@.push(next),
        call_ensures(join, (&none, separator), of_none),
        call_ensures(join, (&parts, separator), of_parts),
        call_ensures(join, (&more, separator), of_more),
    ensures
        of_none@.len() == 0,
        parts@.len() == 1 ==> of_parts@ == parts@[0]@,
        of_more@ == of_parts@ + separator@ + next@,
{
    assert(texts(more@) =~= texts(parts@).push(next@));
    law_joined_texts(texts(parts@), next@, separator@);
    if parts@.len() == 1 {
        assert(texts(parts@) =~= Seq::<Seq<char>>::empty().push(parts@[0]@));
        law_joined_texts(Seq::empty(), parts@[0]@, separator@);
    }
}

/// No two numbers are written alike, a negative one is written with a minus sign, and every other
/// as if no sign had been possible.
pub proof fn law_written_numbers(
    n: i64,
    m: i64,
    of_n: String,
    of_m: String,
    unsigned: String,
    text: &str,
    read: Option<i64>,
)
    requires
        call_ensures(decimal_i64, (n,), of_n),
        call_ensures(decimal_i64, (m,), of_m),
        n >= 0 ==> call_ensures(decimal_u64, (n as u64,), unsigned),
        text@ == of_n@,
        call_ensures(parse_i64, (text,), read),
    ensures
        read == Some(n),
        of_n@ == of_m@ <==> n == m,
        n >= 0 ==> of_n@ == unsigned@,
        of_n@.len() > 0 && (n < 0 <==> of_n@[0] == '-'),
        0 <= n < 10 ==> of_n@ == seq!["0123456789"@[n as int]],
        n >= 10 && m == n / 10 ==> of_n@ == of_m@.push("0123456789"@[n as int % 10]),
{
    law_decimal_round_trip(n);
    law_decimal_round_trip(m);
    law_decimal_digits(n as int);
    lemma_digits((if n < 0 { -n } else { n as int }) as nat);
}

} // verus!
