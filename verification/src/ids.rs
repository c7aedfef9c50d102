//! Identifiers: 128-bit values written as hyphenated UUIDs.
use vstd::prelude::*;
use vstd::string::*;

verus! {

/// An identifier of a project, a version, a scene, a task, a job or a workflow.
#[derive(Clone, Copy, PartialEq, Eq, Structural, Debug, Hash)]
pub struct Id {
    pub value: u128,
}

/// The lower case hexadecimal digit for a value below sixteen.
pub open spec fn hex_digit(n: int) -> char {
    if n < 10 {
        ('0' as u32 + n) as char
    } else {
        ('a' as u32 + (n - 10)) as char
    }
}

/// The last `count` hexadecimal digits of `n`.
pub open spec fn hex_digits(n: int, count: nat) -> Seq<char>
    decreases count,
{
    if count == 0 {
        Seq::empty()
    } else {
        hex_digits(n / 16, (count - 1) as nat).push(hex_digit(n % 16))
    }
}

/// A lower case hexadecimal digit.
pub open spec fn is_hex(c: char) -> bool {
    '0' <= c <= '9' || 'a' <= c <= 'f'
}

/// The hyphenated form of an identifier: groups of 8, 4, 4, 4 and 12 digits.
pub open spec fn hyphenated(value: u128) -> Seq<char> {
    let h = hex_digits(value as int, 32);
    h.subrange(0, 8) + seq!['-'] + h.subrange(8, 12) + seq!['-'] + h.subrange(12, 16) + seq!['-']
        + h.subrange(16, 20) + seq!['-'] + h.subrange(20, 32)
}

/// What `uuid::Uuid::parse_str` makes of a text: the value, or the message of its error.
pub uninterp spec fn uuid_parsed(text: Seq<char>) -> Result<u128, Seq<char>>;

/// Calls `uuid::Uuid::parse_str`. Its result is a function of the text alone, and
/// of a hyphenated form it is the value that the form was made of.
#[verifier::external_body]
fn parse_uuid(text: &str) -> (r: Result<u128, String>)
    ensures
        r is Ok == uuid_parsed(text@) is Ok,
        r is Ok ==> r->Ok_0 == uuid_parsed(text@)->Ok_0,
        r is Err ==> r->Err_0@ == uuid_parsed(text@)->Err_0,
        forall|value: u128| #[trigger] hyphenated(value) == text@ ==> r is Ok && r->Ok_0 == value,
{
    match uuid::Uuid::parse_str(text) {
        Ok(parsed) => Ok(parsed.as_u128()),
        Err(error) => Err(error.to_string()),
    }
}

/// Calls `uuid::Uuid::new_v4`, which draws a random value. Of every value drawn the
/// four bits of the version are 4 and the two bits of the variant are 2.
#[verifier::external_body]
fn random_uuid() -> (r: u128)
    ensures
        (r >> 76u128) & 0xfu128 == 4,
        (r >> 62u128) & 0x3u128 == 2,
{
    uuid::Uuid::new_v4().as_u128()
}

/// Whether an identifier carries the version and the variant of a random UUID.
pub open spec fn is_random_id(id: Id) -> bool {
    (id.value >> 76u128) & 0xfu128 == 4 && (id.value >> 62u128) & 0x3u128 == 2
}

pub proof fn lemma_hex_digits_shape(n: int, count: nat)
    requires
        n >= 0,
    ensures
        hex_digits(n, count).len() == count,
        forall|i: int| 0 <= i < count ==> is_hex(#[trigger] hex_digits(n, count)[i]),
    decreases count,
{
    if count > 0 {
        lemma_hex_digits_shape(n / 16, (count - 1) as nat);
        assert(is_hex(hex_digit(n % 16)));
    }
}

/// Appends the last `count` hexadecimal digits of `n`.
pub fn push_hex(out: &mut String, n: u128, count: usize)
    ensures
        final(out)@ == old(out)@ + hex_digits(n as int, count as nat),
    decreases count,
{
    let ghost before = out@;
    if count > 0 {
        push_hex(out, n / 16, count - 1);
        let d: u8 = (n % 16) as u8;
        out.push(if d < 10 { (48u8 + d) as char } else { (97u8 + (d - 10)) as char });
    }
    assert(out@ =~= before + hex_digits(n as int, count as nat));
}

impl Id {
    /// The hyphenated form.
    pub fn text(&self) -> (r: String)
        ensures
            r@ == hyphenated(self.value),
    {
        let mut digits = String::new();
        push_hex(&mut digits, self.value, 32);
        proof {
            lemma_hex_digits_shape(self.value as int, 32);
        }
        let s = digits.as_str();
        assert(s@ =~= hex_digits(self.value as int, 32));
        let mut out = String::new();
        out.append(s.substring_char(0, 8));
        out.push('-');
        out.append(s.substring_char(8, 12));
        out.push('-');
        out.append(s.substring_char(12, 16));
        out.push('-');
        out.append(s.substring_char(16, 20));
        out.push('-');
        out.append(s.substring_char(20, 32));
        assert(out@ =~= hyphenated(self.value));
        out
    }

    /// The identifier that `text` writes, or what is wrong with the text.
    pub fn parse(text: &str) -> (r: Result<Id, String>)
        ensures
            r is Ok == uuid_parsed(text@) is Ok,
            r is Ok ==> r->Ok_0.value == uuid_parsed(text@)->Ok_0,
            r is Err ==> r->Err_0@ == uuid_parsed(text@)->Err_0,
            forall|value: u128| #[trigger]
                hyphenated(value) == text@ ==> r is Ok && r->Ok_0.value == value,
    {
        match parse_uuid(text) {
            Ok(value) => Ok(Id { value }),
            Err(message) => Err(message),
        }
    }

    /// A fresh random identifier.
    pub fn random() -> (r: Id)
        ensures
            is_random_id(r),
    {
        Id { value: random_uuid() }
    }
}

/// Every hyphenated form has 36 characters, and each is a hexadecimal digit or a hyphen.
pub proof fn law_hyphenated_shape(value: u128)
    ensures
        hyphenated(value).len() == 36,
        forall|i: int| 0 <= i < 36 ==> is_hex(#[trigger] hyphenated(value)[i]) || hyphenated(
            value,
        )[i] == '-',
{
    lemma_hex_digits_shape(value as int, 32);
}

spec fn pow16(count: nat) -> int
    decreases count,
{
    if count == 0 {
        1
    } else {
        16 * pow16((count - 1) as nat)
    }
}

proof fn lemma_hex_digits_injective(n: int, m: int, count: nat)
    requires
        0 <= n < pow16(count),
        0 <= m < pow16(count),
        hex_digits(n, count) == hex_digits(m, count),
    ensures
        n == m,
    decreases count,
{
    if count > 0 {
        let a = hex_digits(n, count);
        let b = hex_digits(m, count);
        assert(a.drop_last() =~= hex_digits(n / 16, (count - 1) as nat));
        assert(b.drop_last() =~= hex_digits(m / 16, (count - 1) as nat));
        assert(a.last() == hex_digit(n % 16));
        assert(b.last() == hex_digit(m % 16));
        lemma_hex_digits_injective(n / 16, m / 16, (count - 1) as nat);
    }
}

/// Different identifiers have different hyphenated forms.
pub proof fn law_hyphenated_injective(a: u128, b: u128)
    requires
        hyphenated(a) == hyphenated(b),
    ensures
        a == b,
{
    lemma_hex_digits_shape(a as int, 32);
    lemma_hex_digits_shape(b as int, 32);
    let x = hex_digits(a as int, 32);
    let y = hex_digits(b as int, 32);
    assert forall|i: int| 0 <= i < 32 implies x[i] == y[i] by {
        let k = if i < 8 { i } else if i < 12 { i + 1 } else if i < 16 { i + 2 } else if i < 20 {
            i + 3
        } else {
            i + 4
        };
        assert(hyphenated(a)[k] == x[i]);
        assert(hyphenated(b)[k] == y[i]);
    }
    assert(x =~= y);
    reveal_with_fuel(pow16, 33);
    lemma_hex_digits_injective(a as int, b as int, 32);
}

/// The digits of a number in hexadecimal, the last of which is the remainder by sixteen and
/// those before it the quotient.
pub proof fn law_hex_digits(n: int, count: nat)
    requires
        n >= 0,
    ensures
        hex_digits(n, 0) == Seq::<char>::empty(),
        hex_digits(n, count + 1) == hex_digits(n / 16, count).push("0123456789abcdef"@[n % 16]),
{
    reveal_strlit("0123456789abcdef");
    assert(hex_digit(n % 16) == "0123456789abcdef"@[n % 16]);
}

/// The text of an identifier is its 32 hexadecimal digits in groups of 8, 4, 4, 4 and 12, with a
/// hyphen between each two: without the hyphens it is the number.
pub proof fn law_identifier_text(id: Id, r: String)
    requires
        call_ensures(Id::text, (&id,), r),
    ensures
        r@.len() == 36,
        forall|i: int|
            0 <= i < 36 ==> ((i == 8 || i == 13 || i == 18 || i == 23) <==> #[trigger] r@[i] == '-'),
        r@.subrange(0, 8) + r@.subrange(9, 13) + r@.subrange(14, 18) + r@.subrange(19, 23)
            + r@.subrange(24, 36) == hex_digits(id.value as int, 32),
{
    let h = hex_digits(id.value as int, 32);
    lemma_hex_digits_shape(id.value as int, 32);
    assert(r@ == hyphenated(id.value));
    assert(r@.subrange(0, 8) + r@.subrange(9, 13) + r@.subrange(14, 18) + r@.subrange(19, 23)
        + r@.subrange(24, 36) =~= h);
    assert forall|i: int|
        0 <= i < 36 implies ((i == 8 || i == 13 || i == 18 || i == 23) <==> #[trigger] r@[i]
        == '-') by {
        if i < 8 {
            assert(r@[i] == h[i]);
        } else if 8 < i < 13 {
            assert(r@[i] == h[i - 1]);
        } else if 13 < i < 18 {
            assert(r@[i] == h[i - 2]);
        } else if 18 < i < 23 {
            assert(r@[i] == h[i - 3]);
        } else if 23 < i {
            assert(r@[i] == h[i - 4]);
        }
    }
}

/// An identifier that was written is read back as it was.
pub proof fn law_identifier_round_trip(
    id: Id,
    written: String,
    text: &str,
    read: Result<Id, String>,
)
    requires
        call_ensures(Id::text, (&id,), written),
        text@ == written@,
        call_ensures(Id::parse, (text,), read),
    ensures
        read == Ok::<Id, String>(id),
{
    assert(hyphenated(id.value) == text@);
}

/// A fresh identifier is a random UUID by its version and its variant, so that its hyphenated form
/// has a `4` at the head of its third group.
pub proof fn law_fresh_identifiers(id: Id)
    requires
        call_ensures(Id::random, (), id),
    ensures
        (id.value / 0x1_0000_0000_0000_0000_000u128) % 16 == 4,
        (id.value / 0x4000_0000_0000_0000u128) % 4 == 2,
{
    let value = id.value;
    assert((value >> 76u128) & 0xfu128 == (value / 0x1_0000_0000_0000_0000_000u128) % 16)
        by (bit_vector);
    assert((value >> 62u128) & 0x3u128 == (value / 0x4000_0000_0000_0000u128) % 4)
        by (bit_vector);
}

} // verus!
