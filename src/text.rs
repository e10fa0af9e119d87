use vstd::prelude::*;

verus! {

#[verifier::external_type_specification]
#[verifier::external_body]
pub struct ExParseFloatError(core::num::ParseFloatError);

#[verifier::external_type_specification]
#[verifier::external_body]
pub struct ExParseIntError(core::num::ParseIntError);

/// Relies on the derived `Clone` of `ParseFloatError`: a copy of its kind.
pub assume_specification[ <core::num::ParseFloatError as Clone>::clone ](
    e: &core::num::ParseFloatError,
) -> (r: core::num::ParseFloatError)
    ensures
        r == *e,
;

/// Relies on the derived `Clone` of `ParseIntError`: a copy of its kind.
pub assume_specification[ <core::num::ParseIntError as Clone>::clone ](
    e: &core::num::ParseIntError,
) -> (r: core::num::ParseIntError)
    ensures
        r == *e,
;

/// The pieces of `s` between commas, in order: `s` itself when it holds no
/// comma, and one empty piece for an empty `s`.
pub open spec fn fields_of(s: Seq<char>) -> Seq<Seq<char>>
    decreases s.len(),
{
    if s.len() == 0 {
        seq![Seq::empty()]
    } else {
        let init = fields_of(s.drop_last());
        if s.last() == ',' {
            init.push(Seq::empty())
        } else {
            init.update(init.len() - 1, init.last().push(s.last()))
        }
    }
}

/// The characters of the Unicode property `White_Space`.
pub open spec fn is_white_space(c: char) -> bool {
    let u = c as u32;
    (0x9 <= u && u <= 0xd) || u == 0x20 || u == 0x85 || u == 0xa0 || u == 0x1680 || (0x2000 <= u
        && u <= 0x200a) || u == 0x2028 || u == 0x2029 || u == 0x202f || u == 0x205f || u == 0x3000
}

/// `s` without its leading white space.
pub open spec fn trim_start_of(s: Seq<char>) -> Seq<char>
    decreases s.len(),
{
    if s.len() > 0 && is_white_space(s[0]) {
        trim_start_of(s.drop_first())
    } else {
        s
    }
}

/// `s` without its trailing white space.
pub open spec fn trim_end_of(s: Seq<char>) -> Seq<char>
    decreases s.len(),
{
    if s.len() > 0 && is_white_space(s.last()) {
        trim_end_of(s.drop_last())
    } else {
        s
    }
}

/// `s` without its leading and trailing white space.
pub open spec fn trim_of(s: Seq<char>) -> Seq<char> {
    trim_end_of(trim_start_of(s))
}

/// The trimmed comma-separated fields of `s`.
pub open spec fn trimmed_fields_of(s: Seq<char>) -> Seq<Seq<char>> {
    fields_of(s).map_values(|f: Seq<char>| trim_of(f))
}

pub open spec fn is_digit(c: char) -> bool {
    0x30 <= (c as u32) && (c as u32) <= 0x39
}

/// The number that a run of decimal digits denotes.
pub open spec fn digits_value(s: Seq<char>) -> int
    decreases s.len(),
{
    if s.len() == 0 {
        0
    } else {
        digits_value(s.drop_last()) * 10 + ((s.last() as u32) - 0x30)
    }
}

/// `s` without one leading `+`.
pub open spec fn unsigned_digits(s: Seq<char>) -> Seq<char> {
    if s.len() > 0 && s[0] == '+' {
        s.drop_first()
    } else {
        s
    }
}

/// A literal of a `u8`: an optional `+`, then one or more decimal digits
/// whose value is at most 255.
pub open spec fn is_u8_literal(s: Seq<char>) -> bool {
    let d = unsigned_digits(s);
    &&& d.len() > 0
    &&& forall|i: int| 0 <= i < d.len() ==> is_digit(#[trigger] d[i])
    &&& digits_value(d) <= 255
}

/// The decimal digit character of `d`, for `d < 10`.
pub open spec fn digit_char(d: int) -> char {
    seq!['0', '1', '2', '3', '4', '5', '6', '7', '8', '9'][d]
}

/// The decimal digits of `n`, without leading zeros.
pub open spec fn decimal_of(n: nat) -> Seq<char>
    decreases n,
{
    if n < 10 {
        seq![digit_char(n as int)]
    } else {
        decimal_of(n / 10).push(digit_char((n % 10) as int))
    }
}

/// Whether `s` holds no comma.
pub open spec fn has_no_comma(s: Seq<char>) -> bool {
    forall|i: int| 0 <= i < s.len() ==> #[trigger] s[i] != ','
}

/// There is always at least one field.
pub proof fn lemma_fields_nonempty(s: Seq<char>)
    ensures
        fields_of(s).len() >= 1,
    decreases s.len(),
{
    if s.len() > 0 {
        lemma_fields_nonempty(s.drop_last());
    }
}

/// Text without a comma extends the last field.
pub proof fn lemma_fields_extend(a: Seq<char>, b: Seq<char>)
    requires
        has_no_comma(b),
    ensures
        fields_of(a + b) == fields_of(a).update(
            fields_of(a).len() - 1,
            fields_of(a).last() + b,
        ),
    decreases b.len(),
{
    lemma_fields_nonempty(a);
    if b.len() == 0 {
        assert(a + b =~= a);
        assert(fields_of(a).last() + b =~= fields_of(a).last());
        assert(fields_of(a).update(fields_of(a).len() - 1, fields_of(a).last()) =~= fields_of(a));
    } else {
        let b0 = b.drop_last();
        assert(has_no_comma(b0)) by {
            assert forall|i: int| 0 <= i < b0.len() implies #[trigger] b0[i] != ',' by {
                assert(b0[i] == b[i]);
            }
        }
        lemma_fields_extend(a, b0);
        lemma_fields_nonempty(a + b0);
        assert((a + b).drop_last() =~= a + b0);
        assert((a + b).last() == b.last());
        assert(b.last() == b[b.len() - 1]);
        let f = fields_of(a);
        let init = fields_of(a + b0);
        assert(b[b.len() - 1] != ',');
        assert(init.len() == f.len());
        assert(init.last() == f.last() + b0);
        assert((f.last() + b0).push(b.last()) =~= f.last() + b);
        assert(fields_of(a + b) == init.update(init.len() - 1, init.last().push(b.last())));
        assert(fields_of(a + b) =~= fields_of(a).update(
            fields_of(a).len() - 1,
            fields_of(a).last() + b,
        ));
    }
}

/// A comma starts a new, empty field.
pub proof fn lemma_fields_comma(a: Seq<char>)
    ensures
        fields_of(a + seq![',']) == fields_of(a).push(Seq::empty()),
{
    assert((a + seq![',']).drop_last() =~= a);
}

/// A digit character is a digit of value `d`.
pub proof fn lemma_digit_char(d: int)
    requires
        0 <= d < 10,
    ensures
        is_digit(digit_char(d)),
        (digit_char(d) as u32) - 0x30 == d,
{
    if d == 0 {
    } else if d == 1 {
    } else if d == 2 {
    } else if d == 3 {
    } else if d == 4 {
    } else if d == 5 {
    } else if d == 6 {
    } else if d == 7 {
    } else if d == 8 {
    } else {
    }
}

/// Decimal digits hold no comma and no white space, and read back as the
/// number they were made from.
pub proof fn lemma_decimal_digits(n: nat)
    ensures
        decimal_of(n).len() > 0,
        forall|i: int| 0 <= i < decimal_of(n).len() ==> is_digit(#[trigger] decimal_of(n)[i]),
        digits_value(decimal_of(n)) == n,
    decreases n,
{
    if n < 10 {
        lemma_digit_char(n as int);
        assert(decimal_of(n).drop_last() =~= Seq::<char>::empty());
        assert(digits_value(Seq::<char>::empty()) == 0);
        assert(digits_value(decimal_of(n)) == n);
    } else {
        lemma_decimal_digits(n / 10);
        let d = decimal_of(n);
        assert(d.drop_last() =~= decimal_of(n / 10));
        assert(forall|i: int| 0 <= i < d.len() - 1 ==> d[i] == decimal_of(n / 10)[i]);
        let k = n % 10;
        assert(d.last() == digit_char(k as int));
        lemma_digit_char(k as int);
        assert(n == (n / 10) * 10 + k);
        assert(digits_value(d) == digits_value(decimal_of(n / 10)) * 10 + k);
        assert(digits_value(d) == n);
    }
}

/// Appends the decimal digit `d`.
fn push_digit(s: &mut String, d: u8)
    requires
        d < 10,
    ensures
        final(s)@ == old(s)@.push(digit_char(d as int)),
{
    let digits = "0123456789";
    proof {
        reveal_strlit("0123456789");
    }
    let one = digits.substring_char(d as usize, d as usize + 1);
    assert(one@ =~= seq![digit_char(d as int)]);
    s.append(one);
    assert(old(s)@ + one@ =~= old(s)@.push(digit_char(d as int)));
}

/// Appends the decimal digits of `n`.
pub(crate) fn push_decimal(s: &mut String, n: u8)
    ensures
        final(s)@ == old(s)@ + decimal_of(n as nat),
{
    let ghost start = s@;
    if n >= 100 {
        push_digit(s, n / 100);
    }
    if n >= 10 {
        push_digit(s, (n / 10) % 10);
    }
    push_digit(s, n % 10);
    proof {
        let m = n as nat;
        if m >= 100 {
            assert(decimal_of(m / 100) == seq![digit_char((m / 100) as int)]);
            assert(decimal_of(m / 10) == decimal_of(m / 100).push(digit_char(((m / 10) % 10) as int)));
        } else if m >= 10 {
            assert(decimal_of(m / 10) == seq![digit_char((m / 10) as int)]);
        }
        assert(s@ =~= start + decimal_of(m));
    }
}

/// Relies on `str::split` with a `char` pattern: the pieces between the
/// separators, in order, and one piece more than there are separators.
#[verifier::external_body]
fn split_commas(s: &str) -> (r: Vec<String>)
    ensures
        r@.len() == fields_of(s@).len(),
        forall|i: int| 0 <= i < r@.len() ==> #[trigger] r@[i]@ == fields_of(s@)[i],
{
    s.split(',').map(str::to_string).collect()
}

/// Relies on `str::trim`: removes leading and trailing `White_Space`.
#[verifier::external_body]
fn trim(s: &str) -> (r: String)
    ensures
        r@ == trim_of(s@),
{
    s.trim().to_string()
}

/// Relies on `<u8 as FromStr>::from_str`: an optional `+` followed by
/// decimal digits only, whose value fits in a `u8`.
#[verifier::external_body]
pub(crate) fn parse_u8(s: &str) -> (r: Result<u8, core::num::ParseIntError>)
    ensures
        r is Ok <==> is_u8_literal(s@),
        r is Ok ==> r->Ok_0 as int == digits_value(unsigned_digits(s@)),
{
    s.parse::<u8>()
}

/// The messages that a failed parse of a float reports: one for empty text,
/// one for any other text that is not a float literal.
pub open spec fn is_float_error_message(m: Seq<char>) -> bool {
    m == "cannot parse float from empty string"@ || m == "invalid float literal"@
}

/// The messages that a failed parse of an integer reports: empty text, a
/// character that is not a digit, a value above or below the type's range,
/// and zero for a non-zero type.
pub open spec fn is_int_error_message(m: Seq<char>) -> bool {
    ||| m == "cannot parse integer from empty string"@
    ||| m == "invalid digit found in string"@
    ||| m == "number too large to fit in target type"@
    ||| m == "number too small to fit in target type"@
    ||| m == "number would be zero for non-zero type"@
}

/// Relies on the `Display` of `ParseFloatError`: the message of its kind,
/// empty text or an invalid literal.
#[verifier::external_body]
pub(crate) fn float_error_text(e: &core::num::ParseFloatError) -> (r: String)
    ensures
        is_float_error_message(r@),
{
    e.to_string()
}

/// Relies on the `Display` of `ParseIntError`: the message of its kind.
#[verifier::external_body]
pub(crate) fn int_error_text(e: &core::num::ParseIntError) -> (r: String)
    ensures
        is_int_error_message(r@),
{
    e.to_string()
}

/// Splits `s` on commas and trims white space from each field.
pub fn delimited_fields(s: &str) -> (r: Vec<String>)
    ensures
        r@.len() == trimmed_fields_of(s@).len(),
        forall|i: int| 0 <= i < r@.len() ==> #[trigger] r@[i]@ == trimmed_fields_of(s@)[i],
{
    let raw = split_commas(s);
    let mut out: Vec<String> = Vec::new();
    let mut i: usize = 0;
    while i < raw.len()
        invariant
            i <= raw@.len(),
            raw@.len() == fields_of(s@).len(),
            forall|j: int| 0 <= j < raw@.len() ==> #[trigger] raw@[j]@ == fields_of(s@)[j],
            out@.len() == i,
            forall|j: int| 0 <= j < i ==> #[trigger] out@[j]@ == trim_of(fields_of(s@)[j]),
        decreases raw@.len() - i,
    {
        let t = trim(raw[i].as_str());
        out.push(t);
        i += 1;
    }
    out
}

} // verus!
