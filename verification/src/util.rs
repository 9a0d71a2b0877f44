use vstd::prelude::*;
use vstd::std_specs::iter::IteratorSpec;

use crate::term::push_char;

verus! {

/// The error of the `url` crate's parser.
#[verifier::external_type_specification]
#[verifier::external_body]
pub struct ExUrlParseError(url::ParseError);

/// What a parsed link is: its normalised text, and its domain name if its
/// host is one.
pub ghost struct LinkView {
    pub href: Seq<char>,
    pub domain: Option<Seq<char>>,
}

/// A parsed absolute URL.
#[derive(Debug)]
pub struct Link {
    href: String,
    domain: Option<String>,
}

impl View for Link {
    type V = LinkView;

    closed spec fn view(&self) -> LinkView {
        LinkView {
            href: self.href@,
            domain: match self.domain {
                Some(domain) => Some(domain@),
                None => None,
            },
        }
    }
}

impl Link {
    /// The normalised text of the link.
    pub fn as_str(&self) -> (text: &str)
        ensures
            text@ == self@.href,
    {
        self.href.as_str()
    }

    /// The domain name of the link, if its host is one.
    pub fn domain(&self) -> (domain: Option<&str>)
        ensures
            self@.domain == match domain {
                Some(name) => Some(name@),
                None => None,
            },
    {
        match &self.domain {
            Some(name) => Some(name.as_str()),
            None => None,
        }
    }
}

/// What the `url` crate's `Url::parse` makes of `src`: nothing where it
/// rejects the text, else the normalised text of the URL and its domain.
pub uninterp spec fn url_parsed(src: Seq<char>) -> Option<LinkView>;

/// Calls `Url::parse` of the `url` crate on `src`, and keeps of a URL its
/// text (`Url::as_str`) and its domain (`Url::domain`). The parser reads
/// nothing but its argument, so the result is named after it.
#[verifier::external_body]
pub fn parse_url(src: &str) -> (result: Result<Link, url::ParseError>)
    ensures
        match result {
            Ok(link) => url_parsed(src@) == Some(link@),
            Err(_) => url_parsed(src@) is None,
        },
{
    match url::Url::parse(src) {
        Ok(url) => Ok(
            Link { href: String::from(url.as_str()), domain: url.domain().map(String::from) },
        ),
        Err(err) => Err(err),
    }
}

/// Widens a terminal size given in 16-bit cells to machine words.
pub fn as_usize(size: (u16, u16)) -> (r: (usize, usize))
    ensures
        r.0 == size.0,
        r.1 == size.1,
{
    (size.0 as usize, size.1 as usize)
}

/// The number of decimal digits of `n`.
pub open spec fn digit_count(n: nat) -> nat
    decreases n,
{
    if n < 10 {
        1
    } else {
        1 + digit_count(n / 10)
    }
}

/// The number of characters that `num` takes when written in decimal,
/// the minus sign of a negative number included.
pub open spec fn number_width(num: int) -> nat {
    if num < 0 {
        1 + digit_count((-num) as nat)
    } else {
        digit_count(num as nat)
    }
}

/// The character of the decimal digit `d`.
pub open spec fn digit_char(d: int) -> char {
    ((48 + d) as u8) as char
}

/// The decimal digits of `n`, most significant first.
pub open spec fn decimal(n: nat) -> Seq<char>
    decreases n,
{
    if n < 10 {
        seq![digit_char(n as int)]
    } else {
        decimal(n / 10).push(digit_char((n % 10) as int))
    }
}

/// `num` written in decimal, with a leading minus sign when it is negative.
pub open spec fn number_text(num: int) -> Seq<char> {
    if num < 0 {
        seq!['-'] + decimal((-num) as nat)
    } else {
        decimal(num as nat)
    }
}

/// `n` blanks.
pub open spec fn blanks(n: int) -> Seq<char> {
    Seq::new(if n < 0 { 0 } else { n as nat }, |i: int| ' ')
}

/// `text` moved to the right edge of a field of `width` characters; a text
/// that is longer than the field is left as it is.
pub open spec fn right_aligned(text: Seq<char>, width: int) -> Seq<char> {
    blanks(width - text.len()) + text
}

/// A decimal text has as many characters as its number has digits.
pub proof fn lemma_decimal_len(n: nat)
    ensures
        decimal(n).len() == digit_count(n),
    decreases n,
{
    if n >= 10 {
        lemma_decimal_len(n / 10);
    }
}

/// A number's text has as many characters as `number_width` says.
pub proof fn lemma_number_text_len(num: int)
    ensures
        number_text(num).len() == number_width(num),
{
    if num < 0 {
        lemma_decimal_len((-num) as nat);
    } else {
        lemma_decimal_len(num as nat);
    }
}

/// A larger number has no fewer digits.
pub proof fn lemma_digit_count_monotone(a: nat, b: nat)
    requires
        a <= b,
    ensures
        digit_count(a) <= digit_count(b),
    decreases b,
{
    if a >= 10 {
        lemma_digit_count_monotone(a / 10, b / 10);
    }
}

/// How many characters `num` takes on screen: its digits, and one more for
/// the sign of a negative number.
pub fn count_digits(num: i32) -> (digits: usize)
    ensures
        digits == number_width(num as int),
        1 <= digits <= 11,
{
    let mut rest: u64 = if num < 0 { (-(num as i64)) as u64 } else { num as u64 };
    let ghost magnitude: nat = rest as nat;
    let mut digits: usize = 1;
    proof {
        lemma_digit_count_monotone(magnitude, 2147483648);
        assert(digit_count(2147483648) == 10) by {
            reveal_with_fuel(digit_count, 11);
        }
    }
    while rest >= 10
        invariant
            1 <= digits,
            digits + digit_count(rest as nat) == 1 + digit_count(magnitude),
            digit_count(magnitude) <= 10,
        decreases rest,
    {
        rest = rest / 10;
        digits += 1;
    }
    if num < 0 {
        digits + 1
    } else {
        digits
    }
}

/// Appends the decimal digits of `n` to `out`.
pub fn push_decimal(out: &mut String, n: u64)
    ensures
        final(out)@ == old(out)@ + decimal(n as nat),
    decreases n,
{
    if n >= 10 {
        push_decimal(out, n / 10);
    }
    let digit: u8 = (n % 10) as u8;
    push_char(out, (48u8 + digit) as char);
    assert(out@ =~= old(out)@ + decimal(n as nat));
}

/// Appends `n` blanks to `out`.
pub fn push_blanks(out: &mut String, n: usize)
    ensures
        final(out)@ == old(out)@ + blanks(n as int),
{
    let mut i: usize = 0;
    while i < n
        invariant
            i <= n,
            out@ == old(out)@ + blanks(i as int),
        decreases n - i,
    {
        push_char(out, ' ');
        i += 1;
        assert(out@ =~= old(out)@ + blanks(i as int));
    }
}

/// `num` in decimal, moved to the right edge of a field of `width`
/// characters.
pub fn padded_number(num: i32, width: usize) -> (text: String)
    ensures
        text@ == right_aligned(number_text(num as int), width as int),
{
    let digits = count_digits(num);
    proof {
        lemma_number_text_len(num as int);
    }
    let mut text = String::new();
    if width > digits {
        push_blanks(&mut text, width - digits);
    }
    assert(text@ =~= blanks(width - digits));
    if num < 0 {
        push_char(&mut text, '-');
        push_decimal(&mut text, (-(num as i64)) as u64);
    } else {
        push_decimal(&mut text, num as u64);
    }
    assert(text@ =~= right_aligned(number_text(num as int), width as int));
    text
}

/// Whether two strings hold the same characters.
pub fn str_eq(a: &str, b: &str) -> (same: bool)
    ensures
        same == (a@ == b@),
{
    broadcast use vstd::string::group_string_axioms;

    let mut others = b.chars();
    for c in it: a.chars()
        invariant
            it.seq() == a@,
            it.index() <= b@.len(),
            others.remaining() == b@.skip(it.index()),
            forall|j: int| 0 <= j < it.index() ==> a@[j] == b@[j],
    {
        match others.next() {
            Some(d) => {
                if c != d {
                    return false;
                }
            },
            None => {
                return false;
            },
        }
        assert(b@.skip(it.index()).drop_first() =~= b@.skip(it.index() + 1));
    }
    match others.next() {
        Some(_) => false,
        None => {
            assert(a@ =~= b@);
            true
        },
    }
}

} // verus!
