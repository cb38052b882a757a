//! A numeric setting kept as the text the user typed.
use vstd::prelude::*;
use vstd::string::to_string_from_display_ensures;

verus! {

/// Whether `s` is a non-empty run of decimal digits.
pub open spec fn is_digits(s: Seq<char>) -> bool {
    s.len() > 0 && forall|i: int| 0 <= i < s.len() ==> '0' <= #[trigger] s[i] <= '9'
}

/// The value of the decimal digits `s`.
pub open spec fn digits_value(s: Seq<char>) -> nat
    decreases s.len(),
{
    if s.len() == 0 {
        0
    } else {
        digits_value(s.drop_last()) * 10 + (s.last() as nat - '0' as nat) as nat
    }
}

/// The `u32` that `s` writes: an optional `+`, then decimal digits whose
/// value fits in a `u32`; `None` for any other text.
pub open spec fn decimal_u32(s: Seq<char>) -> Option<u32> {
    let digits = if s.len() > 0 && s[0] == '+' {
        s.drop_first()
    } else {
        s
    };
    if is_digits(digits) && digits_value(digits) <= u32::MAX {
        Some(digits_value(digits) as u32)
    } else {
        None
    }
}

/// Relies on `u32`'s `FromStr` (through `str::parse`), which accepts an
/// optional `+` followed by decimal digits whose value fits, and nothing else.
#[verifier::external_body]
fn parse_u32(text: &str) -> (r: Option<u32>)
    ensures
        r == decimal_u32(text@),
{
    text.parse::<u32>().ok()
}

/// A setting as the user typed it, with the value it stands for if the text
/// is valid.
#[derive(Debug, Clone, PartialEq)]
pub struct Parsable<T> {
    content: String,
    parsed: Option<T>,
}

impl<T> Parsable<T> {
    /// The text as typed.
    pub closed spec fn content(self) -> String {
        self.content
    }

    /// The value that the text stands for, if it is valid.
    pub closed spec fn value(self) -> Option<T> {
        self.parsed
    }

    /// The text as typed.
    pub fn text(&self) -> (r: &String)
        ensures
            *r == self.content(),
    {
        &self.content
    }

    /// Whether the text stands for a value.
    pub fn is_valid(&self) -> (r: bool)
        ensures
            r == self.value() is Some,
    {
        self.parsed.is_some()
    }

    /// The value that the text stands for, if it is valid.
    pub fn parsed(&self) -> (r: Option<T>)
        where
            T: Copy,
        ensures
            r == self.value(),
    {
        match &self.parsed {
            Some(v) => Some(*v),
            None => None,
        }
    }
}

impl Parsable<u32> {
    /// The setting for `object`, written as its decimal text.
    pub fn new(object: u32) -> (r: Self)
        ensures
            r.value() == Some(object),
            to_string_from_display_ensures::<u32>(&object, r.content()),
    {
        Parsable { content: object.to_string(), parsed: Some(object) }
    }

    /// The setting for the text `string`: valid when it writes a `u32`.
    pub fn parse(string: String) -> (r: Self)
        ensures
            r.content() == string,
            r.value() == decimal_u32(string@),
    {
        let parsed = parse_u32(string.as_str());
        Parsable { content: string, parsed }
    }
}

impl Default for Parsable<u32> {
    /// The setting for zero.
    fn default() -> (r: Self)
        ensures
            r.value() == Some(0u32),
            to_string_from_display_ensures::<u32>(&0u32, r.content()),
    {
        let zero: u32 = 0;
        Parsable { content: zero.to_string(), parsed: Some(zero) }
    }
}

} // verus!
