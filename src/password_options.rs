use vstd::prelude::*;

use crate::dictionary::{in_universe, is_ascii_alphanumeric_spec, is_control_char, is_control_spec};

verus! {

/// Describes the set of characters or words that a password is drawn from.
#[derive(Clone, Copy, Debug, PartialEq, Eq, Structural)]
pub enum CharSet {
    /// Printable ASCII, U+0020 to U+007E.
    Ascii,
    /// Printable ASCII and the printable part of Latin-1, U+00A0 to U+00FF.
    AsciiExtended,
    /// Every Unicode scalar value that is not a control character.
    Unicode,
    /// Words from the dictionary, joined by one separator.
    Xkcd,
    /// The ASCII digits.
    Numbers,
    /// The ASCII letters and digits.
    Alphanumeric,
}

/// A name matched none of the character sets.
#[derive(Clone, Copy, Debug, PartialEq, Eq, Structural)]
pub struct ParseCharSetError {}

impl ParseCharSetError {
    /// The message that describes this error.
    pub fn message(&self) -> (r: String)
        ensures
            r@ == "String did not match ascii, asciiextended, xkcd, passphrase, numbers or alphanumeric"@,
    {
        String::from_str("String did not match ascii, asciiextended, xkcd, passphrase, numbers or alphanumeric")
    }
}

/// The character set that a lower-case name stands for.
pub open spec fn char_set_named(name: Seq<char>) -> Option<CharSet> {
    if name == "ascii"@ {
        Some(CharSet::Ascii)
    } else if name == "asciiextended"@ {
        Some(CharSet::AsciiExtended)
    } else if name == "xkcd"@ || name == "passphrase"@ {
        Some(CharSet::Xkcd)
    } else if name == "numbers"@ {
        Some(CharSet::Numbers)
    } else if name == "alphanumeric"@ {
        Some(CharSet::Alphanumeric)
    } else {
        None
    }
}

/// What parsing a lower-case name gives.
pub open spec fn parse_lowered_spec(name: Seq<char>) -> Result<CharSet, ParseCharSetError> {
    match char_set_named(name) {
        Some(cs) => Ok(cs),
        None => Err(ParseCharSetError {  }),
    }
}

/// The lower-case form of a string, as `str::to_lowercase` gives it.
pub uninterp spec fn lower_of(s: Seq<char>) -> Seq<char>;

/// Relies on str::to_lowercase: the result depends on the characters alone.
#[verifier::external_body]
fn lowercase(s: &str) -> (r: String)
    ensures
        r@ == lower_of(s@),
{
    s.to_lowercase()
}

/// Whether two strings hold the same characters.
fn same_text(a: &str, b: &str) -> (r: bool)
    ensures
        r == (a@ == b@),
{
    let n = a.unicode_len();
    if n != b.unicode_len() {
        return false;
    }
    let mut i: usize = 0;
    while i < n
        invariant
            n == a@.len(),
            n == b@.len(),
            0 <= i <= n,
            forall|j: int| 0 <= j < i ==> a@[j] == b@[j],
        decreases n - i,
    {
        if a.get_char(i) != b.get_char(i) {
            return false;
        }
        i = i + 1;
    }
    assert(a@ =~= b@);
    true
}

impl CharSet {
    /// Parses a name that is already in lower case: `ascii`, `asciiextended`,
    /// `xkcd` or `passphrase`, `numbers`, `alphanumeric`.
    pub fn parse_lowered(name: &str) -> (r: Result<CharSet, ParseCharSetError>)
        ensures
            r == parse_lowered_spec(name@),
    {
        if same_text(name, "ascii") {
            Ok(CharSet::Ascii)
        } else if same_text(name, "asciiextended") {
            Ok(CharSet::AsciiExtended)
        } else if same_text(name, "xkcd") || same_text(name, "passphrase") {
            Ok(CharSet::Xkcd)
        } else if same_text(name, "numbers") {
            Ok(CharSet::Numbers)
        } else if same_text(name, "alphanumeric") {
            Ok(CharSet::Alphanumeric)
        } else {
            Err(ParseCharSetError {  })
        }
    }

    /// Parses a character-set name, ignoring case.
    pub fn from_name(name: &str) -> (r: Result<CharSet, ParseCharSetError>)
        ensures
            r == parse_lowered_spec(lower_of(name@)),
    {
        let lowered = lowercase(name);
        CharSet::parse_lowered(lowered.as_str())
    }
}

impl std::str::FromStr for CharSet {
    type Err = ParseCharSetError;

    fn from_str(s: &str) -> Result<CharSet, ParseCharSetError> {
        CharSet::from_name(s)
    }
}

/// Whether `c` has the White_Space property: U+0009 to U+000D, U+0020, U+0085,
/// U+00A0, U+1680, U+2000 to U+200A, U+2028, U+2029, U+202F, U+205F, U+3000.
pub open spec fn whitespace_of(c: char) -> bool {
    let u = c as int;
    ||| 0x09 <= u <= 0x0D
    ||| u == 0x20 || u == 0x85 || u == 0xA0 || u == 0x1680
    ||| 0x2000 <= u <= 0x200A
    ||| u == 0x2028 || u == 0x2029 || u == 0x202F || u == 0x205F || u == 0x3000
}

/// Whether a character beyond ASCII is alphanumeric, as `char::is_alphanumeric`
/// decides it.
pub uninterp spec fn non_ascii_alphanumeric_of(c: char) -> bool;

/// Whether `c` is alphanumeric: an ASCII letter or digit, or beyond ASCII a
/// character with the Alphabetic or Numeric property.
pub open spec fn alphanumeric_of(c: char) -> bool {
    if (c as int) < 0x80 {
        is_ascii_alphanumeric_spec(c)
    } else {
        non_ascii_alphanumeric_of(c)
    }
}

/// Relies on char::is_whitespace: the White_Space property of `c`.
#[verifier::external_body]
fn is_whitespace_char(c: char) -> (r: bool)
    ensures
        r == whitespace_of(c),
{
    c.is_whitespace()
}

/// Relies on char::is_alphanumeric: the Alphabetic or Numeric property of `c`,
/// which within ASCII holds of the letters and digits alone.
#[verifier::external_body]
fn is_alphanumeric_char(c: char) -> (r: bool)
    ensures
        (c as int) < 0x80 ==> r == is_ascii_alphanumeric_spec(c),
        (c as int) >= 0x80 ==> r == non_ascii_alphanumeric_of(c),
{
    c.is_alphanumeric()
}

/// Whether the policy of `opts` keeps a character with the given properties.
pub open spec fn policy_admits(
    opts: PasswordOptions,
    control: bool,
    whitespace: bool,
    alphanumeric: bool,
) -> bool {
    &&& !control
    &&& opts.include_whitespace || !whitespace
    &&& !opts.alphanumeric_only || alphanumeric
}

/// Whether the policy of `opts` keeps the character `c`.
pub open spec fn char_admitted(opts: PasswordOptions, c: char) -> bool {
    policy_admits(opts, is_control_spec(c), whitespace_of(c), alphanumeric_of(c))
}

/// Whether `c` may stand in a password made under `opts`: it lies in the
/// universe of the character set and the policy keeps it.
pub open spec fn char_allowed(opts: PasswordOptions, c: char) -> bool {
    in_universe(opts.character_set, c) && char_admitted(opts, c)
}

/// The options that `generate_password` works from.
#[derive(Clone, Copy, Debug, PartialEq, Eq, Structural)]
pub struct PasswordOptions {
    /// How many characters in the password. Or, how many words in the password.
    pub min_length: u32,
    /// The set of characters or words to randomly select from.
    pub character_set: CharSet,
    /// Keep only alphanumeric characters.
    pub alphanumeric_only: bool,
    /// Allow whitespace characters.
    pub include_whitespace: bool,
}

impl PasswordOptions {
    /// Options for `min_length` characters (or words) of `character_set`, with
    /// whitespace left out and no alphanumeric restriction.
    pub fn new(min_length: u32, character_set: CharSet) -> (r: PasswordOptions)
        ensures
            r == (PasswordOptions {
                min_length,
                character_set,
                alphanumeric_only: false,
                include_whitespace: false,
            }),
    {
        PasswordOptions { min_length, character_set, alphanumeric_only: false, include_whitespace: false }
    }

    /// Whether the policy keeps a character with the given properties: no
    /// control character, no whitespace unless whitespace is included, and
    /// nothing but alphanumerics under `alphanumeric_only`.
    pub fn admits(&self, control: bool, whitespace: bool, alphanumeric: bool) -> (r: bool)
        ensures
            r == policy_admits(*self, control, whitespace, alphanumeric),
    {
        !control && (self.include_whitespace || !whitespace) && (!self.alphanumeric_only
            || alphanumeric)
    }

    /// Whether the policy keeps the character `c`.
    pub fn admits_char(&self, c: char) -> (r: bool)
        ensures
            r == char_admitted(*self, c),
    {
        self.admits(is_control_char(c), is_whitespace_char(c), is_alphanumeric_char(c))
    }

    /// Options with both policy flags given.
    pub fn with_flags(
        min_length: u32,
        character_set: CharSet,
        alphanumeric_only: bool,
        include_whitespace: bool,
    ) -> (r: PasswordOptions)
        ensures
            r == (PasswordOptions { min_length, character_set, alphanumeric_only, include_whitespace }),
    {
        PasswordOptions { min_length, character_set, alphanumeric_only, include_whitespace }
    }
}

} // verus!
