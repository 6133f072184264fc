use vstd::prelude::*;

use rand::rngs::ThreadRng;

use crate::dictionary::{
    is_ascii_alphanumeric_spec, is_control_spec, is_enumerable, standard_separators,
    standard_words, universe_contains, Dictionary,
};
use crate::password_options::{
    alphanumeric_of, char_admitted, char_allowed, whitespace_of, CharSet, PasswordOptions,
};

verus! {

/// rand's thread-local generator, held opaque.
#[verifier::external_type_specification]
#[verifier::external_body]
pub struct ExThreadRng(ThreadRng);

/// Relies on rand::thread_rng: a handle on this thread's generator.
pub assume_specification[ rand::thread_rng ]() -> ThreadRng;

/// Relies on rand's SliceRandom::choose for slices: `None` for an empty slice,
/// otherwise a reference to one of its elements.
#[verifier::external_body]
fn choose_from<'a, T>(c: &'a [T], rng: &mut ThreadRng) -> (r: Option<&'a T>)
    ensures
        r is None <==> c@.len() == 0,
        r matches Some(v) ==> exists|i: int| 0 <= i < c@.len() && *v == c@[i],
{
    rand::seq::SliceRandom::choose(c, rng)
}

/// Relies on rand's Rng::gen for `char`: any Unicode scalar value.
#[verifier::external_body]
fn random_char(rng: &mut ThreadRng) -> (r: char) {
    <ThreadRng as rand::Rng>::gen::<char>(rng)
}

/// Relies on rand::random for `bool`: a fair coin.
#[verifier::external_body]
fn coin_flip() -> (r: bool) {
    rand::random::<bool>()
}

/// The upper-case form of a string, as `str::to_uppercase` gives it.
pub uninterp spec fn upper_of(s: Seq<char>) -> Seq<char>;

/// Relies on str::to_uppercase: the result depends on the characters alone.
#[verifier::external_body]
fn uppercase(s: &str) -> (r: String)
    ensures
        r@ == upper_of(s@),
{
    s.to_uppercase()
}

/// Relies on String::push: appends one character.
#[verifier::external_body]
fn push_char(s: &mut String, c: char)
    ensures
        final(s)@ == old(s)@.push(c),
{
    s.push(c)
}

/// How many draws in a row may be rejected before generation gives up.
pub const MAX_CONSECUTIVE_REJECTIONS: u32 = 100000;

/// No character satisfying the requested policy was found.
#[derive(Clone, Copy, Debug, PartialEq, Eq, Structural)]
pub struct ConfigurationError {}

impl ConfigurationError {
    /// The message that describes this error.
    pub fn message(&self) -> (r: String)
        ensures
            r@ == "no character satisfies the requested constraints"@,
    {
        String::from_str("no character satisfies the requested constraints")
    }
}

/// `s` has `opts.min_length` characters, each allowed under `opts`.
pub open spec fn is_character_password(opts: PasswordOptions, s: Seq<char>) -> bool {
    &&& s.len() == opts.min_length as nat
    &&& forall|i: int| 0 <= i < s.len() ==> char_allowed(opts, #[trigger] s[i])
}

/// The words joined in order, with `sep` between each two neighbours.
pub open spec fn join_words(words: Seq<Seq<char>>, sep: Seq<char>) -> Seq<char>
    decreases words.len(),
{
    if words.len() == 0 {
        Seq::empty()
    } else if words.len() == 1 {
        words[0]
    } else {
        join_words(words.drop_last(), sep) + sep + words.last()
    }
}

/// `w` is a word of the dictionary, as it stands or in upper case.
pub open spec fn is_word_choice(dict: Dictionary, w: Seq<char>) -> bool {
    exists|k: int|
        0 <= k < dict.word_seq().len() && (w == dict.word_seq()[k]@ || w == upper_of(
            dict.word_seq()[k]@,
        ))
}

/// `sep` is one of the dictionary's separators.
pub open spec fn is_separator(dict: Dictionary, sep: Seq<char>) -> bool {
    exists|k: int| 0 <= k < dict.separator_seq().len() && sep == dict.separator_seq()[k]@
}

/// `s` is `words`, `n` choices of the dictionary, joined by the separator `sep`.
pub open spec fn is_passphrase_of(
    dict: Dictionary,
    n: nat,
    words: Seq<Seq<char>>,
    sep: Seq<char>,
    s: Seq<char>,
) -> bool {
    &&& words.len() == n
    &&& is_separator(dict, sep)
    &&& forall|i: int| 0 <= i < words.len() ==> is_word_choice(dict, #[trigger] words[i])
    &&& s == join_words(words, sep)
}

/// `s` is a passphrase of `n` words of the dictionary.
pub open spec fn is_passphrase(dict: Dictionary, n: nat, s: Seq<char>) -> bool {
    exists|words: Seq<Seq<char>>, sep: Seq<char>| is_passphrase_of(dict, n, words, sep, s)
}

/// Some character is allowed under `opts`.
pub open spec fn policy_satisfiable(opts: PasswordOptions) -> bool {
    exists|c: char| char_allowed(opts, c)
}

/// What a password generated from `dict` under `opts` looks like.
pub open spec fn password_fits(dict: Dictionary, opts: PasswordOptions, s: Seq<char>) -> bool {
    if opts.character_set == CharSet::Xkcd {
        is_passphrase(dict, opts.min_length as nat, s)
    } else {
        is_character_password(opts, s)
    }
}

/// The sum of the lengths of `words`.
pub open spec fn total_len(words: Seq<Seq<char>>) -> nat
    decreases words.len(),
{
    if words.len() == 0 {
        0
    } else {
        total_len(words.drop_last()) + words.last().len()
    }
}

/// Joining `n >= 1` words puts `n - 1` separators between them and adds
/// nothing else.
pub proof fn lemma_join_words_len(words: Seq<Seq<char>>, sep: Seq<char>)
    requires
        words.len() >= 1,
    ensures
        join_words(words, sep).len() == total_len(words) + (words.len() - 1) * sep.len(),
    decreases words.len(),
{
    if words.len() > 1 {
        lemma_join_words_len(words.drop_last(), sep);
        let n = words.len() as int;
        assert((n - 1) * sep.len() == (n - 2) * sep.len() + sep.len()) by (nonlinear_arith);
        assert(join_words(words, sep) == join_words(words.drop_last(), sep) + sep + words.last());
    } else {
        assert(total_len(words.drop_last()) == 0);
        assert(total_len(words) == words[0].len());
    }
}

/// A password generated in a character mode holds exactly `min_length`
/// characters.
pub proof fn lemma_character_mode_length(dict: Dictionary, opts: PasswordOptions, s: Seq<char>)
    requires
        opts.character_set != CharSet::Xkcd,
        password_fits(dict, opts, s),
    ensures
        s.len() == opts.min_length as nat,
{
}

/// Every character of a password generated from the digits is an ASCII digit.
pub proof fn lemma_numbers_are_digits(dict: Dictionary, opts: PasswordOptions, s: Seq<char>)
    requires
        opts.character_set == CharSet::Numbers,
        password_fits(dict, opts, s),
    ensures
        forall|i: int| 0 <= i < s.len() ==> '0' <= #[trigger] s[i] && s[i] <= '9',
{
    assert forall|i: int| 0 <= i < s.len() implies '0' <= #[trigger] s[i] && s[i] <= '9' by {
        assert(char_allowed(opts, s[i]));
    }
}

/// Every character of a password generated from the alphanumeric set is an
/// ASCII letter or digit.
pub proof fn lemma_alphanumeric_set(dict: Dictionary, opts: PasswordOptions, s: Seq<char>)
    requires
        opts.character_set == CharSet::Alphanumeric,
        password_fits(dict, opts, s),
    ensures
        forall|i: int| 0 <= i < s.len() ==> is_ascii_alphanumeric_spec(#[trigger] s[i]),
{
    assert forall|i: int| 0 <= i < s.len() implies is_ascii_alphanumeric_spec(#[trigger] s[i]) by {
        assert(char_allowed(opts, s[i]));
    }
}

/// Under `alphanumeric_only`, every character of a generated password is
/// alphanumeric, whatever the character set.
pub proof fn lemma_alphanumeric_only(dict: Dictionary, opts: PasswordOptions, s: Seq<char>)
    requires
        opts.character_set != CharSet::Xkcd,
        opts.alphanumeric_only,
        password_fits(dict, opts, s),
    ensures
        forall|i: int| 0 <= i < s.len() ==> alphanumeric_of(#[trigger] s[i]),
{
    assert forall|i: int| 0 <= i < s.len() implies alphanumeric_of(#[trigger] s[i]) by {
        assert(char_allowed(opts, s[i]));
    }
}

/// Without `include_whitespace`, no character of a generated password is
/// whitespace.
pub proof fn lemma_no_whitespace(dict: Dictionary, opts: PasswordOptions, s: Seq<char>)
    requires
        opts.character_set != CharSet::Xkcd,
        !opts.include_whitespace,
        password_fits(dict, opts, s),
    ensures
        forall|i: int| 0 <= i < s.len() ==> !whitespace_of(#[trigger] s[i]),
{
    assert forall|i: int| 0 <= i < s.len() implies !whitespace_of(#[trigger] s[i]) by {
        assert(char_allowed(opts, s[i]));
    }
}

/// A password generated from printable ASCII holds no control character and
/// nothing outside U+0020 to U+007E.
pub proof fn lemma_ascii_printable(dict: Dictionary, opts: PasswordOptions, s: Seq<char>)
    requires
        opts.character_set == CharSet::Ascii,
        password_fits(dict, opts, s),
    ensures
        forall|i: int|
            0 <= i < s.len() ==> !is_control_spec(#[trigger] s[i]) && 0x20 <= (s[i] as int)
                <= 0x7E,
{
    assert forall|i: int| 0 <= i < s.len() implies !is_control_spec(#[trigger] s[i]) && 0x20 <= (
    s[i] as int) <= 0x7E by {
        assert(char_allowed(opts, s[i]));
    }
}

/// A passphrase of `n > 1` words is `n` dictionary words joined by one
/// separator of the dictionary, repeated `n - 1` times.
pub proof fn lemma_passphrase_shape(dict: Dictionary, opts: PasswordOptions, s: Seq<char>)
    requires
        opts.character_set == CharSet::Xkcd,
        opts.min_length > 1,
        password_fits(dict, opts, s),
    ensures
        exists|words: Seq<Seq<char>>, sep: Seq<char>|
            {
                &&& words.len() == opts.min_length as nat
                &&& is_separator(dict, sep)
                &&& forall|i: int| 0 <= i < words.len() ==> is_word_choice(dict, #[trigger] words[i])
                &&& s == join_words(words, sep)
                &&& s.len() == total_len(words) + (words.len() - 1) * sep.len()
            },
{
    let (words, sep) = choose|words: Seq<Seq<char>>, sep: Seq<char>|
        is_passphrase_of(dict, opts.min_length as nat, words, sep, s);
    lemma_join_words_len(words, sep);
}

/// Selects a random value of a non-empty slice.
pub fn select_random_value<'a, T>(c: &'a [T], rng: &mut ThreadRng) -> (r: &'a T)
    requires
        c@.len() > 0,
    ensures
        exists|i: int| 0 <= i < c@.len() && *r == c@[i],
{
    match choose_from(c, rng) {
        Some(v) => v,
        None => &c[0],
    }
}

/// The test that the policy of `opts` applies to each character.
pub open spec fn admitted_by(opts: PasswordOptions) -> spec_fn(char) -> bool {
    |c: char| char_admitted(opts, c)
}

/// The characters of `base` that the policy of `options` keeps, in order.
pub fn filter_by_policy(options: &PasswordOptions, base: &Vec<char>) -> (r: Vec<char>)
    ensures
        r@ == base@.filter(admitted_by(*options)),
{
    let ghost pred = admitted_by(*options);
    let mut out: Vec<char> = Vec::new();
    let mut i: usize = 0;
    while i < base.len()
        invariant
            pred == admitted_by(*options),
            0 <= i <= base@.len(),
            out@ == base@.subrange(0, i as int).filter(pred),
        decreases base@.len() - i,
    {
        let c = base[i];
        let keep = options.admits_char(c);
        if keep {
            out.push(c);
        }
        proof {
            reveal(Seq::filter);
            let next = base@.subrange(0, i as int + 1);
            assert(next.drop_last() =~= base@.subrange(0, i as int));
            assert(next.last() == c);
            assert(pred(c) == keep);
            assert(out@ == next.filter(pred));
        }
        i = i + 1;
    }
    assert(base@.subrange(0, base@.len() as int) =~= base@);
    out
}

/// `n` characters, each drawn from `pool`.
fn fill_from_pool(rng: &mut ThreadRng, pool: &Vec<char>, n: u32) -> (r: String)
    requires
        pool@.len() > 0,
    ensures
        r@.len() == n as nat,
        forall|i: int| 0 <= i < r@.len() ==> pool@.contains(#[trigger] r@[i]),
{
    let mut out = String::new();
    let mut i: u32 = 0;
    while i < n
        invariant
            pool@.len() > 0,
            i <= n,
            out@.len() == i as nat,
            forall|j: int| 0 <= j < out@.len() ==> pool@.contains(#[trigger] out@[j]),
        decreases n - i,
    {
        let c = *select_random_value(pool.as_slice(), rng);
        push_char(&mut out, c);
        i = i + 1;
    }
    out
}

/// What one draw of a character leads to.
#[derive(Clone, Copy, Debug, PartialEq, Eq, Structural)]
pub enum DrawStep {
    /// The character is allowed and is kept.
    Accept(char),
    /// The character is rejected; the count of rejections in a row is now this.
    Retry(u32),
    /// `MAX_CONSECUTIVE_REJECTIONS` draws in a row were rejected.
    GiveUp,
}

/// The step that drawing `c` leads to after `rejected` rejections in a row.
pub open spec fn draw_step_spec(opts: PasswordOptions, c: char, rejected: u32) -> DrawStep {
    if char_allowed(opts, c) {
        DrawStep::Accept(c)
    } else if rejected + 1 < MAX_CONSECUTIVE_REJECTIONS {
        DrawStep::Retry((rejected + 1) as u32)
    } else {
        DrawStep::GiveUp
    }
}

/// Judges one drawn character `c`, after `rejected` rejections in a row.
pub fn judge_draw(options: &PasswordOptions, c: char, rejected: u32) -> (r: DrawStep)
    requires
        rejected < MAX_CONSECUTIVE_REJECTIONS,
    ensures
        r == draw_step_spec(*options, c, rejected),
{
    if universe_contains(options.character_set, c) && options.admits_char(c) {
        DrawStep::Accept(c)
    } else if rejected + 1 < MAX_CONSECUTIVE_REJECTIONS {
        DrawStep::Retry(rejected + 1)
    } else {
        DrawStep::GiveUp
    }
}

/// Draws characters until one is allowed under `options`, or gives up after
/// `MAX_CONSECUTIVE_REJECTIONS` rejections in a row.
fn draw_unicode(rng: &mut ThreadRng, options: &PasswordOptions) -> (r: Option<char>)
    ensures
        r matches Some(c) ==> char_allowed(*options, c),
{
    let mut rejected: u32 = 0;
    loop
        invariant
            rejected < MAX_CONSECUTIVE_REJECTIONS,
        decreases MAX_CONSECUTIVE_REJECTIONS - rejected,
    {
        let c = random_char(rng);
        match judge_draw(options, c, rejected) {
            DrawStep::Accept(kept) => {
                return Some(kept);
            },
            DrawStep::Retry(count) => {
                rejected = count;
            },
            DrawStep::GiveUp => {
                return None;
            },
        }
    }
}

/// Every listable character set keeps some character under any policy: a
/// digit for the digits, the letter `a` for the others.
pub proof fn lemma_listable_sets_satisfiable(opts: PasswordOptions)
    requires
        is_enumerable(opts.character_set),
    ensures
        policy_satisfiable(opts),
{
    if opts.character_set == CharSet::Numbers {
        assert(char_allowed(opts, '0'));
    } else {
        assert(char_allowed(opts, 'a'));
    }
}

/// A password of Unicode characters, drawn one by one and kept when allowed.
fn fill_unicode(rng: &mut ThreadRng, options: &PasswordOptions) -> (r: Result<
    String,
    ConfigurationError,
>)
    requires
        options.character_set == CharSet::Unicode,
    ensures
        r matches Ok(s) ==> is_character_password(*options, s@),
        r is Err ==> options.min_length > 0,
{
    let n = options.min_length;
    let mut out = String::new();
    let mut i: u32 = 0;
    while i < n
        invariant
            options.character_set == CharSet::Unicode,
            n == options.min_length,
            i <= n,
            out@.len() == i as nat,
            forall|j: int| 0 <= j < out@.len() ==> char_allowed(*options, #[trigger] out@[j]),
        decreases n - i,
    {
        match draw_unicode(rng, options) {
            Some(c) => push_char(&mut out, c),
            None => {
                return Err(ConfigurationError {  });
            },
        }
        i = i + 1;
    }
    Ok(out)
}

/// A passphrase of `n` words of `dictionary`, joined by one separator drawn once.
fn fill_passphrase(rng: &mut ThreadRng, dictionary: &Dictionary, n: u32) -> (r: String)
    requires
        dictionary.wf(),
    ensures
        is_passphrase(*dictionary, n as nat, r@),
        n == 0 ==> r@.len() == 0,
{
    let separators = dictionary.separators();
    let separator: &str = *select_random_value(separators.as_slice(), rng);
    let words = dictionary.words();
    let mut out = String::new();
    let ghost mut chosen: Seq<Seq<char>> = Seq::empty();
    let mut i: u32 = 0;
    while i < n
        invariant
            words@ == dictionary.word_seq(),
            words@.len() > 0,
            i <= n,
            chosen.len() == i as nat,
            forall|j: int| 0 <= j < chosen.len() ==> is_word_choice(*dictionary, #[trigger] chosen[j]),
            out@ == join_words(chosen, separator@),
        decreases n - i,
    {
        let ghost before = out@;
        if i > 0 {
            out.append(separator);
        }
        let word: &str = *select_random_value(words.as_slice(), rng);
        let ghost k = choose|k: int| 0 <= k < words@.len() && word == words@[k];
        let ghost picked: Seq<char>;
        if coin_flip() {
            let upper = uppercase(word);
            out.append(upper.as_str());
            proof {
                picked = upper@;
            }
        } else {
            out.append(word);
            proof {
                picked = word@;
            }
        }
        proof {
            assert(is_word_choice(*dictionary, picked)) by {
                assert(0 <= k < dictionary.word_seq().len());
            }
            let grown = chosen.push(picked);
            assert(grown.drop_last() =~= chosen);
            if chosen.len() == 0 {
                assert(before =~= Seq::<char>::empty());
                assert(out@ =~= picked);
            } else {
                assert(out@ =~= before + separator@ + picked);
            }
            chosen = grown;
        }
        i = i + 1;
    }
    proof {
        assert(is_separator(*dictionary, separator@));
        assert(is_passphrase_of(*dictionary, n as nat, chosen, separator@, out@));
    }
    out
}

/// Generates passwords from a cached generator and a loaded dictionary.
pub struct PasswordGenerator {
    rng: ThreadRng,
    dictionary: Dictionary,
}

impl PasswordGenerator {
    /// The dictionary that passphrases are drawn from.
    pub closed spec fn dict(&self) -> Dictionary {
        self.dictionary
    }

    /// The dictionary is well formed.
    pub open spec fn wf(&self) -> bool {
        self.dict().wf()
    }

    /// A generator on this thread's random source and a freshly built dictionary.
    pub fn new() -> (r: PasswordGenerator)
        ensures
            r.wf(),
            r.dict().word_seq() == standard_words(),
            r.dict().separator_seq() == standard_separators(),
    {
        PasswordGenerator { rng: rand::thread_rng(), dictionary: Dictionary::new() }
    }

    /// Generates a random password that matches `options`: `min_length`
    /// characters of the character set that the policy keeps, or for the
    /// passphrase set `min_length` words joined by one separator.
    pub fn generate_password(&mut self, options: &PasswordOptions) -> (r: Result<
        String,
        ConfigurationError,
    >)
        requires
            old(self).wf(),
        ensures
            final(self).wf(),
            final(self).dict() == old(self).dict(),
            r matches Ok(s) ==> password_fits(old(self).dict(), *options, s@),
            options.min_length == 0 ==> (r matches Ok(s) && s@.len() == 0),
            options.character_set == CharSet::Xkcd ==> r is Ok,
            is_enumerable(options.character_set) ==> r is Ok,
            r is Err ==> options.min_length > 0 && options.character_set == CharSet::Unicode,
    {
        let cs = options.character_set;
        if cs == CharSet::Xkcd {
            let s = fill_passphrase(&mut self.rng, &self.dictionary, options.min_length);
            return Ok(s);
        }
        if cs == CharSet::Unicode {
            return fill_unicode(&mut self.rng, options);
        }
        let base = match self.dictionary.list_from_charset(cs) {
            Some(v) => v,
            None => Vec::new(),
        };
        let pool = filter_by_policy(options, &base);
        proof {
            lemma_listable_sets_satisfiable(*options);
        }
        proof {
            let pred = admitted_by(*options);
            assert forall|c: char| #[trigger] pool@.contains(c) <==> char_allowed(*options, c) by {
                if pool@.contains(c) {
                    base@.lemma_filter_contains_rev(pred, c);
                    let j = choose|j: int| 0 <= j < pool@.len() && pool@[j] == c;
                    base@.lemma_filter_pred(pred, j);
                }
                if char_allowed(*options, c) {
                    assert(base@.contains(c));
                    let j = choose|j: int| 0 <= j < base@.len() && base@[j] == c;
                    base@.lemma_filter_contains(pred, j);
                }
            }
        }
        proof {
            let c = choose|c: char| char_allowed(*options, c);
            assert(pool@.contains(c));
        }
        let s = fill_from_pool(&mut self.rng, &pool, options.min_length);
        proof {
            if options.min_length > 0 {
                assert(char_allowed(*options, s@[0]));
            }
        }
        Ok(s)
    }
}

} // verus!
