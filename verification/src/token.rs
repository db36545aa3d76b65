//! Confirmation tokens: fixed-length random texts of ASCII letters and digits.

use crate::text::{
    all_ascii_alphanumeric, char_is_ascii_alphanumeric, chars_of, is_ascii_alphanumeric,
};
use rand::Rng;
use vstd::prelude::*;

verus! {

/// The number of characters of a token.
pub const TOKEN_LENGTH: usize = 25;

/// Whether `s` has the shape of a token.
pub open spec fn token_is_well_formed(s: Seq<char>) -> bool {
    s.len() == TOKEN_LENGTH && all_ascii_alphanumeric(s)
}

/// The text that the bytes `samples` spell, one character per byte.
pub open spec fn text_of_samples(samples: Seq<u8>) -> Seq<char> {
    Seq::new(samples.len(), |i: int| samples[i] as char)
}

pub assume_specification[ String::push ](s: &mut String, c: char)
    ensures
        final(s)@ == old(s)@.push(c),
;

/// Draws one byte from `rand::distributions::Alphanumeric` with the thread's
/// generator. Trusted: the byte is an ASCII letter or digit; which one is
/// left open.
#[verifier::external_body]
fn sample_alphanumeric() -> (b: u8)
    ensures
        is_ascii_alphanumeric(b as char),
{
    rand::thread_rng().sample(rand::distributions::Alphanumeric)
}

/// An opaque credential that proves control of a submitted address.
#[derive(Debug, PartialEq, Eq)]
pub struct Token {
    value: String,
}

impl View for Token {
    type V = Seq<char>;

    closed spec fn view(&self) -> Seq<char> {
        self.value@
    }
}

impl Clone for Token {
    fn clone(&self) -> (r: Self)
        ensures
            r@ == self@,
    {
        proof {
            use_type_invariant(self);
        }
        Token { value: self.value.clone() }
    }
}

impl Token {
    #[verifier::type_invariant]
    spec fn well_formed(&self) -> bool {
        token_is_well_formed(self.value@)
    }

    /// The token that `samples` spell: there is one exactly where they are
    /// `TOKEN_LENGTH` ASCII letters and digits.
    pub fn from_samples(samples: &Vec<u8>) -> (r: Option<Token>)
        ensures
            r is Some <==> token_is_well_formed(text_of_samples(samples@)),
            r matches Some(t) ==> t@ == text_of_samples(samples@),
    {
        let ghost whole = text_of_samples(samples@);
        if samples.len() != TOKEN_LENGTH {
            return None;
        }
        let mut value = String::new();
        let mut i: usize = 0;
        while i < samples.len()
            invariant
                i <= samples.len(),
                whole == text_of_samples(samples@),
                value@ == whole.take(i as int),
                all_ascii_alphanumeric(value@),
            decreases samples.len() - i,
        {
            let c: char = samples[i] as char;
            if !char_is_ascii_alphanumeric(c) {
                assert(whole[i as int] == c);
                return None;
            }
            value.push(c);
            assert(value@ =~= whole.take(i + 1));
            i += 1;
        }
        assert(value@ =~= whole);
        Some(Token { value })
    }

    /// A fresh random token.
    pub fn generate() -> (t: Token)
        ensures
            token_is_well_formed(t@),
    {
        let mut samples: Vec<u8> = Vec::new();
        while samples.len() < TOKEN_LENGTH
            invariant
                samples@.len() <= TOKEN_LENGTH,
                all_ascii_alphanumeric(text_of_samples(samples@)),
            decreases TOKEN_LENGTH - samples.len(),
        {
            let ghost before = samples@;
            let b = sample_alphanumeric();
            samples.push(b);
            assert forall|i: int| 0 <= i < samples@.len() implies is_ascii_alphanumeric(
                #[trigger] text_of_samples(samples@)[i],
            ) by {
                if i < before.len() {
                    assert(text_of_samples(before)[i] == text_of_samples(samples@)[i]);
                }
            }
        }
        Token::from_samples(&samples).unwrap()
    }

    /// Reads a token from text: there is one exactly where `s` has the shape
    /// of a token.
    pub fn parse(s: &str) -> (r: Option<Token>)
        ensures
            r is Some <==> token_is_well_formed(s@),
            r matches Some(t) ==> t@ == s@,
    {
        let chars = chars_of(s);
        if chars.len() != TOKEN_LENGTH {
            return None;
        }
        let mut i: usize = 0;
        while i < chars.len()
            invariant
                i <= chars.len(),
                chars@ == s@,
                forall|j: int| 0 <= j < i ==> is_ascii_alphanumeric(#[trigger] chars@[j]),
            decreases chars.len() - i,
        {
            if !char_is_ascii_alphanumeric(chars[i]) {
                assert(!is_ascii_alphanumeric(s@[i as int]));
                return None;
            }
            i += 1;
        }
        Some(Token { value: String::from_str(s) })
    }

    /// Whether the token reads `text`.
    pub fn same_text(&self, text: &String) -> (b: bool)
        ensures
            b == (self@ == text@),
    {
        self.value == *text
    }

    /// The token as text; it always has the shape of a token.
    pub fn as_str(&self) -> (s: &str)
        ensures
            s@ == self@,
            token_is_well_formed(self@),
    {
        proof {
            use_type_invariant(self);
        }
        self.value.as_str()
    }
}

} // verus!
