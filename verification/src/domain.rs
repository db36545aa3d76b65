//! Validated subscriber data: the display name and the e-mail address.

use crate::text::{
    chars_of, find_char, has_whitespace, is_blank, text_has_whitespace, text_is_blank,
};
use unicode_segmentation::UnicodeSegmentation;
use vstd::prelude::*;

verus! {

/// The largest number of grapheme clusters a name may have.
pub const MAX_NAME_GRAPHEMES: usize = 256;

/// The largest number of characters an e-mail address may have.
pub const MAX_EMAIL_CHARS: usize = 254;

/// Why a name or an e-mail address was turned down.
#[derive(Clone, Copy, Debug, PartialEq, Eq, Structural)]
pub enum ValidationError {
    /// The name is empty or holds white space only.
    EmptyName,
    /// The name has more than `MAX_NAME_GRAPHEMES` grapheme clusters.
    NameTooLong,
    /// The name holds one of `/ ( ) " < > \ { }`.
    ForbiddenCharacter,
    /// The address is empty or holds white space only.
    EmptyEmail,
    /// The address has more than `MAX_EMAIL_CHARS` characters.
    EmailTooLong,
    /// The address is not of the form `local@domain` with a dotted domain.
    MalformedEmail,
}

/// The number of extended grapheme clusters of a text, as Unicode text
/// segmentation counts them.
pub uninterp spec fn grapheme_count(s: Seq<char>) -> nat;

/// Whether `c` may not occur in a name.
pub open spec fn is_forbidden_in_name(c: char) -> bool {
    c == '/' || c == '(' || c == ')' || c == '"' || c == '<' || c == '>' || c == '\\' || c == '{'
        || c == '}'
}

/// Whether some character of `s` may not occur in a name.
pub open spec fn has_forbidden_char(s: Seq<char>) -> bool {
    exists|i: int| 0 <= i < s.len() && is_forbidden_in_name(#[trigger] s[i])
}

/// What is wrong with the name `s`, which has `graphemes` grapheme clusters:
/// the first rule it breaks, or `None` where it breaks none.
pub open spec fn name_fault(s: Seq<char>, graphemes: nat) -> Option<ValidationError> {
    if is_blank(s) {
        Some(ValidationError::EmptyName)
    } else if graphemes > MAX_NAME_GRAPHEMES {
        Some(ValidationError::NameTooLong)
    } else if has_forbidden_char(s) {
        Some(ValidationError::ForbiddenCharacter)
    } else {
        None
    }
}

/// Whether `s` is an acceptable name.
pub open spec fn name_is_valid(s: Seq<char>) -> bool {
    name_fault(s, grapheme_count(s)) is None
}

/// Whether the one `@` of `s` stands at `at`.
pub open spec fn splits_at(s: Seq<char>, at: int) -> bool {
    &&& 0 <= at < s.len()
    &&& s[at] == '@'
    &&& forall|j: int| 0 <= j < s.len() && j != at ==> s[j] != '@'
}

/// Whether the domain `d` holds a `.` that is neither its first nor its last
/// character.
pub open spec fn domain_is_dotted(d: Seq<char>) -> bool {
    exists|k: int| 0 < k < d.len() - 1 && d[k] == '.'
}

/// Whether `s` reads `local@domain`: no white space, exactly one `@`, a local
/// part that is not empty and a dotted domain.
pub open spec fn email_is_well_formed(s: Seq<char>) -> bool {
    &&& !has_whitespace(s)
    &&& exists|at: int|
        0 < at && #[trigger] splits_at(s, at) && domain_is_dotted(
            s.subrange(at + 1, s.len() as int),
        )
}

/// What is wrong with the address `s`: the first rule it breaks, or `None`
/// where it breaks none.
pub open spec fn email_fault(s: Seq<char>) -> Option<ValidationError> {
    if is_blank(s) {
        Some(ValidationError::EmptyEmail)
    } else if s.len() > MAX_EMAIL_CHARS {
        Some(ValidationError::EmailTooLong)
    } else if !email_is_well_formed(s) {
        Some(ValidationError::MalformedEmail)
    } else {
        None
    }
}

/// Whether `s` is an acceptable e-mail address.
pub open spec fn email_is_valid(s: Seq<char>) -> bool {
    email_fault(s) is None
}

/// A valid address holds a local part, an `@` and a domain with a `.` in it:
/// it has at least five characters, and it is not blank.
pub proof fn lemma_valid_email_has_its_parts(s: Seq<char>)
    requires
        email_is_valid(s),
    ensures
        s.contains('@'),
        s.contains('.'),
        5 <= s.len() <= MAX_EMAIL_CHARS,
        !is_blank(s),
{
    let at = choose|at: int|
        0 < at && #[trigger] splits_at(s, at) && domain_is_dotted(
            s.subrange(at + 1, s.len() as int),
        );
    let d = s.subrange(at + 1, s.len() as int);
    let k = choose|k: int| 0 < k < d.len() - 1 && d[k] == '.';
    assert(s[at] == '@');
    assert(s[at + 1 + k] == d[k]);
}

/// A blank address, or one without `@`, is turned down.
pub proof fn lemma_email_needs_an_at(s: Seq<char>)
    requires
        is_blank(s) || !s.contains('@'),
    ensures
        !email_is_valid(s),
{
    if !is_blank(s) && email_is_well_formed(s) {
        let at = choose|at: int|
            0 < at && #[trigger] splits_at(s, at) && domain_is_dotted(
                s.subrange(at + 1, s.len() as int),
            );
        assert(s[at] == '@');
    }
}

/// Counts the extended grapheme clusters of `s` with
/// `UnicodeSegmentation::graphemes`. Trusted: the count is the crate's, and
/// it depends on the text alone.
#[verifier::external_body]
fn count_graphemes(s: &str) -> (n: usize)
    ensures
        n == grapheme_count(s@),
{
    s.graphemes(true).count()
}

/// Decides `is_forbidden_in_name`.
pub fn char_is_forbidden_in_name(c: char) -> (b: bool)
    ensures
        b == is_forbidden_in_name(c),
{
    c == '/' || c == '(' || c == ')' || c == '"' || c == '<' || c == '>' || c == '\\' || c == '{'
        || c == '}'
}

/// Decides `has_forbidden_char`.
pub fn text_has_forbidden_char(chars: &Vec<char>) -> (b: bool)
    ensures
        b == has_forbidden_char(chars@),
{
    let mut i: usize = 0;
    while i < chars.len()
        invariant
            i <= chars.len(),
            forall|j: int| 0 <= j < i ==> !is_forbidden_in_name(#[trigger] chars@[j]),
        decreases chars.len() - i,
    {
        if char_is_forbidden_in_name(chars[i]) {
            return true;
        }
        i += 1;
    }
    false
}

/// Judges a name from its characters and the number of its grapheme
/// clusters.
pub fn check_name(chars: &Vec<char>, graphemes: usize) -> (r: Result<(), ValidationError>)
    ensures
        r == match name_fault(chars@, graphemes as nat) {
            Some(e) => Err::<(), ValidationError>(e),
            None => Ok(()),
        },
{
    if text_is_blank(chars) {
        Err(ValidationError::EmptyName)
    } else if graphemes > MAX_NAME_GRAPHEMES {
        Err(ValidationError::NameTooLong)
    } else if text_has_forbidden_char(chars) {
        Err(ValidationError::ForbiddenCharacter)
    } else {
        Ok(())
    }
}

/// Decides `domain_is_dotted` for the part of `chars` that follows position
/// `at`.
fn domain_has_inner_dot(chars: &Vec<char>, at: usize) -> (b: bool)
    requires
        at < chars@.len(),
    ensures
        b == domain_is_dotted(chars@.subrange(at + 1, chars@.len() as int)),
{
    let ghost d = chars@.subrange(at + 1, chars@.len() as int);
    let n: usize = chars.len();
    if n - at < 4 {
        return false;
    }
    match find_char(chars, '.', at + 2) {
        Some(k) => {
            if k < n - 1 {
                assert(d[k - at - 1] == '.');
                true
            } else {
                assert forall|j: int| 0 < j < d.len() - 1 implies d[j] != '.' by {
                    assert(d[j] == chars@[j + at + 1]);
                }
                false
            }
        },
        None => {
            assert forall|j: int| 0 < j < d.len() - 1 implies d[j] != '.' by {
                assert(d[j] == chars@[j + at + 1]);
            }
            false
        },
    }
}

/// Decides `email_is_well_formed`.
pub fn text_is_well_formed_email(chars: &Vec<char>) -> (b: bool)
    ensures
        b == email_is_well_formed(chars@),
{
    if text_has_whitespace(chars) {
        return false;
    }
    let n: usize = chars.len();
    match find_char(chars, '@', 0) {
        None => false,
        Some(at) => {
            if at == 0 {
                return false;
            }
            assert(at < n);
            if find_char(chars, '@', at + 1).is_some() {
                return false;
            }
            assert(splits_at(chars@, at as int));
            assert(forall|other: int| splits_at(chars@, other) ==> other == at);
            domain_has_inner_dot(chars, at)
        },
    }
}

/// Judges an e-mail address from its characters.
pub fn check_email(chars: &Vec<char>) -> (r: Result<(), ValidationError>)
    ensures
        r == match email_fault(chars@) {
            Some(e) => Err::<(), ValidationError>(e),
            None => Ok(()),
        },
{
    if text_is_blank(chars) {
        Err(ValidationError::EmptyEmail)
    } else if chars.len() > MAX_EMAIL_CHARS {
        Err(ValidationError::EmailTooLong)
    } else if !text_is_well_formed_email(chars) {
        Err(ValidationError::MalformedEmail)
    } else {
        Ok(())
    }
}

/// A display name that passed validation.
#[derive(Debug, PartialEq, Eq)]
pub struct SubscriberName {
    value: String,
}

impl View for SubscriberName {
    type V = Seq<char>;

    closed spec fn view(&self) -> Seq<char> {
        self.value@
    }
}

impl Clone for SubscriberName {
    fn clone(&self) -> (r: Self)
        ensures
            r@ == self@,
    {
        proof {
            use_type_invariant(self);
        }
        SubscriberName { value: self.value.clone() }
    }
}

impl AsRef<str> for SubscriberName {
    fn as_ref(&self) -> (s: &str)
        ensures
            s@ == self@,
    {
        self.value.as_str()
    }
}

impl SubscriberName {
    #[verifier::type_invariant]
    spec fn well_formed(&self) -> bool {
        name_is_valid(self.value@)
    }

    /// Accepts `s` as a name where it breaks no rule, and says which rule it
    /// breaks first where it does. The text is kept as it was given.
    pub fn parse(s: String) -> (r: Result<SubscriberName, ValidationError>)
        ensures
            match r {
                Ok(name) => name@ == s@ && name_is_valid(s@),
                Err(e) => name_fault(s@, grapheme_count(s@)) == Some(e),
            },
    {
        let chars = chars_of(s.as_str());
        let graphemes = count_graphemes(s.as_str());
        match check_name(&chars, graphemes) {
            Ok(()) => Ok(SubscriberName { value: s }),
            Err(e) => Err(e),
        }
    }

    /// The name as text; it is always a valid one.
    pub fn as_str(&self) -> (s: &str)
        ensures
            s@ == self@,
            name_is_valid(self@),
    {
        proof {
            use_type_invariant(self);
        }
        self.value.as_str()
    }
}

/// An e-mail address that passed validation.
#[derive(Debug, PartialEq, Eq)]
pub struct SubscriberEmail {
    value: String,
}

impl View for SubscriberEmail {
    type V = Seq<char>;

    closed spec fn view(&self) -> Seq<char> {
        self.value@
    }
}

impl Clone for SubscriberEmail {
    fn clone(&self) -> (r: Self)
        ensures
            r@ == self@,
    {
        proof {
            use_type_invariant(self);
        }
        SubscriberEmail { value: self.value.clone() }
    }
}

impl AsRef<str> for SubscriberEmail {
    fn as_ref(&self) -> (s: &str)
        ensures
            s@ == self@,
    {
        self.value.as_str()
    }
}

impl SubscriberEmail {
    #[verifier::type_invariant]
    spec fn well_formed(&self) -> bool {
        email_is_valid(self.value@)
    }

    /// Accepts `s` as an address where it breaks no rule, and says which rule
    /// it breaks first where it does. The text is kept as it was given.
    pub fn parse(s: String) -> (r: Result<SubscriberEmail, ValidationError>)
        ensures
            match r {
                Ok(email) => email@ == s@ && email_is_valid(s@),
                Err(e) => email_fault(s@) == Some(e),
            },
    {
        let chars = chars_of(s.as_str());
        match check_email(&chars) {
            Ok(()) => Ok(SubscriberEmail { value: s }),
            Err(e) => Err(e),
        }
    }

    /// The address as text; it is always a valid one.
    pub fn as_str(&self) -> (s: &str)
        ensures
            s@ == self@,
            email_is_valid(self@),
    {
        proof {
            use_type_invariant(self);
        }
        self.value.as_str()
    }
}

/// A name and an address that both passed validation.
#[derive(Debug, PartialEq, Eq)]
pub struct NewSubscriber {
    pub email: SubscriberEmail,
    pub name: SubscriberName,
}

impl Clone for NewSubscriber {
    fn clone(&self) -> (r: Self)
        ensures
            r.email@ == self.email@,
            r.name@ == self.name@,
    {
        NewSubscriber { email: self.email.clone(), name: self.name.clone() }
    }
}

/// What is wrong with a submission: a fault of the name comes before one of
/// the address.
pub open spec fn submission_fault(name: Seq<char>, email: Seq<char>) -> Option<ValidationError> {
    match name_fault(name, grapheme_count(name)) {
        Some(e) => Some(e),
        None => email_fault(email),
    }
}

/// Validates a submitted name and address. Both are judged as given, the
/// name first; nothing is trimmed or rewritten.
pub fn validate(name: &str, email: &str) -> (r: Result<NewSubscriber, ValidationError>)
    ensures
        match r {
            Ok(subscriber) => {
                &&& submission_fault(name@, email@) is None
                &&& subscriber.name@ == name@
                &&& subscriber.email@ == email@
            },
            Err(e) => submission_fault(name@, email@) == Some(e),
        },
{
    match SubscriberName::parse(String::from_str(name)) {
        Err(e) => Err(e),
        Ok(valid_name) => match SubscriberEmail::parse(String::from_str(email)) {
            Err(e) => Err(e),
            Ok(valid_email) => Ok(NewSubscriber { email: valid_email, name: valid_name }),
        },
    }
}

impl ValidationError {
    /// The reason in words, fit to show to the client.
    pub fn reason(&self) -> (s: &'static str)
        ensures
            s@ == reason_text(*self),
    {
        match self {
            ValidationError::EmptyName => "the name is empty",
            ValidationError::NameTooLong => "the name is too long",
            ValidationError::ForbiddenCharacter => "the name holds a forbidden character",
            ValidationError::EmptyEmail => "the e-mail address is empty",
            ValidationError::EmailTooLong => "the e-mail address is too long",
            ValidationError::MalformedEmail => "the e-mail address is malformed",
        }
    }
}

/// The words that `ValidationError::reason` gives for each fault.
pub open spec fn reason_text(e: ValidationError) -> Seq<char> {
    match e {
        ValidationError::EmptyName => "the name is empty"@,
        ValidationError::NameTooLong => "the name is too long"@,
        ValidationError::ForbiddenCharacter => "the name holds a forbidden character"@,
        ValidationError::EmptyEmail => "the e-mail address is empty"@,
        ValidationError::EmailTooLong => "the e-mail address is too long"@,
        ValidationError::MalformedEmail => "the e-mail address is malformed"@,
    }
}

} // verus!
