//! Typed, randomly generated string identifiers.
//!
//! An [`Id`] wraps a plain string and carries a phantom marker type, so that a
//! session identifier can never be confused with a participant identifier.
//! Fresh identifiers are drawn from `tiny_id`'s short-code generator.

use vstd::prelude::*;

verus! {

use core::marker::PhantomData;

/// Marker type for session identifiers.
#[derive(Debug)]
pub struct SessionMarker;

/// Marker type for participant identifiers.
#[derive(Debug)]
pub struct ParticipantMarker;

/// Marker type for story identifiers.
#[derive(Debug)]
pub struct StoryMarker;

/// Marker type for vote identifiers.
#[derive(Debug)]
pub struct VoteMarker;

/// A typed wrapper around a string identifier. The marker type `T` keeps
/// identifiers of different entities apart at compile time.
#[derive(Debug)]
#[verifier::reject_recursive_types(T)]
pub struct Id<T> {
    value: String,
    _phantom: PhantomData<T>,
}

/// Identifier of a session.
pub type SessionId = Id<SessionMarker>;

/// Identifier of a participant.
pub type ParticipantId = Id<ParticipantMarker>;

/// Identifier of a story.
pub type StoryId = Id<StoryMarker>;

/// Identifier of a vote.
pub type VoteId = Id<VoteMarker>;

impl<T> View for Id<T> {
    type V = Seq<char>;

    closed spec fn view(&self) -> Seq<char> {
        self.value@
    }
}

impl<T> Clone for Id<T> {
    fn clone(&self) -> (res: Self)
        ensures
            res == *self,
    {
        Id { value: self.value.clone(), _phantom: PhantomData }
    }
}

impl<T> PartialEq for Id<T> {
    fn eq(&self, other: &Self) -> bool {
        self.value == other.value
    }
}

impl<T> vstd::std_specs::cmp::PartialEqSpecImpl for Id<T> {
    open spec fn obeys_eq_spec() -> bool {
        true
    }

    open spec fn eq_spec(&self, other: &Self) -> bool {
        self@ == other@
    }
}

impl<T> From<String> for Id<T> {
    fn from(value: String) -> (res: Self) {
        Id { value, _phantom: PhantomData }
    }
}

impl<T> vstd::std_specs::convert::FromSpecImpl<String> for Id<T> {
    open spec fn obeys_from_spec() -> bool {
        true
    }

    closed spec fn from_spec(value: String) -> Self {
        Id { value, _phantom: PhantomData }
    }
}

impl<'a, T> From<&'a str> for Id<T> {
    fn from(value: &'a str) -> (res: Self) {
        Id { value: value.to_owned(), _phantom: PhantomData }
    }
}

impl<'a, T> vstd::std_specs::convert::FromSpecImpl<&'a str> for Id<T> {
    open spec fn obeys_from_spec() -> bool {
        false
    }

    closed spec fn from_spec(value: &'a str) -> Self {
        choose|id: Self| id@ == value@
    }
}

/// The alphabet used for general-purpose identifiers.
pub open spec fn default_id_alphabet() -> Seq<char> {
    "ABCDEFGHIJKLMNOPQRSTUVWXYZabcdefghijklmnopqrstuvwxyz0123456789"@
}

/// The alphabet used for session identifiers: alphanumeric with the easily
/// confused characters `0`, `O`, `I` and `l` left out.
pub open spec fn session_id_alphabet() -> Seq<char> {
    "123456789ABCDEFGHJKMNPQRSTUVWXYZabcdefghkmnpqrstuvwxyz"@
}

#[verifier::external_type_specification]
#[verifier::external_body]
#[verifier::reject_recursive_types(T)]
pub struct ExShortCodeGenerator<T: Copy>(tiny_id::ShortCodeGenerator<T>);

/// The alphabet a short-code generator draws its symbols from.
pub uninterp spec fn generator_alphabet(g: tiny_id::ShortCodeGenerator<char>) -> Seq<char>;

/// The number of symbols in the next code the generator will produce.
pub uninterp spec fn generator_next_len(g: tiny_id::ShortCodeGenerator<char>) -> nat;

/// Relies on `tiny_id::ShortCodeGenerator::with_alphabet`: builds a freshly
/// seeded generator whose next code has `length` symbols, all drawn from
/// `alphabet`.
#[verifier::external_body]
fn make_generator(alphabet: &str, length: usize) -> (g: tiny_id::ShortCodeGenerator<char>)
    requires
        2 <= alphabet@.len() <= 64,
        1 <= length <= 8,
    ensures
        generator_alphabet(g) == alphabet@,
        generator_next_len(g) == length as nat,
{
    tiny_id::ShortCodeGenerator::with_alphabet(alphabet.chars().collect(), length)
}

/// Relies on `tiny_id::ShortCodeGenerator::next_string`: returns the next
/// code, whose symbols all come from the generator's alphabet.
#[verifier::external_body]
fn next_code(g: &mut tiny_id::ShortCodeGenerator<char>) -> (r: String)
    ensures
        r@.len() == generator_next_len(*old(g)),
        forall|i: int| 0 <= i < r@.len() ==> generator_alphabet(*old(g)).contains(r@[i]),
{
    g.next_string()
}

impl<T> Id<T> {
    /// Wraps an existing string value as an identifier.
    pub fn from_string(value: String) -> (res: Self)
        ensures
            res@ == value@,
    {
        Id { value, _phantom: PhantomData }
    }

    /// Generates a fresh random identifier of 8 characters drawn from
    /// [`default_id_alphabet`].
    pub fn generate() -> (res: Self)
        ensures
            res@.len() == 8,
            forall|i: int| 0 <= i < res@.len() ==> default_id_alphabet().contains(res@[i]),
    {
        proof {
            reveal_strlit("ABCDEFGHIJKLMNOPQRSTUVWXYZabcdefghijklmnopqrstuvwxyz0123456789");
        }
        let mut g = make_generator(
            "ABCDEFGHIJKLMNOPQRSTUVWXYZabcdefghijklmnopqrstuvwxyz0123456789",
            8,
        );
        let value = next_code(&mut g);
        Id { value, _phantom: PhantomData }
    }

    /// Returns the identifier's string value.
    pub fn as_str(&self) -> (res: &str)
        ensures
            res@ == self@,
    {
        self.value.as_str()
    }

    /// Consumes the identifier and returns the inner string.
    pub fn into_string(self) -> (res: String)
        ensures
            res@ == self@,
    {
        self.value
    }
}

impl Id<SessionMarker> {
    /// Generates a fresh 8-character session identifier drawn from
    /// [`session_id_alphabet`], which avoids easily confused characters.
    pub fn new() -> (res: Self)
        ensures
            res@.len() == 8,
            forall|i: int| 0 <= i < res@.len() ==> session_id_alphabet().contains(res@[i]),
    {
        proof {
            reveal_strlit("123456789ABCDEFGHJKMNPQRSTUVWXYZabcdefghkmnpqrstuvwxyz");
        }
        let mut g = make_generator("123456789ABCDEFGHJKMNPQRSTUVWXYZabcdefghkmnpqrstuvwxyz", 8);
        let value = next_code(&mut g);
        Id { value, _phantom: PhantomData }
    }
}

impl Id<ParticipantMarker> {
    /// Generates a fresh 6-character participant identifier.
    pub fn new() -> (res: Self)
        ensures
            res@.len() == 6,
            forall|i: int| 0 <= i < res@.len() ==> default_id_alphabet().contains(res@[i]),
    {
        proof {
            reveal_strlit("ABCDEFGHIJKLMNOPQRSTUVWXYZabcdefghijklmnopqrstuvwxyz0123456789");
        }
        let mut g = make_generator(
            "ABCDEFGHIJKLMNOPQRSTUVWXYZabcdefghijklmnopqrstuvwxyz0123456789",
            6,
        );
        let value = next_code(&mut g);
        Id { value, _phantom: PhantomData }
    }
}

impl Id<StoryMarker> {
    /// Generates a fresh 6-character story identifier.
    pub fn new() -> (res: Self)
        ensures
            res@.len() == 6,
            forall|i: int| 0 <= i < res@.len() ==> default_id_alphabet().contains(res@[i]),
    {
        proof {
            reveal_strlit("ABCDEFGHIJKLMNOPQRSTUVWXYZabcdefghijklmnopqrstuvwxyz0123456789");
        }
        let mut g = make_generator(
            "ABCDEFGHIJKLMNOPQRSTUVWXYZabcdefghijklmnopqrstuvwxyz0123456789",
            6,
        );
        let value = next_code(&mut g);
        Id { value, _phantom: PhantomData }
    }
}

impl Id<VoteMarker> {
    /// Generates a fresh 8-character vote identifier.
    pub fn new() -> (res: Self)
        ensures
            res@.len() == 8,
            forall|i: int| 0 <= i < res@.len() ==> default_id_alphabet().contains(res@[i]),
    {
        proof {
            reveal_strlit("ABCDEFGHIJKLMNOPQRSTUVWXYZabcdefghijklmnopqrstuvwxyz0123456789");
        }
        let mut g = make_generator(
            "ABCDEFGHIJKLMNOPQRSTUVWXYZabcdefghijklmnopqrstuvwxyz0123456789",
            8,
        );
        let value = next_code(&mut g);
        Id { value, _phantom: PhantomData }
    }
}

} // verus!
