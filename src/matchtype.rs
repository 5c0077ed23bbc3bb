//! The type descriptor: what a match reports, and how it is tested.
use vstd::prelude::*;

use crate::map::{format_matches, Format, MatcherType};

verus! {

/// How a descriptor tests a buffer.
#[derive(Debug, Clone, Copy, PartialEq, Eq, Structural)]
pub enum Predicate {
    /// One of the built-in format signatures.
    Builtin(Format),
    /// The custom matcher at this position of the `Infer` that registered it.
    Custom(usize),
}

/// Generic information for a type: its category, media type and extension, how it is matched,
/// and how many bytes its streaming test reads (absent when it cannot be matched from a
/// reader).
#[derive(Debug, Clone, Copy)]
pub struct Type {
    pub matcher_type: MatcherType,
    pub mime_type: &'static str,
    pub extension: &'static str,
    pub matcher: Predicate,
    pub read_size: Option<usize>,
}

/// Two strings hold the same characters.
pub fn str_eq(a: &str, b: &str) -> (r: bool)
    ensures
        r == (a@ == b@),
{
    let x = a.as_bytes();
    let y = b.as_bytes();
    proof {
        vstd::utf8::encode_utf8_decode_utf8(a@);
        vstd::utf8::encode_utf8_decode_utf8(b@);
        assert(x@ == vstd::utf8::encode_utf8(a@));
        assert(y@ == vstd::utf8::encode_utf8(b@));
        assert(x@ == y@ ==> a@ == b@);
    }
    if x.len() != y.len() {
        return false;
    }
    let mut i: usize = 0;
    while i < x.len()
        invariant
            x@ == vstd::utf8::encode_utf8(a@),
            y@ == vstd::utf8::encode_utf8(b@),
            x@ == y@ ==> a@ == b@,
            x@.len() == y@.len(),
            0 <= i <= x@.len(),
            forall|j: int| 0 <= j < i ==> x@[j] == y@[j],
        decreases x@.len() - i,
    {
        if x[i] != y[i] {
            return false;
        }
        i += 1;
    }
    assert(x@ =~= y@);
    true
}

impl Type {
    /// Returns a new `Type` matched by the built-in signature `format`.
    pub fn new(
        matcher_type: MatcherType,
        mime_type: &'static str,
        extension: &'static str,
        format: Format,
        read_size: Option<usize>,
    ) -> (t: Type)
        ensures
            t == (Type {
                matcher_type,
                mime_type,
                extension,
                matcher: Predicate::Builtin(format),
                read_size,
            }),
    {
        Type { matcher_type, mime_type, extension, matcher: Predicate::Builtin(format), read_size }
    }

    /// Returns the type of matcher
    pub fn matcher_type(&self) -> (r: MatcherType)
        ensures
            r == self.matcher_type,
    {
        self.matcher_type
    }

    /// Returns the mime type
    pub fn mime_type(&self) -> (r: &'static str)
        ensures
            r == self.mime_type,
    {
        self.mime_type
    }

    /// Returns the file extension
    pub fn extension(&self) -> (r: &'static str)
        ensures
            r == self.extension,
    {
        self.extension
    }

    /// Whether `buf` passes this type's built-in signature; always false for a custom type,
    /// whose matcher only the `Infer` that registered it holds.
    pub fn matches(&self, buf: &[u8]) -> (r: bool)
        ensures
            r == match self.matcher {
                Predicate::Builtin(f) => format_matches(f, buf@),
                Predicate::Custom(_) => false,
            },
    {
        match self.matcher {
            Predicate::Builtin(f) => f.matches(buf),
            Predicate::Custom(_) => false,
        }
    }

    /// Returns how many bytes the streaming test reads, 0 when there is none.
    pub fn read_size(&self) -> (r: usize)
        ensures
            r == match self.read_size {
                Some(n) => n,
                None => 0,
            },
    {
        match self.read_size {
            Some(n) => n,
            None => 0,
        }
    }

    /// Returns whether the type supports matching by Read.
    pub fn supports_read_match(&self) -> (r: bool)
        ensures
            r == self.read_size is Some,
    {
        self.read_size.is_some()
    }
}

/// Types are equal when their category, media type and extension are; how they match is not
/// part of it.
pub open spec fn same_type(a: Type, b: Type) -> bool {
    a.matcher_type == b.matcher_type && a.mime_type@ == b.mime_type@ && a.extension@
        == b.extension@
}

impl PartialEq for Type {
    fn eq(&self, other: &Self) -> (r: bool)
        ensures
            r == same_type(*self, *other),
    {
        self.matcher_type == other.matcher_type && str_eq(self.mime_type, other.mime_type)
            && str_eq(self.extension, other.extension)
    }
}

impl vstd::std_specs::cmp::PartialEqSpecImpl for Type {
    open spec fn obeys_eq_spec() -> bool {
        true
    }

    open spec fn eq_spec(&self, other: &Type) -> bool {
        same_type(*self, *other)
    }
}

} // verus!
