use vstd::prelude::*;
use crate::text::{is_blank, trim};

verus! {

/// A key/value annotation of one payment.
#[derive(Debug)]
pub struct Tag {
    pub id: Option<u128>,
    pub key: TagKey,
    pub value: TagValue,
}

/// The key of a tag: any text that is not blank.
#[derive(Debug)]
pub struct TagKey(String);

/// The value of a tag: any text that is not blank.
#[derive(Debug)]
pub struct TagValue(String);

impl View for TagKey {
    type V = Seq<char>;

    closed spec fn view(&self) -> Seq<char> {
        self.0@
    }
}

impl View for TagValue {
    type V = Seq<char>;

    closed spec fn view(&self) -> Seq<char> {
        self.0@
    }
}

impl Clone for TagKey {
    fn clone(&self) -> (r: Self)
        ensures
            r@ == self@,
    {
        proof {
            use_type_invariant(self);
        }
        TagKey(self.0.clone())
    }
}

impl Clone for TagValue {
    fn clone(&self) -> (r: Self)
        ensures
            r@ == self@,
    {
        proof {
            use_type_invariant(self);
        }
        TagValue(self.0.clone())
    }
}

impl Clone for Tag {
    fn clone(&self) -> (r: Self)
        ensures
            r.id == self.id,
            r.key@ == self.key@,
            r.value@ == self.value@,
    {
        Tag { id: self.id, key: self.key.clone(), value: self.value.clone() }
    }
}

impl TagKey {
    #[verifier::type_invariant]
    spec fn well_formed(&self) -> bool {
        !is_blank(self.0@)
    }

    /// Accepts any text that is not blank, unchanged.
    pub fn parse(s: String) -> (r: Result<TagKey, String>)
        ensures
            r is Ok <==> !is_blank(s@),
            r is Ok ==> r->Ok_0@ == s@,
            r is Err ==> r->Err_0@ == "Tag key cannot be empty"@,
    {
        let is_empty_or_whitespace = trim(s.as_str()).is_empty();
        if is_empty_or_whitespace {
            Err("Tag key cannot be empty".to_string())
        } else {
            Ok(Self(s))
        }
    }

    /// The validated key.
    pub fn as_ref(&self) -> (r: &str)
        ensures
            r@ == self@,
            !is_blank(r@),
    {
        proof {
            use_type_invariant(self);
        }
        self.0.as_str()
    }
}

impl TagValue {
    #[verifier::type_invariant]
    spec fn well_formed(&self) -> bool {
        !is_blank(self.0@)
    }

    /// Accepts any text that is not blank, unchanged.
    pub fn parse(s: String) -> (r: Result<TagValue, String>)
        ensures
            r is Ok <==> !is_blank(s@),
            r is Ok ==> r->Ok_0@ == s@,
            r is Err ==> r->Err_0@ == "Tag value cannot be empty"@,
    {
        let is_empty_or_whitespace = trim(s.as_str()).is_empty();
        if is_empty_or_whitespace {
            Err("Tag value cannot be empty".to_string())
        } else {
            Ok(Self(s))
        }
    }

    /// The validated value.
    pub fn as_ref(&self) -> (r: &str)
        ensures
            r@ == self@,
            !is_blank(r@),
    {
        proof {
            use_type_invariant(self);
        }
        self.0.as_str()
    }
}

} // verus!
