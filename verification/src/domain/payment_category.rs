use vstd::prelude::*;
use vstd::string::StringExecFns;
use crate::text::{
    contains_forbidden_name_char, count_graphemes, grapheme_count, has_forbidden_name_char,
    is_blank, trim,
};

verus! {

/// The longest name accepted, in grapheme clusters.
pub const MAX_NAME_GRAPHEMES: usize = 256;

/// The rule shared by category, merchant and wallet names: not blank, at most
/// 256 grapheme clusters, and none of the characters `/ ( ) " < > \ { }`.
pub open spec fn valid_name(s: Seq<char>) -> bool {
    !is_blank(s) && grapheme_count(s) <= MAX_NAME_GRAPHEMES && !has_forbidden_name_char(s)
}

/// Decides `valid_name`.
pub fn is_valid_name(s: &str) -> (r: bool)
    ensures
        r == valid_name(s@),
{
    let is_empty_or_whitespace = trim(s).is_empty();
    let is_too_long = count_graphemes(s) > MAX_NAME_GRAPHEMES;
    let contains_forbidden_characters = contains_forbidden_name_char(s);
    !(is_empty_or_whitespace || is_too_long || contains_forbidden_characters)
}

/// The name of a payment category.
#[derive(Debug)]
pub struct PaymentCategory(String);

impl View for PaymentCategory {
    type V = Seq<char>;

    closed spec fn view(&self) -> Seq<char> {
        self.0@
    }
}

impl PaymentCategory {
    #[verifier::type_invariant]
    spec fn well_formed(&self) -> bool {
        valid_name(self.0@)
    }

    /// Accepts exactly the valid names, unchanged.
    pub fn parse(s: String) -> (r: Result<PaymentCategory, String>)
        ensures
            r is Ok <==> valid_name(s@),
            r is Ok ==> r->Ok_0@ == s@,
            r is Err ==> r->Err_0@ == s@ + " is not a valid category."@,
    {
        if is_valid_name(s.as_str()) {
            Ok(Self(s))
        } else {
            Err(s.concat(" is not a valid category."))
        }
    }

    /// The validated name.
    pub fn as_ref(&self) -> (r: &str)
        ensures
            r@ == self@,
            valid_name(r@),
    {
        proof {
            use_type_invariant(self);
        }
        self.0.as_str()
    }
}

} // verus!
