use vstd::prelude::*;
use vstd::string::StringExecFns;
use crate::text::{
    contains_forbidden_icon_char, count_graphemes, grapheme_count, has_forbidden_icon_char,
    is_blank, trim, trimmed,
};

verus! {

/// The longest icon accepted, in grapheme clusters.
pub const MAX_ICON_GRAPHEMES: usize = 64;

/// What an icon must be once trimmed: not empty, at most 64 grapheme clusters,
/// and none of the characters `< > { }` or NUL.
pub open spec fn valid_icon(s: Seq<char>) -> bool {
    s.len() > 0 && grapheme_count(s) <= MAX_ICON_GRAPHEMES && !has_forbidden_icon_char(s)
}

/// The icon shown next to a category.
#[derive(Debug)]
pub struct PaymentCategoryIcon(String);

impl View for PaymentCategoryIcon {
    type V = Seq<char>;

    closed spec fn view(&self) -> Seq<char> {
        self.0@
    }
}

impl Clone for PaymentCategoryIcon {
    fn clone(&self) -> (r: Self)
        ensures
            r@ == self@,
    {
        proof {
            use_type_invariant(self);
        }
        PaymentCategoryIcon(self.0.clone())
    }
}

impl PaymentCategoryIcon {
    #[verifier::type_invariant]
    spec fn well_formed(&self) -> bool {
        valid_icon(self.0@)
    }

    /// Trims the text and accepts it when what is left is a valid icon. The
    /// checks are made in the order blank, length, characters, and the first
    /// that fails names the error.
    pub fn parse(s: String) -> (r: Result<PaymentCategoryIcon, String>)
        ensures
            r is Ok <==> valid_icon(trimmed(s@)),
            r is Ok ==> r->Ok_0@ == trimmed(s@),
            is_blank(s@) ==> r is Err && r->Err_0@ == "Icon cannot be empty"@,
            !is_blank(s@) && grapheme_count(trimmed(s@)) > MAX_ICON_GRAPHEMES ==> r is Err
                && r->Err_0@ == "Icon '"@ + trimmed(s@) + "' is too long"@,
            !is_blank(s@) && grapheme_count(trimmed(s@)) <= MAX_ICON_GRAPHEMES
                && has_forbidden_icon_char(trimmed(s@)) ==> r is Err && r->Err_0@ == "Icon '"@
                + trimmed(s@) + "' contains forbidden characters"@,
    {
        let kept = trim(s.as_str());
        if kept.is_empty() {
            return Err("Icon cannot be empty".to_string());
        }
        if count_graphemes(kept) > MAX_ICON_GRAPHEMES {
            return Err("Icon '".to_string().concat(kept).concat("' is too long"));
        }
        if contains_forbidden_icon_char(kept) {
            return Err(
                "Icon '".to_string().concat(kept).concat("' contains forbidden characters"),
            );
        }
        Ok(Self(kept.to_string()))
    }

    /// The validated icon.
    pub fn as_ref(&self) -> (r: &str)
        ensures
            r@ == self@,
            valid_icon(r@),
    {
        proof {
            use_type_invariant(self);
        }
        self.0.as_str()
    }
}

} // verus!
