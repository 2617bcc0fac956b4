use vstd::prelude::*;
use crate::domain::payment_category::{valid_name, MAX_NAME_GRAPHEMES};
use crate::text::{
    contains_forbidden_name_char, count_graphemes, grapheme_count, has_forbidden_name_char,
    is_blank, trim,
};

verus! {

/// A named account that payments can be attributed to.
#[derive(Debug)]
pub struct Wallet {
    pub id: Option<u128>,
    pub name: WalletName,
}

/// The name of a wallet.
#[derive(Debug)]
pub struct WalletName(String);

impl View for WalletName {
    type V = Seq<char>;

    closed spec fn view(&self) -> Seq<char> {
        self.0@
    }
}

impl Clone for WalletName {
    fn clone(&self) -> (r: Self)
        ensures
            r@ == self@,
    {
        proof {
            use_type_invariant(self);
        }
        WalletName(self.0.clone())
    }
}

impl Clone for Wallet {
    fn clone(&self) -> (r: Self)
        ensures
            r.id == self.id,
            r.name@ == self.name@,
    {
        Wallet { id: self.id, name: self.name.clone() }
    }
}

impl WalletName {
    #[verifier::type_invariant]
    spec fn well_formed(&self) -> bool {
        valid_name(self.0@)
    }

    /// Accepts exactly the valid names, unchanged. The checks are made in the
    /// order blank, length, characters, and the first that fails names the
    /// error.
    pub fn parse(s: String) -> (r: Result<WalletName, String>)
        ensures
            r is Ok <==> valid_name(s@),
            r is Ok ==> r->Ok_0@ == s@,
            is_blank(s@) ==> r is Err && r->Err_0@ == "Wallet name cannot be empty"@,
            !is_blank(s@) && grapheme_count(s@) > MAX_NAME_GRAPHEMES ==> r is Err && r->Err_0@
                == "Wallet name is too long"@,
            !is_blank(s@) && grapheme_count(s@) <= MAX_NAME_GRAPHEMES && has_forbidden_name_char(
                s@,
            ) ==> r is Err && r->Err_0@ == "Wallet name contains forbidden characters"@,
    {
        let is_empty_or_whitespace = trim(s.as_str()).is_empty();
        let is_too_long = count_graphemes(s.as_str()) > MAX_NAME_GRAPHEMES;
        if is_empty_or_whitespace {
            Err("Wallet name cannot be empty".to_string())
        } else if is_too_long {
            Err("Wallet name is too long".to_string())
        } else if contains_forbidden_name_char(s.as_str()) {
            Err("Wallet name contains forbidden characters".to_string())
        } else {
            Ok(Self(s))
        }
    }

    /// The validated name.
    pub fn as_ref(&self) -> (r: &str)
        ensures
            r@ == self@,
            valid_name(r@),
    {
        proof {
            use_type_invariant(self);
        }
        self.0.as_str()
    }

    /// The name as an owned text.
    pub fn to_string(&self) -> (r: String)
        ensures
            r@ == self@,
    {
        self.0.clone()
    }
}

} // verus!
