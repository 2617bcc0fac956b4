use vstd::prelude::*;
use vstd::string::StringExecFns;
use crate::domain::payment_category::{is_valid_name, valid_name};

verus! {

/// The name of the merchant a payment went to or came from.
#[derive(Debug)]
pub struct PaymentMerchant(String);

impl View for PaymentMerchant {
    type V = Seq<char>;

    closed spec fn view(&self) -> Seq<char> {
        self.0@
    }
}

impl PaymentMerchant {
    #[verifier::type_invariant]
    spec fn well_formed(&self) -> bool {
        valid_name(self.0@)
    }

    /// Accepts exactly the valid names, unchanged.
    pub fn parse(merchant_name: String) -> (r: Result<Self, String>)
        ensures
            r is Ok <==> valid_name(merchant_name@),
            r is Ok ==> r->Ok_0@ == merchant_name@,
            r is Err ==> r->Err_0@ == merchant_name@ + " is not a valid merchant name."@,
    {
        if is_valid_name(merchant_name.as_str()) {
            Ok(Self(merchant_name))
        } else {
            Err(merchant_name.concat(" is not a valid merchant name."))
        }
    }

    /// The validated name.
    pub fn as_ref(&self) -> (r: &str)
        ensures
            r@ == self@,
            valid_name(r@),
    {
        proof {
            use_type_invariant(self);
        }
        self.0.as_str()
    }
}

} // verus!
