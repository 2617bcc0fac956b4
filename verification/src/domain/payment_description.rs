use vstd::prelude::*;
use vstd::utf8::encode_utf8;

verus! {

/// The longest description accepted, in bytes of its UTF-8 encoding.
pub const MAX_DESCRIPTION_BYTES: usize = 255;

/// A payment description: not empty and at most 255 bytes long.
#[derive(Debug)]
pub struct PaymentDescription(String);

/// What `PaymentDescription::parse` accepts.
pub open spec fn valid_description(s: Seq<char>) -> bool {
    s.len() > 0 && encode_utf8(s).len() <= MAX_DESCRIPTION_BYTES
}

impl View for PaymentDescription {
    type V = Seq<char>;

    closed spec fn view(&self) -> Seq<char> {
        self.0@
    }
}

impl PaymentDescription {
    #[verifier::type_invariant]
    spec fn well_formed(&self) -> bool {
        valid_description(self.0@)
    }

    /// Accepts a text that is not empty and at most 255 bytes long.
    pub fn parse(description: String) -> (r: Result<Self, String>)
        ensures
            r is Ok <==> valid_description(description@),
            r is Ok ==> r->Ok_0@ == description@,
            description@.len() == 0 ==> r is Err && r->Err_0@
                == "Payment description cannot be empty"@,
            description@.len() > 0 && !valid_description(description@) ==> r is Err && r->Err_0@
                == "Payment description is too long"@,
    {
        if description.as_str().is_empty() {
            Err("Payment description cannot be empty".to_string())
        } else if description.as_str().as_bytes().len() > MAX_DESCRIPTION_BYTES {
            Err("Payment description is too long".to_string())
        } else {
            Ok(PaymentDescription(description))
        }
    }

    /// The validated text.
    pub fn as_ref(&self) -> (r: &str)
        ensures
            r@ == self@,
            valid_description(r@),
    {
        proof {
            use_type_invariant(self);
        }
        self.0.as_str()
    }
}

} // verus!
