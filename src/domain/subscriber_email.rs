//! Email addresses, validated by a standard grammar check.

use vstd::prelude::*;

verus! {

/// Whether `s` is an email address by the grammar of the `validator` crate.
pub uninterp spec fn email_grammar_accepts(s: Seq<char>) -> bool;

pub open spec fn invalid_email_message(s: Seq<char>) -> Seq<char> {
    s + " is not valid email!"@
}

/// Relies on `validator::validate_email`: a verdict on the text alone, which is false
/// for the empty string and for any text without an `@`.
#[verifier::external_body]
fn validate_email(s: &str) -> (r: bool)
    ensures
        r == email_grammar_accepts(s@),
        s@.len() == 0 ==> !r,
        !s@.contains('@') ==> !r,
{
    validator::validate_email(s)
}

/// A validated email address.
#[derive(Debug)]
pub struct SubscriberEmail(String);

impl View for SubscriberEmail {
    type V = Seq<char>;

    closed spec fn view(&self) -> Seq<char> {
        self.0@
    }
}

impl SubscriberEmail {
    #[verifier::type_invariant]
    spec fn inv(&self) -> bool {
        email_grammar_accepts(self.0@)
    }

    /// Validates `email`, keeping its text exactly as given.
    pub fn parse(email: String) -> (r: Result<SubscriberEmail, String>)
        ensures
            r is Ok <==> email_grammar_accepts(email@),
            email@.len() == 0 ==> r is Err,
            !email@.contains('@') ==> r is Err,
            r matches Ok(e) ==> e@ == email@,
            r matches Err(m) ==> m@ == invalid_email_message(email@),
    {
        if validate_email(email.as_str()) {
            Ok(SubscriberEmail(email))
        } else {
            let mut message = email.clone();
            message.append(" is not valid email!");
            Err(message)
        }
    }

    /// The address's text.
    pub fn as_str(&self) -> (r: &str)
        ensures
            r@ == self@,
            email_grammar_accepts(r@),
    {
        proof {
            use_type_invariant(self);
        }
        self.0.as_str()
    }

    pub fn clone_email(&self) -> (r: SubscriberEmail)
        ensures
            r@ == self@,
    {
        proof {
            use_type_invariant(self);
        }
        SubscriberEmail(self.0.clone())
    }
}

impl AsRef<str> for SubscriberEmail {
    fn as_ref(&self) -> &str {
        self.0.as_str()
    }
}

} // verus!
