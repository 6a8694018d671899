//! The address a subscriber signs up with.

use vstd::prelude::*;
use vstd::string::*;

verus! {

/// Whether `s` is an e-mail address by the HTML5 mailbox grammar that the
/// `validator` crate implements.
pub uninterp spec fn email_grammar_accepts(s: Seq<char>) -> bool;

/// What a caller is told when `s` is refused as an address.
pub open spec fn email_rejection(s: Seq<char>) -> Seq<char> {
    s + " is not a valid subscriber email."@
}

/// Calls `validator::validate_email`.
///
/// Trusted: the answer is a function of the text alone and is named
/// [`email_grammar_accepts`]. The function turns down, before anything else,
/// every text without an `@`.
#[verifier::external_body]
fn check_email_grammar(s: &str) -> (accepted: bool)
    ensures
        accepted == email_grammar_accepts(s@),
        accepted ==> s@.contains('@'),
{
    validator::validate_email(s)
}

/// Turns the answer of the grammar check on `s` into the outcome of parsing
/// it: the text itself when it was accepted, the rejection message otherwise.
pub fn email_verdict(s: String, accepted: bool) -> (verdict: Result<String, String>)
    ensures
        verdict is Ok <==> accepted,
        verdict matches Ok(text) ==> text@ == s@,
        verdict matches Err(message) ==> message@ == email_rejection(s@),
{
    if accepted {
        Ok(s)
    } else {
        Err(s.concat(" is not a valid subscriber email."))
    }
}

/// A validated subscriber address. The only way to obtain one is
/// [`SubscriberEmail::parse`], so every value passed the grammar check.
#[derive(Debug)]
pub struct SubscriberEmail(String);

impl View for SubscriberEmail {
    type V = Seq<char>;

    closed spec fn view(&self) -> Seq<char> {
        self.0@
    }
}

impl SubscriberEmail {
    #[verifier::type_invariant]
    spec fn passed_grammar(self) -> bool {
        email_grammar_accepts(self.0@) && self.0@.contains('@')
    }

    /// Accepts `s` as an address exactly when the mailbox grammar does; the
    /// accepted address is `s` itself, character for character. A text
    /// without an `@` is never accepted.
    pub fn parse(s: String) -> (parsed: Result<SubscriberEmail, String>)
        ensures
            parsed is Ok <==> email_grammar_accepts(s@),
            parsed is Ok ==> s@.contains('@'),
            parsed matches Ok(email) ==> email@ == s@,
            parsed matches Err(message) ==> message@ == email_rejection(s@),
    {
        let accepted = check_email_grammar(s.as_str());
        match email_verdict(s, accepted) {
            Ok(text) => Ok(Self(text)),
            Err(message) => Err(message),
        }
    }

    /// The address as text, together with the fact that it passed the check.
    pub fn as_str(&self) -> (text: &str)
        ensures
            text@ == self@,
            email_grammar_accepts(text@),
            text@.contains('@'),
    {
        proof {
            use_type_invariant(self);
        }
        self.0.as_str()
    }
}

impl Clone for SubscriberEmail {
    fn clone(&self) -> (copy: SubscriberEmail)
        ensures
            copy@ == self@,
    {
        proof {
            use_type_invariant(self);
        }
        SubscriberEmail(self.0.clone())
    }
}

impl AsRef<str> for SubscriberEmail {
    fn as_ref(&self) -> (text: &str)
        ensures
            text@ == self@,
    {
        self.0.as_str()
    }
}

} // verus!
