//! A request to join the newsletter whose fields have been validated.

use crate::domain::subscriber_email::{email_grammar_accepts, email_rejection, SubscriberEmail};
use crate::domain::subscriber_name::{is_valid_name, name_rejection, SubscriberName};
use crate::routes::subscriptions::{FormData, FormText};
use crate::text::trimmed;
use vstd::prelude::*;
use vstd::std_specs::convert::TryFromSpecImpl;

verus! {

/// A form is valid when its name obeys the name rules and its address passes
/// the grammar check.
pub open spec fn is_valid_form(name: Seq<char>, email: Seq<char>) -> bool {
    is_valid_name(name) && email_grammar_accepts(email)
}

/// What a caller is told about an invalid form: the name is reported first.
pub open spec fn form_rejection(name: Seq<char>, email: Seq<char>) -> Seq<char> {
    if !is_valid_name(name) {
        name_rejection(name)
    } else {
        email_rejection(email)
    }
}

/// What a valid form is kept as: the address as it was given, the name
/// trimmed.
pub open spec fn accepted_form(form: FormText) -> FormText {
    FormText { email: form.email, name: trimmed(form.name) }
}

#[derive(Debug)]
pub struct NewSubscriber {
    pub email: SubscriberEmail,
    pub name: SubscriberName,
}

impl View for NewSubscriber {
    type V = FormText;

    open spec fn view(&self) -> FormText {
        FormText { email: self.email@, name: self.name@ }
    }
}

impl TryFrom<FormData> for NewSubscriber {
    type Error = String;

    /// Validates both fields, the name first. Succeeds exactly on valid
    /// forms and then carries the address unchanged and the name without the
    /// white space around it.
    fn try_from(value: FormData) -> (converted: Result<NewSubscriber, String>)
        ensures
            converted is Ok <==> is_valid_form(value.name@, value.email@),
            converted matches Ok(subscriber) ==> subscriber@ == accepted_form(value@),
            converted matches Err(message) ==> message@ == form_rejection(
                value.name@,
                value.email@,
            ),
    {
        let name = match SubscriberName::parse(value.name) {
            Ok(name) => name,
            Err(message) => {
                return Err(message);
            },
        };
        let email = match SubscriberEmail::parse(value.email) {
            Ok(email) => email,
            Err(message) => {
                return Err(message);
            },
        };
        Ok(NewSubscriber { email, name })
    }
}

/// The conversion is specified by the `ensures` of `try_from` itself: its
/// result holds texts, which are equal when their characters are, not when
/// the values are.
impl TryFromSpecImpl<FormData> for NewSubscriber {
    open spec fn obeys_try_from_spec() -> bool {
        false
    }

    open spec fn try_from_spec(v: FormData) -> Result<NewSubscriber, String> {
        arbitrary()
    }
}

} // verus!
