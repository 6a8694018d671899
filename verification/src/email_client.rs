//! The confirmation message and its dispatch.

use crate::domain::SubscriberEmail;
use vstd::prelude::*;
use vstd::string::*;

verus! {

/// The confirmation link for `token` under `base_url`.
pub open spec fn link_for(base_url: Seq<char>, token: Seq<char>) -> Seq<char> {
    base_url + "/subscriptions/confirm?subscription_token="@ + token
}

pub open spec fn html_body_for(link: Seq<char>) -> Seq<char> {
    "Welcome to our newsletter!<br />Click <a href=\""@ + link
        + "\">here</a> to confirm your subscription."@
}

pub open spec fn text_body_for(link: Seq<char>) -> Seq<char> {
    "Welcome to our newsletter!\nVisit "@ + link + " to confirm your subscription."@
}

/// What is handed to the transport for one message, as plain text.
pub struct Message {
    pub recipient: Seq<char>,
    pub subject: Seq<char>,
    pub html_body: Seq<char>,
    pub text_body: Seq<char>,
}

/// The message that asks `recipient` to confirm by visiting `link`. Both
/// bodies are built around the same link.
pub open spec fn confirmation_message(recipient: Seq<char>, link: Seq<char>) -> Message {
    Message {
        recipient,
        subject: "Welcome!"@,
        html_body: html_body_for(link),
        text_body: text_body_for(link),
    }
}

#[derive(Debug)]
pub struct ConfirmationEmail {
    pub recipient: String,
    pub subject: String,
    pub html_body: String,
    pub text_body: String,
}

impl View for ConfirmationEmail {
    type V = Message;

    open spec fn view(&self) -> Message {
        Message {
            recipient: self.recipient@,
            subject: self.subject@,
            html_body: self.html_body@,
            text_body: self.text_body@,
        }
    }
}

/// Why a message did not go out.
#[derive(Clone, Copy, Debug, PartialEq, Eq, Structural)]
pub enum DispatchError {
    /// The provider did not answer in time, or could not be reached.
    Timeout,
    /// The provider answered with a status other than success.
    Rejected { status: u16 },
    /// The provider's answer could not be read.
    MalformedResponse,
}

pub open spec fn is_success_status(status: u16) -> bool {
    200 <= status <= 299
}

/// Reads the provider's status: only a status of the 2xx class counts as
/// delivered, every other one is an error that carries the status.
pub fn classify_response(status: u16) -> (delivered: Result<(), DispatchError>)
    ensures
        delivered is Ok <==> is_success_status(status),
        delivered is Err ==> delivered == Err::<(), DispatchError>(
            DispatchError::Rejected { status },
        ),
{
    if 200 <= status && status <= 299 {
        Ok(())
    } else {
        Err(DispatchError::Rejected { status })
    }
}

pub fn confirmation_link(base_url: &str, token: &str) -> (link: String)
    ensures
        link@ == link_for(base_url@, token@),
{
    let link = base_url.to_owned();
    let link = link.concat("/subscriptions/confirm?subscription_token=");
    link.concat(token)
}

/// Builds the confirmation message for `recipient`: an HTML body and a
/// plain-text body that carry the same `link`.
pub fn confirmation_email(recipient: &SubscriberEmail, link: &str) -> (email: ConfirmationEmail)
    ensures
        email@ == confirmation_message(recipient@, link@),
{
    let html_body = "Welcome to our newsletter!<br />Click <a href=\"".to_owned();
    let html_body = html_body.concat(link);
    let html_body = html_body.concat("\">here</a> to confirm your subscription.");
    let text_body = "Welcome to our newsletter!\nVisit ".to_owned();
    let text_body = text_body.concat(link);
    let text_body = text_body.concat(" to confirm your subscription.");
    ConfirmationEmail {
        recipient: recipient.as_str().to_owned(),
        subject: "Welcome!".to_owned(),
        html_body,
        text_body,
    }
}

/// A text that is wrapped in the same prefix and suffix as another and gives
/// the same result is the same text.
pub proof fn lemma_wrapping_is_injective(
    prefix: Seq<char>,
    suffix: Seq<char>,
    a: Seq<char>,
    b: Seq<char>,
)
    requires
        prefix + a + suffix == prefix + b + suffix,
    ensures
        a == b,
{
    let wrapped_a = prefix + a + suffix;
    let wrapped_b = prefix + b + suffix;
    assert(wrapped_a.len() == prefix.len() + a.len() + suffix.len());
    assert(wrapped_b.len() == prefix.len() + b.len() + suffix.len());
    assert(a.len() == b.len());
    assert forall|i: int| 0 <= i < a.len() implies a[i] == b[i] by {
        assert(wrapped_a[prefix.len() + i] == a[i]);
        assert(wrapped_b[prefix.len() + i] == b[i]);
    }
    assert(a =~= b);
}

/// Whoever reads the link out of the HTML body and out of the plain-text
/// body of one confirmation message reads the same link twice: the one the
/// message was built for.
pub proof fn lemma_bodies_carry_one_link(
    recipient: Seq<char>,
    link: Seq<char>,
    from_html: Seq<char>,
    from_text: Seq<char>,
)
    requires
        confirmation_message(recipient, link).html_body == html_body_for(from_html),
        confirmation_message(recipient, link).text_body == text_body_for(from_text),
    ensures
        from_html == link,
        from_text == link,
{
    lemma_wrapping_is_injective(
        "Welcome to our newsletter!<br />Click <a href=\""@,
        "\">here</a> to confirm your subscription."@,
        link,
        from_html,
    );
    lemma_wrapping_is_injective(
        "Welcome to our newsletter!\nVisit "@,
        " to confirm your subscription."@,
        link,
        from_text,
    );
}

/// Links under one base address differ exactly as their tokens do.
pub proof fn lemma_link_determines_token(base_url: Seq<char>, a: Seq<char>, b: Seq<char>)
    requires
        link_for(base_url, a) == link_for(base_url, b),
    ensures
        a == b,
{
    let head = base_url + "/subscriptions/confirm?subscription_token="@;
    assert(head + a + Seq::<char>::empty() =~= link_for(base_url, a));
    assert(head + b + Seq::<char>::empty() =~= link_for(base_url, b));
    lemma_wrapping_is_injective(head, Seq::empty(), a, b);
}

/// What an [`Outbox`] holds: the messages that went out, oldest first, and
/// whether the transport answers.
pub struct OutboxState {
    pub sent: Seq<Message>,
    pub reachable: bool,
}

impl OutboxState {
    /// What the transport answers to a dispatch.
    pub open spec fn answer(self) -> Result<(), DispatchError> {
        if self.reachable {
            Ok(())
        } else {
            Err(DispatchError::Timeout)
        }
    }

    /// The state after `message` was handed over: recorded where the
    /// transport answers, dropped where it does not.
    pub open spec fn after(self, message: Message) -> OutboxState {
        if self.reachable {
            OutboxState { sent: self.sent.push(message), reachable: true }
        } else {
            self
        }
    }
}

/// A transport that keeps what it is asked to send, and that can be switched
/// off to stand for a provider that does not answer.
pub struct Outbox {
    sent: Vec<ConfirmationEmail>,
    reachable: bool,
}

impl View for Outbox {
    type V = OutboxState;

    closed spec fn view(&self) -> OutboxState {
        OutboxState {
            sent: Seq::new(self.sent@.len(), |i: int| self.sent@[i]@),
            reachable: self.reachable,
        }
    }
}

impl Outbox {
    /// An empty outbox whose transport answers.
    pub fn new() -> (outbox: Outbox)
        ensures
            outbox@ == (OutboxState { sent: Seq::empty(), reachable: true }),
    {
        let outbox = Outbox { sent: Vec::new(), reachable: true };
        assert(outbox@.sent =~= Seq::empty());
        outbox
    }

    /// Switches the transport on or off. What went out stays recorded.
    pub fn set_reachable(&mut self, reachable: bool)
        ensures
            final(self)@ == (OutboxState { sent: old(self)@.sent, reachable }),
    {
        self.reachable = reachable;
        assert(self@.sent =~= old(self)@.sent);
    }

    /// Hands `email` to the transport. It is recorded exactly when the
    /// transport answers; otherwise the dispatch fails and nothing is kept.
    pub fn deliver(&mut self, email: ConfirmationEmail) -> (delivered: Result<(), DispatchError>)
        ensures
            delivered == old(self)@.answer(),
            final(self)@ == old(self)@.after(email@),
    {
        if self.reachable {
            self.sent.push(email);
            assert(self@.sent =~= old(self)@.sent.push(email@));
            Ok(())
        } else {
            assert(self@.sent =~= old(self)@.sent);
            Err(DispatchError::Timeout)
        }
    }

    /// The messages that went out, oldest first.
    pub fn sent(&self) -> (messages: &Vec<ConfirmationEmail>)
        ensures
            messages@.len() == self@.sent.len(),
            forall|i: int| 0 <= i < messages@.len() ==> (#[trigger] messages@[i])@ == self@.sent[i],
    {
        &self.sent
    }
}

} // verus!
