//! The name a subscriber signs up with.

use crate::text::{
    count_graphemes,
    grapheme_count,
    is_blank,
    is_blank_str,
    is_white_space,
    lemma_trimmed,
    trim,
    trimmed,
    trimmed_offset,
};
use vstd::prelude::*;
use vstd::string::*;

verus! {

/// Longest accepted name, in grapheme clusters.
pub const MAX_NAME_GRAPHEMES: usize = 256;

/// Characters that may not occur anywhere in a name.
pub open spec fn is_forbidden_char(c: char) -> bool {
    c == '/' || c == '(' || c == ')' || c == '"' || c == '<' || c == '>' || c == '\\' || c == '{'
        || c == '}'
}

pub open spec fn has_forbidden_char(s: Seq<char>) -> bool {
    exists|i: int| 0 <= i < s.len() && is_forbidden_char(#[trigger] s[i])
}

/// The rules a name obeys, given the number of grapheme clusters it has: it
/// is not blank, not longer than [`MAX_NAME_GRAPHEMES`] and free of forbidden
/// characters.
pub open spec fn name_rules_hold(s: Seq<char>, graphemes: nat) -> bool {
    &&& !is_blank(s)
    &&& graphemes <= MAX_NAME_GRAPHEMES
    &&& !has_forbidden_char(s)
}

pub open spec fn is_valid_name(s: Seq<char>) -> bool {
    name_rules_hold(s, grapheme_count(s))
}

/// The texts that a [`SubscriberName`] can hold: the trimmed form of a text
/// that obeys the name rules.
pub open spec fn is_accepted_name(name: Seq<char>) -> bool {
    exists|raw: Seq<char>| is_valid_name(raw) && #[trigger] trimmed(raw) == name
}

/// What a caller is told when `s` is refused as a name.
pub open spec fn name_rejection(s: Seq<char>) -> Seq<char> {
    s + " is not a valid subscriber name."@
}

pub fn is_forbidden(c: char) -> (b: bool)
    ensures
        b == is_forbidden_char(c),
{
    c == '/' || c == '(' || c == ')' || c == '"' || c == '<' || c == '>' || c == '\\' || c == '{'
        || c == '}'
}

pub fn contains_forbidden_char(s: &str) -> (b: bool)
    ensures
        b == has_forbidden_char(s@),
{
    let mut found = false;
    for c in it: s.chars()
        invariant
            it.seq() == s@,
            found == (exists|i: int| 0 <= i < it.index() && is_forbidden_char(#[trigger] s@[i])),
    {
        if is_forbidden(c) {
            found = true;
        }
    }
    found
}

/// Decides the name rules for a text whose grapheme clusters were counted
/// beforehand.
pub fn satisfies_name_rules(s: &str, graphemes: usize) -> (ok: bool)
    ensures
        ok == name_rules_hold(s@, graphemes as nat),
{
    let is_empty_or_whitespace = is_blank_str(s);
    let is_too_long = graphemes > MAX_NAME_GRAPHEMES;
    let contains_forbidden_characters = contains_forbidden_char(s);
    !(is_too_long || is_empty_or_whitespace || contains_forbidden_characters)
}

/// An accepted name is not empty, neither begins nor ends with white space,
/// holds no forbidden character, and is no longer than the text it was
/// trimmed from.
pub proof fn lemma_accepted_name(name: Seq<char>)
    requires
        is_accepted_name(name),
    ensures
        name.len() > 0,
        !is_white_space(name.first()),
        !is_white_space(name.last()),
        !has_forbidden_char(name),
        trimmed(name) == name,
{
    let raw = choose|raw: Seq<char>| is_valid_name(raw) && #[trigger] trimmed(raw) == name;
    lemma_trimmed(raw);
    lemma_trimmed(name);
    if has_forbidden_char(name) {
        let i = choose|i: int| 0 <= i < name.len() && is_forbidden_char(#[trigger] name[i]);
        assert(is_forbidden_char(raw[trimmed_offset(raw) + i]));
    }
}

/// A validated subscriber name. The only way to obtain one is
/// [`SubscriberName::parse`], so every value is the trimmed form of a text
/// that obeys the name rules.
#[derive(Debug)]
pub struct SubscriberName(String);

impl View for SubscriberName {
    type V = Seq<char>;

    closed spec fn view(&self) -> Seq<char> {
        self.0@
    }
}

impl SubscriberName {
    #[verifier::type_invariant]
    spec fn obeys_rules(self) -> bool {
        is_accepted_name(self.0@)
    }

    /// Accepts `s` as a name exactly when it obeys the name rules, which are
    /// decided on `s` as it is given. The accepted name is `s` without the
    /// white space around it: it is not empty, neither begins nor ends with
    /// white space and holds no forbidden character. A text has at most as
    /// many grapheme clusters as characters, so none of at most
    /// [`MAX_NAME_GRAPHEMES`] characters is ever too long.
    pub fn parse(s: String) -> (parsed: Result<SubscriberName, String>)
        ensures
            parsed is Ok <==> is_valid_name(s@),
            grapheme_count(s@) <= s@.len(),
            parsed matches Ok(name) ==> {
                &&& name@ == trimmed(s@)
                &&& is_accepted_name(name@)
                &&& name@.len() > 0
                &&& !is_white_space(name@.first())
                &&& !is_white_space(name@.last())
                &&& !has_forbidden_char(name@)
            },
            parsed matches Err(message) ==> message@ == name_rejection(s@),
    {
        let graphemes = count_graphemes(s.as_str());
        if satisfies_name_rules(s.as_str(), graphemes) {
            let kept = trim(s.as_str()).to_owned();
            proof {
                assert(is_valid_name(s@) && trimmed(s@) == kept@);
                lemma_accepted_name(kept@);
            }
            Ok(Self(kept))
        } else {
            Err(s.concat(" is not a valid subscriber name."))
        }
    }

    /// The name as text, together with what holds of every accepted name.
    pub fn as_str(&self) -> (text: &str)
        ensures
            text@ == self@,
            is_accepted_name(text@),
            text@.len() > 0,
            !is_white_space(text@.first()),
            !is_white_space(text@.last()),
            !has_forbidden_char(text@),
    {
        proof {
            use_type_invariant(self);
            lemma_accepted_name(self.0@);
        }
        self.0.as_str()
    }
}

impl AsRef<str> for SubscriberName {
    fn as_ref(&self) -> (text: &str)
        ensures
            text@ == self@,
    {
        self.0.as_str()
    }
}

} // verus!
