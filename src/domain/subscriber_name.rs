//! Display names: never blank, bounded in grapheme clusters, free of markup characters.

use unicode_segmentation::UnicodeSegmentation;
use vstd::prelude::*;

verus! {

/// The most grapheme clusters a subscriber name may hold.
pub const MAX_NAME_GRAPHEMES: usize = 256;

/// Number of extended grapheme clusters in `s`, as Unicode text segmentation counts them.
pub uninterp spec fn grapheme_count(s: Seq<char>) -> nat;

/// A character with the Unicode `White_Space` property.
pub open spec fn is_white_space(c: char) -> bool {
    let u = c as u32;
    (0x09 <= u && u <= 0x0d) || u == 0x20 || u == 0x85 || u == 0xa0 || u == 0x1680
        || (0x2000 <= u && u <= 0x200a) || u == 0x2028 || u == 0x2029 || u == 0x202f
        || u == 0x205f || u == 0x3000
}

/// Nothing is left of `s` once surrounding white space is trimmed.
pub open spec fn is_blank(s: Seq<char>) -> bool {
    forall|i: int| 0 <= i < s.len() ==> is_white_space(#[trigger] s[i])
}

/// The characters a subscriber name may not hold.
pub open spec fn is_forbidden_char(c: char) -> bool {
    c == '/' || c == '(' || c == ')' || c == '{' || c == '}' || c == '"' || c == '<' || c == '>'
        || c == '\\'
}

pub open spec fn has_forbidden_char(s: Seq<char>) -> bool {
    exists|i: int| 0 <= i < s.len() && is_forbidden_char(#[trigger] s[i])
}

/// Whether `s`, which segments into `graphemes` grapheme clusters, is an acceptable name.
pub open spec fn name_accepted(s: Seq<char>, graphemes: nat) -> bool {
    !is_blank(s) && graphemes <= MAX_NAME_GRAPHEMES && !has_forbidden_char(s)
}

pub open spec fn is_valid_name(s: Seq<char>) -> bool {
    name_accepted(s, grapheme_count(s))
}

pub open spec fn invalid_name_message(s: Seq<char>) -> Seq<char> {
    s + " is not valid subscriber name"@
}

/// Relies on `UnicodeSegmentation::graphemes` (extended clusters) and `Iterator::count`:
/// the count depends on the text alone.
#[verifier::external_body]
fn count_graphemes(s: &str) -> (r: usize)
    ensures
        r as nat == grapheme_count(s@),
{
    s.graphemes(true).count()
}

/// Relies on `char::is_whitespace`, which tests the Unicode `White_Space` property.
#[verifier::external_body]
fn char_is_whitespace(c: char) -> (r: bool)
    ensures
        r == is_white_space(c),
{
    c.is_whitespace()
}

fn is_forbidden(c: char) -> (r: bool)
    ensures
        r == is_forbidden_char(c),
{
    c == '/' || c == '(' || c == ')' || c == '{' || c == '}' || c == '"' || c == '<' || c == '>'
        || c == '\\'
}

/// Whether `name` holds only white space.
pub fn is_empty_or_whitespace(name: &str) -> (r: bool)
    ensures
        r == is_blank(name@),
{
    let n = name.unicode_len();
    let mut i: usize = 0;
    while i < n
        invariant
            n == name@.len(),
            i <= n,
            forall|j: int| 0 <= j < i ==> is_white_space(#[trigger] name@[j]),
        decreases n - i,
    {
        if !char_is_whitespace(name.get_char(i)) {
            return false;
        }
        i = i + 1;
    }
    true
}

/// Whether `name` holds one of the forbidden characters.
pub fn contains_forbidden_characters(name: &str) -> (r: bool)
    ensures
        r == has_forbidden_char(name@),
{
    let n = name.unicode_len();
    let mut i: usize = 0;
    while i < n
        invariant
            n == name@.len(),
            i <= n,
            forall|j: int| 0 <= j < i ==> !is_forbidden_char(#[trigger] name@[j]),
        decreases n - i,
    {
        if is_forbidden(name.get_char(i)) {
            return true;
        }
        i = i + 1;
    }
    false
}

/// Whether `name`, which segments into `graphemes` grapheme clusters, is acceptable
/// as a subscriber name.
pub fn accepts_name(name: &str, graphemes: usize) -> (r: bool)
    ensures
        r == name_accepted(name@, graphemes as nat),
{
    let blank = is_empty_or_whitespace(name);
    let too_long = graphemes > MAX_NAME_GRAPHEMES;
    let forbidden = contains_forbidden_characters(name);
    !blank && !too_long && !forbidden
}

/// A validated display name: never blank, at most 256 grapheme clusters, and free of
/// the characters `/ ( ) { } " < > \`.
#[derive(Debug)]
pub struct SubscriberName(String);

impl View for SubscriberName {
    type V = Seq<char>;

    closed spec fn view(&self) -> Seq<char> {
        self.0@
    }
}

impl SubscriberName {
    #[verifier::type_invariant]
    spec fn inv(&self) -> bool {
        is_valid_name(self.0@)
    }

    /// Validates `name`, keeping its text exactly as given.
    pub fn parse(name: String) -> (r: Result<SubscriberName, String>)
        ensures
            r is Ok <==> is_valid_name(name@),
            r matches Ok(n) ==> n@ == name@,
            r matches Err(e) ==> e@ == invalid_name_message(name@),
    {
        let graphemes = count_graphemes(name.as_str());
        if accepts_name(name.as_str(), graphemes) {
            Ok(SubscriberName(name))
        } else {
            let mut message = name.clone();
            message.append(" is not valid subscriber name");
            Err(message)
        }
    }

    /// The name's text.
    pub fn as_str(&self) -> (r: &str)
        ensures
            r@ == self@,
            is_valid_name(r@),
    {
        proof {
            use_type_invariant(self);
        }
        self.0.as_str()
    }
}

impl AsRef<str> for SubscriberName {
    fn as_ref(&self) -> &str {
        self.0.as_str()
    }
}

} // verus!
