//! Domain value types: validated subscriber names and email addresses.

use vstd::prelude::*;
use vstd::string::StrSliceExecFns;
use vstd::string::StringExecFns;
use unicode_segmentation::UnicodeSegmentation;

verus! {

/// The characters a subscriber name may never contain.
pub open spec fn forbidden_name_char(c: char) -> bool {
    ||| c == '/'
    ||| c == '('
    ||| c == ')'
    ||| c == '"'
    ||| c == '<'
    ||| c == '>'
    ||| c == '\\'
    ||| c == '{'
    ||| c == '}'
}

/// The Unicode code points with the `White_Space` property, the ones
/// `str::trim` strips from the ends of a string.
pub open spec fn whitespace_char(c: char) -> bool {
    let u = c as u32;
    ||| u == 0x09
    ||| u == 0x0A
    ||| u == 0x0B
    ||| u == 0x0C
    ||| u == 0x0D
    ||| u == 0x20
    ||| u == 0x85
    ||| u == 0xA0
    ||| u == 0x1680
    ||| (0x2000 <= u && u <= 0x200A)
    ||| u == 0x2028
    ||| u == 0x2029
    ||| u == 0x202F
    ||| u == 0x205F
    ||| u == 0x3000
}

/// Every character of `s` is whitespace; true of the empty string, so this
/// is exactly "trimming `s` leaves nothing".
pub open spec fn all_whitespace(s: Seq<char>) -> bool {
    forall|i: int| 0 <= i < s.len() ==> whitespace_char(s[i])
}

/// Some character of `s` is one a subscriber name may not contain.
pub open spec fn has_forbidden_char(s: Seq<char>) -> bool {
    exists|i: int| 0 <= i < s.len() && forbidden_name_char(s[i])
}

/// The number of extended grapheme clusters of a string, as the Unicode
/// segmentation rules define them.
pub uninterp spec fn grapheme_count(s: Seq<char>) -> nat;

/// A name is acceptable when trimming leaves something, it spans at most
/// 256 grapheme clusters, and it holds no forbidden character.
pub open spec fn valid_subscriber_name(s: Seq<char>) -> bool {
    &&& !all_whitespace(s)
    &&& grapheme_count(s) <= 256
    &&& !has_forbidden_char(s)
}

/// An email address acceptable to the HTML5 email grammar.
pub uninterp spec fn is_valid_email(s: Seq<char>) -> bool;

/// Relies on `unicode_segmentation::UnicodeSegmentation::graphemes` (with
/// extended clusters), counted: the clusters depend on the characters alone.
#[verifier::external_body]
fn count_graphemes(s: &str) -> (n: usize)
    ensures
        n as nat == grapheme_count(s@),
{
    s.graphemes(true).count()
}

/// Relies on `validator::validate_email`, which checks the HTML5 email
/// grammar: the verdict depends on the characters alone, and its source
/// rejects the empty string and any string without an `@` outright.
#[verifier::external_body]
fn check_email_grammar(s: &str) -> (r: bool)
    ensures
        r == is_valid_email(s@),
        s@.len() == 0 ==> r == false,
        (forall|i: int| 0 <= i < s@.len() ==> s@[i] != '@') ==> r == false,
{
    validator::validate_email(s)
}

fn is_whitespace_char(c: char) -> (b: bool)
    ensures
        b == whitespace_char(c),
{
    let u = c as u32;
    u == 0x09 || u == 0x0A || u == 0x0B || u == 0x0C || u == 0x0D || u == 0x20 || u == 0x85
        || u == 0xA0 || u == 0x1680 || (0x2000 <= u && u <= 0x200A) || u == 0x2028 || u == 0x2029
        || u == 0x202F || u == 0x205F || u == 0x3000
}

fn is_forbidden_name_char(c: char) -> (b: bool)
    ensures
        b == forbidden_name_char(c),
{
    c == '/' || c == '(' || c == ')' || c == '"' || c == '<' || c == '>' || c == '\\' || c == '{'
        || c == '}'
}

fn all_chars_whitespace(s: &str) -> (b: bool)
    ensures
        b == all_whitespace(s@),
{
    let len = s.unicode_len();
    let mut i: usize = 0;
    while i < len
        invariant
            i <= len,
            len == s@.len(),
            forall|j: int| 0 <= j < i ==> whitespace_char(s@[j]),
        decreases len - i,
    {
        let c = s.get_char(i);
        if !is_whitespace_char(c) {
            return false;
        }
        i += 1;
    }
    true
}

fn contains_forbidden_char(s: &str) -> (b: bool)
    ensures
        b == has_forbidden_char(s@),
{
    let len = s.unicode_len();
    let mut i: usize = 0;
    while i < len
        invariant
            i <= len,
            len == s@.len(),
            forall|j: int| 0 <= j < i ==> !forbidden_name_char(s@[j]),
        decreases len - i,
    {
        let c = s.get_char(i);
        if is_forbidden_name_char(c) {
            return true;
        }
        i += 1;
    }
    false
}

/// A subscriber's display name, valid by construction.
#[derive(Debug)]
pub struct SubscriberName {
    name: String,
}

impl View for SubscriberName {
    type V = Seq<char>;

    closed spec fn view(&self) -> Seq<char> {
        self.name@
    }
}

impl SubscriberName {
    /// Accepts `s` exactly when it is a valid subscriber name; the accepted
    /// value wraps `s` unchanged, and a rejection reports `s` back.
    pub fn parse(s: String) -> (r: Result<SubscriberName, String>)
        ensures
            r is Ok <==> valid_subscriber_name(s@),
            r matches Ok(n) ==> n@ == s@,
            r matches Err(e) ==> e@ == s@ + " is not a valid subscriber name."@,
    {
        let is_empty_or_whitespace = all_chars_whitespace(s.as_str());
        let is_too_long = count_graphemes(s.as_str()) > 256;
        let contains_forbidden_chars = contains_forbidden_char(s.as_str());
        if is_empty_or_whitespace || is_too_long || contains_forbidden_chars {
            Err(s.concat(" is not a valid subscriber name."))
        } else {
            Ok(SubscriberName { name: s })
        }
    }

    /// The wrapped string, read-only.
    pub fn as_ref(&self) -> (r: &str)
        ensures
            r@ == self@,
    {
        self.name.as_str()
    }
}

/// A subscriber's email address, valid by construction.
#[derive(Debug)]
pub struct SubscriberEmail {
    email: String,
}

impl View for SubscriberEmail {
    type V = Seq<char>;

    closed spec fn view(&self) -> Seq<char> {
        self.email@
    }
}

impl SubscriberEmail {
    /// Accepts `s` exactly when it satisfies the email grammar; the accepted
    /// value wraps `s` unchanged, and a rejection reports `s` back. An empty
    /// string, or one without an `@`, is always rejected.
    pub fn parse(s: String) -> (r: Result<SubscriberEmail, String>)
        ensures
            r is Ok <==> is_valid_email(s@),
            r matches Ok(e) ==> e@ == s@,
            r matches Err(e) ==> e@ == s@ + " is not a valid email address"@,
            s@.len() == 0 ==> r is Err,
            (forall|i: int| 0 <= i < s@.len() ==> s@[i] != '@') ==> r is Err,
    {
        if check_email_grammar(s.as_str()) {
            Ok(SubscriberEmail { email: s })
        } else {
            Err(s.concat(" is not a valid email address"))
        }
    }

    /// The wrapped string, read-only.
    pub fn as_ref(&self) -> (r: &str)
        ensures
            r@ == self@,
    {
        self.email.as_str()
    }
}

/// Raw sign-up form input, exactly as the client submitted it.
pub struct SubscribeForm {
    pub email: String,
    pub name: String,
}

/// A sign-up that passed validation, ready to be persisted.
#[derive(Debug)]
pub struct NewSubscriber {
    pub email: SubscriberEmail,
    pub name: SubscriberName,
}

/// Both fields of a form pass validation.
pub open spec fn valid_form(form: SubscribeForm) -> bool {
    &&& valid_subscriber_name(form.name@)
    &&& is_valid_email(form.email@)
}

impl NewSubscriber {
    /// Validates a raw form, name first: succeeds exactly when both fields
    /// are acceptable, carrying both strings through unchanged; otherwise
    /// reports the first rejection.
    pub fn try_from(form: SubscribeForm) -> (r: Result<NewSubscriber, String>)
        ensures
            r is Ok <==> valid_form(form),
            r matches Ok(ns) ==> ns.name@ == form.name@ && ns.email@ == form.email@,
            r matches Err(e) ==> e@ == (if !valid_subscriber_name(form.name@) {
                form.name@ + " is not a valid subscriber name."@
            } else {
                form.email@ + " is not a valid email address"@
            }),
    {
        let name = match SubscriberName::parse(form.name) {
            Ok(n) => n,
            Err(e) => {
                return Err(e);
            },
        };
        let email = match SubscriberEmail::parse(form.email) {
            Ok(m) => m,
            Err(e) => {
                return Err(e);
            },
        };
        Ok(NewSubscriber { email, name })
    }
}

} // verus!
