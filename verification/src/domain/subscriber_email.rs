//! The email address of a subscriber.

use validator::ValidateEmail;
use vstd::prelude::*;
use vstd::string::StringExecFns;

verus! {

/// Whether the text `s` passes the email syntax check of the `validator`
/// crate (the address grammar of the HTML standard, with length limits on
/// both parts and internationalised domains).
pub uninterp spec fn email_syntax_accepted(s: Seq<char>) -> bool;

/// Asks `ValidateEmail::validate_email` for its verdict on `s`. The verdict
/// is taken on trust: it is a function of the text alone, and nothing more
/// is claimed of it.
#[verifier::external_body]
fn syntax_accepted(s: &str) -> (ok: bool)
    ensures
        ok == email_syntax_accepted(s@),
{
    ValidateEmail::validate_email(&s)
}

/// The last `@` of `s` stands at `at`.
pub open spec fn is_last_at(s: Seq<char>, at: int) -> bool {
    &&& 0 <= at < s.len()
    &&& s[at] == '@'
    &&& forall|j: int| at < j < s.len() ==> #[trigger] s[j] != '@'
}

/// What stands before the separator at `at`.
pub open spec fn local_part(s: Seq<char>, at: int) -> Seq<char> {
    s.take(at)
}

/// What stands behind the separator at `at`.
pub open spec fn domain_part(s: Seq<char>, at: int) -> Seq<char> {
    s.skip(at + 1)
}

/// The text has an `@` that separates a local part, which is not empty,
/// from a domain part, which holds a `.`.
pub open spec fn has_address_shape(s: Seq<char>) -> bool {
    exists|at: int|
        #[trigger] is_last_at(s, at) && local_part(s, at).len() > 0 && domain_part(
            s,
            at,
        ).contains('.')
}

/// What makes a text a valid address, given the verdict of the syntax
/// check on it.
pub open spec fn passes_email_checks(s: Seq<char>, syntax_ok: bool) -> bool {
    has_address_shape(s) && syntax_ok
}

/// The texts that are valid addresses.
pub open spec fn email_is_valid(s: Seq<char>) -> bool {
    passes_email_checks(s, email_syntax_accepted(s))
}

/// What a refusal of the text `s` says.
pub open spec fn email_rejection(s: Seq<char>) -> Seq<char> {
    s + " is not a valid subscriber email."@
}

/// What parsing the text `s` gives: the text itself where it is a valid
/// address, and the refusal otherwise.
pub open spec fn parsed_email(s: Seq<char>) -> Result<Seq<char>, Seq<char>> {
    if email_is_valid(s) {
        Ok(s)
    } else {
        Err(email_rejection(s))
    }
}

/// Tells whether `s` has the shape of an address.
pub fn address_shaped(s: &str) -> (b: bool)
    ensures
        b == has_address_shape(s@),
{
    let mut seen_at: bool = false;
    let mut local_empty: bool = false;
    let mut dot_behind: bool = false;
    let mut first: bool = true;
    let ghost mut last: int = 0;
    for c in it: s.chars()
        invariant
            it.seq() == s@,
            first == (it.index() == 0),
            !seen_at ==> forall|j: int| 0 <= j < it.index() ==> #[trigger] s@[j] != '@',
            seen_at ==> {
                &&& 0 <= last < it.index()
                &&& s@[last] == '@'
                &&& forall|j: int| last < j < it.index() ==> #[trigger] s@[j] != '@'
                &&& local_empty == (last == 0)
                &&& dot_behind == (exists|k: int| last < k < it.index() && #[trigger] s@[k] == '.')
            },
    {
        if c == '@' {
            seen_at = true;
            local_empty = first;
            dot_behind = false;
            proof {
                last = it.index();
            }
        } else if c == '.' {
            dot_behind = true;
        }
        first = false;
    }
    proof {
        if seen_at {
            assert(is_last_at(s@, last));
            lemma_last_at_is_unique(s@);
            if dot_behind {
                let k: int = choose|k: int| last < k < s@.len() && #[trigger] s@[k] == '.';
                assert(domain_part(s@, last)[k - last - 1] == '.');
            }
            if domain_part(s@, last).contains('.') {
                let i: int = choose|i: int|
                    0 <= i < domain_part(s@, last).len() && domain_part(s@, last)[i] == '.';
                assert(s@[last + 1 + i] == '.');
            }
        }
    }
    seen_at && !local_empty && dot_behind
}

/// A text has at most one last `@`.
pub proof fn lemma_last_at_is_unique(s: Seq<char>)
    ensures
        forall|a: int, b: int| #[trigger] is_last_at(s, a) && #[trigger] is_last_at(s, b) ==> a == b,
{
}

/// An address that passed validation. The only way to one is `parse`.
#[derive(Debug)]
pub struct SubscriberEmail(String);

impl View for SubscriberEmail {
    type V = Seq<char>;

    closed spec fn view(&self) -> Seq<char> {
        self.0@
    }
}

impl SubscriberEmail {
    #[verifier::type_invariant]
    spec fn valid(&self) -> bool {
        email_is_valid(self.0@)
    }

    /// Runs the checks on a text for which the verdict of the syntax check
    /// is already known.
    pub fn check(s: &str, syntax_ok: bool) -> (ok: bool)
        ensures
            ok == passes_email_checks(s@, syntax_ok),
    {
        syntax_ok && address_shaped(s)
    }

    /// Validates `s` as an email address. A valid text is kept as it is;
    /// an invalid one is handed back inside the refusal.
    ///
    /// A text without an `@` is refused, and so is one whose part behind
    /// the last `@` holds no `.`, and one that the syntax check refuses.
    pub fn parse(s: String) -> (r: Result<SubscriberEmail, String>)
        ensures
            email_result(r) == parsed_email(s@),
            r is Ok <==> email_is_valid(s@),
            s@.len() == 0 ==> r is Err,
            !s@.contains('@') ==> r is Err,
            forall|at: int|
                #[trigger] is_last_at(s@, at) && !domain_part(s@, at).contains('.') ==> r is Err,
            forall|at: int|
                #[trigger] is_last_at(s@, at) && local_part(s@, at).len() == 0 ==> r is Err,
            !email_syntax_accepted(s@) ==> r is Err,
    {
        let syntax_ok: bool = syntax_accepted(s.as_str());
        if Self::check(s.as_str(), syntax_ok) {
            Ok(SubscriberEmail(s))
        } else {
            Err(s.concat(" is not a valid subscriber email."))
        }
    }

    /// The validated text.
    pub fn as_str(&self) -> (s: &str)
        ensures
            s@ == self@,
            email_is_valid(s@),
    {
        proof {
            use_type_invariant(self);
        }
        self.0.as_str()
    }
}

/// What a result of parsing holds, as texts.
pub open spec fn email_result(r: Result<SubscriberEmail, String>) -> Result<Seq<char>, Seq<char>> {
    match r {
        Ok(email) => Ok(email@),
        Err(message) => Err(message@),
    }
}

/// Parsing is a function of the text: two calls on the same text give the
/// same verdict, and the same address or the same refusal. A text that was
/// accepted is accepted again, and unchanged.
pub proof fn lemma_email_verdict_is_stable(
    s: String,
    first: Result<SubscriberEmail, String>,
    second: Result<SubscriberEmail, String>,
)
    requires
        call_ensures(SubscriberEmail::parse, (s,), first),
        call_ensures(SubscriberEmail::parse, (s,), second),
    ensures
        first is Ok <==> second is Ok,
        email_result(first) == email_result(second),
        first matches Ok(email) ==> parsed_email(email@) == Ok::<Seq<char>, Seq<char>>(email@),
{
}

impl AsRef<str> for SubscriberEmail {
    fn as_ref(&self) -> (s: &str)
        ensures
            s@ == self@,
            email_is_valid(s@),
    {
        self.as_str()
    }
}

} // verus!
