//! The display name of a subscriber.

use unicode_segmentation::UnicodeSegmentation;
use vstd::prelude::*;
use vstd::string::StringExecFns;

verus! {

/// The largest number of grapheme clusters that a name may have.
pub const MAX_NAME_GRAPHEMES: usize = 256;

/// The characters that may not occur anywhere in a name.
pub open spec fn is_forbidden_char(c: char) -> bool {
    c == '/' || c == '(' || c == ')' || c == '"' || c == '<' || c == '>' || c == '\\' || c == '{'
        || c == '}'
}

/// The characters with the Unicode property `White_Space`: those that
/// trimming removes from the ends of a string.
pub open spec fn is_white_space(c: char) -> bool {
    ||| '\u{9}' <= c <= '\u{D}'
    ||| c == ' '
    ||| c == '\u{85}'
    ||| c == '\u{A0}'
    ||| c == '\u{1680}'
    ||| '\u{2000}' <= c <= '\u{200A}'
    ||| c == '\u{2028}'
    ||| c == '\u{2029}'
    ||| c == '\u{202F}'
    ||| c == '\u{205F}'
    ||| c == '\u{3000}'
}

/// What trimming leaves of `s`: the text without the white space at its
/// two ends.
pub open spec fn trimmed(s: Seq<char>) -> Seq<char>
    decreases s.len(),
{
    if s.len() > 0 && is_white_space(s.first()) {
        trimmed(s.drop_first())
    } else if s.len() > 0 && is_white_space(s.last()) {
        trimmed(s.drop_last())
    } else {
        s
    }
}

/// A text is blank when it is empty or made of white space alone.
pub open spec fn is_blank(s: Seq<char>) -> bool {
    forall|i: int| 0 <= i < s.len() ==> is_white_space(#[trigger] s[i])
}

/// The blank texts are those of which trimming leaves nothing.
pub proof fn lemma_blank_is_trimmed_to_nothing(s: Seq<char>)
    ensures
        is_blank(s) <==> trimmed(s).len() == 0,
    decreases s.len(),
{
    if s.len() > 0 && is_white_space(s.first()) {
        let rest = s.drop_first();
        lemma_blank_is_trimmed_to_nothing(rest);
        if is_blank(s) {
            assert forall|i: int| 0 <= i < rest.len() implies is_white_space(
                #[trigger] rest[i],
            ) by {
                assert(rest[i] == s[i + 1]);
            }
        }
        if is_blank(rest) {
            assert forall|i: int| 0 <= i < s.len() implies is_white_space(#[trigger] s[i]) by {
                if i > 0 {
                    assert(s[i] == rest[i - 1]);
                }
            }
        }
    } else if s.len() > 0 && is_white_space(s.last()) {
        let rest = s.drop_last();
        lemma_blank_is_trimmed_to_nothing(rest);
        assert(!is_white_space(s[0]));
        assert(rest[0] == s[0]);
    } else if s.len() > 0 {
        assert(!is_white_space(s[0]));
    }
}

/// The number of extended grapheme clusters that the text `s` is made of.
pub uninterp spec fn grapheme_count(s: Seq<char>) -> nat;

/// Counts the extended grapheme clusters of `s` with
/// `UnicodeSegmentation::graphemes`. The count is taken on trust: it is a
/// function of the text alone, and nothing more is claimed of it.
#[verifier::external_body]
fn count_graphemes(s: &str) -> (n: usize)
    ensures
        n == grapheme_count(s@),
{
    s.graphemes(true).count()
}

/// Some character of `s` is forbidden in a name.
pub open spec fn has_forbidden_char(s: Seq<char>) -> bool {
    exists|i: int| 0 <= i < s.len() && is_forbidden_char(#[trigger] s[i])
}

/// Tells whether `c` may not occur in a name.
pub fn forbidden(c: char) -> (b: bool)
    ensures
        b == is_forbidden_char(c),
{
    c == '/' || c == '(' || c == ')' || c == '"' || c == '<' || c == '>' || c == '\\' || c == '{'
        || c == '}'
}

/// Tells whether `c` is white space.
pub fn white_space(c: char) -> (b: bool)
    ensures
        b == is_white_space(c),
{
    ('\u{9}' <= c && c <= '\u{D}') || c == ' ' || c == '\u{85}' || c == '\u{A0}' || c == '\u{1680}'
        || ('\u{2000}' <= c && c <= '\u{200A}') || c == '\u{2028}' || c == '\u{2029}' || c
        == '\u{202F}' || c == '\u{205F}' || c == '\u{3000}'
}

/// Tells whether `s` is blank: whether trimming leaves nothing of it.
pub fn blank(s: &str) -> (b: bool)
    ensures
        b == is_blank(s@),
        b == (trimmed(s@).len() == 0),
{
    proof {
        lemma_blank_is_trimmed_to_nothing(s@);
    }
    let mut all_white: bool = true;
    for c in it: s.chars()
        invariant
            it.seq() == s@,
            all_white == (forall|j: int| 0 <= j < it.index() ==> is_white_space(#[trigger] s@[j])),
    {
        all_white = all_white && white_space(c);
    }
    all_white
}

/// Tells whether `s` holds a character that is forbidden in a name.
pub fn contains_forbidden(s: &str) -> (b: bool)
    ensures
        b == has_forbidden_char(s@),
{
    let mut found: bool = false;
    for c in it: s.chars()
        invariant
            it.seq() == s@,
            found == (exists|j: int| 0 <= j < it.index() && is_forbidden_char(#[trigger] s@[j])),
    {
        found = found || forbidden(c);
    }
    found
}

/// What makes a text with `graphemes` grapheme clusters a valid name:
/// trimming leaves something of it, it is not too long, and it holds no
/// forbidden character, not even at an end that trimming would remove.
pub open spec fn passes_name_checks(s: Seq<char>, graphemes: nat) -> bool {
    &&& trimmed(s).len() > 0
    &&& graphemes <= MAX_NAME_GRAPHEMES
    &&& !has_forbidden_char(s)
}

/// The texts that are valid names.
pub open spec fn name_is_valid(s: Seq<char>) -> bool {
    passes_name_checks(s, grapheme_count(s))
}

/// What a refusal of the text `s` says.
pub open spec fn name_rejection(s: Seq<char>) -> Seq<char> {
    s + " is not a valid subscriber name."@
}

/// What parsing the text `s` gives: the text itself where it is a valid
/// name, and the refusal otherwise.
pub open spec fn parsed_name(s: Seq<char>) -> Result<Seq<char>, Seq<char>> {
    if name_is_valid(s) {
        Ok(s)
    } else {
        Err(name_rejection(s))
    }
}

/// A name that passed validation. The only way to one is `parse`.
#[derive(Debug)]
pub struct SubscriberName(String);

impl View for SubscriberName {
    type V = Seq<char>;

    closed spec fn view(&self) -> Seq<char> {
        self.0@
    }
}

impl SubscriberName {
    #[verifier::type_invariant]
    spec fn valid(&self) -> bool {
        name_is_valid(self.0@)
    }

    /// Runs the three checks on a text whose number of grapheme clusters
    /// is already known.
    pub fn check(s: &str, graphemes: usize) -> (ok: bool)
        ensures
            ok == passes_name_checks(s@, graphemes as nat),
    {
        !blank(s) && graphemes <= MAX_NAME_GRAPHEMES && !contains_forbidden(s)
    }

    /// Validates `s` as a name. A valid text is kept as it is, untrimmed;
    /// an invalid one is handed back inside the refusal.
    ///
    /// A blank text is refused, and so is one with a forbidden character
    /// and one of more than 256 grapheme clusters. Every other text is
    /// accepted: 256 grapheme clusters are still allowed.
    pub fn parse(s: String) -> (r: Result<SubscriberName, String>)
        ensures
            name_result(r) == parsed_name(s@),
            r is Ok <==> name_is_valid(s@),
            trimmed(s@).len() == 0 ==> r is Err,
            is_blank(s@) ==> r is Err,
            has_forbidden_char(s@) ==> r is Err,
            grapheme_count(s@) > MAX_NAME_GRAPHEMES ==> r is Err,
            grapheme_count(s@) <= MAX_NAME_GRAPHEMES && !is_blank(s@) && !has_forbidden_char(s@)
                ==> r is Ok,
    {
        proof {
            lemma_blank_is_trimmed_to_nothing(s@);
        }
        let graphemes: usize = count_graphemes(s.as_str());
        if Self::check(s.as_str(), graphemes) {
            Ok(SubscriberName(s))
        } else {
            Err(s.concat(" is not a valid subscriber name."))
        }
    }

    /// The validated text.
    pub fn as_str(&self) -> (s: &str)
        ensures
            s@ == self@,
            name_is_valid(s@),
    {
        proof {
            use_type_invariant(self);
        }
        self.0.as_str()
    }
}

/// What a result of parsing holds, as texts.
pub open spec fn name_result(r: Result<SubscriberName, String>) -> Result<Seq<char>, Seq<char>> {
    match r {
        Ok(name) => Ok(name@),
        Err(message) => Err(message@),
    }
}

/// Parsing is a function of the text: two calls on the same text give the
/// same verdict, and the same name or the same refusal. A text that was
/// accepted is accepted again, and unchanged.
pub proof fn lemma_name_verdict_is_stable(
    s: String,
    first: Result<SubscriberName, String>,
    second: Result<SubscriberName, String>,
)
    requires
        call_ensures(SubscriberName::parse, (s,), first),
        call_ensures(SubscriberName::parse, (s,), second),
    ensures
        first is Ok <==> second is Ok,
        name_result(first) == name_result(second),
        first matches Ok(name) ==> parsed_name(name@) == Ok::<Seq<char>, Seq<char>>(name@),
{
}

impl AsRef<str> for SubscriberName {
    fn as_ref(&self) -> (s: &str)
        ensures
            s@ == self@,
            name_is_valid(s@),
    {
        self.as_str()
    }
}

} // verus!
