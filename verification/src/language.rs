//! The language identifier that selects a runtime provider.

use vstd::prelude::*;

use crate::text::{
    is_space, lemma_trim_end_drops_space, lemma_trim_start_drops_space, lemma_trim_end_shape,
    lemma_trim_start_shape, lower,
    lemma_lowercase_trim_commute, lemma_lowercase_trimmed, lemma_trim_end_skips_space,
    lemma_trim_is_trimmed, lemma_trim_start_append_space, lemma_trim_start_skips_space,
    lemma_trimmed_is_fixed, all_space, lowercase, trim, trim_end, trim_start, trim_lowercase,
};

verus! {

/// The identifier the Node.js provider answers to.
pub const NODEJS_ID: &'static str = "nodejs";

/// The identifier the Python provider answers to.
pub const PYTHON_ID: &'static str = "python";

/// The normal form of a language identifier: surrounding whitespace removed,
/// ASCII letters lower-cased.
pub open spec fn normalise(s: Seq<char>) -> Seq<char> {
    lowercase(trim(s))
}

/// Which language runtime a request is about.
///
/// This is the routing key: the router keeps one provider per language, and
/// every request carries the language it is for. It is a newtype over a string
/// rather than an enum, so that a new language is a new provider module rather
/// than a change here. Its text is always in normal form.
#[derive(Debug, Hash, PartialOrd, Ord)]
pub struct Language(String);

impl Language {
    #[verifier::type_invariant]
    spec fn is_normal(self) -> bool {
        normalise(self.0@) == self.0@
    }
}

impl View for Language {
    type V = Seq<char>;

    closed spec fn view(&self) -> Seq<char> {
        self.0@
    }
}

impl Language {
    /// Builds a language identifier, lower-cased and trimmed.
    ///
    /// Normalising here is what lets a host spell `"NODEJS"` or `" nodejs "`
    /// and still reach the same provider. Only letter case and surrounding
    /// whitespace are normalised: `"Node.js"` becomes `"node.js"`, which is a
    /// different identifier from `"nodejs"`.
    pub fn new(id: &str) -> (r: Language)
        ensures
            r@ == normalise(id@),
    {
        let text = trim_lowercase(id);
        proof {
            law_normalise_is_idempotent(id@);
        }
        Language(text)
    }

    /// JavaScript on the managed Node.js toolchain.
    pub fn nodejs() -> (r: Language)
        ensures
            r@ == NODEJS_ID@,
    {
        proof {
            reveal_strlit("nodejs");
            lemma_already_normal(NODEJS_ID@);
        }
        Language::new(NODEJS_ID)
    }

    /// Python on the managed CPython toolchain.
    pub fn python() -> (r: Language)
        ensures
            r@ == PYTHON_ID@,
    {
        proof {
            reveal_strlit("python");
            lemma_already_normal(PYTHON_ID@);
        }
        Language::new(PYTHON_ID)
    }

    /// The normalised identifier.
    pub fn as_str(&self) -> (r: &str)
        ensures
            r@ == self@,
            normalise(self@) == self@,
    {
        proof {
            use_type_invariant(self);
        }
        self.0.as_str()
    }

    /// Whether this identifier names no language at all.
    pub fn is_empty(&self) -> (r: bool)
        ensures
            r == (self@.len() == 0),
    {
        self.0.as_str().is_empty()
    }

    /// The identifier as an owned string; what the language displays as.
    pub fn to_string(&self) -> (r: String)
        ensures
            r@ == self@,
    {
        self.0.clone()
    }

}

impl Clone for Language {
    fn clone(&self) -> (r: Language)
        ensures
            r@ == self@,
    {
        proof {
            use_type_invariant(self);
        }
        Language(self.0.clone())
    }
}

impl PartialEq for Language {
    fn eq(&self, other: &Self) -> (r: bool) {
        self.0 == other.0
    }
}

impl vstd::std_specs::cmp::PartialEqSpecImpl for Language {
    open spec fn obeys_eq_spec() -> bool {
        true
    }

    open spec fn eq_spec(&self, other: &Self) -> bool {
        self@ == other@
    }
}

impl Eq for Language {}

impl vstd::std_specs::convert::FromSpecImpl<&str> for Language {
    /// A `Language` is not determined by its text alone (two strings with the
    /// same characters need not be the same value), so no value-level result
    /// is promised; `from` states its result by its view instead.
    open spec fn obeys_from_spec() -> bool {
        false
    }

    open spec fn from_spec(v: &str) -> Language {
        vstd::pervasive::arbitrary()
    }
}

impl From<&str> for Language {
    /// The language `id` names, normalised as [`Language::new`] does.
    fn from(id: &str) -> (r: Self)
        ensures
            r@ == normalise(id@),
    {
        Language::new(id)
    }
}

impl vstd::std_specs::convert::FromSpecImpl<String> for Language {
    /// A `Language` is not determined by its text alone (two strings with the
    /// same characters need not be the same value), so no value-level result
    /// is promised; `from` states its result by its view instead.
    open spec fn obeys_from_spec() -> bool {
        false
    }

    open spec fn from_spec(v: String) -> Language {
        vstd::pervasive::arbitrary()
    }
}

impl From<String> for Language {
    /// The language `id` names, normalised as [`Language::new`] does.
    fn from(id: String) -> (r: Self)
        ensures
            r@ == normalise(id@),
    {
        Language::new(id.as_str())
    }
}

/// A text with no surrounding whitespace and no ASCII capitals is its own
/// normal form.
proof fn lemma_already_normal(s: Seq<char>)
    requires
        s.len() > 0 ==> !crate::text::is_space(s[0]) && !crate::text::is_space(s.last()),
        forall|k: int| 0 <= k < s.len() ==> !('A' <= #[trigger] s[k] && s[k] <= 'Z'),
    ensures
        normalise(s) == s,
{
    lemma_trimmed_is_fixed(s);
    assert(lowercase(s) =~= s);
}

/// Normalising an identifier a second time changes nothing.
pub proof fn law_normalise_is_idempotent(s: Seq<char>)
    ensures
        normalise(normalise(s)) == normalise(s),
{
    let t = trim(s);
    lemma_trim_is_trimmed(s);
    lemma_lowercase_trimmed(t);
    lemma_trimmed_is_fixed(lowercase(t));
}

/// Two spellings that differ only in ASCII letter case name the same language.
pub proof fn law_case_does_not_matter(s: Seq<char>, t: Seq<char>)
    requires
        lowercase(s) == lowercase(t),
    ensures
        normalise(s) == normalise(t),
{
    lemma_lowercase_trim_commute(s);
    lemma_lowercase_trim_commute(t);
}

/// Whitespace around an identifier does not change the language it names.
pub proof fn law_surrounding_whitespace_does_not_matter(p: Seq<char>, s: Seq<char>, q: Seq<char>)
    requires
        all_space(p),
        all_space(q),
    ensures
        normalise(p + s + q) == normalise(s),
{
    assert(p + s + q =~= p + (s + q));
    lemma_trim_start_skips_space(p, s + q);
    lemma_trim_start_append_space(s, q);
    if trim_start(s).len() > 0 {
        lemma_trim_end_skips_space(trim_start(s), q);
    }
}


/// An ASCII capital letter, `A` to `Z`.
pub open spec fn is_ascii_capital(c: char) -> bool {
    'A' <= c && c <= 'Z'
}

/// Every ASCII capital folds to the letter 32 code points above it, `a` to
/// `z`; every other character is left as it is.
pub proof fn law_capitals_fold_to_lower_case(c: char)
    ensures
        is_ascii_capital(c) ==> lower(c) as u32 == c as u32 + 32 && 'a' <= lower(c) && lower(c)
            <= 'z',
        !is_ascii_capital(c) ==> lower(c) == c,
{
}

/// A language's normal form holds no ASCII capital letter.
pub proof fn law_normal_form_has_no_capitals(s: Seq<char>)
    ensures
        forall|k: int| 0 <= k < normalise(s).len() ==> !is_ascii_capital(#[trigger] normalise(s)[k]),
{
    let t = trim(s);
    assert forall|k: int| 0 <= k < normalise(s).len() implies !is_ascii_capital(
        #[trigger] normalise(s)[k],
    ) by {
        law_capitals_fold_to_lower_case(t[k]);
    }
}

/// `n` is `s[i..j]` with each ASCII capital replaced by its lower-case letter,
/// where `s[i..j]` is `s` with the whitespace at its two ends cut away.
pub open spec fn is_cut_and_folded(s: Seq<char>, n: Seq<char>, i: int, j: int) -> bool {
    &&& 0 <= i <= j <= s.len()
    &&& n.len() == j - i
    &&& forall|k: int| 0 <= k < i ==> is_space(#[trigger] s[k])
    &&& forall|k: int| j <= k < s.len() ==> is_space(#[trigger] s[k])
    &&& i < j ==> !is_space(s[i]) && !is_space(s[j - 1])
    &&& forall|k: int|
        0 <= k < j - i ==> {
            ||| !is_ascii_capital(s[i + k]) && #[trigger] n[k] == s[i + k]
            ||| is_ascii_capital(s[i + k]) && n[k] as u32 == s[i + k] as u32 + 32
        }
}

/// The normal form is the text between the surrounding whitespace, character
/// for character, with each ASCII capital replaced by its lower-case letter:
/// nothing is added, dropped or reordered, and only whitespace is cut away,
/// from the two ends only.
pub proof fn law_normal_form_keeps_the_text(s: Seq<char>)
    ensures
        exists|i: int, j: int| #[trigger] is_cut_and_folded(s, normalise(s), i, j),
{
    let ts = trim_start(s);
    lemma_trim_start_shape(s);
    lemma_trim_start_drops_space(s);
    let te = trim_end(ts);
    lemma_trim_end_shape(ts);
    lemma_trim_end_drops_space(ts);
    lemma_trim_is_trimmed(s);
    let i = s.len() - ts.len();
    let j = i + te.len();
    assert forall|k: int| j <= k < s.len() implies is_space(#[trigger] s[k]) by {
        assert(s[k] == ts[k - i]);
    }
    assert forall|k: int| 0 <= k < j - i implies {
        ||| !is_ascii_capital(s[i + k]) && #[trigger] normalise(s)[k] == s[i + k]
        ||| is_ascii_capital(s[i + k]) && normalise(s)[k] as u32 == s[i + k] as u32 + 32
    } by {
        assert(te[k] == ts[k]);
        assert(ts[k] == s[i + k]);
        law_capitals_fold_to_lower_case(s[i + k]);
    }
    if i < j {
        assert(trim(s)[0] == s[i]);
        assert(trim(s).last() == s[j - 1]);
    }
    assert(is_cut_and_folded(s, normalise(s), i, j));
}

} // verus!
