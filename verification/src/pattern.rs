//! Pattern sets for device and message selection.
//!
//! A configured list of pattern strings becomes one [`PatternSet`]: the set
//! matches a text exactly when at least one pattern in the list matches it,
//! each pattern read as a regular expression and matching anywhere in the
//! text. An absent or empty list falls back to the axis default: an include
//! set that matches every text (what the pattern `.*` matches), an exclude
//! set that matches exactly the empty text (what the pattern `^$` matches).

use vstd::prelude::*;

verus! {

/// Whether `pattern` is a valid regular expression, that is, whether
/// compiling it succeeds.
pub uninterp spec fn regex_valid(pattern: Seq<char>) -> bool;

/// Whether the regular expression `pattern` matches anywhere in `text`.
pub uninterp spec fn regex_match(pattern: Seq<char>, text: Seq<char>) -> bool;

/// One compiled pattern, kept beside the pattern string it was compiled from.
///
/// The fields are private: every value is produced by [`PatternMatcher::compile`],
/// so the compiled regex always belongs to the pattern string the view names.
pub struct PatternMatcher {
    re: regex::Regex,
    pattern: String,
}

#[verifier::external_type_specification]
#[verifier::external_body]
pub struct ExRegex(regex::Regex);

impl View for PatternMatcher {
    type V = Seq<char>;

    closed spec fn view(&self) -> Seq<char> {
        self.pattern@
    }
}

impl PatternMatcher {
    /// Relies on `regex::Regex::new`: compiling succeeds exactly when the
    /// pattern is a valid regular expression, and the compiled regex decides
    /// matches of that pattern.
    #[verifier::external_body]
    pub fn compile(pattern: String) -> (r: Option<PatternMatcher>)
        ensures
            r is Some <==> regex_valid(pattern@),
            r matches Some(m) ==> m@ == pattern@,
    {
        match regex::Regex::new(&pattern) {
            Ok(re) => Some(PatternMatcher { re, pattern }),
            Err(_) => None,
        }
    }

    /// Relies on `regex::Regex::is_match`: true exactly when the pattern
    /// matches somewhere in `text`. Sound because the only constructor,
    /// [`PatternMatcher::compile`], pairs the compiled regex with its own
    /// pattern string.
    #[verifier::external_body]
    pub fn is_match(&self, text: &str) -> (r: bool)
        ensures
            r == regex_match(self@, text@),
    {
        self.re.is_match(text)
    }
}

/// The pattern strings of a list of compiled patterns.
pub open spec fn pattern_views(ms: Seq<PatternMatcher>) -> Seq<Seq<char>> {
    ms.map_values(|m: PatternMatcher| m@)
}

/// One axis's matcher: the default include set, the default exclude set, or
/// the alternation of a configured list of patterns.
pub enum PatternSet {
    /// Matches every text; the default for an include axis.
    MatchAll,
    /// Matches exactly the empty text; the default for an exclude axis.
    MatchEmptyOnly,
    /// Matches a text when at least one of the patterns matches it.
    AnyOf(Vec<PatternMatcher>),
}

impl PatternSet {
    /// What the set matches.
    pub open spec fn spec_matches(self, text: Seq<char>) -> bool {
        match self {
            PatternSet::MatchAll => true,
            PatternSet::MatchEmptyOnly => text.len() == 0,
            PatternSet::AnyOf(ms) => exists|i: int|
                0 <= i < ms@.len() && #[trigger] regex_match(ms@[i]@, text),
        }
    }

    /// Tests whether the set matches `text`.
    pub fn matches(&self, text: &str) -> (r: bool)
        ensures
            r == self.spec_matches(text@),
    {
        match self {
            PatternSet::MatchAll => true,
            PatternSet::MatchEmptyOnly => text.is_empty(),
            PatternSet::AnyOf(ms) => any_match(ms, text),
        }
    }
}

/// Whether at least one compiled pattern of the list matches `text`.
fn any_match(ms: &Vec<PatternMatcher>, text: &str) -> (r: bool)
    ensures
        r == exists|i: int| 0 <= i < ms@.len() && #[trigger] regex_match(ms@[i]@, text@),
{
    let n = ms.len();
    let mut i: usize = 0;
    while i < n
        invariant
            n == ms@.len(),
            0 <= i <= n,
            forall|j: int| 0 <= j < i ==> !(#[trigger] regex_match(ms@[j]@, text@)),
        decreases n - i,
    {
        if ms[i].is_match(text) {
            proof {
                assert(regex_match(ms@[i as int]@, text@));
            }
            return true;
        }
        i = i + 1;
    }
    false
}

/// Compiles every pattern of a configured list; `None` exactly when some
/// pattern is not a valid regular expression.
fn compile_all(list: &Vec<String>) -> (r: Option<Vec<PatternMatcher>>)
    ensures
        r is Some <==> (forall|i: int| 0 <= i < list.deep_view().len()
            ==> regex_valid(#[trigger] list.deep_view()[i])),
        r matches Some(ms) ==> pattern_views(ms@) =~= list.deep_view(),
{
    proof {
        assert(forall|j: int| 0 <= j < list@.len()
            ==> #[trigger] list.deep_view()[j] == list@[j]@);
    }
    let n = list.len();
    let mut out: Vec<PatternMatcher> = Vec::new();
    let mut i: usize = 0;
    while i < n
        invariant
            n == list@.len(),
            0 <= i <= n,
            out@.len() == i,
            forall|j: int| 0 <= j < i ==> regex_valid(#[trigger] list@[j]@),
            forall|j: int| 0 <= j < i ==> out@[j]@ == #[trigger] list@[j]@,
            forall|j: int| 0 <= j < list@.len()
                ==> #[trigger] list.deep_view()[j] == list@[j]@,
        decreases n - i,
    {
        match PatternMatcher::compile(list[i].clone()) {
            Some(m) => out.push(m),
            None => {
                proof {
                    assert(!regex_valid(list.deep_view()[i as int]));
                }
                return None;
            },
        }
        i = i + 1;
    }
    Some(out)
}

/// A list counts as configured only when it is present and non-empty; an
/// absent and an empty list both fall back to the axis default.
pub open spec fn configured(patterns: Option<Seq<Seq<char>>>) -> bool {
    patterns matches Some(l) && l.len() > 0
}

/// Every pattern of the (configured) list is a valid regular expression.
pub open spec fn all_valid(patterns: Option<Seq<Seq<char>>>) -> bool {
    match patterns {
        Some(l) => forall|i: int| 0 <= i < l.len() ==> regex_valid(#[trigger] l[i]),
        None => true,
    }
}

/// Builds an include-axis set: the configured alternation, or the set that
/// matches everything. `None` exactly when a configured pattern is invalid.
pub fn build_include(patterns: &Option<Vec<String>>) -> (r: Option<PatternSet>)
    ensures
        r is Some <==> all_valid(patterns.deep_view()) || !configured(patterns.deep_view()),
        r matches Some(s) ==> if configured(patterns.deep_view()) {
            (s matches PatternSet::AnyOf(ms)
                && pattern_views(ms@) =~= patterns.deep_view().unwrap())
        } else {
            s is MatchAll
        },
{
    build_axis(patterns, true)
}

/// Builds an exclude-axis set: the configured alternation, or the set that
/// matches exactly the empty text. `None` exactly when a configured pattern
/// is invalid.
pub fn build_exclude(patterns: &Option<Vec<String>>) -> (r: Option<PatternSet>)
    ensures
        r is Some <==> all_valid(patterns.deep_view()) || !configured(patterns.deep_view()),
        r matches Some(s) ==> if configured(patterns.deep_view()) {
            (s matches PatternSet::AnyOf(ms)
                && pattern_views(ms@) =~= patterns.deep_view().unwrap())
        } else {
            s is MatchEmptyOnly
        },
{
    build_axis(patterns, false)
}

fn build_axis(patterns: &Option<Vec<String>>, match_all_default: bool) -> (r: Option<PatternSet>)
    ensures
        r is Some <==> all_valid(patterns.deep_view()) || !configured(patterns.deep_view()),
        r matches Some(s) ==> if configured(patterns.deep_view()) {
            (s matches PatternSet::AnyOf(ms)
                && pattern_views(ms@) =~= patterns.deep_view().unwrap())
        } else if match_all_default {
            s is MatchAll
        } else {
            s is MatchEmptyOnly
        },
{
    match patterns {
        Some(list) if list.len() > 0 => match compile_all(list) {
            Some(ms) => Some(PatternSet::AnyOf(ms)),
            None => None,
        },
        _ => Some(
            if match_all_default {
                PatternSet::MatchAll
            } else {
                PatternSet::MatchEmptyOnly
            },
        ),
    }
}

} // verus!
