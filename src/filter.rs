use vstd::prelude::*;

verus! {

#[verifier::external_type_specification]
#[verifier::external_body]
pub struct ExRegex(regex::Regex);

#[verifier::external_type_specification]
#[verifier::external_body]
pub struct ExRegexError(regex::Error);

/// Whether a pattern is accepted by the regular expression compiler.
pub uninterp spec fn pattern_compiles(pattern: Seq<char>) -> bool;

/// Whether the compiled `pattern` matches somewhere in `text`.
pub uninterp spec fn pattern_matches(pattern: Seq<char>, text: Seq<char>) -> bool;

/// Relies on regex::Regex::new: whether a pattern compiles depends on the
/// pattern alone (the default size limit is fixed).
#[verifier::external_body]
fn compile_regex(pattern: &str) -> (r: Result<regex::Regex, regex::Error>)
    ensures
        r is Ok <==> pattern_compiles(pattern@),
{
    regex::Regex::new(pattern)
}

/// Relies on the Display impl of regex::Error for a readable message.
#[verifier::external_body]
fn regex_error_text(e: &regex::Error) -> (r: String) {
    e.to_string()
}

/// A compiled filter pattern, kept together with its source text.
#[derive(Debug)]
pub struct Matcher {
    pattern: String,
    regex: regex::Regex,
}

impl Matcher {
    /// The source text this matcher was compiled from.
    pub closed spec fn pattern(&self) -> Seq<char> {
        self.pattern@
    }

    /// Compiles `pattern`; on failure returns the compiler's message.
    pub fn compile(pattern: &str) -> (r: Result<Matcher, String>)
        ensures
            r is Ok <==> pattern_compiles(pattern@),
            r matches Ok(m) ==> m.pattern() == pattern@,
    {
        match compile_regex(pattern) {
            Ok(regex) => Ok(Matcher { pattern: String::from_str(pattern), regex }),
            Err(e) => Err(regex_error_text(&e)),
        }
    }

    /// The source text of the pattern.
    pub fn as_str(&self) -> (r: &str)
        ensures
            r@ == self.pattern(),
    {
        self.pattern.as_str()
    }

    /// Relies on regex::Regex::is_match. The `regex` field is only ever set by
    /// `compile`, from the text kept in `pattern`.
    #[verifier::external_body]
    pub(crate) fn is_match(&self, text: &str) -> (r: bool)
        ensures
            r == pattern_matches(self.pattern(), text@),
    {
        self.regex.is_match(text)
    }
}

/// The patterns of `ps` that compile, in their order.
pub open spec fn compiled_patterns(ps: Seq<Seq<char>>) -> Seq<Seq<char>>
    decreases ps.len(),
{
    if ps.len() == 0 {
        ps
    } else if pattern_compiles(ps.last()) {
        compiled_patterns(ps.drop_last()).push(ps.last())
    } else {
        compiled_patterns(ps.drop_last())
    }
}

/// The source texts of a list of matchers.
pub open spec fn patterns_of(ms: Seq<Matcher>) -> Seq<Seq<char>> {
    ms.map_values(|m: Matcher| m.pattern())
}

/// Whether some pattern of `ps` matches `label`.
pub open spec fn matches_any(ps: Seq<Seq<char>>, label: Seq<char>) -> bool {
    exists|i: int| 0 <= i < ps.len() && pattern_matches(#[trigger] ps[i], label)
}

/// `idx` lists, in increasing order, the positions in `full` of the
/// elements of `sub`.
pub open spec fn picks<T>(sub: Seq<T>, full: Seq<T>, idx: Seq<int>) -> bool {
    &&& idx.len() == sub.len()
    &&& forall|i: int, j: int| 0 <= i < j < idx.len() ==> idx[i] < idx[j]
    &&& forall|i: int|
        0 <= i < idx.len() ==> 0 <= #[trigger] idx[i] < full.len() && sub[i] == full[idx[i]]
}

/// Whether `sub` is `full` with some elements left out, order kept.
pub open spec fn is_subsequence<T>(sub: Seq<T>, full: Seq<T>) -> bool {
    exists|idx: Seq<int>| picks(sub, full, idx)
}

} // verus!
