//! Compiled search patterns.
//!
//! Searching is done by the `regex` crate. What is stated here of its
//! functions is taken on trust from its documentation; everything built on
//! top of them is proved.
use vstd::prelude::*;

verus! {

/// `regex::Regex`, a compiled pattern. Nothing is known of what is in it.
#[verifier::external_type_specification]
#[verifier::external_body]
pub struct ExRegex(regex::Regex);

/// `regex::Error`, why a pattern was refused. Nothing is known of what is in
/// it.
#[verifier::external_type_specification]
#[verifier::external_body]
pub struct ExRegexError(regex::Error);

/// The places of one match in a text: for each group of the pattern, the
/// byte offsets at which it begins and ends, or nothing if the group took no
/// part. The first group is the whole match.
pub type Spans = Vec<Option<(usize, usize)>>;

/// Whether `source` is a pattern that the engine accepts: one that is well
/// formed and that, compiled, stays within the size that the engine allows.
pub uninterp spec fn is_pattern(source: Seq<char>) -> bool;

/// The text that a compiled pattern was made from, which it keeps and gives
/// back as `regex::Regex::as_str`.
pub uninterp spec fn source_of(engine: regex::Regex) -> Seq<char>;

/// The names of the groups of the pattern `source`, in the order of their
/// opening brackets; an unnamed group has no name. The first entry stands for
/// the whole match.
pub uninterp spec fn group_names(source: Seq<char>) -> Seq<Option<Seq<char>>>;

/// The successive matches of the pattern `source` in `text`, none of which
/// overlaps another, from left to right.
pub uninterp spec fn matches_in(source: Seq<char>, text: Seq<char>) -> Seq<
    Seq<Option<(usize, usize)>>,
>;

/// `regex::Regex::new`: compiles a pattern, or refuses it. Whether a pattern
/// is accepted depends on the pattern alone, and the compiled pattern
/// remembers what it was made from.
#[verifier::external_body]
pub(crate) fn compile(source: &str) -> (made: Result<regex::Regex, regex::Error>)
    ensures
        made is Ok <==> is_pattern(source@),
        made matches Ok(engine) ==> source_of(engine) == source@,
{
    regex::Regex::new(source)
}

/// `regex::Regex::capture_names`: the name of each group, in order. The
/// result depends on the pattern alone.
#[verifier::external_body]
pub(crate) fn names_of(engine: &regex::Regex) -> (names: Vec<Option<String>>)
    ensures
        names.deep_view() == group_names(source_of(*engine)),
{
    engine.capture_names().map(|name| name.map(|text| text.to_string())).collect()
}

/// `regex::Regex::captures_iter`: every match of the pattern in the text,
/// each as the byte offsets of its groups. The result depends on the pattern
/// and the text alone.
#[verifier::external_body]
pub(crate) fn find_all(engine: &regex::Regex, text: &str) -> (found: Vec<Spans>)
    ensures
        found.deep_view() == matches_in(source_of(*engine), text@),
{
    engine
        .captures_iter(text)
        .map(|found| found.iter().map(|group| group.map(|at| (at.start(), at.end()))).collect())
        .collect()
}

} // verus!
