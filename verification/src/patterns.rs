//! Include/exclude glob pattern sets, compiled through the `globset` crate.
//!
//! A `PatternSet` is compiled once from an ordered list of glob pattern
//! strings and then reused for every match; compiling per file is
//! disallowed. Compilation failure of any pattern is a terminal
//! construction error carrying the offending pattern, so no partially
//! compiled set ever exists.
//!
//! What a glob means is delegated to `globset`: the verdict of one pattern
//! on one path is named by the uninterpreted function `glob_matches`, and a
//! compiled set matches exactly when some pattern of it matches.

use vstd::prelude::*;

verus! {

/// Whether the glob `pattern`, compiled with globset's default options,
/// matches `path`. The verdict depends on the two strings alone.
pub uninterp spec fn glob_matches(pattern: Seq<char>, path: Seq<char>) -> bool;

/// Whether globset accepts `pattern` as a well-formed glob; parsing is a
/// function of the pattern string alone.
pub uninterp spec fn glob_accepts(pattern: Seq<char>) -> bool;

/// The pattern string a compiled `globset::Glob` holds.
pub uninterp spec fn glob_pattern(g: globset::Glob) -> Seq<char>;

/// The pattern strings a `globset::GlobSetBuilder` holds so far, in the
/// order they were added.
pub uninterp spec fn glob_builder_patterns(b: globset::GlobSetBuilder) -> Seq<Seq<char>>;

/// The pattern strings a compiled `globset::GlobSet` holds, in order.
pub uninterp spec fn glob_set_patterns(gs: globset::GlobSet) -> Seq<Seq<char>>;

/// Whether globset can assemble the accepted patterns into one matcher;
/// assembly is a function of the pattern list alone.
pub uninterp spec fn glob_set_buildable(patterns: Seq<Seq<char>>) -> bool;

#[verifier::external_type_specification]
#[verifier::external_body]
pub struct ExGlob(globset::Glob);

#[verifier::external_type_specification]
#[verifier::external_body]
pub struct ExGlobSet(globset::GlobSet);

#[verifier::external_type_specification]
#[verifier::external_body]
pub struct ExGlobSetBuilder(globset::GlobSetBuilder);

#[verifier::external_type_specification]
#[verifier::external_body]
pub struct ExGlobError(globset::Error);

/// Relies on globset::Glob::new: parses `pattern` with default options;
/// success and the compiled glob depend on the pattern string alone, and
/// the compiled glob holds the pattern it was parsed from.
#[verifier::external_body]
fn glob_new(pattern: &str) -> (r: Result<globset::Glob, globset::Error>)
    ensures
        r is Ok <==> glob_accepts(pattern@),
        r matches Ok(g) ==> glob_pattern(g) == pattern@,
{
    globset::Glob::new(pattern)
}

/// Relies on globset::GlobSetBuilder::new: starts from an empty pattern
/// list.
#[verifier::external_body]
fn glob_builder_new() -> (r: globset::GlobSetBuilder)
    ensures
        glob_builder_patterns(r) == Seq::<Seq<char>>::empty(),
{
    globset::GlobSetBuilder::new()
}

/// Relies on globset::GlobSetBuilder::add: appends one glob to the list
/// the builder holds.
#[verifier::external_body]
fn glob_builder_add(b: &mut globset::GlobSetBuilder, g: globset::Glob)
    ensures
        glob_builder_patterns(*final(b)) == glob_builder_patterns(*old(b)).push(glob_pattern(g)),
{
    b.add(g);
}

/// Relies on globset::GlobSetBuilder::build: assembles the added globs
/// into one matcher holding exactly those patterns; success depends on the
/// pattern list alone.
#[verifier::external_body]
fn glob_builder_build(b: &globset::GlobSetBuilder) -> (r: Result<
    globset::GlobSet,
    globset::Error,
>)
    ensures
        r is Ok <==> glob_set_buildable(glob_builder_patterns(*b)),
        r matches Ok(gs) ==> glob_set_patterns(gs) == glob_builder_patterns(*b),
{
    b.build()
}

/// Relies on globset::GlobSet::is_match: true exactly when at least one
/// glob of the set matches the path.
#[verifier::external_body]
fn glob_set_is_match(gs: &globset::GlobSet, path: &str) -> (r: bool)
    ensures
        r == (exists|i: int|
            0 <= i < glob_set_patterns(*gs).len() && glob_matches(
                #[trigger] glob_set_patterns(*gs)[i],
                path@,
            )),
{
    gs.is_match(path)
}

/// Relies on the Display impl of globset::Error for a human-readable
/// description of why a pattern was rejected.
#[verifier::external_body]
fn glob_error_string(e: &globset::Error) -> (r: String) {
    format!("{}", e)
}

/// A list of patterns matches a path when at least one of them does.
pub open spec fn set_matches(patterns: Seq<Seq<char>>, path: Seq<char>) -> bool {
    exists|i: int| 0 <= i < patterns.len() && glob_matches(#[trigger] patterns[i], path)
}

/// Every pattern of the list is a well-formed glob.
pub open spec fn all_accepted(patterns: Seq<Seq<char>>) -> bool {
    forall|i: int| 0 <= i < patterns.len() ==> glob_accepts(#[trigger] patterns[i])
}

/// The pattern list compiles: every pattern parses and the set assembles.
pub open spec fn compiles(patterns: Seq<Seq<char>>) -> bool {
    all_accepted(patterns) && glob_set_buildable(patterns)
}

/// Index of the first pattern the glob parser rejects.
pub open spec fn first_rejected(patterns: Seq<Seq<char>>) -> int
    decreases patterns.len(),
{
    if patterns.len() == 0 {
        0
    } else if !glob_accepts(patterns[0]) {
        0
    } else {
        1 + first_rejected(patterns.drop_first())
    }
}

proof fn lemma_first_rejected_at(patterns: Seq<Seq<char>>, i: int)
    requires
        0 <= i < patterns.len(),
        forall|j: int| 0 <= j < i ==> glob_accepts(#[trigger] patterns[j]),
        !glob_accepts(patterns[i]),
    ensures
        first_rejected(patterns) == i,
    decreases i,
{
    if i == 0 {
    } else {
        assert(glob_accepts(patterns[0]));
        lemma_first_rejected_at(patterns.drop_first(), i - 1);
    }
}

/// Why a pattern list could not be compiled.
#[derive(Debug, Clone)]
pub enum ConfigError {
    /// The glob parser rejected `pattern`; it is the first rejected
    /// pattern of its list, and `reason` is the parser's description.
    BadPattern { pattern: String, reason: String },
    /// Every pattern parsed, but the set could not be assembled.
    BuildFailed { reason: String },
}

/// Exactly which compilation failure of `patterns` an error reports.
pub open spec fn config_error_describes(e: ConfigError, patterns: Seq<Seq<char>>) -> bool {
    match e {
        ConfigError::BadPattern { pattern, .. } => {
            &&& !glob_accepts(pattern@)
            &&& 0 <= first_rejected(patterns) < patterns.len()
            &&& pattern@ == patterns[first_rejected(patterns)]
        },
        ConfigError::BuildFailed { .. } => all_accepted(patterns) && !glob_set_buildable(
            patterns,
        ),
    }
}

/// An include or exclude pattern list, compiled once into one matcher.
pub struct PatternSet {
    set: globset::GlobSet,
    patterns: Ghost<Seq<Seq<char>>>,
}

impl PatternSet {
    /// The pattern list this set was compiled from.
    pub closed spec fn patterns(&self) -> Seq<Seq<char>> {
        self.patterns@
    }

    /// The compiled matcher holds exactly the patterns it was built from.
    pub closed spec fn wf(&self) -> bool {
        glob_set_patterns(self.set) == self.patterns@
    }

    /// Compiles an ordered pattern list; fails on the first rejected
    /// pattern, so no partially compiled set ever exists.
    pub fn compile(patterns: &Vec<String>) -> (r: Result<PatternSet, ConfigError>)
        ensures
            r is Ok <==> compiles(patterns.deep_view()),
            r matches Ok(ps) ==> ps.wf() && ps.patterns() == patterns.deep_view(),
            r matches Err(e) ==> config_error_describes(e, patterns.deep_view()),
    {
        let ghost pats = patterns.deep_view();
        let mut builder = glob_builder_new();
        let mut i: usize = 0;
        while i < patterns.len()
            invariant
                pats == patterns.deep_view(),
                0 <= i <= patterns.len(),
                glob_builder_patterns(builder) == pats.take(i as int),
                forall|j: int| 0 <= j < i ==> glob_accepts(#[trigger] pats[j]),
            decreases patterns.len() - i,
        {
            assert(pats[i as int] == patterns@[i as int]@);
            match glob_new(patterns[i].as_str()) {
                Ok(g) => {
                    glob_builder_add(&mut builder, g);
                    proof {
                        assert(pats.take(i as int).push(pats[i as int]) =~= pats.take(
                            i as int + 1,
                        ));
                    }
                },
                Err(e) => {
                    proof {
                        lemma_first_rejected_at(pats, i as int);
                    }
                    let reason = glob_error_string(&e);
                    return Err(ConfigError::BadPattern { pattern: patterns[i].clone(), reason });
                },
            }
            i += 1;
        }
        proof {
            assert(pats.take(patterns.len() as int) =~= pats);
        }
        match glob_builder_build(&builder) {
            Ok(set) => Ok(PatternSet { set, patterns: Ghost(pats) }),
            Err(e) => {
                let reason = glob_error_string(&e);
                Err(ConfigError::BuildFailed { reason })
            },
        }
    }

    /// Whether any pattern of the set matches `path`.
    pub fn matches(&self, path: &str) -> (r: bool)
        requires
            self.wf(),
        ensures
            r == set_matches(self.patterns(), path@),
    {
        glob_set_is_match(&self.set, path)
    }
}

} // verus!
