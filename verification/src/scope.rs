//! The scope resolver: from a rule's glob list to a predicate over paths.
//!
//! Globs are parsed, combined and matched by the `globset` crate. Its two
//! collections are carried as opaque values; what they hold is named by
//! `builder_globs` and `set_globs`, and what the crate decides about a single
//! glob by `glob_parses` and `glob_matches`.

use globset::Glob;
use globset::GlobSet;
use globset::GlobSetBuilder;
use vstd::prelude::*;

verus! {

/// `globset::GlobSetBuilder`, the list of globs that are collected before a
/// set is built from them. It is carried as an opaque value.
#[verifier::external_type_specification]
#[verifier::external_body]
pub struct ExGlobSetBuilder(GlobSetBuilder);

/// `globset::GlobSet`, a set of globs that are matched in a single pass. It is
/// carried as an opaque value.
#[verifier::external_type_specification]
#[verifier::external_body]
pub struct ExGlobSet(GlobSet);

/// The glob patterns that were added to a builder, in the order added.
pub uninterp spec fn builder_globs(builder: GlobSetBuilder) -> Seq<Seq<char>>;

/// The glob patterns that a set was built from, by their sequence number.
pub uninterp spec fn set_globs(set: GlobSet) -> Seq<Seq<char>>;

/// Whether `Glob::new` accepts the pattern.
pub uninterp spec fn glob_parses(glob: Seq<char>) -> bool;

/// Whether `GlobSetBuilder::build` succeeds on a builder that holds these
/// patterns.
pub uninterp spec fn glob_set_builds(globs: Seq<Seq<char>>) -> bool;

/// Whether the glob, parsed with `globset`'s default options, matches the
/// path.
pub uninterp spec fn glob_matches(glob: Seq<char>, path: Seq<char>) -> bool;

/// `GlobSetBuilder::new`: a builder that holds no pattern.
#[verifier::external_body]
fn new_builder() -> (builder: GlobSetBuilder)
    ensures
        builder_globs(builder) == Seq::<Seq<char>>::empty(),
{
    GlobSetBuilder::new()
}

/// `Glob::new` followed by `GlobSetBuilder::add`: parses the pattern and, if
/// it parses, appends it to the builder. Returns whether it parsed; a pattern
/// that does not parse leaves the builder as it was.
#[verifier::external_body]
fn add_glob(builder: &mut GlobSetBuilder, glob: &str) -> (added: bool)
    ensures
        added == glob_parses(glob@),
        added ==> builder_globs(*final(builder)) == builder_globs(*old(builder)).push(glob@),
        !added ==> builder_globs(*final(builder)) == builder_globs(*old(builder)),
{
    match Glob::new(glob) {
        Ok(parsed) => {
            builder.add(parsed);
            true
        },
        Err(_) => false,
    }
}

/// `GlobSetBuilder::build`: the set of the builder's patterns, numbered in
/// the order added, or nothing if the set cannot be built.
#[verifier::external_body]
fn build_set(builder: &GlobSetBuilder) -> (set: Option<GlobSet>)
    ensures
        set is Some <==> glob_set_builds(builder_globs(*builder)),
        set matches Some(s) ==> set_globs(s) == builder_globs(*builder),
{
    match builder.build() {
        Ok(set) => Some(set),
        Err(_) => None,
    }
}

/// `GlobSet::matches`: the sequence numbers of exactly those patterns of the
/// set that match the path.
#[verifier::external_body]
fn set_matches(set: &GlobSet, path: &str) -> (hits: Vec<usize>)
    ensures
        forall|k: int| 0 <= k < hits.len() ==> (#[trigger] hits[k]) < set_globs(*set).len(),
        forall|i: int|
            0 <= i < set_globs(*set).len() ==> hits@.contains(i as usize) == #[trigger] glob_matches(
                set_globs(*set)[i],
                path@,
            ),
{
    set.matches(path)
}

/// Mathematical model of a [`ScopeError`].
pub enum ScopeErrorModel {
    InvalidGlob(Seq<char>),
    Unbuildable,
}

/// Why a rule's scope could not be resolved.
#[derive(Debug, PartialEq, Eq)]
pub enum ScopeError {
    /// A glob of the list does not parse; carries the offending pattern.
    InvalidGlob(String),
    /// Every glob parses, but the set of them cannot be built.
    Unbuildable,
}

impl View for ScopeError {
    type V = ScopeErrorModel;

    open spec fn view(&self) -> ScopeErrorModel {
        match self {
            ScopeError::InvalidGlob(glob) => ScopeErrorModel::InvalidGlob(glob@),
            ScopeError::Unbuildable => ScopeErrorModel::Unbuildable,
        }
    }
}

/// Whether `i` is the first glob of `globs` that does not parse.
pub open spec fn first_invalid_glob(globs: Seq<Seq<char>>, i: int) -> bool {
    &&& 0 <= i < globs.len()
    &&& !glob_parses(globs[i])
    &&& forall|j: int| 0 <= j < i ==> glob_parses(#[trigger] globs[j])
}

/// Whether every glob of `globs` parses.
pub open spec fn all_globs_parse(globs: Seq<Seq<char>>) -> bool {
    forall|j: int| 0 <= j < globs.len() ==> glob_parses(#[trigger] globs[j])
}

/// What resolving a glob list yields: the list itself if every glob parses
/// and the set can be built; otherwise the first glob that does not parse, or
/// `Unbuildable`.
pub open spec fn resolve_list(globs: Seq<Seq<char>>) -> Result<
    Option<Seq<Seq<char>>>,
    ScopeErrorModel,
> {
    if !all_globs_parse(globs) {
        Err(ScopeErrorModel::InvalidGlob(globs[choose|i: int| first_invalid_glob(globs, i)]))
    } else if !glob_set_builds(globs) {
        Err(ScopeErrorModel::Unbuildable)
    } else {
        Ok(Some(globs))
    }
}

/// What resolving a rule's scope yields. No glob list means no restriction.
pub open spec fn resolve_spec(globs: Option<Seq<Seq<char>>>) -> Result<
    Option<Seq<Seq<char>>>,
    ScopeErrorModel,
> {
    match globs {
        None => Ok(None),
        Some(list) => resolve_list(list),
    }
}

/// Whether any glob of the list matches the path.
pub open spec fn any_glob_matches(globs: Seq<Seq<char>>, path: Seq<char>) -> bool {
    exists|i: int| 0 <= i < globs.len() && #[trigger] glob_matches(globs[i], path)
}

/// Whether a scope accepts a path: always if there is no glob list, else if
/// any glob of the list matches.
pub open spec fn scope_accepts(scope: Option<Seq<Seq<char>>>, path: Seq<char>) -> bool {
    match scope {
        None => true,
        Some(globs) => any_glob_matches(globs, path),
    }
}

/// A predicate over file paths: everything, or what a set of globs matches.
pub struct Scope {
    set: Option<GlobSet>,
}

impl View for Scope {
    type V = Option<Seq<Seq<char>>>;

    closed spec fn view(&self) -> Option<Seq<Seq<char>>> {
        match self.set {
            None => None,
            Some(set) => Some(set_globs(set)),
        }
    }
}

/// Mathematical model of a resolution result.
pub open spec fn resolved_view(r: Result<Scope, ScopeError>) -> Result<
    Option<Seq<Seq<char>>>,
    ScopeErrorModel,
> {
    match r {
        Ok(scope) => Ok(scope@),
        Err(e) => Err(e@),
    }
}

impl Scope {
    /// Resolves a rule's glob list.
    pub fn resolve(globs: &Option<Vec<String>>) -> (r: Result<Scope, ScopeError>)
        ensures
            resolved_view(r) == resolve_spec(globs.deep_view()),
    {
        let list = match globs {
            None => {
                return Ok(Scope { set: None });
            },
            Some(list) => list,
        };
        let ghost model = list.deep_view();
        let mut builder = new_builder();
        let mut i: usize = 0;
        while i < list.len()
            invariant
                i <= list.len(),
                model == list.deep_view(),
                globs.deep_view() == Some(model),
                builder_globs(builder) == model.take(i as int),
                forall|j: int| 0 <= j < i ==> glob_parses(#[trigger] model[j]),
            decreases list.len() - i,
        {
            let glob = &list[i];
            assert(model[i as int] == glob@);
            if !add_glob(&mut builder, glob.as_str()) {
                assert(first_invalid_glob(model, i as int));
                let ghost chosen = choose|k: int| first_invalid_glob(model, k);
                assert(chosen == i);
                return Err(ScopeError::InvalidGlob(glob.clone()));
            }
            assert(model.take(i as int).push(model[i as int]) =~= model.take(i + 1));
            i = i + 1;
        }
        assert(model.take(i as int) =~= model);
        match build_set(&builder) {
            Some(set) => Ok(Scope { set: Some(set) }),
            None => Err(ScopeError::Unbuildable),
        }
    }

    /// Whether the scope accepts the path.
    pub fn accepts(&self, path: &str) -> (b: bool)
        ensures
            b == scope_accepts(self@, path@),
    {
        match &self.set {
            None => true,
            Some(set) => {
                let hits = set_matches(set, path);
                if hits.len() > 0 {
                    assert(hits@.contains(hits@[0]));
                    assert(glob_matches(set_globs(*set)[hits@[0] as int], path@));
                    true
                } else {
                    false
                }
            },
        }
    }
}

} // verus!
