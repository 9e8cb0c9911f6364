//! The shared application state: the cached collection, the most recent
//! pipeline result and the advisory in-flight flags.
//!
//! Every mutation is a short, all-or-nothing replacement of one field; the
//! contracts here pin each replacement down exactly, and the well-formedness
//! predicate states the id-uniqueness invariant of the cached collection.

use vstd::prelude::*;
use crate::domain::Artifact;
use crate::domain::ArtifactView;

verus! {

/// The single shared state container.  The UI observes it read-only; the
/// pipeline and the synchronizer mutate it through the operations of this
/// crate.
pub struct AppState {
    /// The cached collection, in display order.
    pub artifacts: Vec<Artifact>,
    /// The most recent pipeline output, shown in the dedicated result view.
    pub current_artifact: Option<Artifact>,
    /// Initial listing fetch in flight.
    pub loading: bool,
    /// Upload pipeline run in flight.
    pub analyzing: bool,
    /// Search in flight.
    pub searching: bool,
}

/// Every persisted artifact occurs at most once per id.
pub open spec fn ids_unique(s: Seq<Artifact>) -> bool {
    forall|i: int, j: int|
        0 <= i < j < s.len() && (#[trigger] s[i]).id is Some ==> s[i].id != (#[trigger] s[j]).id
}

/// The same uniqueness, read off the mathematical views.
pub open spec fn view_ids_unique(s: Seq<ArtifactView>) -> bool {
    forall|i: int, j: int|
        0 <= i < j < s.len() && (#[trigger] s[i]).id is Some ==> s[i].id != (#[trigger] s[j]).id
}

/// No entry of `s` that carries `c`'s id differs from `c` in contents.
pub open spec fn no_divergent_copy(s: Seq<Artifact>, c: Artifact) -> bool {
    forall|i: int| 0 <= i < s.len() && (#[trigger] s[i]).id == c.id ==> s[i]@ == c@
}

impl AppState {
    /// Well-formedness: persisted entries are unique by id, and a persisted
    /// current result does not diverge from its counterpart in the
    /// collection.
    pub open spec fn wf(self) -> bool {
        &&& ids_unique(self.artifacts@)
        &&& match self.current_artifact {
            Some(c) => c.id is Some ==> no_divergent_copy(self.artifacts@, c),
            None => true,
        }
    }

    /// The empty state: nothing cached, nothing in flight.
    pub fn new() -> (s: AppState)
        ensures
            s.artifacts@.len() == 0,
            s.current_artifact is None,
            !s.loading,
            !s.analyzing,
            !s.searching,
            s.wf(),
    {
        AppState {
            artifacts: Vec::new(),
            current_artifact: None,
            loading: false,
            analyzing: false,
            searching: false,
        }
    }

    /// Number of artifacts shown by the archive view; no filter is applied,
    /// so the filtered count equals the total.
    pub fn compute_filtered_count(&self) -> (n: usize)
        ensures
            n == self.artifacts@.len(),
    {
        self.artifacts.len()
    }
}

/// Committing a freshly persisted artifact keeps the collection unique by
/// id and leaves no divergent copy: the appended entry carries an id no
/// existing entry has, and the copy shown as the current result has the
/// same contents.
pub proof fn lemma_commit_preserves_wf(s: Seq<Artifact>, a: Artifact, c: Artifact)
    requires
        ids_unique(s),
        forall|k: int| 0 <= k < s.len() ==> (#[trigger] s[k]).id != a.id,
        c@ == a@,
    ensures
        ids_unique(s.push(a)),
        no_divergent_copy(s.push(a), c),
{
    assert forall|i: int, j: int|
        0 <= i < j < s.push(a).len() && (#[trigger] s.push(a)[i]).id is Some implies s.push(a)[i].id
        != (#[trigger] s.push(a)[j]).id by {
        if j < s.len() {
            assert(s.push(a)[i] == s[i]);
            assert(s.push(a)[j] == s[j]);
        } else {
            assert(s.push(a)[i] == s[i]);
            assert(s.push(a)[j] == a);
        }
    }
    assert forall|i: int| 0 <= i < s.push(a).len() && (#[trigger] s.push(a)[i]).id == c.id implies s.push(
        a,
    )[i]@ == c@ by {
        if i < s.len() {
            assert(s.push(a)[i] == s[i]);
            assert(c.id == a.id);
        } else {
            assert(s.push(a)[i] == a);
        }
    }
}

} // verus!
