//! The collection synchronizer: loading, searching and deleting against the
//! remote store, and reconciling the cached collection.
//!
//! Loads and searches replace the collection wholesale — the remote store is
//! the source of truth for listings.  A delete removes the local entry only
//! after the remote store has acknowledged it; a failed delete leaves the
//! state exactly as it was.

use vstd::prelude::*;
use crate::domain::ApiArtifact;
use crate::domain::AppError;
use crate::domain::Artifact;
use crate::domain::ArtifactView;
use crate::domain::clone_opt_string;
use crate::domain::clone_string_vec;
use crate::state::AppState;
use crate::state::ids_unique;
use crate::state::no_divergent_copy;
use crate::state::view_ids_unique;
use crate::tags::extract_era_from_api_artifact;
use crate::tags::spec_era_from_api_artifact;

verus! {

/// The domain artifact a listing entry maps to: absent description, image
/// and confidence default to empty or zero, provenance of the local
/// analysis is absent, and the era classification is derived only when the
/// engine is configured with that step.
pub open spec fn spec_convert(a: ApiArtifact, classify: bool) -> ArtifactView {
    ArtifactView {
        id: Some(a.id),
        name: a.name@,
        description: match a.description {
            Some(d) => d@,
            None => Seq::empty(),
        },
        era: if classify {
            Some(spec_era_from_api_artifact(a))
        } else {
            None
        },
        tags: a.tags.deep_view(),
        tier: a.tier@,
        image_data: match a.image_data {
            Some(s) => s@,
            None => Seq::empty(),
        },
        thumbnail: match a.thumbnail {
            Some(t) => Some(t@),
            None => None,
        },
        uploaded_at: match a.uploaded_at {
            Some(t) => Some(t@),
            None => None,
        },
        analyzed_at: match a.analyzed_at {
            Some(t) => Some(t@),
            None => None,
        },
        confidence: match a.confidence {
            Some(c) => c,
            None => 0,
        },
        method: None,
        analysis_time: None,
    }
}

/// Map one listing entry to the domain artifact.
pub fn convert_api_artifact_to_domain(api: &ApiArtifact, classify: bool) -> (a: Artifact)
    ensures
        a@ == spec_convert(*api, classify),
{
    let era = if classify {
        Some(extract_era_from_api_artifact(api))
    } else {
        None
    };
    let a = Artifact {
        id: Some(api.id),
        name: api.name.clone(),
        description: match &api.description {
            Some(d) => d.clone(),
            None => String::new(),
        },
        era,
        tags: clone_string_vec(&api.tags),
        tier: api.tier.clone(),
        image_data: match &api.image_data {
            Some(s) => s.clone(),
            None => String::new(),
        },
        thumbnail: clone_opt_string(&api.thumbnail),
        uploaded_at: clone_opt_string(&api.uploaded_at),
        analyzed_at: clone_opt_string(&api.analyzed_at),
        confidence: match api.confidence {
            Some(c) => c,
            None => 0,
        },
        method: None,
        analysis_time: None,
    };
    proof {
        assert(a@ =~~= spec_convert(*api, classify));
    }
    a
}

/// A whole listing, mapped in order.
pub open spec fn spec_converted(listing: Seq<ApiArtifact>, classify: bool) -> Seq<ArtifactView> {
    listing.map_values(|x: ApiArtifact| spec_convert(x, classify))
}

/// The collection a load leaves behind for a given remote listing.
pub open spec fn spec_load_collection(listing: Seq<ApiArtifact>, classify: bool) -> Seq<
    ArtifactView,
> {
    spec_converted(listing, classify)
}

/// The collection a search leaves behind for a given remote listing.
pub open spec fn spec_search_collection(listing: Seq<ApiArtifact>, classify: bool) -> Seq<
    ArtifactView,
> {
    spec_converted(listing, classify)
}

/// Map a whole listing to domain artifacts.
fn convert_listing(listing: &Vec<ApiArtifact>, classify: bool) -> (out: Vec<Artifact>)
    ensures
        out.deep_view() == spec_converted(listing@, classify),
{
    let mut out: Vec<Artifact> = Vec::new();
    let n = listing.len();
    let mut i: usize = 0;
    while i < n
        invariant
            n == listing@.len(),
            i <= n,
            out@.len() == i,
            forall|m: int|
                0 <= m < i ==> (#[trigger] out@[m])@ == spec_convert(listing@[m], classify),
        decreases n - i,
    {
        let a = convert_api_artifact_to_domain(&listing[i], classify);
        out.push(a);
        i += 1;
    }
    proof {
        assert(out.deep_view() =~= spec_converted(listing@, classify));
    }
    out
}

/// What a submitted query asks of the remote store: the full listing for an
/// empty query — empty means "show everything" — and a scoped search
/// otherwise.
pub enum FetchPlan {
    All,
    Query(String),
}

/// Decide which fetch a query calls for.
pub fn plan_search(query: &str) -> (p: FetchPlan)
    ensures
        query@.len() == 0 ==> p is All,
        query@.len() > 0 ==> (p matches FetchPlan::Query(q) && q@ == query@),
{
    if query.is_empty() {
        FetchPlan::All
    } else {
        FetchPlan::Query(query.to_owned())
    }
}

/// Raise the loading flag before the initial listing fetch.
pub fn begin_load(state: &mut AppState)
    ensures
        *final(state) == (AppState { loading: true, ..*old(state) }),
{
    state.loading = true;
}

/// Raise the searching flag before a search fetch.
pub fn begin_search(state: &mut AppState)
    ensures
        *final(state) == (AppState { searching: true, ..*old(state) }),
{
    state.searching = true;
}

/// Apply the outcome of a listing fetch made by a load.  Success replaces
/// the collection wholesale; failure leaves it untouched.  The loading flag
/// is down afterwards either way.
pub fn apply_load_outcome(
    state: &mut AppState,
    outcome: Result<Vec<ApiArtifact>, AppError>,
    classify: bool,
) -> (r: Result<(), AppError>)
    ensures
        !final(state).loading,
        final(state).analyzing == old(state).analyzing,
        final(state).searching == old(state).searching,
        final(state).current_artifact == old(state).current_artifact,
        match outcome {
            Ok(listing) => final(state).artifacts.deep_view() == spec_load_collection(
                listing@,
                classify,
            ) && r is Ok,
            Err(e) => final(state).artifacts == old(state).artifacts && r == Result::<
                (),
                AppError,
            >::Err(e),
        },
{
    match outcome {
        Ok(listing) => {
            state.artifacts = convert_listing(&listing, classify);
            state.loading = false;
            Ok(())
        },
        Err(e) => {
            state.loading = false;
            Err(e)
        },
    }
}

/// Apply the outcome of a search fetch.  Success replaces the collection
/// with the mapped results; failure leaves it untouched.  The searching
/// flag is down afterwards either way.
pub fn apply_search_outcome(
    state: &mut AppState,
    outcome: Result<Vec<ApiArtifact>, AppError>,
    classify: bool,
) -> (r: Result<(), AppError>)
    ensures
        !final(state).searching,
        final(state).analyzing == old(state).analyzing,
        final(state).loading == old(state).loading,
        final(state).current_artifact == old(state).current_artifact,
        match outcome {
            Ok(listing) => final(state).artifacts.deep_view() == spec_search_collection(
                listing@,
                classify,
            ) && r is Ok,
            Err(e) => final(state).artifacts == old(state).artifacts && r == Result::<
                (),
                AppError,
            >::Err(e),
        },
{
    match outcome {
        Ok(listing) => {
            state.artifacts = convert_listing(&listing, classify);
            state.searching = false;
            Ok(())
        },
        Err(e) => {
            state.searching = false;
            Err(e)
        },
    }
}

/// An empty query fetches the full listing, exactly as a load does, and the
/// two paths map a listing identically: given the same remote state they
/// leave the same collection behind.
pub proof fn lemma_empty_search_equals_load(listing: Seq<ApiArtifact>, classify: bool)
    ensures
        spec_search_collection(listing, classify) == spec_load_collection(listing, classify),
{
}

/// The collection with every entry carrying `artifact_id` removed and the
/// rest kept in order.
pub open spec fn spec_without_id(s: Seq<Artifact>, artifact_id: i32) -> Seq<Artifact> {
    s.filter(|a: Artifact| a.id != Some(artifact_id))
}

/// Apply the outcome of a remote delete.  Only an acknowledged delete
/// removes the matching entry; on failure the whole state — the entry's
/// field values included — is exactly what it was before the call.
pub fn apply_delete_outcome(
    state: &mut AppState,
    artifact_id: i32,
    outcome: Result<(), AppError>,
) -> (r: Result<(), AppError>)
    ensures
        match outcome {
            Ok(_) => {
                &&& final(state).artifacts@ == spec_without_id(old(state).artifacts@, artifact_id)
                &&& final(state).current_artifact == old(state).current_artifact
                &&& final(state).loading == old(state).loading
                &&& final(state).analyzing == old(state).analyzing
                &&& final(state).searching == old(state).searching
                &&& (old(state).wf() ==> final(state).wf())
                &&& r is Ok
            },
            Err(e) => *final(state) == *old(state) && r == Result::<(), AppError>::Err(e),
        },
{
    match outcome {
        Ok(_) => {
            remove_by_id(&mut state.artifacts, artifact_id);
            proof {
                if old(state).wf() {
                    lemma_delete_preserves_unique(old(state).artifacts@, artifact_id);
                    match old(state).current_artifact {
                        Some(c) => {
                            if c.id is Some {
                                lemma_delete_preserves_no_divergence(
                                    old(state).artifacts@,
                                    c,
                                    artifact_id,
                                );
                            }
                        },
                        None => {},
                    }
                }
            }
            Ok(())
        },
        Err(e) => Err(e),
    }
}

/// Every entry surviving a delete is one of the original entries.
proof fn lemma_without_id_membership(s: Seq<Artifact>, artifact_id: i32, k: int)
    requires
        0 <= k < spec_without_id(s, artifact_id).len(),
    ensures
        exists|m: int| 0 <= m < s.len() && s[m] == spec_without_id(s, artifact_id)[k],
    decreases s.len(),
{
    reveal(Seq::filter);
    if s.len() > 0 {
        let sub = spec_without_id(s.drop_last(), artifact_id);
        if k < sub.len() {
            lemma_without_id_membership(s.drop_last(), artifact_id, k);
            let m = choose|m: int|
                0 <= m < s.drop_last().len() && s.drop_last()[m] == sub[k];
            assert(s[m] == spec_without_id(s, artifact_id)[k]);
        } else {
            assert(spec_without_id(s, artifact_id)[k] == s[s.len() - 1]);
        }
    }
}

/// A delete keeps the collection unique by id.
pub proof fn lemma_delete_preserves_unique(s: Seq<Artifact>, artifact_id: i32)
    requires
        ids_unique(s),
    ensures
        ids_unique(spec_without_id(s, artifact_id)),
    decreases s.len(),
{
    reveal(Seq::filter);
    if s.len() > 0 {
        let s1 = s.drop_last();
        assert forall|i: int, j: int|
            0 <= i < j < s1.len() && (#[trigger] s1[i]).id is Some implies s1[i].id != (
        #[trigger] s1[j]).id by {
            assert(s1[i] == s[i]);
            assert(s1[j] == s[j]);
        }
        lemma_delete_preserves_unique(s1, artifact_id);
        let sub = spec_without_id(s1, artifact_id);
        let out = spec_without_id(s, artifact_id);
        if s.last().id != Some(artifact_id) {
            assert(out == sub.push(s.last()));
            assert forall|i: int, j: int|
                0 <= i < j < out.len() && (#[trigger] out[i]).id is Some implies out[i].id != (
            #[trigger] out[j]).id by {
                if j < sub.len() {
                    assert(out[i] == sub[i]);
                    assert(out[j] == sub[j]);
                } else {
                    assert(out[i] == sub[i]);
                    assert(out[j] == s.last());
                    lemma_without_id_membership(s1, artifact_id, i);
                    let m = choose|m: int| 0 <= m < s1.len() && s1[m] == sub[i];
                    assert(s[m] == s1[m]);
                    assert(s[m].id is Some ==> s[m].id != s[s.len() - 1].id);
                }
            }
        }
    }
}

/// A delete leaves no divergent copy behind: every surviving entry is an
/// original entry, so one that carries the current result's id still agrees
/// with it.
pub proof fn lemma_delete_preserves_no_divergence(s: Seq<Artifact>, c: Artifact, artifact_id: i32)
    requires
        no_divergent_copy(s, c),
    ensures
        no_divergent_copy(spec_without_id(s, artifact_id), c),
{
    let out = spec_without_id(s, artifact_id);
    assert forall|i: int| 0 <= i < out.len() && (#[trigger] out[i]).id == c.id implies out[i]@
        == c@ by {
        lemma_without_id_membership(s, artifact_id, i);
        let m = choose|m: int| 0 <= m < s.len() && s[m] == out[i];
        assert(s[m].id == c.id ==> s[m]@ == c@);
    }
}

/// Whether a remote listing is unique by id.
pub open spec fn listing_ids_unique(l: Seq<ApiArtifact>) -> bool {
    forall|i: int, j: int|
        0 <= i < j < l.len() ==> (#[trigger] l[i]).id != (#[trigger] l[j]).id
}

/// A listing unique by id maps to a collection unique by id: the mapped
/// entry keeps exactly the listing entry's id.
pub proof fn lemma_load_collection_ids_unique(l: Seq<ApiArtifact>, classify: bool)
    requires
        listing_ids_unique(l),
    ensures
        view_ids_unique(spec_load_collection(l, classify)),
{
    let out = spec_load_collection(l, classify);
    assert forall|i: int, j: int|
        0 <= i < j < out.len() && (#[trigger] out[i]).id is Some implies out[i].id != (
    #[trigger] out[j]).id by {
        assert(out[i] == spec_convert(l[i], classify));
        assert(out[j] == spec_convert(l[j], classify));
    }
}

/// A collection whose views are unique by id is unique by id itself.
pub proof fn lemma_ids_unique_from_views(v: &Vec<Artifact>)
    requires
        view_ids_unique(v.deep_view()),
    ensures
        ids_unique(v@),
{
    assert forall|i: int, j: int|
        0 <= i < j < v@.len() && (#[trigger] v@[i]).id is Some implies v@[i].id != (
    #[trigger] v@[j]).id by {
        assert(v.deep_view()[i] == v@[i]@);
        assert(v.deep_view()[j] == v@[j]@);
    }
}

/// After an acknowledged delete, no remaining entry carries the deleted id.
pub proof fn lemma_delete_removes_id(s: Seq<Artifact>, artifact_id: i32)
    ensures
        forall|i: int|
            0 <= i < spec_without_id(s, artifact_id).len() ==> (#[trigger] spec_without_id(
                s,
                artifact_id,
            )[i]).id != Some(artifact_id),
    decreases s.len(),
{
    reveal(Seq::filter);
    if s.len() > 0 {
        lemma_delete_removes_id(s.drop_last(), artifact_id);
    }
}

/// Remove every entry whose id equals `artifact_id`, keeping the rest in
/// order.
fn remove_by_id(v: &mut Vec<Artifact>, artifact_id: i32)
    ensures
        final(v)@ == spec_without_id(old(v)@, artifact_id),
{
    let ghost orig = old(v)@;
    let mut i: usize = 0;
    let ghost mut j: int = 0;
    proof {
        reveal(Seq::filter);
        assert(spec_without_id(orig.take(0), artifact_id) =~= Seq::<Artifact>::empty());
        assert(orig.skip(0) =~= orig);
        assert(v@ =~= spec_without_id(orig.take(0), artifact_id) + orig.skip(0));
    }
    while i < v.len()
        invariant
            0 <= j <= orig.len(),
            v@ == spec_without_id(orig.take(j), artifact_id) + orig.skip(j),
            i == spec_without_id(orig.take(j), artifact_id).len(),
        decreases orig.len() - j,
    {
        proof {
            reveal(Seq::filter);
            assert(v@[i as int] == orig.skip(j)[0]);
            assert(orig.skip(j)[0] == orig[j]);
            assert(orig.take(j + 1).drop_last() =~= orig.take(j));
            assert(orig.take(j + 1).last() == orig[j]);
        }
        let keep = match v[i].id {
            Some(x) => x != artifact_id,
            None => true,
        };
        if keep {
            proof {
                reveal(Seq::filter);
                assert(orig[j].id != Some(artifact_id));
                assert(spec_without_id(orig.take(j + 1), artifact_id) == spec_without_id(
                    orig.take(j),
                    artifact_id,
                ).push(orig[j]));
                assert(v@ =~= spec_without_id(orig.take(j + 1), artifact_id) + orig.skip(j + 1));
            }
            i += 1;
        } else {
            v.remove(i);
            proof {
                reveal(Seq::filter);
                assert(orig[j].id == Some(artifact_id));
                assert(spec_without_id(orig.take(j + 1), artifact_id) == spec_without_id(
                    orig.take(j),
                    artifact_id,
                ));
                assert(v@ =~= spec_without_id(orig.take(j + 1), artifact_id) + orig.skip(j + 1));
            }
        }
        proof {
            j = j + 1;
        }
    }
    proof {
        assert(j == orig.len());
        assert(orig.skip(j) =~= Seq::<Artifact>::empty());
        assert(orig.take(j) =~= orig);
        assert(v@ =~= spec_without_id(orig, artifact_id));
    }
}

} // verus!
