//! The upload pipeline orchestrator.
//!
//! One run walks `Idle -> Reading -> Inferring -> Deriving -> Persisting ->
//! Committed`, with a terminal `Failed(stage)` reachable from every
//! non-idle state.  The caller performs the outside work of each stage —
//! reading the file, the inference call, the create call — and reports each
//! outcome back; every decision, state mutation and status message is made
//! here under contract.
//!
//! The result is committed into shared state only after the remote store has
//! acknowledged it with an id: no failure leaves a partially committed
//! artifact behind, and the busy flag is down after every terminal
//! transition.

use vstd::prelude::*;
use vstd::string::StringExecFns;
use crate::domain::AnalyzeResponse;
use crate::domain::AppError;
use crate::domain::Artifact;
use crate::domain::ArtifactView;
use crate::domain::Tier;
use crate::domain::clone_opt_string;
use crate::domain::spec_error_message;
use crate::domain::spec_tier_label;
use crate::encode::encode_image_data_url;
use crate::encode::now_timestamp;
use crate::encode::spec_data_url;
use crate::state::AppState;
use crate::state::lemma_commit_preserves_wf;
use crate::tags::extract_tags_from_analysis;
use crate::tags::spec_derived_tags;
use crate::text::spec_decimal;
use crate::text::u32_to_string;

verus! {

/// The stage at which a run failed.
#[derive(Clone, Copy, Debug, PartialEq, Eq, Structural)]
pub enum Stage {
    Reading,
    Inferring,
    Deriving,
    Persisting,
}

/// The state of one pipeline run.
#[derive(Clone, Copy, Debug, PartialEq, Eq, Structural)]
pub enum Phase {
    Idle,
    Reading,
    Inferring,
    Deriving,
    Persisting,
    Committed,
    Failed(Stage),
}

/// A run is over once it is committed or failed.
pub open spec fn spec_terminal(p: Phase) -> bool {
    p is Committed || p is Failed
}

/// The success status line: name and confidence as a percentage with one
/// decimal place.
pub open spec fn spec_identified_message(name: Seq<char>, confidence: u32) -> Seq<char> {
    "✅ Identified: "@ + name + " ("@ + spec_decimal((confidence / 10) as nat) + "."@
        + spec_decimal((confidence % 10) as nat) + "% confidence)"@
}

/// Render the success status line.
pub fn identified_message(name: &str, confidence: u32) -> (m: String)
    ensures
        m@ == spec_identified_message(name@, confidence),
{
    let mut s = String::from_str("✅ Identified: ");
    s.append(name);
    s.append(" (");
    let whole = u32_to_string(confidence / 10);
    s.append(whole.as_str());
    s.append(".");
    let frac = u32_to_string(confidence % 10);
    s.append(frac.as_str());
    s.append("% confidence)");
    s
}

/// The failure status line: a marker distinct from success, then the error.
pub open spec fn spec_error_status(e: AppError) -> Seq<char> {
    "❌ Error: "@ + spec_error_message(e)
}

/// Render the failure status line.
pub fn error_status(e: &AppError) -> (m: String)
    ensures
        m@ == spec_error_status(*e),
{
    let mut s = String::from_str("❌ Error: ");
    let detail = e.message();
    s.append(detail.as_str());
    s
}

/// The status line for a file that could not be read.
pub open spec fn spec_read_failed_message(detail: Seq<char>) -> Seq<char> {
    "❌ Failed to read file: "@ + detail
}

/// What the transient draft promises about its origin: built from the given
/// report, bytes and tier, not yet acknowledged (no id), timestamped.
pub open spec fn spec_draft_matches(
    v: ArtifactView,
    analysis: AnalyzeResponse,
    bytes: Seq<u8>,
    tier: Tier,
) -> bool {
    &&& v.id is None
    &&& v.name == analysis.name@
    &&& v.description == analysis.description@
    &&& v.era == analysis.era.deep_view()
    &&& v.tags == spec_derived_tags(analysis)
    &&& v.tier == spec_tier_label(tier)
    &&& v.image_data == spec_data_url(bytes)
    &&& v.thumbnail is None
    &&& v.uploaded_at is Some
    &&& v.analyzed_at is Some
    &&& v.confidence == analysis.confidence
    &&& v.method == analysis.method.deep_view()
    &&& v.analysis_time == analysis.analysis_time.deep_view()
}

/// The same artifact with the remote-assigned id filled in.
pub open spec fn spec_with_id(v: ArtifactView, id: i32) -> ArtifactView {
    ArtifactView { id: Some(id), ..v }
}

/// Build the transient artifact for a finished analysis: derived tags, the
/// original bytes as an inline data URL, and fresh timestamps.
pub fn create_artifact_from_analysis(file_bytes: &Vec<u8>, analysis: &AnalyzeResponse, tier: Tier)
    -> (a: Artifact)
    requires
        4 * ((file_bytes@.len() + 2) / 3) <= usize::MAX,
    ensures
        spec_draft_matches(a@, *analysis, file_bytes@, tier),
{
    let tags = extract_tags_from_analysis(analysis);
    let data_url = encode_image_data_url(file_bytes);
    Artifact {
        id: None,
        name: analysis.name.clone(),
        description: analysis.description.clone(),
        era: clone_opt_string(&analysis.era),
        tags,
        tier: String::from_str(tier.label()),
        image_data: data_url,
        thumbnail: None,
        uploaded_at: Some(now_timestamp()),
        analyzed_at: Some(now_timestamp()),
        confidence: analysis.confidence,
        method: clone_opt_string(&analysis.method),
        analysis_time: clone_opt_string(&analysis.analysis_time),
    }
}

/// One upload pipeline run.
pub struct PipelineRun {
    pub phase: Phase,
    pub tier: Tier,
    pub file_bytes: Vec<u8>,
    pub analysis: Option<AnalyzeResponse>,
    pub draft: Option<Artifact>,
}

impl PipelineRun {
    /// A fresh idle run for the requested tier.
    pub fn new(tier: Tier) -> (r: PipelineRun)
        ensures
            r.phase is Idle,
            r.tier == tier,
            r.analysis is None,
            r.draft is None,
    {
        PipelineRun { phase: Phase::Idle, tier, file_bytes: Vec::new(), analysis: None, draft: None }
    }

    /// Begin the run: raise the busy flag before anything else and announce
    /// the read.
    pub fn start(&mut self, state: &mut AppState) -> (msg: String)
        requires
            old(self).phase is Idle,
        ensures
            final(self).phase is Reading,
            final(self).tier == old(self).tier,
            *final(state) == (AppState { analyzing: true, ..*old(state) }),
            msg@ == "Reading file..."@,
    {
        self.phase = Phase::Reading;
        state.analyzing = true;
        String::from_str("Reading file...")
    }

    /// Report the file read.  A failure ends the run without touching the
    /// collection or the current result, and lowers the busy flag.
    pub fn file_read(&mut self, state: &mut AppState, outcome: Result<Vec<u8>, String>) -> (msg:
        String)
        requires
            old(self).phase is Reading,
        ensures
            final(self).tier == old(self).tier,
            final(state).artifacts == old(state).artifacts,
            final(state).current_artifact == old(state).current_artifact,
            final(state).loading == old(state).loading,
            final(state).searching == old(state).searching,
            match outcome {
                Ok(bytes) => {
                    &&& final(self).phase is Inferring
                    &&& final(self).file_bytes == bytes
                    &&& final(state).analyzing == old(state).analyzing
                    &&& msg@ == "Processing image..."@
                },
                Err(e) => {
                    &&& final(self).phase == Phase::Failed(Stage::Reading)
                    &&& !final(state).analyzing
                    &&& msg@ == spec_read_failed_message(e@)
                },
            },
            spec_terminal(final(self).phase) ==> !final(state).analyzing,
    {
        match outcome {
            Ok(bytes) => {
                self.file_bytes = bytes;
                self.phase = Phase::Inferring;
                String::from_str("Processing image...")
            },
            Err(e) => {
                self.phase = Phase::Failed(Stage::Reading);
                state.analyzing = false;
                let mut m = String::from_str("❌ Failed to read file: ");
                m.append(e.as_str());
                m
            },
        }
    }

    /// Report the inference outcome.  Success announces the identification;
    /// failure surfaces the underlying error verbatim, ends the run and
    /// lowers the busy flag, leaving the collection and the current result
    /// untouched.
    pub fn inference_done(
        &mut self,
        state: &mut AppState,
        outcome: Result<AnalyzeResponse, AppError>,
    ) -> (msg: String)
        requires
            old(self).phase is Inferring,
        ensures
            final(self).tier == old(self).tier,
            final(self).file_bytes == old(self).file_bytes,
            final(state).artifacts == old(state).artifacts,
            final(state).current_artifact == old(state).current_artifact,
            final(state).loading == old(state).loading,
            final(state).searching == old(state).searching,
            match outcome {
                Ok(a) => {
                    &&& final(self).phase is Deriving
                    &&& final(self).analysis == Some(a)
                    &&& final(state).analyzing == old(state).analyzing
                    &&& msg@ == spec_identified_message(a.name@, a.confidence)
                },
                Err(e) => {
                    &&& final(self).phase == Phase::Failed(Stage::Inferring)
                    &&& !final(state).analyzing
                    &&& msg@ == spec_error_status(e)
                },
            },
            spec_terminal(final(self).phase) ==> !final(state).analyzing,
    {
        match outcome {
            Ok(a) => {
                let m = identified_message(a.name.as_str(), a.confidence);
                self.analysis = Some(a);
                self.phase = Phase::Deriving;
                m
            },
            Err(e) => {
                self.phase = Phase::Failed(Stage::Inferring);
                state.analyzing = false;
                error_status(&e)
            },
        }
    }

    /// Derive the transient artifact.  This stage is synchronous and cannot
    /// fail; the returned draft is what the caller sends to the remote
    /// create call, and an identical copy is retained for the commit.
    pub fn derive_draft(&mut self) -> (draft: Artifact)
        requires
            old(self).phase is Deriving,
            old(self).analysis is Some,
            4 * ((old(self).file_bytes@.len() + 2) / 3) <= usize::MAX,
        ensures
            final(self).phase is Persisting,
            final(self).tier == old(self).tier,
            final(self).draft matches Some(d) && d@ == draft@,
            old(self).analysis matches Some(a) ==> spec_draft_matches(
                draft@,
                a,
                old(self).file_bytes@,
                old(self).tier,
            ),
    {
        let draft = match &self.analysis {
            Some(a) => create_artifact_from_analysis(&self.file_bytes, a, self.tier),
            None => vstd::pervasive::unreached(),
        };
        self.draft = Some(draft.duplicate());
        self.phase = Phase::Persisting;
        draft
    }

    /// Report the persistence outcome.  Only a remote-assigned id commits
    /// the artifact — it is written to the current result and appended to
    /// the collection; on failure both are left exactly as they were.
    /// Either way the run ends and the busy flag is down.
    pub fn persist_done(&mut self, state: &mut AppState, outcome: Result<i32, AppError>) -> (msg:
        Option<String>)
        requires
            old(self).phase is Persisting,
            old(self).draft is Some,
        ensures
            final(state).loading == old(state).loading,
            final(state).searching == old(state).searching,
            !final(state).analyzing,
            spec_terminal(final(self).phase),
            match outcome {
                Ok(id) => {
                    &&& final(self).phase is Committed
                    &&& final(state).artifacts@.len() == old(state).artifacts@.len() + 1
                    &&& final(state).artifacts@.subrange(0, old(state).artifacts@.len() as int)
                        == old(state).artifacts@
                    &&& (old(self).draft.deep_view() matches Some(dv)
                        ==> final(state).artifacts@.last()@ == spec_with_id(dv, id)
                            && final(state).current_artifact.deep_view() == Some(
                            spec_with_id(dv, id),
                        ))
                    &&& (old(state).wf() && (forall|k: int|
                        0 <= k < old(state).artifacts@.len() ==> (#[trigger] old(
                            state,
                        ).artifacts@[k]).id != Some(id)) ==> final(state).wf())
                    &&& msg is None
                },
                Err(e) => {
                    &&& final(self).phase == Phase::Failed(Stage::Persisting)
                    &&& final(state).artifacts == old(state).artifacts
                    &&& final(state).current_artifact == old(state).current_artifact
                    &&& (msg matches Some(m) && m@ == spec_error_status(e))
                },
            },
    {
        match outcome {
            Ok(id) => {
                let mut a = match &self.draft {
                    Some(d) => d.duplicate(),
                    None => vstd::pervasive::unreached(),
                };
                a.id = Some(id);
                proof {
                    match old(self).draft {
                        Some(d) => {
                            assert(a@ =~~= spec_with_id(d@, id));
                        },
                        None => {},
                    }
                }
                let ghost committed = a;
                let shown = a.duplicate();
                let ghost shown_snapshot = shown;
                state.current_artifact = Some(shown);
                state.artifacts.push(a);
                state.analyzing = false;
                self.phase = Phase::Committed;
                proof {
                    assert(state.artifacts@.subrange(0, old(state).artifacts@.len() as int)
                        =~= old(state).artifacts@);
                    if old(state).wf() && (forall|k: int|
                        0 <= k < old(state).artifacts@.len() ==> (#[trigger] old(
                            state,
                        ).artifacts@[k]).id != Some(id)) {
                        lemma_commit_preserves_wf(
                            old(state).artifacts@,
                            committed,
                            shown_snapshot,
                        );
                    }
                }
                None
            },
            Err(e) => {
                state.analyzing = false;
                self.phase = Phase::Failed(Stage::Persisting);
                Some(error_status(&e))
            },
        }
    }
}

} // verus!
