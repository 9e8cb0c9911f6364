//! Domain records: artifacts, inference reports, remote listing entries, the
//! analysis tiers and the application error taxonomy.
//!
//! Confidence values are carried in thousandths of full confidence (an
//! integer in `0 ..= 1000` stands for the interval `[0.0, 1.0]`), so that the
//! band thresholds of the metadata rules can be stated and checked exactly.

use vstd::prelude::*;
use vstd::string::StrSliceExecFns;
use vstd::string::StringExecFns;
use crate::text::str_eq;

verus! {

/// The inference effort level requested for an analysis run.
#[derive(Clone, Copy, Debug, PartialEq, Eq, Structural)]
pub enum Tier {
    Instant,
    Fast,
    Balanced,
    Thorough,
}

/// The wire label for each tier.
pub open spec fn spec_tier_label(t: Tier) -> Seq<char> {
    match t {
        Tier::Instant => "instant"@,
        Tier::Fast => "fast"@,
        Tier::Balanced => "balanced"@,
        Tier::Thorough => "thorough"@,
    }
}

impl Tier {
    /// The label used on the wire and in stored artifacts.
    pub fn label(self) -> (s: &'static str)
        ensures
            s@ == spec_tier_label(self),
    {
        match self {
            Tier::Instant => "instant",
            Tier::Fast => "fast",
            Tier::Balanced => "balanced",
            Tier::Thorough => "thorough",
        }
    }

    /// Parse a wire label; `None` for anything outside the fixed set.
    pub fn parse(s: &str) -> (t: Option<Tier>)
        ensures
            match t {
                Some(tier) => s@ == spec_tier_label(tier),
                None => forall|tier: Tier| s@ != spec_tier_label(tier),
            },
    {
        if str_eq(s, "instant") {
            Some(Tier::Instant)
        } else if str_eq(s, "fast") {
            Some(Tier::Fast)
        } else if str_eq(s, "balanced") {
            Some(Tier::Balanced)
        } else if str_eq(s, "thorough") {
            Some(Tier::Thorough)
        } else {
            None
        }
    }
}

impl Default for Tier {
    /// The tier requested when the user has not picked one.
    fn default() -> (t: Tier)
        ensures
            t == Tier::Fast,
    {
        Tier::Fast
    }
}

/// The mathematical model of an [`Artifact`]: the same fields over character
/// sequences, so that contracts can speak of contents independently of
/// allocation.
#[verifier::ext_equal]
pub struct ArtifactView {
    pub id: Option<i32>,
    pub name: Seq<char>,
    pub description: Seq<char>,
    pub era: Option<Seq<char>>,
    pub tags: Seq<Seq<char>>,
    pub tier: Seq<char>,
    pub image_data: Seq<char>,
    pub thumbnail: Option<Seq<char>>,
    pub uploaded_at: Option<Seq<char>>,
    pub analyzed_at: Option<Seq<char>>,
    pub confidence: u32,
    pub method: Option<Seq<char>>,
    pub analysis_time: Option<Seq<char>>,
}

/// An identified historical artifact.
///
/// `id` is `None` until the remote store has acknowledged the record; such a
/// transient value never enters a collection loaded from the remote listing.
/// `era` carries the optional classification label; engines configured
/// without the classification step leave it `None`.
#[derive(Clone, Debug)]
pub struct Artifact {
    pub id: Option<i32>,
    pub name: String,
    pub description: String,
    pub era: Option<String>,
    pub tags: Vec<String>,
    pub tier: String,
    pub image_data: String,
    pub thumbnail: Option<String>,
    pub uploaded_at: Option<String>,
    pub analyzed_at: Option<String>,
    /// Thousandths of full confidence, `0 ..= 1000`.
    pub confidence: u32,
    pub method: Option<String>,
    pub analysis_time: Option<String>,
}

impl View for Artifact {
    type V = ArtifactView;

    open spec fn view(&self) -> ArtifactView {
        ArtifactView {
            id: self.id,
            name: self.name@,
            description: self.description@,
            era: self.era.deep_view(),
            tags: self.tags.deep_view(),
            tier: self.tier@,
            image_data: self.image_data@,
            thumbnail: self.thumbnail.deep_view(),
            uploaded_at: self.uploaded_at.deep_view(),
            analyzed_at: self.analyzed_at.deep_view(),
            confidence: self.confidence,
            method: self.method.deep_view(),
            analysis_time: self.analysis_time.deep_view(),
        }
    }
}

impl DeepView for Artifact {
    type V = ArtifactView;

    open spec fn deep_view(&self) -> ArtifactView {
        self.view()
    }
}

impl Artifact {
    /// A copy with the same contents.
    pub fn duplicate(&self) -> (r: Artifact)
        ensures
            r@ == self@,
    {
        let r = Artifact {
            id: self.id,
            name: self.name.clone(),
            description: self.description.clone(),
            era: clone_opt_string(&self.era),
            tags: clone_string_vec(&self.tags),
            tier: self.tier.clone(),
            image_data: self.image_data.clone(),
            thumbnail: clone_opt_string(&self.thumbnail),
            uploaded_at: clone_opt_string(&self.uploaded_at),
            analyzed_at: clone_opt_string(&self.analyzed_at),
            confidence: self.confidence,
            method: clone_opt_string(&self.method),
            analysis_time: clone_opt_string(&self.analysis_time),
        };
        proof {
            assert(r@ =~~= self@);
        }
        r
    }

    /// The payload preferred for grid display: the thumbnail when present,
    /// the full image otherwise.
    pub fn display_image(&self) -> (s: &String)
        ensures
            match self.thumbnail {
                Some(ref t) => s == t,
                None => s == &self.image_data,
            },
    {
        match &self.thumbnail {
            Some(t) => t,
            None => &self.image_data,
        }
    }
}

/// A copy of an optional string with the same contents.
pub(crate) fn clone_opt_string(o: &Option<String>) -> (r: Option<String>)
    ensures
        r == *o,
{
    match o {
        Some(s) => Some(s.clone()),
        None => None,
    }
}

/// A copy of a string vector with the same contents.
pub(crate) fn clone_string_vec(v: &Vec<String>) -> (r: Vec<String>)
    ensures
        r@ == v@,
{
    let mut r: Vec<String> = Vec::new();
    let n = v.len();
    let mut i: usize = 0;
    while i < n
        invariant
            n == v@.len(),
            i <= n,
            r@ == v@.take(i as int),
        decreases n - i,
    {
        r.push(v[i].clone());
        proof {
            assert(r@ =~= v@.take(i as int + 1));
        }
        i += 1;
    }
    proof {
        assert(v@.take(n as int) =~= v@);
    }
    r
}

/// A successful reply from the remote inference service.
#[derive(Clone, Debug)]
pub struct AnalyzeResponse {
    pub name: String,
    pub description: String,
    /// Optional classification label; absent when the service variant does
    /// not report one.
    pub era: Option<String>,
    /// Thousandths of full confidence, `0 ..= 1000`.
    pub confidence: u32,
    pub method: Option<String>,
    pub tier: String,
    pub analysis_time: Option<String>,
}

/// One entry of the remote listing, with every optional field still absent
/// where the remote store omitted it.
#[derive(Clone, Debug)]
pub struct ApiArtifact {
    pub id: i32,
    pub name: String,
    pub description: Option<String>,
    pub tags: Vec<String>,
    pub tier: String,
    pub thumbnail: Option<String>,
    pub image_data: Option<String>,
    pub uploaded_at: Option<String>,
    pub analyzed_at: Option<String>,
    /// Thousandths of full confidence, when reported.
    pub confidence: Option<u32>,
}

/// Application-level errors.
///
/// `Network` covers connectivity and timeouts, `Api` a non-success status
/// whose body carries the server's message, `Serialization` a response body
/// that does not match the expected shape, and `FileProcessing` a local read
/// failure.
#[derive(Clone, Debug)]
pub enum AppError {
    Network(String),
    Api(String),
    Serialization(String),
    FileProcessing(String),
}

/// Result type alias for application operations.
pub type AppResult<T> = Result<T, AppError>;

/// Sort a remote reply by its HTTP status: a success status passes the body
/// through for decoding, any other status turns the body into the remote's
/// rejection message.
pub fn response_to_result(status: u16, body: String) -> (r: Result<String, AppError>)
    ensures
        200 <= status < 300 ==> r == Result::<String, AppError>::Ok(body),
        !(200 <= status < 300) ==> r == Result::<String, AppError>::Err(AppError::Api(body)),
{
    if 200 <= status && status < 300 {
        Ok(body)
    } else {
        Err(AppError::Api(body))
    }
}

/// The human-readable rendering of each error, prefix then detail.
pub open spec fn spec_error_message(e: AppError) -> Seq<char> {
    match e {
        AppError::Network(d) => "Network error: "@ + d@,
        AppError::Api(d) => "API error: "@ + d@,
        AppError::Serialization(d) => "Serialization error: "@ + d@,
        AppError::FileProcessing(d) => "File processing error: "@ + d@,
    }
}

impl AppError {
    /// Render the error as its prefixed message.
    pub fn message(&self) -> (m: String)
        ensures
            m@ == spec_error_message(*self),
    {
        match self {
            AppError::Network(d) => {
                let mut s = String::from_str("Network error: ");
                s.append(d.as_str());
                s
            },
            AppError::Api(d) => {
                let mut s = String::from_str("API error: ");
                s.append(d.as_str());
                s
            },
            AppError::Serialization(d) => {
                let mut s = String::from_str("Serialization error: ");
                s.append(d.as_str());
                s
            },
            AppError::FileProcessing(d) => {
                let mut s = String::from_str("File processing error: ");
                s.append(d.as_str());
                s
            },
        }
    }
}

} // verus!
