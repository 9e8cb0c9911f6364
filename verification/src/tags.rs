//! Metadata derivation: descriptive tags from an inference report, and the
//! era classification read out of listing entries.
//!
//! A derived tag list holds, in this order: the era label when one is known,
//! exactly one confidence-band tag, then the inference method name when the
//! report supplied one.

use vstd::prelude::*;
use vstd::string::StringExecFns;
use crate::domain::AnalyzeResponse;
use crate::domain::ApiArtifact;
use crate::text::contains_sub;
use crate::text::spec_contains_sub;
use crate::text::str_eq;

verus! {

/// The lowercase form of a character sequence, as `str::to_lowercase`
/// computes it.
pub uninterp spec fn lower_of(s: Seq<char>) -> Seq<char>;

/// Relies on `str::to_lowercase`: the result depends on the characters of
/// the input alone.
#[verifier::external_body]
fn to_lowercase_str(s: &str) -> (r: String)
    ensures
        r@ == lower_of(s@),
{
    s.to_lowercase()
}

/// The confidence-band tag: bands partition the confidence scale at the
/// `> 0.8` and `> 0.5` boundaries, written in thousandths.
pub open spec fn spec_confidence_tag(c: nat) -> Seq<char> {
    if c > 800 {
        "High Confidence"@
    } else if c > 500 {
        "Medium Confidence"@
    } else {
        "Low Confidence"@
    }
}

/// The optional leading era tag: present when the report carries a
/// classification other than the unknown marker.
pub open spec fn spec_era_part(a: AnalyzeResponse) -> Seq<Seq<char>> {
    match a.era {
        Some(e) => if e@ != "Unknown"@ {
            seq![e@]
        } else {
            Seq::empty()
        },
        None => Seq::empty(),
    }
}

/// The optional trailing method tag.
pub open spec fn spec_method_part(a: AnalyzeResponse) -> Seq<Seq<char>> {
    match a.method {
        Some(m) => seq![m@],
        None => Seq::empty(),
    }
}

/// The full derived tag list: era tag, confidence-band tag, method tag.
pub open spec fn spec_derived_tags(a: AnalyzeResponse) -> Seq<Seq<char>> {
    spec_era_part(a) + seq![spec_confidence_tag(a.confidence as nat)] + spec_method_part(a)
}

/// Derive the descriptive tags for one inference report.
pub fn extract_tags_from_analysis(analysis: &AnalyzeResponse) -> (tags: Vec<String>)
    ensures
        tags.deep_view() == spec_derived_tags(*analysis),
{
    let mut tags: Vec<String> = Vec::new();
    match &analysis.era {
        Some(e) => {
            if !str_eq(e.as_str(), "Unknown") {
                tags.push(e.clone());
            }
        },
        None => {},
    }
    if analysis.confidence > 800 {
        tags.push(String::from_str("High Confidence"));
    } else if analysis.confidence > 500 {
        tags.push(String::from_str("Medium Confidence"));
    } else {
        tags.push(String::from_str("Low Confidence"));
    }
    match &analysis.method {
        Some(m) => tags.push(m.clone()),
        None => {},
    }
    proof {
        assert(tags.deep_view() =~~= spec_derived_tags(*analysis));
    }
    tags
}

/// The confidence-band tag is placed immediately before the method tag, and
/// the bands partition the confidence scale with no overlap or gap: above
/// `0.8` high, above `0.5` up to `0.8` medium, at or below `0.5` low.
pub proof fn lemma_confidence_band_partition(c: nat)
    ensures
        spec_confidence_tag(c) == "High Confidence"@ <==> 800 < c,
        spec_confidence_tag(c) == "Medium Confidence"@ <==> 500 < c <= 800,
        spec_confidence_tag(c) == "Low Confidence"@ <==> c <= 500,
{
    reveal_strlit("High Confidence");
    reveal_strlit("Medium Confidence");
    reveal_strlit("Low Confidence");
    assert("High Confidence"@.len() == 15);
    assert("Medium Confidence"@.len() == 17);
    assert("Low Confidence"@.len() == 14);
}

/// The confidence-band tag always stands directly before the method tag:
/// when a method is reported, it is the last tag and the band tag is the one
/// just before it.
pub proof fn lemma_tag_order(a: AnalyzeResponse)
    requires
        a.method is Some,
    ensures
        spec_derived_tags(a).len() >= 2,
        spec_derived_tags(a)[spec_derived_tags(a).len() - 2] == spec_confidence_tag(
            a.confidence as nat,
        ),
        a.method matches Some(m) ==> spec_derived_tags(a)[spec_derived_tags(a).len() - 1] == m@,
{
}

/// The era classification read from free text: the first matching period
/// keyword wins, `Unknown` otherwise.
pub open spec fn spec_era_from_description(desc: Seq<char>) -> Seq<char> {
    let low = lower_of(desc);
    if spec_contains_sub(low, "ancient"@) || spec_contains_sub(low, "greek"@)
        || spec_contains_sub(low, "roman"@) {
        "Ancient"@
    } else if spec_contains_sub(low, "medieval"@) {
        "Medieval"@
    } else if spec_contains_sub(low, "renaissance"@) {
        "Renaissance"@
    } else if spec_contains_sub(low, "modern"@) {
        "Modern"@
    } else {
        "Unknown"@
    }
}

/// Classify an artifact description into an era label.
pub fn extract_era_from_description(description: &str) -> (r: String)
    ensures
        r@ == spec_era_from_description(description@),
{
    let low = to_lowercase_str(description);
    if contains_sub(low.as_str(), "ancient") || contains_sub(low.as_str(), "greek")
        || contains_sub(low.as_str(), "roman") {
        String::from_str("Ancient")
    } else if contains_sub(low.as_str(), "medieval") {
        String::from_str("Medieval")
    } else if contains_sub(low.as_str(), "renaissance") {
        String::from_str("Renaissance")
    } else if contains_sub(low.as_str(), "modern") {
        String::from_str("Modern")
    } else {
        String::from_str("Unknown")
    }
}

/// The era named by a single tag, when its lowercase form mentions a period
/// keyword.
pub open spec fn spec_era_from_tag(tag: Seq<char>) -> Option<Seq<char>> {
    let low = lower_of(tag);
    if spec_contains_sub(low, "ancient"@) {
        Some("Ancient"@)
    } else if spec_contains_sub(low, "medieval"@) {
        Some("Medieval"@)
    } else if spec_contains_sub(low, "renaissance"@) {
        Some("Renaissance"@)
    } else if spec_contains_sub(low, "modern"@) {
        Some("Modern"@)
    } else {
        None
    }
}

/// The era named by the first tag that names one, scanning in order.
pub open spec fn spec_era_from_tags(tags: Seq<Seq<char>>) -> Option<Seq<char>>
    decreases tags.len(),
{
    if tags.len() == 0 {
        None
    } else {
        match spec_era_from_tag(tags[0]) {
            Some(e) => Some(e),
            None => spec_era_from_tags(tags.drop_first()),
        }
    }
}

/// The era of a listing entry: tags first, then the description, then the
/// unknown marker.
pub open spec fn spec_era_from_api_artifact(a: ApiArtifact) -> Seq<char> {
    match spec_era_from_tags(a.tags.deep_view()) {
        Some(e) => e,
        None => match a.description {
            Some(d) => spec_era_from_description(d@),
            None => "Unknown"@,
        },
    }
}

/// Classify a listing entry into an era label.
pub fn extract_era_from_api_artifact(artifact: &ApiArtifact) -> (r: String)
    ensures
        r@ == spec_era_from_api_artifact(*artifact),
{
    let ghost all: Seq<Seq<char>> = artifact.tags.deep_view();
    let n = artifact.tags.len();
    let mut idx: usize = 0;
    proof {
        assert(all.skip(0) =~= all);
    }
    while idx < n
        invariant
            n == artifact.tags.len(),
            idx <= n,
            all == artifact.tags.deep_view(),
            spec_era_from_tags(all) == spec_era_from_tags(all.skip(idx as int)),
        decreases n - idx,
    {
        let tag_lower = to_lowercase_str(artifact.tags[idx].as_str());
        proof {
            assert(all.skip(idx as int)[0] == all[idx as int]);
        }
        if contains_sub(tag_lower.as_str(), "ancient") {
            return String::from_str("Ancient");
        }
        if contains_sub(tag_lower.as_str(), "medieval") {
            return String::from_str("Medieval");
        }
        if contains_sub(tag_lower.as_str(), "renaissance") {
            return String::from_str("Renaissance");
        }
        if contains_sub(tag_lower.as_str(), "modern") {
            return String::from_str("Modern");
        }
        proof {
            assert(all.skip(idx as int).drop_first() =~= all.skip(idx as int + 1));
        }
        idx += 1;
    }
    proof {
        assert(all.skip(n as int) =~= Seq::<Seq<char>>::empty());
    }
    match &artifact.description {
        Some(d) => extract_era_from_description(d.as_str()),
        None => String::from_str("Unknown"),
    }
}

} // verus!
