use archeology::domain::{response_to_result, AnalyzeResponse, ApiArtifact, AppError, Artifact, Tier};
use archeology::encode::encode_image_data_url;
use archeology::pipeline::{error_status, identified_message, Phase, PipelineRun, Stage};
use archeology::state::AppState;
use archeology::sync::{
    apply_delete_outcome, apply_load_outcome, apply_search_outcome, begin_load, begin_search,
    convert_api_artifact_to_domain, plan_search, FetchPlan,
};
use archeology::tags::{
    extract_era_from_api_artifact, extract_era_from_description, extract_tags_from_analysis,
};
use archeology::text::{contains_sub, str_eq, u32_to_string};

fn sample_analysis(confidence: u32, method: Option<&str>, era: Option<&str>) -> AnalyzeResponse {
    AnalyzeResponse {
        name: "Roman Coin".to_string(),
        description: "A silver denarius".to_string(),
        era: era.map(|e| e.to_string()),
        confidence,
        method: method.map(|m| m.to_string()),
        tier: "fast".to_string(),
        analysis_time: None,
    }
}

fn sample_api_artifact(id: i32) -> ApiArtifact {
    ApiArtifact {
        id,
        name: format!("Artifact {}", id),
        description: Some("A medieval sword".to_string()),
        tags: vec!["weapon".to_string()],
        tier: "fast".to_string(),
        thumbnail: None,
        image_data: Some("data:image/jpeg;base64,AAEC".to_string()),
        uploaded_at: None,
        analyzed_at: None,
        confidence: Some(700),
    }
}

#[test]
fn derived_tags_high_confidence_with_method() {
    // Inference reports confidence 0.92 and method "vision-transformer".
    let analysis = sample_analysis(920, Some("vision-transformer"), None);
    let tags = extract_tags_from_analysis(&analysis);
    assert_eq!(tags, vec!["High Confidence".to_string(), "vision-transformer".to_string()]);
}

#[test]
fn derived_tags_band_boundaries() {
    let tag_of = |c: u32| extract_tags_from_analysis(&sample_analysis(c, None, None));
    assert_eq!(tag_of(1000), vec!["High Confidence".to_string()]);
    assert_eq!(tag_of(801), vec!["High Confidence".to_string()]);
    assert_eq!(tag_of(800), vec!["Medium Confidence".to_string()]);
    assert_eq!(tag_of(501), vec!["Medium Confidence".to_string()]);
    assert_eq!(tag_of(500), vec!["Low Confidence".to_string()]);
    assert_eq!(tag_of(0), vec!["Low Confidence".to_string()]);
}

#[test]
fn derived_tags_era_comes_first() {
    let analysis = sample_analysis(920, Some("vision-transformer"), Some("Ancient"));
    let tags = extract_tags_from_analysis(&analysis);
    assert_eq!(
        tags,
        vec![
            "Ancient".to_string(),
            "High Confidence".to_string(),
            "vision-transformer".to_string()
        ]
    );
}

#[test]
fn derived_tags_unknown_era_is_dropped() {
    let analysis = sample_analysis(300, None, Some("Unknown"));
    let tags = extract_tags_from_analysis(&analysis);
    assert_eq!(tags, vec!["Low Confidence".to_string()]);
}

#[test]
fn era_from_description_keywords() {
    assert_eq!(extract_era_from_description("An ancient vase"), "Ancient");
    assert_eq!(extract_era_from_description("A GREEK amphora"), "Ancient");
    assert_eq!(extract_era_from_description("Roman statue"), "Ancient");
    assert_eq!(extract_era_from_description("a medieval sword"), "Medieval");
    assert_eq!(extract_era_from_description("Renaissance painting"), "Renaissance");
    assert_eq!(extract_era_from_description("modern sculpture"), "Modern");
    assert_eq!(extract_era_from_description("a plain pot"), "Unknown");
}

#[test]
fn era_from_listing_entry_prefers_tags() {
    let mut api = sample_api_artifact(1);
    api.tags = vec!["shiny".to_string(), "Renaissance Art".to_string()];
    assert_eq!(extract_era_from_api_artifact(&api), "Renaissance");
    api.tags = vec![];
    // Falls back to the description, which mentions "medieval".
    assert_eq!(extract_era_from_api_artifact(&api), "Medieval");
    api.description = None;
    assert_eq!(extract_era_from_api_artifact(&api), "Unknown");
}

#[test]
fn image_payload_is_a_data_url() {
    assert_eq!(encode_image_data_url(&vec![0u8, 1, 2]), "data:image/jpeg;base64,AAEC");
    assert_eq!(encode_image_data_url(&vec![]), "data:image/jpeg;base64,");
    assert_eq!(encode_image_data_url(&vec![255u8]), "data:image/jpeg;base64,/w==");
}

#[test]
fn decimal_rendering() {
    assert_eq!(u32_to_string(0), "0");
    assert_eq!(u32_to_string(7), "7");
    assert_eq!(u32_to_string(92), "92");
    assert_eq!(u32_to_string(920), "920");
    assert_eq!(u32_to_string(1000), "1000");
}

#[test]
fn string_utilities() {
    assert!(str_eq("abc", "abc"));
    assert!(!str_eq("abc", "abd"));
    assert!(!str_eq("abc", "ab"));
    assert!(contains_sub("an ancient vase", "ancient"));
    assert!(!contains_sub("a plain pot", "ancient"));
    assert!(contains_sub("anything", ""));
}

#[test]
fn status_codes_split_success_from_rejection() {
    for status in [200u16, 204, 299] {
        match response_to_result(status, "[]".to_string()) {
            Ok(body) => assert_eq!(body, "[]"),
            other => panic!("status {} must pass the body through, got {:?}", status, other),
        }
    }
    for status in [199u16, 300, 404, 500] {
        match response_to_result(status, "db locked".to_string()) {
            Err(AppError::Api(body)) => assert_eq!(body, "db locked"),
            other => panic!("status {} must be a remote rejection, got {:?}", status, other),
        }
    }
}

#[test]
fn error_messages_carry_their_prefix() {
    assert_eq!(AppError::Api("db locked".to_string()).message(), "API error: db locked");
    assert_eq!(AppError::Network("timed out".to_string()).message(), "Network error: timed out");
    assert_eq!(
        AppError::Serialization("bad json".to_string()).message(),
        "Serialization error: bad json"
    );
    assert_eq!(
        AppError::FileProcessing("no bytes".to_string()).message(),
        "File processing error: no bytes"
    );
    assert_eq!(
        error_status(&AppError::Api("db locked".to_string())),
        "❌ Error: API error: db locked"
    );
}

#[test]
fn identified_message_shows_percent_with_one_decimal() {
    assert_eq!(
        identified_message("Roman Coin", 920),
        "✅ Identified: Roman Coin (92.0% confidence)"
    );
    assert_eq!(identified_message("Amphora", 923), "✅ Identified: Amphora (92.3% confidence)");
    assert_eq!(identified_message("Pot", 5), "✅ Identified: Pot (0.5% confidence)");
}

#[test]
fn tier_labels_round_trip() {
    for tier in [Tier::Instant, Tier::Fast, Tier::Balanced, Tier::Thorough] {
        assert_eq!(Tier::parse(tier.label()), Some(tier));
    }
    assert_eq!(Tier::parse("warp"), None);
    assert_eq!(Tier::default(), Tier::Fast);
    assert_eq!(Tier::Fast.label(), "fast");
}

#[test]
fn pipeline_commit_appends_and_sets_current() {
    let mut state = AppState::new();
    let mut run = PipelineRun::new(Tier::Fast);
    assert_eq!(run.start(&mut state), "Reading file...");
    assert!(state.analyzing);
    assert_eq!(run.file_read(&mut state, Ok(vec![0u8, 1, 2])), "Processing image...");
    let msg = run.inference_done(&mut state, Ok(sample_analysis(920, Some("vision-transformer"), None)));
    assert_eq!(msg, "✅ Identified: Roman Coin (92.0% confidence)");
    // Nothing is committed before persistence succeeds.
    assert_eq!(state.artifacts.len(), 0);
    let draft = run.derive_draft();
    assert_eq!(draft.id, None);
    assert_eq!(draft.name, "Roman Coin");
    assert_eq!(draft.tags, vec!["High Confidence".to_string(), "vision-transformer".to_string()]);
    assert_eq!(draft.image_data, "data:image/jpeg;base64,AAEC");
    assert!(draft.uploaded_at.is_some());
    let msg = run.persist_done(&mut state, Ok(7));
    assert!(msg.is_none());
    assert_eq!(run.phase, Phase::Committed);
    assert_eq!(state.artifacts.len(), 1);
    assert_eq!(state.artifacts[0].id, Some(7));
    assert_eq!(state.artifacts[0].name, "Roman Coin");
    assert_eq!(state.current_artifact.as_ref().unwrap().id, Some(7));
    assert!(!state.analyzing);
}

#[test]
fn pipeline_persist_failure_commits_nothing() {
    // The create call answers HTTP 500 with body "db locked".
    let mut state = AppState::new();
    let mut run = PipelineRun::new(Tier::Fast);
    run.start(&mut state);
    run.file_read(&mut state, Ok(vec![9u8]));
    run.inference_done(&mut state, Ok(sample_analysis(920, None, None)));
    run.derive_draft();
    let msg = run.persist_done(&mut state, Err(AppError::Api("db locked".to_string())));
    let msg = msg.expect("a failure message");
    assert!(msg.contains("db locked"));
    assert_eq!(run.phase, Phase::Failed(Stage::Persisting));
    assert_eq!(state.artifacts.len(), 0);
    assert!(state.current_artifact.is_none());
    assert!(!state.analyzing);
}

#[test]
fn pipeline_read_failure_ends_run() {
    let mut state = AppState::new();
    let mut run = PipelineRun::new(Tier::Fast);
    run.start(&mut state);
    let msg = run.file_read(&mut state, Err("permission denied".to_string()));
    assert_eq!(msg, "❌ Failed to read file: permission denied");
    assert_eq!(run.phase, Phase::Failed(Stage::Reading));
    assert_eq!(state.artifacts.len(), 0);
    assert!(!state.analyzing);
}

#[test]
fn pipeline_inference_failure_surfaces_error() {
    let mut state = AppState::new();
    let mut run = PipelineRun::new(Tier::Fast);
    run.start(&mut state);
    run.file_read(&mut state, Ok(vec![1u8]));
    let msg = run.inference_done(&mut state, Err(AppError::Network("timed out".to_string())));
    assert_eq!(msg, "❌ Error: Network error: timed out");
    assert_eq!(run.phase, Phase::Failed(Stage::Inferring));
    assert_eq!(state.artifacts.len(), 0);
    assert!(!state.analyzing);
}

#[test]
fn listing_entry_defaults_apply() {
    // A listing entry without confidence maps to confidence zero.
    let mut api = sample_api_artifact(3);
    api.confidence = None;
    api.description = None;
    api.image_data = None;
    let artifact = convert_api_artifact_to_domain(&api, false);
    assert_eq!(artifact.confidence, 0);
    assert_eq!(artifact.description, "");
    assert_eq!(artifact.image_data, "");
    assert_eq!(artifact.id, Some(3));
    assert_eq!(artifact.era, None);
    assert_eq!(artifact.method, None);
}

#[test]
fn listing_entry_classification() {
    let api = sample_api_artifact(4);
    let artifact = convert_api_artifact_to_domain(&api, true);
    // The description mentions "medieval".
    assert_eq!(artifact.era, Some("Medieval".to_string()));
}

#[test]
fn empty_query_plans_a_full_fetch() {
    assert!(matches!(plan_search(""), FetchPlan::All));
    match plan_search("amphora") {
        FetchPlan::Query(q) => assert_eq!(q, "amphora"),
        FetchPlan::All => panic!("a non-empty query must stay scoped"),
    }
}

#[test]
fn empty_search_equals_load() {
    let listing = || vec![sample_api_artifact(1), sample_api_artifact(2)];
    let mut loaded = AppState::new();
    begin_load(&mut loaded);
    assert!(loaded.loading);
    apply_load_outcome(&mut loaded, Ok(listing()), true).unwrap();
    assert!(!loaded.loading);

    let mut searched = AppState::new();
    assert!(matches!(plan_search(""), FetchPlan::All));
    begin_search(&mut searched);
    assert!(searched.searching);
    apply_search_outcome(&mut searched, Ok(listing()), true).unwrap();
    assert!(!searched.searching);

    assert_eq!(loaded.artifacts.len(), searched.artifacts.len());
    for (a, b) in loaded.artifacts.iter().zip(searched.artifacts.iter()) {
        assert_eq!(a.id, b.id);
        assert_eq!(a.name, b.name);
        assert_eq!(a.tags, b.tags);
        assert_eq!(a.era, b.era);
        assert_eq!(a.confidence, b.confidence);
    }
}

#[test]
fn failed_fetch_keeps_collection_and_clears_flag() {
    let mut state = AppState::new();
    apply_load_outcome(&mut state, Ok(vec![sample_api_artifact(1)]), false).unwrap();
    assert_eq!(state.artifacts.len(), 1);
    begin_search(&mut state);
    let r = apply_search_outcome(&mut state, Err(AppError::Network("down".to_string())), false);
    assert!(r.is_err());
    assert_eq!(state.artifacts.len(), 1);
    assert!(!state.searching);
    begin_load(&mut state);
    let r = apply_load_outcome(&mut state, Err(AppError::Network("down".to_string())), false);
    assert!(r.is_err());
    assert_eq!(state.artifacts.len(), 1);
    assert!(!state.loading);
}

#[test]
fn acknowledged_delete_removes_the_entry() {
    let mut state = AppState::new();
    apply_load_outcome(&mut state, Ok(vec![sample_api_artifact(41), sample_api_artifact(42)]), false)
        .unwrap();
    assert_eq!(state.artifacts.len(), 2);
    apply_delete_outcome(&mut state, 42, Ok(())).unwrap();
    assert_eq!(state.artifacts.len(), 1);
    assert!(state.artifacts.iter().all(|a| a.id != Some(42)));
    assert_eq!(state.artifacts[0].id, Some(41));
}

#[test]
fn failed_delete_keeps_the_entry_intact() {
    let mut state = AppState::new();
    apply_load_outcome(&mut state, Ok(vec![sample_api_artifact(42)]), false).unwrap();
    let before_name = state.artifacts[0].name.clone();
    let r = apply_delete_outcome(&mut state, 42, Err(AppError::Api("not found".to_string())));
    assert!(r.is_err());
    assert_eq!(state.artifacts.len(), 1);
    assert_eq!(state.artifacts[0].id, Some(42));
    assert_eq!(state.artifacts[0].name, before_name);
}

#[test]
fn thumbnail_preferred_for_display() {
    let artifact = Artifact {
        id: Some(1),
        name: "Vase".to_string(),
        description: String::new(),
        era: None,
        tags: vec![],
        tier: "fast".to_string(),
        image_data: "full".to_string(),
        thumbnail: Some("small".to_string()),
        uploaded_at: None,
        analyzed_at: None,
        confidence: 500,
        method: None,
        analysis_time: None,
    };
    assert_eq!(artifact.display_image(), "small");
    let bare = Artifact { thumbnail: None, ..artifact };
    assert_eq!(bare.display_image(), "full");
}

#[test]
fn filtered_count_matches_total() {
    let mut state = AppState::new();
    assert_eq!(state.compute_filtered_count(), 0);
    apply_load_outcome(&mut state, Ok(vec![sample_api_artifact(1), sample_api_artifact(2)]), false)
        .unwrap();
    assert_eq!(state.compute_filtered_count(), 2);
}
