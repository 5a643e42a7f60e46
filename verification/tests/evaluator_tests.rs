use maity_core::evaluator::{
    create_fallback_feedback, extract_json_from_response, parse_evaluation_response, scan_scores,
};
use maity_core::score::Score;

#[test]
fn test_extract_json_from_response() {
    let response = "Here is the analysis:\n{\"overall_score\": 7.5, \"clarity\": 8.0}\nThat's my evaluation.";

    let json = extract_json_from_response(response);
    assert!(json.starts_with('{'));
    assert!(json.ends_with('}'));
    assert!(json.contains("overall_score"));
}

#[test]
fn test_parse_valid_json() {
    let json = "{\n            \"overall_score\": 7.5,\n            \"clarity\": 8.0,\n            \"engagement\": 7.0,\n            \"structure\": 7.5,\n            \"feedback\": \"Good communication\",\n            \"strengths\": [\"Clear\", \"Engaged\"],\n            \"areas_to_improve\": [\"Structure\"]\n        }";

    let result = parse_evaluation_response(json);
    assert!(result.is_ok());
    let feedback = result.unwrap();
    assert_eq!(feedback.overall_score, Some(Score { thousandths: 7500 }));
    assert_eq!(feedback.clarity, Some(Score { thousandths: 8000 }));
}

#[test]
fn strict_parse_preserves_fields_in_order() {
    let input = "{\"overall_score\":7.5,\"clarity\":8.0,\"engagement\":7.0,\"structure\":7.5,\"feedback\":\"Good\",\"strengths\":[\"Clear\"],\"areas_to_improve\":[\"Structure\"]}";
    let fb = parse_evaluation_response(input).unwrap();
    assert_eq!(fb.overall_score, Some(Score { thousandths: 7500 }));
    assert_eq!(fb.clarity, Some(Score { thousandths: 8000 }));
    assert_eq!(fb.engagement, Some(Score { thousandths: 7000 }));
    assert_eq!(fb.structure, Some(Score { thousandths: 7500 }));
    assert_eq!(fb.feedback.as_deref(), Some("Good"));
    assert_eq!(fb.strengths, Some(vec!["Clear".to_string()]));
    assert_eq!(fb.areas_to_improve, Some(vec!["Structure".to_string()]));
    assert!(fb.summary.is_none());
    assert!(fb.observations.is_none());
}

#[test]
fn boundary_extraction_recovers_embedded_object() {
    let wrapped = "Here is the analysis:\n{\"overall_score\": 7.5, \"clarity\": 8.0}\nThat's my evaluation.";
    let direct = "{\"overall_score\": 7.5, \"clarity\": 8.0}";
    let a = parse_evaluation_response(wrapped).unwrap();
    let b = parse_evaluation_response(direct).unwrap();
    assert_eq!(a.overall_score, b.overall_score);
    assert_eq!(a.clarity, b.clarity);
    assert_eq!(a.overall_score, Some(Score { thousandths: 7500 }));
    assert_eq!(a.clarity, Some(Score { thousandths: 8000 }));
}

#[test]
fn no_signal_yields_neutral_defaults() {
    let fb = parse_evaluation_response("nothing useful in this text").unwrap();
    assert_eq!(fb.overall_score, Some(Score { thousandths: 5000 }));
    assert_eq!(fb.clarity, Some(Score { thousandths: 5000 }));
    assert_eq!(fb.engagement, Some(Score { thousandths: 5000 }));
    assert_eq!(fb.structure, Some(Score { thousandths: 5000 }));
    assert!(!fb.feedback.unwrap().is_empty());
}

#[test]
fn two_tokens_fill_remaining_scores_with_overall() {
    let fb = parse_evaluation_response("scored a seven: 7 and later a three: 3").unwrap();
    assert_eq!(fb.overall_score, Some(Score { thousandths: 7000 }));
    assert_eq!(fb.clarity, Some(Score { thousandths: 3000 }));
    assert_eq!(fb.engagement, Some(Score { thousandths: 7000 }));
    assert_eq!(fb.structure, Some(Score { thousandths: 7000 }));
    assert_eq!(fb.feedback.as_deref(), Some("Evaluación parcial generada."));
}

#[test]
fn fallback_uses_first_four_tokens() {
    let r = create_fallback_feedback("9.5 then 8 then 7.25 then 6 then 5").unwrap();
    assert_eq!(r.overall_score, Some(Score { thousandths: 9500 }));
    assert_eq!(r.clarity, Some(Score { thousandths: 8000 }));
    assert_eq!(r.engagement, Some(Score { thousandths: 7250 }));
    assert_eq!(r.structure, Some(Score { thousandths: 6000 }));
}

#[test]
fn scanner_consumes_markers_and_filters_range() {
    let scores = scan_scores("8/10 then 12.5 then 9.25 y 7de 10");
    assert_eq!(
        scores,
        vec![
            Score { thousandths: 8000 },
            Score { thousandths: 9250 },
            Score { thousandths: 7000 },
        ]
    );
}

#[test]
fn scanner_spaced_qualifier_counts_ten_separately() {
    let scores = scan_scores("7 de 10");
    assert_eq!(scores, vec![Score { thousandths: 7000 }, Score { thousandths: 10000 }]);
}

#[test]
fn scanner_boundary_values() {
    assert_eq!(scan_scores("10.0 and 10.5 and 0"), vec![
        Score { thousandths: 10000 },
        Score { thousandths: 0 },
    ]);
    assert_eq!(scan_scores("7."), vec![Score { thousandths: 7000 }]);
    assert_eq!(scan_scores(""), Vec::<Score>::new());
}

#[test]
fn wrong_typed_field_falls_through_to_scan() {
    let fb = parse_evaluation_response("{\"overall_score\": \"high\"}").unwrap();
    assert_eq!(fb.overall_score, Some(Score { thousandths: 5000 }));
    assert!(!fb.feedback.unwrap().is_empty());
}

#[test]
fn out_of_range_score_rejected_by_strict_tier() {
    let fb = parse_evaluation_response("{\"overall_score\": 11.0}").unwrap();
    assert_eq!(fb.overall_score, Some(Score { thousandths: 5000 }));
}

#[test]
fn null_and_unknown_fields_are_tolerated() {
    let fb = parse_evaluation_response("{\"overall_score\": null, \"unknown_field\": true}").unwrap();
    assert!(fb.overall_score.is_none());
    assert!(fb.clarity.is_none());
    assert!(fb.feedback.is_none());
}

#[test]
fn integer_and_fractional_scores_parse_exactly() {
    let fb = parse_evaluation_response("{\"overall_score\": 7, \"clarity\": 7.25}").unwrap();
    assert_eq!(fb.overall_score, Some(Score { thousandths: 7000 }));
    assert_eq!(fb.clarity, Some(Score { thousandths: 7250 }));
}

#[test]
fn observations_and_summary_are_preserved() {
    let input = "{\"summary\": \"resumen\", \"observations\": {\"clarity\": \"clear\", \"calls_to_action\": \"strong\"}}";
    let fb = parse_evaluation_response(input).unwrap();
    assert_eq!(fb.summary.as_deref(), Some("resumen"));
    let obs = fb.observations.unwrap();
    assert_eq!(obs.clarity.as_deref(), Some("clear"));
    assert_eq!(obs.calls_to_action.as_deref(), Some("strong"));
    assert!(obs.structure.is_none());
    assert!(obs.objections.is_none());
}

#[test]
fn score_constructor_enforces_range() {
    assert_eq!(Score::new(10000), Some(Score { thousandths: 10000 }));
    assert_eq!(Score::new(10001), None);
}
