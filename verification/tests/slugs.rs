use imir::slugs::{
    effective_base_ref, every_slug, impacted_slugs, index_slugs, next_detection_step, no_slug,
    DetectionEvent, DetectionStep,
};
use imir::{Error, SlugDetectionResult};

#[test]
fn slug_detection_result_empty() {
    let result = SlugDetectionResult { slugs: Vec::new(), has_any: false };

    assert!(!result.has_any);
    assert!(result.slugs.is_empty());
}

#[test]
fn slug_detection_result_clone() {
    let result = SlugDetectionResult { slugs: vec!["test".to_string()], has_any: true };

    let cloned = result.clone();
    assert_eq!(result.slugs, cloned.slugs);
    assert_eq!(result.has_any, cloned.has_any);
}

#[test]
fn impacted_slugs_are_unique_and_sorted() {
    let diff = "\
+![a](metrics/zeta.svg)\n\
-![b](https://example.com/main/metrics/alpha_1.svg) metrics/zeta.svg\n\
+metrics/Beta.v2.svg metrics/.svg metrics/with space.svg\n\
+metrics/a-b.svg";
    let found = impacted_slugs(diff).expect("expected success");
    assert_eq!(found.slugs, ["Beta.v2", "a-b", "alpha_1", "zeta"]);
    assert!(found.has_any);

    let found = impacted_slugs("nothing to see").expect("expected success");
    assert!(found.slugs.is_empty());
    assert!(!found.has_any);
}

#[test]
fn the_longest_name_before_the_extension_is_taken() {
    let found = impacted_slugs("metrics/a.svg.svg").expect("expected success");
    assert_eq!(found.slugs, ["a.svg"]);
    let found = impacted_slugs("metrics/x.svgmetrics/y.svg").expect("expected success");
    assert_eq!(found.slugs, ["x", "y"]);
    let found = impacted_slugs("metrics/x.svg-metrics.y.svg").expect("expected success");
    assert_eq!(found.slugs, ["x.svg-metrics.y"]);
}

#[test]
fn captures_are_indexed_in_the_order_of_texts() {
    let captures = vec![
        Some("b".to_string()),
        None,
        Some("a".to_string()),
        Some("b".to_string()),
        Some("ab".to_string()),
        Some("B".to_string()),
        Some("é".to_string()),
    ];
    let mut expected: Vec<String> = captures.iter().flatten().cloned().collect();
    expected.sort();
    expected.dedup();
    let found = index_slugs(captures);
    assert_eq!(found.slugs, expected);
    assert_eq!(found.slugs, ["B", "a", "ab", "b", "é"]);
    assert!(found.has_any);
    assert!(!index_slugs(vec![None]).has_any);
}

#[test]
fn every_slug_and_no_slug() {
    let all = vec!["b".to_string(), "a".to_string(), "b".to_string()];
    let found = every_slug(&all);
    assert_eq!(found.slugs, all);
    assert!(found.has_any);
    assert!(!every_slug(&[]).has_any);
    assert!(no_slug().slugs.is_empty());
    assert!(!no_slug().has_any);
}

#[test]
fn scheduled_runs_have_no_base() {
    assert_eq!(effective_base_ref(Some("schedule"), "main"), "");
    assert_eq!(effective_base_ref(Some("push"), "main"), "main");
    assert_eq!(effective_base_ref(Some("Schedule"), "main"), "main");
    assert_eq!(effective_base_ref(None, "abc"), "abc");
}

fn finished(step: Result<DetectionStep, Error>) -> SlugDetectionResult {
    match step {
        Ok(DetectionStep::Finished(found)) => found,
        other => panic!("expected a result, got {other:?}"),
    }
}

#[test]
fn detection_steps_follow_the_events() {
    let all = vec!["one".to_string(), "two".to_string()];
    assert_eq!(finished(next_detection_step("", &all, &DetectionEvent::Started)).slugs, all);
    assert!(matches!(
        next_detection_step("main", &all, &DetectionEvent::Started),
        Ok(DetectionStep::VerifyBase)
    ));
    assert!(matches!(
        next_detection_step("main", &all, &DetectionEvent::BaseVerified(true)),
        Ok(DetectionStep::RunDiff)
    ));
    assert!(matches!(
        next_detection_step("main", &all, &DetectionEvent::BaseVerified(false)),
        Ok(DetectionStep::FetchBase)
    ));
    assert!(matches!(
        next_detection_step("main", &all, &DetectionEvent::BaseFetched(true)),
        Ok(DetectionStep::RunDiff)
    ));
    let found = finished(next_detection_step("main", &all, &DetectionEvent::BaseFetched(false)));
    assert_eq!(found.slugs, all);
    assert!(found.has_any);

    let failed = DetectionEvent::DiffFinished { success: false, output: "metrics/x.svg".into() };
    let found = finished(next_detection_step("main", &all, &failed));
    assert!(found.slugs.is_empty());
    assert!(!found.has_any);

    let done = DetectionEvent::DiffFinished { success: true, output: "metrics/x.svg".into() };
    let found = finished(next_detection_step("main", &all, &done));
    assert_eq!(found.slugs, ["x"]);

    let not_run = DetectionEvent::DiffNotRun("no such file".into());
    match next_detection_step("main", &all, &not_run) {
        Err(Error::Service { message }) => assert_eq!(message, "git diff failed: no such file"),
        other => panic!("expected a service error, got {other:?}"),
    }
}
