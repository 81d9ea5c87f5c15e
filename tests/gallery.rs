use img_download::{
    aggregate_outcomes, decimal_text, file_name_for, first_present, image_references,
    is_success_status, last_segment, parse_image_urls, plan_tasks, references_of, resolve_all,
    resolve_reference, validate_base, FetchOutcome, FetchWorker, GalleryError, RetryPolicy,
    WorkerAction,
};

const BASE: &str = "https://site.example/gallery/42";

/// Runs one download against a transport that answers attempt `k` with
/// `answers[k]`, returning the outcome and the number of attempts made.
fn run_scripted(
    url: &str,
    index: usize,
    policy: RetryPolicy,
    answers: &[Option<u16>],
) -> (FetchOutcome, usize) {
    let mut worker = FetchWorker::new(policy);
    let mut made = 0;
    while worker.can_attempt() {
        let answer = answers.get(made).copied().unwrap_or(None);
        made += 1;
        match worker.record_attempt(answer) {
            WorkerAction::Write => return (FetchOutcome::Written(file_name_for(url, index)), made),
            WorkerAction::RetryAfter(_) => {}
            WorkerAction::GiveUp => break,
        }
    }
    (FetchOutcome::ExhaustedRetries(url.to_string()), made)
}

#[test]
fn extraction_and_resolution_keep_order_and_prefer_lazy_attribute() {
    let html = r#"<html><body>
        <img src="/img/1.jpg">
        <img data-src="https://cdn.example/2.png" src="/placeholder.gif">
        <img data-src="3.jpg">
        <img src="https://other.example/4.jpg" data-src="/lazy/4.jpg">
        <img alt="no source">
    </body></html>"#;
    let urls = parse_image_urls(html, BASE).unwrap();
    assert_eq!(
        urls,
        vec![
            "https://site.example/img/1.jpg".to_string(),
            "https://cdn.example/2.png".to_string(),
            "https://site.example/gallery/3.jpg".to_string(),
            "https://site.example/lazy/4.jpg".to_string(),
        ]
    );
}

#[test]
fn references_follow_document_order() {
    let html = r#"<div><img src="a.jpg"><p><img data-src="b.jpg"></p></div><img src="c.jpg">"#;
    let refs = image_references(html).unwrap();
    assert_eq!(refs, vec!["a.jpg".to_string(), "b.jpg".to_string(), "c.jpg".to_string()]);
}

#[test]
fn page_without_images_is_an_extraction_failure() {
    let html = "<html><body><p>nothing here</p></body></html>";
    assert!(matches!(parse_image_urls(html, BASE), Err(GalleryError::ExtractionFailure)));
    assert!(matches!(image_references(html), Err(GalleryError::ExtractionFailure)));
}

#[test]
fn images_without_source_attributes_are_an_extraction_failure() {
    let html = r#"<img alt="a"><img class="b">"#;
    assert!(matches!(parse_image_urls(html, BASE), Err(GalleryError::ExtractionFailure)));
}

#[test]
fn malformed_page_url_is_a_resolution_failure() {
    let html = r#"<img src="a.jpg">"#;
    assert!(matches!(parse_image_urls(html, "not a url"), Err(GalleryError::ResolutionFailure)));
    assert!(matches!(validate_base("/relative/only"), Err(GalleryError::ResolutionFailure)));
    assert!(validate_base(BASE).is_ok());
}

#[test]
fn relative_references_resolve_against_the_page() {
    assert_eq!(
        resolve_reference("/img/a.jpg", BASE),
        Some("https://site.example/img/a.jpg".to_string())
    );
    assert_eq!(
        resolve_reference("b.jpg", BASE),
        Some("https://site.example/gallery/b.jpg".to_string())
    );
    assert_eq!(
        resolve_reference("../up/c.jpg", BASE),
        Some("https://site.example/up/c.jpg".to_string())
    );
}

#[test]
fn absolute_references_keep_their_own_host() {
    assert_eq!(
        resolve_reference("http://elsewhere.example/x.jpg", BASE),
        Some("http://elsewhere.example/x.jpg".to_string())
    );
}

#[test]
fn malformed_reference_is_dropped_and_others_kept() {
    let refs = vec![
        "/img/a.jpg".to_string(),
        "http://[::1/broken.jpg".to_string(),
        "b.jpg".to_string(),
    ];
    assert_eq!(resolve_reference("http://[::1/broken.jpg", BASE), None);
    assert_eq!(
        resolve_all(&refs, BASE),
        vec![
            "https://site.example/img/a.jpg".to_string(),
            "https://site.example/gallery/b.jpg".to_string(),
        ]
    );
    let html = r#"<img src="/img/a.jpg"><img src="http://[::1/broken.jpg"><img data-src="b.jpg">"#;
    assert_eq!(parse_image_urls(html, BASE).unwrap().len(), 2);
}

#[test]
fn only_malformed_references_fail_extraction() {
    let html = r#"<img src="http://[::1/broken.jpg">"#;
    assert!(matches!(parse_image_urls(html, BASE), Err(GalleryError::ExtractionFailure)));
}

#[test]
fn file_name_is_last_segment_or_ordinal_fallback() {
    assert_eq!(file_name_for("https://site.example/a/b.jpg", 0), "b.jpg");
    assert_eq!(file_name_for("https://site.example/a/", 3), "image_3.jpg");
    assert_eq!(file_name_for("https://site.example/", 12), "image_12.jpg");
    assert_eq!(last_segment("https://site.example/a/b.jpg"), "b.jpg");
    assert_eq!(last_segment("no-slash"), "no-slash");
    assert_eq!(last_segment("ends/"), "");
}

#[test]
fn decimal_text_writes_digits() {
    assert_eq!(decimal_text(0), "0");
    assert_eq!(decimal_text(7), "7");
    assert_eq!(decimal_text(10), "10");
    assert_eq!(decimal_text(4096), "4096");
    assert_eq!(decimal_text(usize::MAX), usize::MAX.to_string());
}

#[test]
fn success_statuses_are_the_2xx_class() {
    assert!(is_success_status(200));
    assert!(is_success_status(204));
    assert!(is_success_status(299));
    assert!(!is_success_status(199));
    assert!(!is_success_status(300));
    assert!(!is_success_status(404));
}

#[test]
fn standard_policy_is_three_attempts_two_seconds_apart() {
    let p = RetryPolicy::standard();
    assert_eq!(p.max_attempts, 3);
    assert_eq!(p.delay_ms, 2000);
}

#[test]
fn worker_retries_after_failures_then_gives_up() {
    let mut w = FetchWorker::new(RetryPolicy::standard());
    assert_eq!(w.record_attempt(None), WorkerAction::RetryAfter(2000));
    assert_eq!(w.record_attempt(Some(500)), WorkerAction::RetryAfter(2000));
    assert!(w.can_attempt());
    assert_eq!(w.record_attempt(Some(404)), WorkerAction::GiveUp);
    assert!(!w.can_attempt());
    assert_eq!(w.attempts, 3);
}

#[test]
fn worker_writes_on_first_success() {
    let mut w = FetchWorker::new(RetryPolicy::new(5, 0));
    assert_eq!(w.record_attempt(Some(200)), WorkerAction::Write);
    assert!(w.finished);
    assert!(!w.can_attempt());
}

#[test]
fn policy_without_attempts_allows_none() {
    let w = FetchWorker::new(RetryPolicy::new(0, 10));
    assert!(!w.can_attempt());
}

#[test]
fn one_failing_image_does_not_abort_the_batch() {
    let urls: Vec<String> = (1..=5).map(|i| format!("https://site.example/img/{i}.jpg")).collect();
    let tasks = plan_tasks(&urls);
    let policy = RetryPolicy::new(3, 0);
    let outcomes: Vec<FetchOutcome> = tasks
        .iter()
        .map(|t| {
            let answers: Vec<Option<u16>> =
                if t.ordinal_index == 2 { vec![None, None, None] } else { vec![Some(200)] };
            run_scripted(&t.url, t.ordinal_index, policy, &answers).0
        })
        .collect();
    let report = aggregate_outcomes(outcomes).unwrap();
    assert_eq!(report.written, vec!["1.jpg", "2.jpg", "4.jpg", "5.jpg"]);
    assert_eq!(report.skipped, vec!["https://site.example/img/3.jpg".to_string()]);
}

#[test]
fn third_attempt_success_writes_once_and_skips_nothing() {
    let url = "https://site.example/img/a.jpg";
    let (outcome, made) =
        run_scripted(url, 0, RetryPolicy::standard(), &[Some(503), None, Some(200)]);
    assert_eq!(made, 3);
    let report = aggregate_outcomes(vec![outcome]).unwrap();
    assert_eq!(report.written, vec!["a.jpg".to_string()]);
    assert!(report.skipped.is_empty());
}

#[test]
fn three_failures_skip_the_url_and_the_batch_succeeds() {
    let url = "https://site.example/img/a.jpg";
    let (outcome, made) =
        run_scripted(url, 0, RetryPolicy::standard(), &[None, Some(500), None, Some(200)]);
    assert_eq!(made, 3);
    let report = aggregate_outcomes(vec![outcome]).unwrap();
    assert!(report.written.is_empty());
    assert_eq!(report.skipped, vec![url.to_string()]);
}

#[test]
fn first_fatal_outcome_fails_the_batch() {
    let outcomes = vec![
        FetchOutcome::Written("a.jpg".to_string()),
        FetchOutcome::ExhaustedRetries("https://x.example/b.jpg".to_string()),
        FetchOutcome::Fatal(GalleryError::ExecutionEngineFailure("panicked".to_string())),
        FetchOutcome::Fatal(GalleryError::WriteFailure("disk full".to_string())),
    ];
    match aggregate_outcomes(outcomes) {
        Err(GalleryError::ExecutionEngineFailure(msg)) => assert_eq!(msg, "panicked"),
        other => panic!("unexpected result: {other:?}"),
    }
}

#[test]
fn empty_batch_reports_nothing() {
    let report = aggregate_outcomes(Vec::new()).unwrap();
    assert!(report.written.is_empty());
    assert!(report.skipped.is_empty());
}

#[test]
fn tasks_carry_url_name_and_ordinal() {
    let urls = vec![
        "https://site.example/a/b.jpg".to_string(),
        "https://site.example/a/".to_string(),
        "https://site.example/c/b.jpg".to_string(),
    ];
    let tasks = plan_tasks(&urls);
    assert_eq!(tasks.len(), 3);
    assert_eq!(tasks[0].file_name, "b.jpg");
    assert_eq!(tasks[1].file_name, "image_1.jpg");
    assert_eq!(tasks[1].url, "https://site.example/a/");
    assert_eq!(tasks[2].file_name, "b.jpg");
    assert_eq!(tasks[2].ordinal_index, 2);
}

#[test]
fn first_present_prefers_earlier_attributes() {
    assert_eq!(first_present(&vec![Some("x".to_string()), Some("y".to_string())]), Some("x".to_string()));
    assert_eq!(first_present(&vec![None, Some("y".to_string())]), Some("y".to_string()));
    assert_eq!(first_present(&vec![None, None]), None);
    assert_eq!(first_present(&vec![Some(String::new()), Some("y".to_string())]), Some(String::new()));
}

#[test]
fn references_skip_rows_without_values() {
    let rows = vec![
        vec![None, Some("a.jpg".to_string())],
        vec![None, None],
        vec![Some("b.jpg".to_string()), Some("c.jpg".to_string())],
    ];
    assert_eq!(references_of(&rows), vec!["a.jpg".to_string(), "b.jpg".to_string()]);
}
