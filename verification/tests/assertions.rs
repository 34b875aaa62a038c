use playwright_rs::assertions::{
    build_mask_js, compile_assertion_pattern, default_assertion_timeout, default_poll_interval,
    expect, expect_page, page_timeout_message, screenshot_artifact_names, screenshot_verdict,
    writes_baseline, ElementState, PageCheck, ScreenshotVerdict, Step, TextCheck, MASK_JS_PREFIX,
    MASK_JS_SUFFIX,
};
use playwright_rs::error::Error;
use playwright_rs::locator::Locator;
use std::time::Duration;

fn loc(s: &str) -> Locator {
    Locator::new(s.to_string())
}

fn timed_out_message(step: Step) -> String {
    match step {
        Step::TimedOut(Error::AssertionTimeout(m)) => m,
        other => panic!("expected a timeout, got {:?}", other),
    }
}

#[test]
fn test_expectation_defaults() {
    assert_eq!(default_assertion_timeout(), Duration::from_secs(5));
    assert_eq!(default_poll_interval(), Duration::from_millis(100));
}

#[test]
fn settings_are_carried_through() {
    let e = expect(loc("#btn"))
        .with_timeout(Duration::from_secs(10))
        .with_poll_interval(Duration::from_millis(20));
    assert_eq!(e.timeout(), Duration::from_secs(10));
    assert_eq!(e.poll_interval(), Duration::from_millis(20));
    assert!(!e.is_negated());
    assert_eq!(e.locator().selector(), "#btn");
    let n = e.not();
    assert!(n.is_negated());
    assert!(n.not().is_negated());
}

#[test]
fn visibility_passes_retries_and_times_out() {
    let e = expect(loc("#btn"));
    assert!(matches!(e.check_state(ElementState::Visible, true, false, "5s"), Step::Pass));
    assert!(matches!(e.check_state(ElementState::Visible, false, false, "5s"), Step::Retry));
    assert_eq!(
        timed_out_message(e.check_state(ElementState::Visible, false, true, "5s")),
        "Expected element '#btn' to be visible, but it was not visible after 5s"
    );
}

#[test]
fn hidden_is_flipped_visible() {
    let hidden = expect(loc("#h")).flipped();
    assert!(matches!(hidden.check_state(ElementState::Visible, false, true, "1s"), Step::Pass));
    assert_eq!(
        timed_out_message(hidden.check_state(ElementState::Visible, true, true, "1s")),
        "Expected element '#h' NOT to be visible, but it was visible after 1s"
    );
    let disabled = expect(loc("#d")).flipped();
    assert_eq!(
        timed_out_message(disabled.check_state(ElementState::Enabled, true, true, "2s")),
        "Expected element '#d' NOT to be enabled, but it was enabled after 2s"
    );
}

#[test]
fn text_is_compared_trimmed() {
    let e = expect(loc("#t"));
    assert!(matches!(e.check_text("  Hello World \n", "Hello World", false, "5s"), Step::Pass));
    assert_eq!(
        timed_out_message(e.check_text(" Hello ", " Bye ", true, "5s")),
        "Expected element '#t' to have text 'Bye', but had 'Hello' after 5s"
    );
    let n = expect(loc("#t")).not();
    assert_eq!(
        timed_out_message(n.check_text("Bye", "Bye", true, "5s")),
        "Expected element '#t' NOT to have text 'Bye', but it did after 5s"
    );
}

#[test]
fn contains_and_value_checks() {
    let e = expect(loc("#c"));
    assert!(matches!(e.check_contains_text(" Hello World ", "World", false, "5s"), Step::Pass));
    assert!(matches!(e.check_contains_text("Hello", "World", false, "5s"), Step::Retry));
    assert!(matches!(e.check_value(" v ", "v", false, "5s"), Step::Retry));
    assert_eq!(
        timed_out_message(e.check_value("a", "b", true, "5s")),
        "Expected input '#c' to have value 'b', but had 'a' after 5s"
    );
}

#[test]
fn regex_checks_and_invalid_patterns() {
    let e = expect(loc("#r"));
    let re = compile_assertion_pattern("^Hel+o$").unwrap();
    assert!(matches!(
        e.check_pattern(TextCheck::MatchText, &re, "^Hel+o$", "  Hello ", false, "5s"),
        Step::Pass
    ));
    assert!(matches!(
        e.check_pattern(TextCheck::MatchValue, &re, "^Hel+o$", "  Hello ", false, "5s"),
        Step::Retry
    ));
    assert_eq!(
        timed_out_message(e.check_pattern(TextCheck::ContainPattern, &re, "^Hel+o$", "x", true, "5s")),
        "Expected element '#r' to contain pattern '^Hel+o$', but had 'x' after 5s"
    );
    match compile_assertion_pattern("(") {
        Err(Error::InvalidArgument(m)) => assert!(m.starts_with("Invalid regex: ")),
        _ => panic!("an unbalanced group must be rejected"),
    }
}

#[test]
fn mask_script_escapes_quotes_and_joins_with_newlines() {
    let js = build_mask_js(&[loc("a'b"), loc("#c")]);
    let expected = format!(
        "{}a\\'b{}\n{}#c{}",
        MASK_JS_PREFIX, MASK_JS_SUFFIX, MASK_JS_PREFIX, MASK_JS_SUFFIX
    );
    assert_eq!(js, expected);
    assert_eq!(build_mask_js(&[]), "");
    assert!(MASK_JS_PREFIX.ends_with("document.querySelectorAll('"));
}

#[test]
fn baseline_is_written_when_missing_or_updating() {
    assert!(writes_baseline(false, None));
    assert!(writes_baseline(false, Some(false)));
    assert!(writes_baseline(true, Some(true)));
    assert!(!writes_baseline(true, None));
    assert!(!writes_baseline(true, Some(false)));
}

#[test]
fn screenshot_verdicts() {
    assert!(matches!(screenshot_verdict(false, true, true, "5s"), ScreenshotVerdict::Pass));
    assert!(matches!(screenshot_verdict(true, false, true, "5s"), ScreenshotVerdict::Pass));
    assert!(matches!(screenshot_verdict(false, false, false, "5s"), ScreenshotVerdict::Retry));
    assert!(matches!(screenshot_verdict(false, false, true, "5s"), ScreenshotVerdict::Mismatch));
    match screenshot_verdict(true, true, true, "5s") {
        ScreenshotVerdict::NegatedTimeout(Error::AssertionTimeout(m)) => {
            assert_eq!(m, "Expected screenshots NOT to match, but they matched after 5s")
        }
        other => panic!("unexpected verdict {:?}", other),
    }
}

#[test]
fn screenshot_artifacts_sit_next_to_the_baseline() {
    let (a, d) = screenshot_artifact_names(Some("home"), Some("png"));
    assert_eq!((a.as_str(), d.as_str()), ("home-actual.png", "home-diff.png"));
    let (a, d) = screenshot_artifact_names(None, None);
    assert_eq!((a.as_str(), d.as_str()), ("screenshot-actual.png", "screenshot-diff.png"));
    let (a, _) = screenshot_artifact_names(Some("x"), Some("jpeg"));
    assert_eq!(a, "x-actual.jpeg");
}

#[test]
fn page_title_assertion_trims_and_url_assertion_does_not() {
    let e = expect_page("page-handle");
    assert_eq!(*e.page(), "page-handle");
    assert_eq!(e.timeout(), Duration::from_secs(5));
    assert!(matches!(e.check_exact(PageCheck::Title, "  Home ", "Home", false, "5s"), Step::Pass));
    assert!(matches!(
        e.check_exact(PageCheck::Url, "https://a.test/ ", "https://a.test/", false, "5s"),
        Step::Retry
    ));
    match e.check_exact(PageCheck::Url, "https://b.test/", "https://a.test/", true, "5s") {
        Step::TimedOut(Error::AssertionTimeout(m)) => assert_eq!(
            m,
            "Expected page to have URL 'https://a.test/', but got 'https://b.test/' after 5s"
        ),
        other => panic!("unexpected step {:?}", other),
    }
    let negated = expect_page("p").not();
    match negated.check_exact(PageCheck::Title, "Home", " Home", true, "1s") {
        Step::TimedOut(Error::AssertionTimeout(m)) => {
            assert_eq!(m, "Expected page NOT to have title 'Home', but it did after 1s")
        }
        other => panic!("unexpected step {:?}", other),
    }
}

#[test]
fn page_pattern_assertion_messages() {
    let re = compile_assertion_pattern("^https://a").unwrap();
    let e = expect_page(());
    assert!(matches!(
        e.check_pattern(PageCheck::UrlPattern, &re, "^https://a", "https://a.test/", true, "2s"),
        Step::Pass
    ));
    match e.not().check_pattern(PageCheck::UrlPattern, &re, "^https://a", "https://a.test/", true, "2s") {
        Step::TimedOut(Error::AssertionTimeout(m)) => assert_eq!(
            m,
            "Expected page URL NOT to match '^https://a', but 'https://a.test/' matched after 2s"
        ),
        other => panic!("unexpected step {:?}", other),
    }
    assert_eq!(
        page_timeout_message(PageCheck::TitlePattern, "x+", "yy", false, "3s"),
        "Expected page title to match 'x+', but got 'yy' after 3s"
    );
}
