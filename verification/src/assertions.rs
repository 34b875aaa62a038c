//! Auto-retrying assertions (`expect(locator)...`).
//!
//! An assertion polls the page until its condition holds or its timeout
//! passes. The polling itself (querying the page, sleeping, reading the
//! clock) is the caller's; this module holds the expectation's settings and
//! decides, for each observation, whether the assertion has passed, must
//! poll again, or has timed out, and with which message.

use vstd::prelude::*;
use std::time::Duration;
use crate::error::Error;
use crate::glob::{regex_compiles, regex_finds_match, Pattern};
use crate::locator::Locator;
use crate::text::{contains_seq, contains_str, owned, push_str, str_eq, trim, trimmed, to_chars, from_chars};

verus! {

/// Default assertion timeout, in milliseconds (5 seconds).
pub const DEFAULT_ASSERTION_TIMEOUT_MS: u64 = 5000;

/// Default polling interval, in milliseconds.
pub const DEFAULT_POLL_INTERVAL_MS: u64 = 100;

/// The duration of `ms` milliseconds, as std `Duration::from_millis` builds it.
pub uninterp spec fn millis_duration(ms: u64) -> Duration;

/// The whole milliseconds in a duration, as std `Duration::as_millis` counts them.
pub uninterp spec fn duration_millis(d: Duration) -> u128;

/// std `Duration::from_millis`: the result is a function of `ms` alone, and
/// holds exactly `ms` whole milliseconds.
#[verifier::external_body]
pub(crate) fn duration_from_millis(ms: u64) -> (d: Duration)
    ensures
        d == millis_duration(ms),
        duration_millis(d) == ms,
{
    Duration::from_millis(ms)
}

/// std `Duration::as_millis`: the whole milliseconds in `d`.
#[verifier::external_body]
pub(crate) fn duration_as_millis(d: Duration) -> (r: u128)
    ensures
        r == duration_millis(d),
{
    d.as_millis()
}

/// The default assertion timeout (5 seconds).
pub fn default_assertion_timeout() -> (d: Duration)
    ensures
        d == millis_duration(DEFAULT_ASSERTION_TIMEOUT_MS),
{
    duration_from_millis(DEFAULT_ASSERTION_TIMEOUT_MS)
}

/// The default polling interval (100 milliseconds).
pub fn default_poll_interval() -> (d: Duration)
    ensures
        d == millis_duration(DEFAULT_POLL_INTERVAL_MS),
{
    duration_from_millis(DEFAULT_POLL_INTERVAL_MS)
}

/// Expectation wraps a locator and the settings of an auto-retrying assertion.
pub struct Expectation {
    locator: Locator,
    timeout: Duration,
    poll_interval: Duration,
    negate: bool,
}

/// Creates an expectation for a locator with auto-retry behavior.
pub fn expect(locator: Locator) -> (r: Expectation)
    ensures
        r.locator_spec() == locator@,
        !r.negated(),
        r.timeout_spec() == millis_duration(DEFAULT_ASSERTION_TIMEOUT_MS),
        r.poll_interval_spec() == millis_duration(DEFAULT_POLL_INTERVAL_MS),
{
    Expectation::new(locator)
}

/// What one observation means for a polling assertion.
#[derive(Debug)]
pub enum Step {
    /// The condition holds: the assertion passed.
    Pass,
    /// The condition does not hold yet: sleep for the poll interval and look again.
    Retry,
    /// The condition did not hold before the timeout.
    TimedOut(Error),
}

/// The outcome of one poll: pass when the condition holds, fail with
/// `message` once the timeout has passed, else poll again.
pub open spec fn step_is(r: Step, holds: bool, timed_out: bool, message: Seq<char>) -> bool {
    if holds {
        r is Pass
    } else if timed_out {
        r matches Step::TimedOut(Error::AssertionTimeout(m)) && m@ == message
    } else {
        r is Retry
    }
}

/// Element states an assertion can wait for.
#[derive(Debug, Clone, Copy, PartialEq, Eq)]
pub enum ElementState {
    Visible,
    Enabled,
    Checked,
    Editable,
    Focused,
}

/// The word naming a state in messages.
pub open spec fn state_word(s: ElementState) -> Seq<char> {
    match s {
        ElementState::Visible => "visible"@,
        ElementState::Enabled => "enabled"@,
        ElementState::Checked => "checked"@,
        ElementState::Editable => "editable"@,
        ElementState::Focused => "focused"@,
    }
}

/// Whether an observation satisfies a (possibly negated) assertion.
pub open spec fn holds(negate: bool, observed: bool) -> bool {
    if negate {
        !observed
    } else {
        observed
    }
}

/// The timeout message of a state assertion.
pub open spec fn state_message(
    selector: Seq<char>,
    state: ElementState,
    negate: bool,
    timeout_text: Seq<char>,
) -> Seq<char> {
    if negate {
        "Expected element '"@ + selector + "' NOT to be "@ + state_word(state) + ", but it was "@
            + state_word(state) + " after "@ + timeout_text
    } else {
        "Expected element '"@ + selector + "' to be "@ + state_word(state)
            + ", but it was not "@ + state_word(state) + " after "@ + timeout_text
    }
}

/// Which text-valued assertion a message is about.
#[derive(Debug, Clone, Copy, PartialEq, Eq)]
pub enum TextCheck {
    /// `to_have_text`: trimmed text equals the trimmed expectation.
    HaveText,
    /// `to_have_text_regex`: the pattern matches the trimmed text.
    MatchText,
    /// `to_contain_text`: the trimmed text contains the expectation.
    ContainText,
    /// `to_contain_text_regex`: the pattern matches the trimmed text.
    ContainPattern,
    /// `to_have_value`: the input value equals the expectation.
    HaveValue,
    /// `to_have_value_regex`: the pattern matches the input value.
    MatchValue,
}

/// Subject and phrase of a text assertion's message.
pub open spec fn text_subject(c: TextCheck) -> Seq<char> {
    match c {
        TextCheck::HaveValue | TextCheck::MatchValue => "input"@,
        _ => "element"@,
    }
}

pub open spec fn text_phrase(c: TextCheck) -> Seq<char> {
    match c {
        TextCheck::HaveText => "have text"@,
        TextCheck::MatchText => "match pattern"@,
        TextCheck::ContainText => "contain text"@,
        TextCheck::ContainPattern => "contain pattern"@,
        TextCheck::HaveValue => "have value"@,
        TextCheck::MatchValue => "match pattern"@,
    }
}

/// The timeout message of a text assertion.
pub open spec fn text_message(
    check: TextCheck,
    selector: Seq<char>,
    expected: Seq<char>,
    actual: Seq<char>,
    negate: bool,
    timeout_text: Seq<char>,
) -> Seq<char> {
    if negate {
        "Expected "@ + text_subject(check) + " '"@ + selector + "' NOT to "@ + text_phrase(check)
            + " '"@ + expected + "', but it did after "@ + timeout_text
    } else {
        "Expected "@ + text_subject(check) + " '"@ + selector + "' to "@ + text_phrase(check) + " '"@
            + expected + "', but had '"@ + actual + "' after "@ + timeout_text
    }
}

fn state_word_exec(s: ElementState) -> (r: &'static str)
    ensures
        r@ == state_word(s),
{
    match s {
        ElementState::Visible => "visible",
        ElementState::Enabled => "enabled",
        ElementState::Checked => "checked",
        ElementState::Editable => "editable",
        ElementState::Focused => "focused",
    }
}

fn text_subject_exec(c: TextCheck) -> (r: &'static str)
    ensures
        r@ == text_subject(c),
{
    match c {
        TextCheck::HaveValue | TextCheck::MatchValue => "input",
        _ => "element",
    }
}

fn text_phrase_exec(c: TextCheck) -> (r: &'static str)
    ensures
        r@ == text_phrase(c),
{
    match c {
        TextCheck::HaveText => "have text",
        TextCheck::MatchText => "match pattern",
        TextCheck::ContainText => "contain text",
        TextCheck::ContainPattern => "contain pattern",
        TextCheck::HaveValue => "have value",
        TextCheck::MatchValue => "match pattern",
    }
}

fn decide(holds: bool, timed_out: bool, message: String) -> (r: Step)
    ensures
        step_is(r, holds, timed_out, message@),
{
    if holds {
        Step::Pass
    } else if timed_out {
        Step::TimedOut(Error::AssertionTimeout(message))
    } else {
        Step::Retry
    }
}

/// Builds the timeout message of a text assertion.
pub fn text_timeout_message(
    check: TextCheck,
    selector: &str,
    expected: &str,
    actual: &str,
    negate: bool,
    timeout_text: &str,
) -> (r: String)
    ensures
        r@ == text_message(check, selector@, expected@, actual@, negate, timeout_text@),
{
    let mut m = owned("Expected ");
    push_str(&mut m, text_subject_exec(check));
    push_str(&mut m, " '");
    push_str(&mut m, selector);
    if negate {
        push_str(&mut m, "' NOT to ");
    } else {
        push_str(&mut m, "' to ");
    }
    push_str(&mut m, text_phrase_exec(check));
    push_str(&mut m, " '");
    push_str(&mut m, expected);
    if negate {
        push_str(&mut m, "', but it did after ");
    } else {
        push_str(&mut m, "', but had '");
        push_str(&mut m, actual);
        push_str(&mut m, "' after ");
    }
    push_str(&mut m, timeout_text);
    m
}

/// Builds the timeout message of a state assertion.
pub fn state_timeout_message(
    selector: &str,
    state: ElementState,
    negate: bool,
    timeout_text: &str,
) -> (r: String)
    ensures
        r@ == state_message(selector@, state, negate, timeout_text@),
{
    let w = state_word_exec(state);
    let mut m = owned("Expected element '");
    push_str(&mut m, selector);
    if negate {
        push_str(&mut m, "' NOT to be ");
        push_str(&mut m, w);
        push_str(&mut m, ", but it was ");
    } else {
        push_str(&mut m, "' to be ");
        push_str(&mut m, w);
        push_str(&mut m, ", but it was not ");
    }
    push_str(&mut m, w);
    push_str(&mut m, " after ");
    push_str(&mut m, timeout_text);
    m
}

/// Compiles the pattern of a regex assertion; an invalid pattern is an
/// `InvalidArgument` error whose message starts with `Invalid regex: `
/// followed by the regex engine's explanation.
pub fn compile_assertion_pattern(pattern: &str) -> (r: Result<Pattern, Error>)
    ensures
        r is Ok <==> regex_compiles(pattern@),
        r matches Ok(p) ==> p.source() == pattern@,
        r matches Err(e) ==> e matches Error::InvalidArgument(m) && m@.len() >= 15
            && m@.subrange(0, 15) == "Invalid regex: "@,
{
    match Pattern::compile(pattern) {
        Ok(p) => Ok(p),
        Err(text) => {
            let mut m = owned("Invalid regex: ");
            push_str(&mut m, text.as_str());
            proof {
                reveal_strlit("Invalid regex: ");
            }
            assert(m@.subrange(0, 15) =~= "Invalid regex: "@);
            Err(Error::InvalidArgument(m))
        },
    }
}

impl Expectation {
    /// The selector of the locator under test.
    pub closed spec fn locator_spec(&self) -> Seq<char> {
        self.locator@
    }

    /// Whether the assertion is negated.
    pub closed spec fn negated(&self) -> bool {
        self.negate
    }

    /// The timeout.
    pub closed spec fn timeout_spec(&self) -> Duration {
        self.timeout
    }

    /// The polling interval.
    pub closed spec fn poll_interval_spec(&self) -> Duration {
        self.poll_interval
    }

    /// Creates a new, non-negated expectation for `locator` with the default
    /// timeout and poll interval.
    pub fn new(locator: Locator) -> (r: Expectation)
        ensures
            r.locator_spec() == locator@,
            !r.negated(),
            r.timeout_spec() == millis_duration(DEFAULT_ASSERTION_TIMEOUT_MS),
            r.poll_interval_spec() == millis_duration(DEFAULT_POLL_INTERVAL_MS),
    {
        Expectation {
            locator,
            timeout: default_assertion_timeout(),
            poll_interval: default_poll_interval(),
            negate: false,
        }
    }

    /// Sets a custom timeout for this assertion.
    pub fn with_timeout(self, timeout: Duration) -> (r: Expectation)
        ensures
            r.timeout_spec() == timeout,
            r.poll_interval_spec() == self.poll_interval_spec(),
            r.negated() == self.negated(),
            r.locator_spec() == self.locator_spec(),
    {
        Expectation { timeout, ..self }
    }

    /// Sets a custom poll interval for this assertion.
    pub fn with_poll_interval(self, interval: Duration) -> (r: Expectation)
        ensures
            r.poll_interval_spec() == interval,
            r.timeout_spec() == self.timeout_spec(),
            r.negated() == self.negated(),
            r.locator_spec() == self.locator_spec(),
    {
        Expectation { poll_interval: interval, ..self }
    }

    /// Negates the assertion.
    pub fn not(self) -> (r: Expectation)
        ensures
            r.negated(),
            r.timeout_spec() == self.timeout_spec(),
            r.poll_interval_spec() == self.poll_interval_spec(),
            r.locator_spec() == self.locator_spec(),
    {
        Expectation { negate: true, ..self }
    }

    /// The same expectation with its negation flipped: `to_be_hidden`,
    /// `to_be_disabled` and `to_be_unchecked` are `to_be_visible`,
    /// `to_be_enabled` and `to_be_checked` of the flipped expectation.
    pub fn flipped(self) -> (r: Expectation)
        ensures
            r.negated() == !self.negated(),
            r.timeout_spec() == self.timeout_spec(),
            r.poll_interval_spec() == self.poll_interval_spec(),
            r.locator_spec() == self.locator_spec(),
    {
        let n = !self.negate;
        Expectation { negate: n, ..self }
    }

    /// The locator under test.
    pub fn locator(&self) -> (r: &Locator)
        ensures
            r@ == self.locator_spec(),
    {
        &self.locator
    }

    /// The timeout.
    pub fn timeout(&self) -> (r: Duration)
        ensures
            r == self.timeout_spec(),
    {
        self.timeout
    }

    /// The polling interval.
    pub fn poll_interval(&self) -> (r: Duration)
        ensures
            r == self.poll_interval_spec(),
    {
        self.poll_interval
    }

    /// Whether the assertion is negated.
    pub fn is_negated(&self) -> (r: bool)
        ensures
            r == self.negated(),
    {
        self.negate
    }

    /// Judges one observation of an element state (visible, enabled, ...).
    pub fn check_state(
        &self,
        state: ElementState,
        observed: bool,
        timed_out: bool,
        timeout_text: &str,
    ) -> (r: Step)
        ensures
            step_is(
                r,
                holds(self.negated(), observed),
                timed_out,
                state_message(self.locator_spec(), state, self.negated(), timeout_text@),
            ),
    {
        let h = if self.negate {
            !observed
        } else {
            observed
        };
        let m = state_timeout_message(self.locator.selector(), state, self.negate, timeout_text);
        decide(h, timed_out, m)
    }

    /// Judges one observation for `to_have_text`: the element's text and the
    /// expectation are compared after trimming whitespace.
    pub fn check_text(&self, actual: &str, expected: &str, timed_out: bool, timeout_text: &str) -> (r:
        Step)
        ensures
            step_is(
                r,
                holds(self.negated(), trimmed(actual@) == trimmed(expected@)),
                timed_out,
                text_message(
                    TextCheck::HaveText,
                    self.locator_spec(),
                    trimmed(expected@),
                    trimmed(actual@),
                    self.negated(),
                    timeout_text@,
                ),
            ),
    {
        let a = trim(actual);
        let e = trim(expected);
        let same = str_eq(a.as_str(), e.as_str());
        let h = if self.negate {
            !same
        } else {
            same
        };
        let m = text_timeout_message(
            TextCheck::HaveText,
            self.locator.selector(),
            e.as_str(),
            a.as_str(),
            self.negate,
            timeout_text,
        );
        decide(h, timed_out, m)
    }

    /// Judges one observation for `to_contain_text`: the trimmed text must
    /// contain `expected`.
    pub fn check_contains_text(
        &self,
        actual: &str,
        expected: &str,
        timed_out: bool,
        timeout_text: &str,
    ) -> (r: Step)
        ensures
            step_is(
                r,
                holds(self.negated(), contains_seq(trimmed(actual@), expected@)),
                timed_out,
                text_message(
                    TextCheck::ContainText,
                    self.locator_spec(),
                    expected@,
                    trimmed(actual@),
                    self.negated(),
                    timeout_text@,
                ),
            ),
    {
        let a = trim(actual);
        let found = contains_str(a.as_str(), expected);
        let h = if self.negate {
            !found
        } else {
            found
        };
        let m = text_timeout_message(
            TextCheck::ContainText,
            self.locator.selector(),
            expected,
            a.as_str(),
            self.negate,
            timeout_text,
        );
        decide(h, timed_out, m)
    }

    /// Judges one observation for `to_have_value`: the input value must equal
    /// `expected` exactly.
    pub fn check_value(&self, actual: &str, expected: &str, timed_out: bool, timeout_text: &str) -> (r:
        Step)
        ensures
            step_is(
                r,
                holds(self.negated(), actual@ == expected@),
                timed_out,
                text_message(
                    TextCheck::HaveValue,
                    self.locator_spec(),
                    expected@,
                    actual@,
                    self.negated(),
                    timeout_text@,
                ),
            ),
    {
        let same = str_eq(actual, expected);
        let h = if self.negate {
            !same
        } else {
            same
        };
        let m = text_timeout_message(
            TextCheck::HaveValue,
            self.locator.selector(),
            expected,
            actual,
            self.negate,
            timeout_text,
        );
        decide(h, timed_out, m)
    }

    /// Judges one observation for a regex assertion (`MatchText`,
    /// `ContainPattern` or `MatchValue`). Text assertions match against the
    /// trimmed text, value assertions against the value as it is.
    pub fn check_pattern(
        &self,
        check: TextCheck,
        re: &Pattern,
        pattern: &str,
        actual: &str,
        timed_out: bool,
        timeout_text: &str,
    ) -> (r: Step)
        requires
            check == TextCheck::MatchText || check == TextCheck::ContainPattern || check
                == TextCheck::MatchValue,
            re.source() == pattern@,
        ensures
            ({
                let subject = if check == TextCheck::MatchValue {
                    actual@
                } else {
                    trimmed(actual@)
                };
                step_is(
                    r,
                    holds(self.negated(), regex_finds_match(pattern@, subject)),
                    timed_out,
                    text_message(
                        check,
                        self.locator_spec(),
                        pattern@,
                        subject,
                        self.negated(),
                        timeout_text@,
                    ),
                )
            }),
    {
        let subject = match check {
            TextCheck::MatchValue => owned(actual),
            _ => trim(actual),
        };
        let found = re.is_match(subject.as_str());
        let h = if self.negate {
            !found
        } else {
            found
        };
        let m = text_timeout_message(
            check,
            self.locator.selector(),
            pattern,
            subject.as_str(),
            self.negate,
            timeout_text,
        );
        decide(h, timed_out, m)
    }
}

/// A flipped assertion holds on exactly the observations on which the
/// unflipped one does not: `to_be_hidden` is the negation of `to_be_visible`,
/// `to_be_disabled` of `to_be_enabled`, `to_be_unchecked` of `to_be_checked`.
pub proof fn lemma_flipped_is_opposite(negate: bool, observed: bool)
    ensures
        holds(!negate, observed) == !holds(negate, observed),
{
}

/// What a page-level assertion compares.
#[derive(Debug, Clone, Copy, PartialEq, Eq)]
pub enum PageCheck {
    /// `to_have_title`: trimmed title equals the trimmed expectation.
    Title,
    /// `to_have_title_regex`: the pattern matches the title.
    TitlePattern,
    /// `to_have_url`: the URL equals the expectation.
    Url,
    /// `to_have_url_regex`: the pattern matches the URL.
    UrlPattern,
}

/// The timeout message of a page assertion.
pub open spec fn page_message(
    check: PageCheck,
    expected: Seq<char>,
    actual: Seq<char>,
    negate: bool,
    timeout_text: Seq<char>,
) -> Seq<char> {
    match check {
        PageCheck::Title => if negate {
            "Expected page NOT to have title '"@ + expected + "', but it did after "@ + timeout_text
        } else {
            "Expected page to have title '"@ + expected + "', but got '"@ + actual + "' after "@
                + timeout_text
        },
        PageCheck::Url => if negate {
            "Expected page NOT to have URL '"@ + expected + "', but it did after "@ + timeout_text
        } else {
            "Expected page to have URL '"@ + expected + "', but got '"@ + actual + "' after "@
                + timeout_text
        },
        PageCheck::TitlePattern => if negate {
            "Expected page title NOT to match '"@ + expected + "', but '"@ + actual
                + "' matched after "@ + timeout_text
        } else {
            "Expected page title to match '"@ + expected + "', but got '"@ + actual + "' after "@
                + timeout_text
        },
        PageCheck::UrlPattern => if negate {
            "Expected page URL NOT to match '"@ + expected + "', but '"@ + actual
                + "' matched after "@ + timeout_text
        } else {
            "Expected page URL to match '"@ + expected + "', but got '"@ + actual + "' after "@
                + timeout_text
        },
    }
}

/// Builds the timeout message of a page assertion.
pub fn page_timeout_message(
    check: PageCheck,
    expected: &str,
    actual: &str,
    negate: bool,
    timeout_text: &str,
) -> (r: String)
    ensures
        r@ == page_message(check, expected@, actual@, negate, timeout_text@),
{
    let pattern = match check {
        PageCheck::TitlePattern | PageCheck::UrlPattern => true,
        _ => false,
    };
    let what = match check {
        PageCheck::Title | PageCheck::TitlePattern => "title",
        _ => "URL",
    };
    let mut m = owned("Expected page ");
    if pattern {
        push_str(&mut m, what);
        if negate {
            push_str(&mut m, " NOT to match '");
        } else {
            push_str(&mut m, " to match '");
        }
    } else {
        if negate {
            push_str(&mut m, "NOT to have ");
        } else {
            push_str(&mut m, "to have ");
        }
        push_str(&mut m, what);
        push_str(&mut m, " '");
    }
    push_str(&mut m, expected);
    if negate && pattern {
        push_str(&mut m, "', but '");
        push_str(&mut m, actual);
        push_str(&mut m, "' matched after ");
    } else if negate {
        push_str(&mut m, "', but it did after ");
    } else {
        push_str(&mut m, "', but got '");
        push_str(&mut m, actual);
        push_str(&mut m, "' after ");
    }
    push_str(&mut m, timeout_text);
    proof {
        reveal_strlit("title");
        reveal_strlit("URL");
        reveal_strlit("Expected page ");
        reveal_strlit(" NOT to match '");
        reveal_strlit(" to match '");
        reveal_strlit("NOT to have ");
        reveal_strlit("to have ");
        reveal_strlit(" '");
        reveal_strlit("Expected page NOT to have title '");
        reveal_strlit("Expected page to have title '");
        reveal_strlit("Expected page NOT to have URL '");
        reveal_strlit("Expected page to have URL '");
        reveal_strlit("Expected page title NOT to match '");
        reveal_strlit("Expected page title to match '");
        reveal_strlit("Expected page URL NOT to match '");
        reveal_strlit("Expected page URL to match '");
    }
    assert(m@ =~= page_message(check, expected@, actual@, negate, timeout_text@));
    m
}

/// A page-level expectation (title, URL); `P` is the page handle.
pub struct PageExpectation<P> {
    page: P,
    timeout: Duration,
    poll_interval: Duration,
    negate: bool,
}

/// Creates a page-level expectation with the default timeout and poll interval.
pub fn expect_page<P>(page: P) -> (r: PageExpectation<P>)
    ensures
        r.page_spec() == page,
        !r.negated(),
        r.timeout_spec() == millis_duration(DEFAULT_ASSERTION_TIMEOUT_MS),
        r.poll_interval_spec() == millis_duration(DEFAULT_POLL_INTERVAL_MS),
{
    PageExpectation {
        page,
        timeout: default_assertion_timeout(),
        poll_interval: default_poll_interval(),
        negate: false,
    }
}

impl<P> PageExpectation<P> {
    pub closed spec fn page_spec(&self) -> P {
        self.page
    }

    pub closed spec fn negated(&self) -> bool {
        self.negate
    }

    pub closed spec fn timeout_spec(&self) -> Duration {
        self.timeout
    }

    pub closed spec fn poll_interval_spec(&self) -> Duration {
        self.poll_interval
    }

    /// Sets a custom timeout for this assertion.
    pub fn with_timeout(self, timeout: Duration) -> (r: Self)
        ensures
            r.timeout_spec() == timeout,
            r.poll_interval_spec() == self.poll_interval_spec(),
            r.negated() == self.negated(),
            r.page_spec() == self.page_spec(),
    {
        PageExpectation { timeout, ..self }
    }

    /// Negates the assertion.
    pub fn not(self) -> (r: Self)
        ensures
            r.negated(),
            r.timeout_spec() == self.timeout_spec(),
            r.poll_interval_spec() == self.poll_interval_spec(),
            r.page_spec() == self.page_spec(),
    {
        PageExpectation { negate: true, ..self }
    }

    /// The page under test.
    pub fn page(&self) -> (r: &P)
        ensures
            *r == self.page_spec(),
    {
        &self.page
    }

    /// The timeout.
    pub fn timeout(&self) -> (r: Duration)
        ensures
            r == self.timeout_spec(),
    {
        self.timeout
    }

    /// The polling interval.
    pub fn poll_interval(&self) -> (r: Duration)
        ensures
            r == self.poll_interval_spec(),
    {
        self.poll_interval
    }

    /// Judges one observation for `to_have_title` (both sides trimmed) or
    /// `to_have_url` (compared as they are).
    pub fn check_exact(
        &self,
        check: PageCheck,
        actual: &str,
        expected: &str,
        timed_out: bool,
        timeout_text: &str,
    ) -> (r: Step)
        requires
            check == PageCheck::Title || check == PageCheck::Url,
        ensures
            ({
                let a = if check == PageCheck::Title {
                    trimmed(actual@)
                } else {
                    actual@
                };
                let e = if check == PageCheck::Title {
                    trimmed(expected@)
                } else {
                    expected@
                };
                step_is(
                    r,
                    holds(self.negated(), a == e),
                    timed_out,
                    page_message(check, e, a, self.negated(), timeout_text@),
                )
            }),
    {
        let (a, e) = match check {
            PageCheck::Title => (trim(actual), trim(expected)),
            _ => (owned(actual), owned(expected)),
        };
        let same = str_eq(a.as_str(), e.as_str());
        let h = if self.negate {
            !same
        } else {
            same
        };
        let m = page_timeout_message(check, e.as_str(), a.as_str(), self.negate, timeout_text);
        decide(h, timed_out, m)
    }

    /// Judges one observation for `to_have_title_regex` or
    /// `to_have_url_regex` (the pattern is matched against the value as it is).
    pub fn check_pattern(
        &self,
        check: PageCheck,
        re: &Pattern,
        pattern: &str,
        actual: &str,
        timed_out: bool,
        timeout_text: &str,
    ) -> (r: Step)
        requires
            check == PageCheck::TitlePattern || check == PageCheck::UrlPattern,
            re.source() == pattern@,
        ensures
            step_is(
                r,
                holds(self.negated(), regex_finds_match(pattern@, actual@)),
                timed_out,
                page_message(check, pattern@, actual@, self.negated(), timeout_text@),
            ),
    {
        let found = re.is_match(actual);
        let h = if self.negate {
            !found
        } else {
            found
        };
        let m = page_timeout_message(check, pattern, actual, self.negate, timeout_text);
        decide(h, timed_out, m)
    }
}

/// Animation control for screenshot assertions.
#[derive(Debug, Clone, Copy, PartialEq, Eq)]
pub enum Animations {
    /// Allow animations to run normally.
    Allow,
    /// Disable CSS animations and transitions before capturing.
    Disabled,
}

/// Text before the selector in one mask overlay script.
pub const MASK_JS_PREFIX: &'static str = "\n                (function() {\n                    var els = document.querySelectorAll('";

/// Text after the selector in one mask overlay script.
pub const MASK_JS_SUFFIX: &'static str = "');\n                    els.forEach(function(el) {\n                        var rect = el.getBoundingClientRect();\n                        var overlay = document.createElement('div');\n                        overlay.setAttribute('data-playwright-mask', '');\n                        overlay.style.cssText = 'position:fixed;z-index:2147483647;background:#FF00FF;pointer-events:none;'\n                            + 'left:' + rect.left + 'px;top:' + rect.top + 'px;width:' + rect.width + 'px;height:' + rect.height + 'px;';\n                        document.body.appendChild(overlay);\n                    });\n                })();\n                ";

/// `s` with every `'` preceded by a backslash.
pub open spec fn escape_single_quotes(s: Seq<char>) -> Seq<char>
    decreases s.len(),
{
    if s.len() == 0 {
        Seq::empty()
    } else {
        escape_single_quotes(s.drop_last()) + (if s.last() == '\'' {
            seq!['\\', '\'']
        } else {
            seq![s.last()]
        })
    }
}

/// The overlay script for one selector.
pub open spec fn mask_script(selector: Seq<char>) -> Seq<char> {
    MASK_JS_PREFIX@ + escape_single_quotes(selector) + MASK_JS_SUFFIX@
}

/// The overlay scripts for a list of selectors, joined by newlines.
pub open spec fn mask_js(selectors: Seq<Seq<char>>) -> Seq<char>
    decreases selectors.len(),
{
    if selectors.len() == 0 {
        Seq::empty()
    } else if selectors.len() == 1 {
        mask_script(selectors[0])
    } else {
        mask_js(selectors.drop_last()) + seq!['\n'] + mask_script(selectors.last())
    }
}

fn escape_single_quotes_exec(s: &str) -> (r: String)
    ensures
        r@ == escape_single_quotes(s@),
{
    let v = to_chars(s);
    let mut out: Vec<char> = Vec::new();
    let mut i: usize = 0;
    while i < v.len()
        invariant
            v@ == s@,
            i <= v.len(),
            out@ == escape_single_quotes(s@.subrange(0, i as int)),
        decreases v.len() - i,
    {
        assert(s@.subrange(0, i + 1).drop_last() =~= s@.subrange(0, i as int));
        if v[i] == '\'' {
            out.push('\\');
            out.push('\'');
        } else {
            out.push(v[i]);
        }
        assert(out@ =~= escape_single_quotes(s@.subrange(0, i + 1)));
        i = i + 1;
    }
    assert(s@.subrange(0, v.len() as int) =~= s@);
    from_chars(out.as_slice())
}

/// The selectors of a list of locators.
pub open spec fn selectors_of(locators: Seq<Locator>) -> Seq<Seq<char>> {
    locators.map_values(|l: Locator| l@)
}

/// Builds the JavaScript that overlays every element matched by the mask
/// locators with a pink (#FF00FF) rectangle.
pub fn build_mask_js(locators: &[Locator]) -> (r: String)
    ensures
        r@ == mask_js(selectors_of(locators@)),
{
    let mut out = String::new();
    let mut i: usize = 0;
    while i < locators.len()
        invariant
            i <= locators@.len(),
            out@ == mask_js(selectors_of(locators@.subrange(0, i as int))),
        decreases locators@.len() - i,
    {
        let ghost prev = selectors_of(locators@.subrange(0, i as int));
        let ghost next = selectors_of(locators@.subrange(0, i + 1));
        assert(next.drop_last() =~= prev);
        assert(next.last() == locators@[i as int]@);
        if i > 0 {
            push_str(&mut out, "\n");
            proof {
                reveal_strlit("\n");
            }
        }
        let sel = escape_single_quotes_exec(locators[i].selector());
        push_str(&mut out, MASK_JS_PREFIX);
        push_str(&mut out, sel.as_str());
        push_str(&mut out, MASK_JS_SUFFIX);
        i = i + 1;
    }
    assert(locators@.subrange(0, locators@.len() as int) =~= locators@);
    out
}

/// Whether a screenshot assertion saves its first screenshot as the
/// baseline instead of comparing: when there is no baseline yet, or when
/// snapshots are being updated.
pub fn writes_baseline(baseline_exists: bool, update_snapshots: Option<bool>) -> (r: bool)
    ensures
        r == (!baseline_exists || update_snapshots == Some(true)),
{
    let update = match update_snapshots {
        Some(u) => u,
        None => false,
    };
    !baseline_exists || update
}

/// What one comparison means for a polling screenshot assertion.
#[derive(Debug)]
pub enum ScreenshotVerdict {
    /// The assertion holds.
    Pass,
    /// Not yet: take another screenshot after the poll interval.
    Retry,
    /// A negated assertion timed out: the screenshots kept matching.
    NegatedTimeout(Error),
    /// The screenshots still differ at the timeout: save the actual and
    /// diff images and report the mismatch.
    Mismatch,
}

/// The timeout message of a negated screenshot assertion.
pub open spec fn negated_screenshot_message(timeout_text: Seq<char>) -> Seq<char> {
    "Expected screenshots NOT to match, but they matched after "@ + timeout_text
}

/// Judges one screenshot comparison: `within` says whether it was within
/// the tolerances.
pub fn screenshot_verdict(negate: bool, within: bool, timed_out: bool, timeout_text: &str) -> (r:
    ScreenshotVerdict)
    ensures
        holds(negate, within) ==> r is Pass,
        !holds(negate, within) && !timed_out ==> r is Retry,
        !holds(negate, within) && timed_out && negate ==> (r matches ScreenshotVerdict::NegatedTimeout(
            Error::AssertionTimeout(m),
        ) && m@ == negated_screenshot_message(timeout_text@)),
        !holds(negate, within) && timed_out && !negate ==> r is Mismatch,
{
    let h = if negate {
        !within
    } else {
        within
    };
    if h {
        ScreenshotVerdict::Pass
    } else if !timed_out {
        ScreenshotVerdict::Retry
    } else if negate {
        let mut m = owned("Expected screenshots NOT to match, but they matched after ");
        push_str(&mut m, timeout_text);
        ScreenshotVerdict::NegatedTimeout(Error::AssertionTimeout(m))
    } else {
        ScreenshotVerdict::Mismatch
    }
}

/// The file name `<stem><tag>.<ext>`.
pub open spec fn artifact_name(stem: Seq<char>, tag: Seq<char>, ext: Seq<char>) -> Seq<char> {
    stem + tag + "."@ + ext
}

/// The characters of an optional string slice, or `default`.
pub open spec fn or_default(o: Option<&str>, default: Seq<char>) -> Seq<char> {
    match o {
        Some(s) => s@,
        None => default,
    }
}

/// File names of the copies saved next to a baseline when a screenshot
/// assertion times out: `<stem>-actual.<ext>` and `<stem>-diff.<ext>`, with
/// `screenshot` and `png` standing in for a missing stem or extension.
pub fn screenshot_artifact_names(stem: Option<&str>, ext: Option<&str>) -> (r: (String, String))
    ensures
        r.0@ == artifact_name(or_default(stem, "screenshot"@), "-actual"@, or_default(ext, "png"@)),
        r.1@ == artifact_name(or_default(stem, "screenshot"@), "-diff"@, or_default(ext, "png"@)),
{
    let stem = match stem {
        Some(s) => s,
        None => "screenshot",
    };
    let ext = match ext {
        Some(e) => e,
        None => "png",
    };
    let mut actual = owned(stem);
    push_str(&mut actual, "-actual.");
    push_str(&mut actual, ext);
    let mut diff = owned(stem);
    push_str(&mut diff, "-diff.");
    push_str(&mut diff, ext);
    proof {
        reveal_strlit("-actual.");
        reveal_strlit("-actual");
        reveal_strlit("-diff.");
        reveal_strlit("-diff");
        reveal_strlit(".");
    }
    assert(actual@ =~= artifact_name(stem@, "-actual"@, ext@));
    assert(diff@ =~= artifact_name(stem@, "-diff"@, ext@));
    (actual, diff)
}

} // verus!
