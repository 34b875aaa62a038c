use playwright_rs::navigation::{navigation_params, response_lookup_step, LookupStep};
use playwright_rs::response::{navigation_outcome, ResponseFields};
use playwright_rs::browser::{with_ci_stability_flags, Browser, BrowserType};
use playwright_rs::context::{
    AriaSnapshotMode, ConsoleMessage, ConsoleMessageLocation, FilePayload, ProxySettings,
    StorageStateChoice, Viewport, ViewportChoice, PdfPageOptions, ParamValue, pdf_page_params,
};
use playwright_rs::credentials::{create_params, get_params, CredentialsCreateOptions, CredentialsGetOptions};
use playwright_rs::emulation::{
    emulate_media_params, AddScriptTagOptions, AddStyleTagOptions, ColorScheme, EmulateMediaOptions,
    ForcedColors, Media, ReducedMotion, require_script_tag_options,
};
use playwright_rs::error::{closed_as_page, Error};
use playwright_rs::locator::Locator;
use playwright_rs::navigation::{normalize_url_fragment, with_navigation_timeout, GotoOptions, WaitUntil};
use playwright_rs::response::{decode_binary, decode_response_body, Response, ResponseObject};
use std::collections::HashMap;
use std::time::Duration;

#[test]
fn locator_chaining_builds_selectors() {
    let l = Locator::new("#list".to_string());
    assert_eq!(l.first().selector(), "#list >> nth=0");
    assert_eq!(l.last().selector(), "#list >> nth=-1");
    assert_eq!(l.nth(3).selector(), "#list >> nth=3");
    assert_eq!(l.nth(-12).selector(), "#list >> nth=-12");
    assert_eq!(l.nth(i32::MIN).selector(), "#list >> nth=-2147483648");
    assert_eq!(l.locator("li").first().selector(), "#list >> li >> nth=0");
    assert_eq!(l.nth(0).selector(), l.first().selector());
    assert_eq!(l.nth(-1).selector(), l.last().selector());
    // Chaining is associative.
    let ab = Locator::new("a".to_string()).locator("b");
    assert_eq!(l.locator("a").locator("b").selector(), l.locator(ab.selector()).selector());
}

#[test]
fn errors_get_the_selector_appended() {
    let l = Locator::new("#b".to_string());
    assert_eq!(
        l.wrap_error_with_selector(Error::Timeout("t".into())),
        Error::Timeout("t [selector: #b]".into())
    );
    assert_eq!(
        l.wrap_error_with_selector(Error::ProtocolError("p".into())),
        Error::ProtocolError("p [selector: #b]".into())
    );
    assert_eq!(
        l.wrap_error_with_selector(Error::InvalidArgument("x".into())),
        Error::InvalidArgument("x".into())
    );
    assert_eq!(
        closed_as_page(Error::TargetClosed { target_type: "Frame".into(), context: "goto".into() }),
        Error::TargetClosed { target_type: "Page".into(), context: "goto".into() }
    );
}

#[test]
fn tag_options_need_a_source() {
    assert!(AddStyleTagOptions::builder().build().validate().is_err());
    assert!(AddStyleTagOptions::builder().content("a{}").build().validate().is_ok());
    let s = AddScriptTagOptions::builder().url("u").type_("module").build();
    assert_eq!(s.type_.as_deref(), Some("module"));
    assert!(s.validate().is_ok());
    match require_script_tag_options(None) {
        Err(Error::InvalidArgument(m)) => {
            assert_eq!(m, "At least one of content, url, or path must be specified")
        }
        _ => panic!("missing options must be rejected"),
    }
}

#[test]
fn emulate_media_parameters() {
    let o = EmulateMediaOptions::builder()
        .media(Media::Print)
        .color_scheme(ColorScheme::NoPreference)
        .forced_colors(ForcedColors::None_)
        .build();
    assert_eq!(
        emulate_media_params(Some(o)),
        vec![("media", "print"), ("colorScheme", "no-preference"), ("forcedColors", "none")]
    );
    assert_eq!(ReducedMotion::NoOverride.as_str(), "no-override");
    assert!(emulate_media_params(None).is_empty());
}

#[test]
fn navigation_options() {
    assert_eq!(WaitUntil::DomContentLoaded.as_str(), "domcontentloaded");
    let d = Duration::from_millis(30000);
    let filled = with_navigation_timeout(None, d);
    assert_eq!(filled.timeout, Some(d));
    let explicit = GotoOptions::new().timeout(Duration::from_secs(1)).wait_until(WaitUntil::Commit);
    let kept = with_navigation_timeout(Some(explicit), d);
    assert_eq!(kept.timeout, Some(Duration::from_secs(1)));
    assert_eq!(kept.wait_until, Some(WaitUntil::Commit));
    let partial = with_navigation_timeout(Some(GotoOptions::default().wait_until(WaitUntil::Load)), d);
    assert_eq!(partial.timeout, Some(d));
    assert_eq!(partial.wait_until, Some(WaitUntil::Load));
    assert_eq!(normalize_url_fragment("top"), "#top");
    assert_eq!(normalize_url_fragment("#top"), "#top");
    assert_eq!(normalize_url_fragment(""), "#");
}

#[test]
fn responses() {
    let r = Response::new("https://a.test/".into(), 204, "No Content".into(), HashMap::new());
    assert!(r.ok());
    assert_eq!(r.status(), 204);
    assert_eq!(r.url(), "https://a.test/");
    assert!(!Response::new("u".into(), 300, "".into(), HashMap::new()).ok());
    assert!(!Response::new("u".into(), 199, "".into(), HashMap::new()).ok());
    let o = ResponseObject::from_initializer(Some(65536 + 404), None, Some("u".into()));
    assert_eq!(o.status(), 404);
    assert_eq!(o.status_text(), "");
    assert_eq!(o.url(), "u");
    assert_eq!(ResponseObject::from_initializer(None, None, None).status(), 0);
}

#[test]
fn base64_payloads() {
    assert_eq!(decode_response_body("aGVsbG8=").unwrap(), b"hello".to_vec());
    match decode_binary("!!", "Failed to decode screenshot") {
        Err(Error::ProtocolError(m)) => assert!(m.starts_with("Failed to decode screenshot: ")),
        _ => panic!("invalid base64 must be rejected"),
    }
}

#[test]
fn browsers_from_initializers() {
    let mut b = Browser::from_initializer(Some("120.0".into()), Some("chromium".into())).unwrap();
    assert!(b.is_connected());
    assert_eq!(b.version(), "120.0");
    b.on_event("close");
    assert!(b.is_connected());
    b.on_event("disconnected");
    assert!(!b.is_connected());
    assert_eq!(
        Browser::from_initializer(None, None).unwrap_err(),
        Error::ProtocolError("Browser initializer missing 'version' field".into())
    );
    assert_eq!(
        BrowserType::from_initializer(Some("firefox".into()), None).unwrap_err(),
        Error::ProtocolError("BrowserType initializer missing 'executablePath'".into())
    );
    let t = BrowserType::from_initializer(Some("webkit".into()), Some("/bin/wk".into())).unwrap();
    assert_eq!((t.name(), t.executable_path()), ("webkit", "/bin/wk"));
}

#[test]
fn ci_flags_are_added_once() {
    let args = with_ci_stability_flags(Some(vec!["--foo".into(), "--disable-gpu".into()]));
    assert_eq!(
        args,
        vec![
            "--foo",
            "--disable-gpu",
            "--no-sandbox",
            "--disable-dev-shm-usage",
            "--disable-web-security",
            "--disable-features=IsolateOrigins,site-per-process",
        ]
    );
    assert_eq!(with_ci_stability_flags(None).len(), 5);
}

#[test]
fn credential_parameters() {
    let o = CredentialsCreateOptions::default().user_handle("u").id("i");
    assert_eq!(
        create_params("example.com", Some(o)),
        vec![("rpId", "example.com".to_string()), ("id", "i".to_string()), ("userHandle", "u".to_string())]
    );
    assert_eq!(create_params("r", None), vec![("rpId", "r".to_string())]);
    assert_eq!(
        get_params(Some(CredentialsGetOptions::default().id("x"))),
        vec![("id", "x".to_string())]
    );
    assert!(get_params(None).is_empty());
}

#[test]
fn small_types() {
    let p = ProxySettings::new("http://proxy:3128").bypass(".internal").username("me");
    assert_eq!(p.server, "http://proxy:3128");
    assert_eq!(p.bypass.as_deref(), Some(".internal"));
    assert_eq!(p.password, None);
    let f = FilePayload::new("a.txt", "text/plain", vec![1, 2]);
    assert_eq!((f.name.as_str(), f.mime_type.as_str(), f.buffer.len()), ("a.txt", "text/plain", 2));
    assert_eq!(AriaSnapshotMode::Ai.as_str(), "ai");
    let loc = ConsoleMessageLocation { url: "u".into(), line_number: 1, column_number: 0 };
    let m: ConsoleMessage<u8> = ConsoleMessage::new("log".into(), "hi".into(), loc, Some(7));
    assert_eq!((m.type_(), m.text(), m.page()), ("log", "hi", Some(&7)));
    assert_eq!(m.location().line_number, 1);
}

#[test]
fn fragment_normalization_is_idempotent() {
    for h in ["", "#", "top", "#top", "##x"] {
        let once = normalize_url_fragment(h);
        assert!(once.starts_with('#'));
        assert_eq!(normalize_url_fragment(&once), once);
    }
}

#[test]
fn disconnection_is_final() {
    let mut b = Browser::from_initializer(Some("1".into()), Some("chromium".into())).unwrap();
    for m in ["close", "disconnected", "connected", "reconnect", "close"] {
        b.on_event(m);
    }
    assert!(!b.is_connected());
    let mut d = Browser::from_initializer(Some("1".into()), Some("firefox".into())).unwrap();
    d.dispose();
    d.on_event("anything");
    assert!(!d.is_connected());
}

#[test]
fn viewport_and_no_viewport_exclude_each_other() {
    let v = Viewport { width: 1024, height: 768 };
    let c = ViewportChoice::new().viewport(v);
    assert_eq!((c.get_viewport(), c.get_no_viewport()), (Some(v), None));
    let c = c.no_viewport(false);
    assert_eq!((c.get_viewport(), c.get_no_viewport()), (Some(v), Some(false)));
    let c = c.no_viewport(true);
    assert_eq!((c.get_viewport(), c.get_no_viewport()), (None, Some(true)));
    let c = c.viewport(v);
    assert_eq!((c.get_viewport(), c.get_no_viewport()), (Some(v), None));
}

#[test]
fn inline_storage_state_and_path_exclude_each_other() {
    let c: StorageStateChoice<u8> = StorageStateChoice::new().storage_state(7);
    let c = c.storage_state_path("auth.json".to_string());
    assert_eq!(c.clone().into_parts(), (None, Some("auth.json".to_string())));
    let c = c.storage_state(9);
    assert_eq!(c.into_parts(), (Some(9), None));
}

#[test]
fn navigation_parameters() {
    let p = navigation_params(None, 30000);
    assert_eq!((p.timeout_ms, p.wait_until), (30000, None));
    let o = GotoOptions::new().timeout(Duration::from_millis(1500)).wait_until(WaitUntil::NetworkIdle);
    let p = navigation_params(Some(o), 30000);
    assert_eq!((p.timeout_ms, p.wait_until), (1500, Some("networkidle")));
    let p = navigation_params(Some(GotoOptions::new().wait_until(WaitUntil::Load)), 12000);
    assert_eq!((p.timeout_ms, p.wait_until), (12000, Some("load")));
    assert_eq!(response_lookup_step(true, 20), LookupStep::Found);
    assert_eq!(response_lookup_step(false, 0), LookupStep::RetryAfterDelay);
    assert_eq!(response_lookup_step(false, 19), LookupStep::RetryAfterDelay);
    assert_eq!(response_lookup_step(false, 20), LookupStep::GiveUp);
}

#[test]
fn history_navigation_without_a_response() {
    assert!(matches!(navigation_outcome(None), Ok(None)));
    let f = ResponseFields { url: Some("u".into()), status: Some(204), status_text: None, headers: Some(vec![]) };
    let (url, status, text, headers) = navigation_outcome(Some(f)).unwrap().unwrap();
    assert_eq!((url.as_str(), status, text.as_str(), headers.len()), ("u", 204, "", 0));
    let f = ResponseFields { url: None, status: Some(200), status_text: None, headers: Some(vec![]) };
    assert_eq!(navigation_outcome(Some(f)).unwrap_err(), Error::ProtocolError("Response missing url".into()));
}

#[test]
fn trimming_uses_exactly_unicode_whitespace() {
    for u in 0u32..0x3100 {
        if let Some(c) = char::from_u32(u) {
            let s = c.to_string();
            assert_eq!(playwright_rs::text::trim(&s).is_empty(), c.is_whitespace(), "U+{:04X}", u);
        }
    }
}

#[test]
fn option_defaults_are_empty() {
    let s = AddStyleTagOptions::default();
    assert!(s.content.is_none() && s.url.is_none() && s.path.is_none());
    let t = AddScriptTagOptions::default();
    assert!(t.content.is_none() && t.type_.is_none());
    let m = EmulateMediaOptions::default();
    assert!(m.media.is_none() && m.forced_colors.is_none());
    assert!(AddStyleTagOptions::builder().build().validate().is_err());
}

#[test]
fn pdf_parameters_in_protocol_order() {
    let mut o = PdfPageOptions::default();
    o.landscape = Some(true);
    o.format = Some("A4".to_string());
    o.display_header_footer = Some(false);
    assert_eq!(
        pdf_page_params(o),
        vec![
            ("displayHeaderFooter", ParamValue::Bool(false)),
            ("landscape", ParamValue::Bool(true)),
            ("format", ParamValue::Text("A4".to_string())),
        ]
    );
    assert!(pdf_page_params(PdfPageOptions::default()).is_empty());
}
