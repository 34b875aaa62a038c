use playwright_rs::network::{after_route_handler, har_reply, AfterHandler, HarReply, RouteFromHarOptions, RouteTable};

#[test]
fn route_from_har_setters_write_their_own_fields() {
    let opts = RouteFromHarOptions::default()
        .url("**/api/**")
        .not_found("abort")
        .update(true)
        .update_content("attach")
        .update_mode("full");
    assert_eq!(opts.url.as_deref(), Some("**/api/**"));
    assert_eq!(opts.not_found.as_deref(), Some("abort"));
    assert_eq!(opts.update, Some(true));
    assert_eq!(opts.update_content.as_deref(), Some("attach"));
    assert_eq!(opts.update_mode.as_deref(), Some("full"));
}

#[test]
fn har_defaults_and_replies() {
    let opts = RouteFromHarOptions::default();
    assert_eq!(opts.not_found_policy(), "abort");
    assert_eq!(opts.route_pattern(), "**/*");
    assert_eq!(har_reply("redirect", "abort"), HarReply::Redirect);
    assert_eq!(har_reply("fulfill", "fallback"), HarReply::Fulfill);
    assert_eq!(har_reply("error", "fallback"), HarReply::Fallback);
    assert_eq!(har_reply("error", "abort"), HarReply::Abort);
    assert_eq!(har_reply("whatever", "other"), HarReply::Abort);
}

#[test]
fn newest_matching_route_is_tried_first() {
    let mut table: RouteTable<u32> = RouteTable::new();
    table.route("**/*.png", 1);
    table.route("**/api/**", 2);
    table.route("**/*", 3);
    let url = "https://x.test/api/a.png";
    assert_eq!(table.next_match(3, url), Some(2));
    assert_eq!(*table.handler(2), 3);
    assert_eq!(table.next_match(2, url), Some(1));
    assert_eq!(table.next_match(1, url), Some(0));
    assert_eq!(table.next_match(0, url), None);
    assert_eq!(table.next_match(3, "https://x.test/b.jpg").map(|i| *table.handler(i)), Some(3));
}

#[test]
fn unroute_drops_only_that_pattern() {
    let mut table: RouteTable<u32> = RouteTable::new();
    table.route("a", 1);
    table.route("b", 2);
    table.route("a", 3);
    table.unroute("a");
    assert_eq!(table.patterns().clone(), vec!["b".to_string()]);
    assert_eq!(*table.handler(0), 2);
    table.unroute_all();
    assert_eq!(table.len(), 0);
}

#[test]
fn route_chain_decisions() {
    assert_eq!(after_route_handler(false, false), AfterHandler::AbortAndStop);
    assert_eq!(after_route_handler(false, true), AfterHandler::Stop);
    assert_eq!(after_route_handler(true, false), AfterHandler::TryNext);
    assert_eq!(after_route_handler(true, true), AfterHandler::Stop);
}
