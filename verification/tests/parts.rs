use softlight_agent::CaptureEngine;
use softlight_agent::capture::CaptureOptions;
use softlight_agent::codec::{
    action_tag, parse_element_state, parse_scroll_direction, scroll_direction_tag,
    wait_condition_tag,
};
use softlight_agent::dispatch::{BrowserOp, plan_action, resolve_url, scroll_delta, select_all_combo};
use softlight_agent::engine::{SetupOp, plan_setup};
use softlight_agent::models::{
    Action, Cookie, ElementState, ScrollDirection, Setup, WaitCondition, default_clear,
    default_max_connections, default_timeout,
};
use softlight_agent::output::{DatasetWriter, slugify, state_filename};
use softlight_agent::scripts::{keydown_script, scroll_script, storage_script};
use softlight_agent::text::{contains_substring, escape_single_quotes, i32_to_string, pad2};
use softlight_agent::waits::{
    ElementProbe, POLL_INTERVAL_MS, ProbeKind, WaitPlan, attr_poll_satisfied, element_visible,
    selector_timeout_message, timeout_expired, url_matches, wait_plan,
};

fn probe(exists: bool, width: u64, height: u64, visibility: &str, display: &str) -> ElementProbe {
    ElementProbe {
        exists,
        width,
        height,
        visibility: visibility.to_string(),
        display: display.to_string(),
    }
}

#[test]
fn visibility_predicate_rejects_degenerate_elements() {
    assert!(!element_visible(&probe(false, 10, 10, "visible", "block")));
    assert!(!element_visible(&probe(true, 0, 10, "visible", "block")));
    assert!(!element_visible(&probe(true, 10, 0, "visible", "block")));
    assert!(!element_visible(&probe(true, 10, 10, "hidden", "block")));
    assert!(!element_visible(&probe(true, 10, 10, "visible", "none")));
}

#[test]
fn visibility_predicate_accepts_restored_elements() {
    // the same element with positive dimensions and visible styling is
    // reported visible on the next poll
    assert!(element_visible(&probe(true, 10, 10, "visible", "block")));
    assert!(element_visible(&probe(true, 1, 1, "", "")));
}

#[test]
fn selector_wait_times_out_no_earlier_than_its_timeout() {
    assert!(!timeout_expired(0, 5000));
    assert!(!timeout_expired(4999, 5000));
    assert!(!timeout_expired(5000, 5000));
    assert!(timeout_expired(5001, 5000));
}

#[test]
fn selector_timeout_message_contains_the_selector() {
    let m = selector_timeout_message("#submit-button");
    assert_eq!(m, "timeout waiting for selector: #submit-button");
    assert!(m.contains("#submit-button"));
}

#[test]
fn url_wait_matches_substring() {
    assert!(url_matches("https://app.test/dashboard?x=1", "dashboard"));
    assert!(!url_matches("https://app.test/home", "dashboard"));
    assert!(url_matches("anything", ""));
}

#[test]
fn scroll_translation() {
    assert_eq!(scroll_delta(ScrollDirection::Down, 120), (0, 120));
    assert_eq!(scroll_delta(ScrollDirection::Left, 50), (-50, 0));
    assert_eq!(scroll_delta(ScrollDirection::Up, 10), (0, -10));
    assert_eq!(scroll_delta(ScrollDirection::Right, 7), (7, 0));
}

#[test]
fn scroll_plan_builds_the_scroll_call() {
    let plan = plan_action(
        &Action::Scroll { direction: ScrollDirection::Down, amount: 120 },
        "https://b.test",
        false,
    );
    assert_eq!(plan.len(), 1);
    match &plan[0] {
        BrowserOp::Evaluate { script } => assert_eq!(script, "window.scrollBy(0, 120)"),
        other => panic!("unexpected op: {:?}", other),
    }
}

#[test]
fn navigate_plan_resolves_relative_urls() {
    let plan = plan_action(
        &Action::Navigate { url: "/login".to_string() },
        "https://b.test",
        false,
    );
    match &plan[0] {
        BrowserOp::Navigate { url } => assert_eq!(url, "https://b.test/login"),
        other => panic!("unexpected op: {:?}", other),
    }
    let plan = plan_action(
        &Action::Navigate { url: "https://other.test/x".to_string() },
        "https://b.test",
        false,
    );
    match &plan[0] {
        BrowserOp::Navigate { url } => assert_eq!(url, "https://other.test/x"),
        other => panic!("unexpected op: {:?}", other),
    }
}

#[test]
fn click_plan_sleeps_then_locates_then_clicks() {
    let plan = plan_action(
        &Action::Click { selector: "#go".to_string(), wait_before_ms: Some(250) },
        "https://b.test",
        false,
    );
    assert_eq!(plan.len(), 3);
    assert!(matches!(plan[0], BrowserOp::Sleep { ms: 250 }));
    match &plan[1] {
        BrowserOp::Locate { selector, not_found } => {
            assert_eq!(selector, "#go");
            assert_eq!(not_found, "element not found: #go");
        }
        other => panic!("unexpected op: {:?}", other),
    }
    assert!(matches!(plan[2], BrowserOp::Click));
}

#[test]
fn type_plan_clears_with_the_platform_combo() {
    let action = Action::Type {
        selector: "#q".to_string(),
        value: "hello".to_string(),
        clear_first: true,
    };
    let plan = plan_action(&action, "https://b.test", true);
    assert_eq!(plan.len(), 5);
    match &plan[0] {
        BrowserOp::Locate { not_found, .. } => assert_eq!(not_found, "input not found: #q"),
        other => panic!("unexpected op: {:?}", other),
    }
    assert!(matches!(plan[1], BrowserOp::Click));
    match &plan[2] {
        BrowserOp::PressKeys { combo } => assert_eq!(combo, "Meta+a"),
        other => panic!("unexpected op: {:?}", other),
    }
    match &plan[3] {
        BrowserOp::PressKeys { combo } => assert_eq!(combo, "Backspace"),
        other => panic!("unexpected op: {:?}", other),
    }
    match &plan[4] {
        BrowserOp::TypeText { text } => assert_eq!(text, "hello"),
        other => panic!("unexpected op: {:?}", other),
    }
    let plan = plan_action(&action, "https://b.test", false);
    match &plan[2] {
        BrowserOp::PressKeys { combo } => assert_eq!(combo, "Control+a"),
        other => panic!("unexpected op: {:?}", other),
    }
    assert_eq!(select_all_combo(false), "Control+a");
}

#[test]
fn press_plan_escapes_the_key() {
    let plan = plan_action(&Action::Press { key: "a'b".to_string() }, "https://b.test", false);
    match &plan[0] {
        BrowserOp::Evaluate { script } => {
            assert_eq!(
                script,
                "window.dispatchEvent(new KeyboardEvent('keydown', { key: 'a\\'b' }))"
            );
        }
        other => panic!("unexpected op: {:?}", other),
    }
}

#[test]
fn wait_plans_follow_the_condition() {
    let p = wait_plan(&WaitCondition::Selector {
        value: "#done".to_string(),
        timeout_ms: 7000,
        visible: true,
    });
    match p {
        WaitPlan::Poll { probe, timeout_ms, timeout_message } => {
            assert_eq!(timeout_ms, 7000);
            assert_eq!(timeout_message, "timeout waiting for selector: #done");
            assert!(matches!(probe, ProbeKind::Visibility { expect_visible: true, .. }));
        }
        other => panic!("unexpected plan: {:?}", other),
    }
    let p = wait_plan(&WaitCondition::Selector {
        value: "#done".to_string(),
        timeout_ms: 7000,
        visible: false,
    });
    assert!(matches!(p, WaitPlan::RequireExists { .. }));
    let p = wait_plan(&WaitCondition::NetworkIdle { timeout_ms: 900, max_connections: 2 });
    assert!(matches!(p, WaitPlan::Sleep { ms: 900 }));
    let p = wait_plan(&WaitCondition::Duration { ms: 50 });
    assert!(matches!(p, WaitPlan::Sleep { ms: 50 }));
    let p = wait_plan(&WaitCondition::Url { pattern: "dash".to_string(), timeout_ms: 5000 });
    match p {
        WaitPlan::Poll { probe, timeout_message, .. } => {
            assert!(matches!(probe, ProbeKind::UrlContains { .. }));
            assert_eq!(timeout_message, "timeout waiting for url pattern: dash");
        }
        other => panic!("unexpected plan: {:?}", other),
    }
    let p = wait_plan(&WaitCondition::Element {
        selector: "#b".to_string(),
        state: ElementState::Enabled,
        timeout_ms: 5000,
    });
    match p {
        WaitPlan::Poll { probe, timeout_message, .. } => {
            assert!(matches!(probe, ProbeKind::DisabledAttr { negate: true, .. }));
            assert_eq!(timeout_message, "timeout waiting for element state: enabled");
        }
        other => panic!("unexpected plan: {:?}", other),
    }
    assert_eq!(POLL_INTERVAL_MS, 100);
}

#[test]
fn disabled_attribute_polls_need_a_definite_true() {
    assert!(attr_poll_satisfied(Some(true)));
    assert!(!attr_poll_satisfied(Some(false)));
    assert!(!attr_poll_satisfied(None));
}

#[test]
fn storage_script_escapes_both_parts() {
    assert_eq!(storage_script("theme", "dark"), "localStorage.setItem('theme', 'dark');");
    assert_eq!(storage_script("k'", "v'"), "localStorage.setItem('k\\'', 'v\\'');");
}

#[test]
fn keydown_script_shape() {
    assert_eq!(
        keydown_script("Enter"),
        "window.dispatchEvent(new KeyboardEvent('keydown', { key: 'Enter' }))"
    );
}

#[test]
fn scroll_script_formats_signed_numbers() {
    assert_eq!(scroll_script(-50, 0), "window.scrollBy(-50, 0)");
    assert_eq!(scroll_script(0, 120), "window.scrollBy(0, 120)");
    assert_eq!(i32_to_string(-2147483648), "-2147483648");
    assert_eq!(i32_to_string(0), "0");
}

#[test]
fn setup_plan_applies_cookies_storage_then_navigation() {
    let setup = Setup {
        auth_required: true,
        starting_url: Some("/home".to_string()),
        cookies: Some(vec![Cookie {
            name: "sid".to_string(),
            value: "s3cr3t".to_string(),
            domain: "app.test".to_string(),
        }]),
        local_storage: Some(vec![("theme".to_string(), "dark".to_string())]),
    };
    let plan = plan_setup(&setup, "https://app.test");
    assert_eq!(plan.len(), 3);
    match &plan[0] {
        SetupOp::SetCookie { name, value, domain } => {
            assert_eq!(name, "sid");
            assert_eq!(value, "s3cr3t");
            assert_eq!(domain, "app.test");
        }
        other => panic!("unexpected op: {:?}", other),
    }
    match &plan[1] {
        SetupOp::Evaluate { script } => {
            assert_eq!(script, "localStorage.setItem('theme', 'dark');")
        }
        other => panic!("unexpected op: {:?}", other),
    }
    match &plan[2] {
        SetupOp::Navigate { url } => assert_eq!(url, "https://app.test/home"),
        other => panic!("unexpected op: {:?}", other),
    }
}

#[test]
fn empty_setup_plans_nothing() {
    let setup = Setup {
        auth_required: false,
        starting_url: None,
        cookies: None,
        local_storage: None,
    };
    assert!(plan_setup(&setup, "https://app.test").is_empty());
}

#[test]
fn slugify_cases() {
    assert_eq!(slugify("Hello World"), "hello-world");
    assert_eq!(slugify("Open  Menu!"), "open-menu_");
    assert_eq!(slugify("--a--b--"), "a-b");
    assert_eq!(slugify(""), "");
    assert_eq!(slugify("Click the BIG button"), "click-the-big-button");
}

#[test]
fn state_filename_pads_the_position() {
    assert_eq!(state_filename(1, "Go Home"), "01-go-home.png");
    assert_eq!(state_filename(12, "x"), "12-x.png");
    assert_eq!(pad2(5), "05");
    assert_eq!(pad2(100), "100");
}

#[test]
fn substring_and_escape_helpers() {
    assert!(contains_substring("abcde", "cd"));
    assert!(!contains_substring("abcde", "ce"));
    assert!(contains_substring("abc", "abc"));
    assert_eq!(escape_single_quotes("a'b"), "a\\'b");
    assert_eq!(escape_single_quotes("plain"), "plain");
    assert_eq!(resolve_url("https://b.test", "/p"), "https://b.test/p");
    assert_eq!(resolve_url("https://b.test", "http://a.test"), "http://a.test");
}

#[test]
fn schema_tags_round_trip() {
    for d in [
        ScrollDirection::Up,
        ScrollDirection::Down,
        ScrollDirection::Left,
        ScrollDirection::Right,
    ] {
        assert_eq!(parse_scroll_direction(scroll_direction_tag(d)), Some(d));
    }
    for s in [
        ElementState::Visible,
        ElementState::Hidden,
        ElementState::Enabled,
        ElementState::Disabled,
    ] {
        assert_eq!(parse_element_state(s.name()), Some(s));
    }
    assert_eq!(parse_scroll_direction("sideways"), None);
    assert_eq!(parse_element_state("busy"), None);
    assert_eq!(action_tag(&Action::Wait { duration_ms: 1 }), "wait");
    assert_eq!(
        wait_condition_tag(&WaitCondition::NetworkIdle { timeout_ms: 1, max_connections: 2 }),
        "network_idle"
    );
}

#[test]
fn schema_defaults() {
    assert_eq!(default_timeout(), 5000);
    assert!(default_clear());
    assert_eq!(default_max_connections(), 2);
}

#[test]
fn engine_configuration() {
    let e = CaptureEngine::new();
    assert_eq!((e.viewport_width, e.viewport_height), (1920, 1080));
    let e = CaptureEngine::with_viewport(800, 600);
    assert_eq!((e.viewport_width, e.viewport_height), (800, 600));
    let w = DatasetWriter::new("outputs");
    assert_eq!(w.output_dir, "outputs");
    let o = CaptureOptions::default();
    assert!(!o.full_page);
    assert!(!o.omit_background);
}
