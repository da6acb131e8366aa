use softlight_agent::codec::{
    Value, action_round_trip, decode_action, decode_task_def, decode_wait_condition,
    encode_task_def, step_round_trip, task_def_round_trip, wait_condition_round_trip,
};
use softlight_agent::models::{
    Action, Cookie, ElementState, ScrollDirection, Setup, Step, TaskDefinition, WaitCondition,
};
use softlight_agent::text::u64_to_string;

fn rich_task_def() -> TaskDefinition {
    TaskDefinition {
        id: "checkout".to_string(),
        app: "shop".to_string(),
        description: "walk the checkout flow".to_string(),
        base_url: "https://shop.test".to_string(),
        setup: Some(Setup {
            auth_required: true,
            starting_url: Some("/cart".to_string()),
            cookies: Some(vec![Cookie {
                name: "sid".to_string(),
                value: "abc".to_string(),
                domain: "shop.test".to_string(),
            }]),
            local_storage: Some(vec![("theme".to_string(), "dark".to_string())]),
        }),
        steps: vec![
            Step {
                name: "open".to_string(),
                action: Action::Navigate { url: "/cart".to_string() },
                wait: Some(WaitCondition::Url { pattern: "cart".to_string(), timeout_ms: 4000 }),
                capture: true,
                description: Some("the cart page".to_string()),
            },
            Step {
                name: "pay".to_string(),
                action: Action::Click { selector: "#pay".to_string(), wait_before_ms: Some(100) },
                wait: Some(WaitCondition::Element {
                    selector: "#done".to_string(),
                    state: ElementState::Visible,
                    timeout_ms: 5000,
                }),
                capture: false,
                description: None,
            },
            Step {
                name: "scroll".to_string(),
                action: Action::Scroll { direction: ScrollDirection::Down, amount: -30 },
                wait: None,
                capture: true,
                description: None,
            },
        ],
    }
}

#[test]
fn task_definition_round_trips_field_for_field() {
    let t = rich_task_def();
    let u = task_def_round_trip(&t).expect("an encoded task definition decodes");
    assert_eq!(u.id, t.id);
    assert_eq!(u.app, t.app);
    assert_eq!(u.description, t.description);
    assert_eq!(u.base_url, t.base_url);
    let s1 = u.setup.as_ref().expect("setup preserved");
    let s2 = t.setup.as_ref().unwrap();
    assert_eq!(s1.auth_required, s2.auth_required);
    assert_eq!(s1.starting_url, s2.starting_url);
    let c1 = s1.cookies.as_ref().unwrap();
    let c2 = s2.cookies.as_ref().unwrap();
    assert_eq!(c1.len(), 1);
    assert_eq!(c1[0].name, c2[0].name);
    assert_eq!(c1[0].value, c2[0].value);
    assert_eq!(c1[0].domain, c2[0].domain);
    assert_eq!(s1.local_storage.as_ref().unwrap(), s2.local_storage.as_ref().unwrap());
    assert_eq!(u.steps.len(), 3);
    assert_eq!(u.steps[0].name, "open");
    assert!(matches!(&u.steps[0].action, Action::Navigate { url } if url == "/cart"));
    assert!(matches!(
        &u.steps[0].wait,
        Some(WaitCondition::Url { pattern, timeout_ms: 4000 }) if pattern == "cart"
    ));
    assert!(u.steps[0].capture);
    assert_eq!(u.steps[0].description.as_deref(), Some("the cart page"));
    assert!(matches!(
        &u.steps[1].action,
        Action::Click { selector, wait_before_ms: Some(100) } if selector == "#pay"
    ));
    assert!(matches!(
        &u.steps[1].wait,
        Some(WaitCondition::Element { state: ElementState::Visible, timeout_ms: 5000, .. })
    ));
    assert!(matches!(
        u.steps[2].action,
        Action::Scroll { direction: ScrollDirection::Down, amount: -30 }
    ));
    assert!(u.steps[2].wait.is_none());
}

#[test]
fn every_action_variant_round_trips() {
    let actions = vec![
        Action::Navigate { url: "/a".to_string() },
        Action::Click { selector: "#b".to_string(), wait_before_ms: None },
        Action::Type { selector: "#c".to_string(), value: "x".to_string(), clear_first: false },
        Action::Wait { duration_ms: 7 },
        Action::Scroll { direction: ScrollDirection::Left, amount: 9 },
        Action::Hover { selector: "#d".to_string() },
        Action::Press { key: "Enter".to_string() },
        Action::Execute { script: "1 + 1".to_string() },
    ];
    for a in &actions {
        let b = action_round_trip(a).expect("an encoded action decodes");
        match (a, &b) {
            (Action::Navigate { url: u1 }, Action::Navigate { url: u2 }) => assert_eq!(u1, u2),
            (
                Action::Click { selector: s1, wait_before_ms: w1 },
                Action::Click { selector: s2, wait_before_ms: w2 },
            ) => {
                assert_eq!(s1, s2);
                assert_eq!(w1, w2);
            }
            (
                Action::Type { selector: s1, value: v1, clear_first: c1 },
                Action::Type { selector: s2, value: v2, clear_first: c2 },
            ) => {
                assert_eq!((s1, v1, c1), (s2, v2, c2));
            }
            (Action::Wait { duration_ms: d1 }, Action::Wait { duration_ms: d2 }) => {
                assert_eq!(d1, d2)
            }
            (
                Action::Scroll { direction: d1, amount: a1 },
                Action::Scroll { direction: d2, amount: a2 },
            ) => {
                assert_eq!(d1, d2);
                assert_eq!(a1, a2);
            }
            (Action::Hover { selector: s1 }, Action::Hover { selector: s2 }) => {
                assert_eq!(s1, s2)
            }
            (Action::Press { key: k1 }, Action::Press { key: k2 }) => assert_eq!(k1, k2),
            (Action::Execute { script: s1 }, Action::Execute { script: s2 }) => {
                assert_eq!(s1, s2)
            }
            _ => panic!("variant changed across the round trip"),
        }
    }
}

#[test]
fn every_wait_variant_round_trips() {
    let waits = vec![
        WaitCondition::Selector { value: "#a".to_string(), timeout_ms: 1, visible: true },
        WaitCondition::Duration { ms: 2 },
        WaitCondition::NetworkIdle { timeout_ms: 3, max_connections: 4 },
        WaitCondition::Url { pattern: "p".to_string(), timeout_ms: 5 },
        WaitCondition::Element {
            selector: "#e".to_string(),
            state: ElementState::Disabled,
            timeout_ms: 6,
        },
    ];
    for w in &waits {
        let u = wait_condition_round_trip(w).expect("an encoded wait condition decodes");
        match (w, &u) {
            (
                WaitCondition::Selector { value: v1, timeout_ms: t1, visible: x1 },
                WaitCondition::Selector { value: v2, timeout_ms: t2, visible: x2 },
            ) => assert_eq!((v1, t1, x1), (v2, t2, x2)),
            (
                WaitCondition::Duration { ms: m1 },
                WaitCondition::Duration { ms: m2 },
            ) => assert_eq!(m1, m2),
            (
                WaitCondition::NetworkIdle { timeout_ms: t1, max_connections: c1 },
                WaitCondition::NetworkIdle { timeout_ms: t2, max_connections: c2 },
            ) => assert_eq!((t1, c1), (t2, c2)),
            (
                WaitCondition::Url { pattern: p1, timeout_ms: t1 },
                WaitCondition::Url { pattern: p2, timeout_ms: t2 },
            ) => assert_eq!((p1, t1), (p2, t2)),
            (
                WaitCondition::Element { selector: s1, state: e1, timeout_ms: t1 },
                WaitCondition::Element { selector: s2, state: e2, timeout_ms: t2 },
            ) => assert_eq!((s1, e1, t1), (s2, e2, t2)),
            _ => panic!("variant changed across the round trip"),
        }
    }
}

#[test]
fn step_round_trips() {
    let st = Step {
        name: "fill".to_string(),
        action: Action::Type {
            selector: "#q".to_string(),
            value: "hello".to_string(),
            clear_first: true,
        },
        wait: Some(WaitCondition::Duration { ms: 10 }),
        capture: true,
        description: Some("types into the box".to_string()),
    };
    let u = step_round_trip(&st).expect("an encoded step decodes");
    assert_eq!(u.name, st.name);
    assert_eq!(u.capture, st.capture);
    assert_eq!(u.description, st.description);
    assert!(matches!(u.wait, Some(WaitCondition::Duration { ms: 10 })));
}

#[test]
fn malformed_values_are_rejected() {
    assert!(decode_action(&Value::Null).is_none());
    assert!(decode_action(&Value::Text("navigate".to_string())).is_none());
    assert!(decode_wait_condition(&Value::UInt(3)).is_none());
    assert!(decode_task_def(&Value::Record(Vec::new())).is_none());
    // a stored record decodes even from outside the round-trip pairing
    let v = encode_task_def(&rich_task_def());
    assert!(decode_task_def(&v).is_some());
    assert_eq!(u64_to_string(12345), "12345");
}
