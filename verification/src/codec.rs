use vstd::prelude::*;
use vstd::string::*;
use crate::models::{Action, Cookie, ElementState, ScrollDirection, Setup, Step, TaskDefinition, WaitCondition, element_state_name};
use crate::text::str_eq;

verus! {

/// One untyped node of the task schema, as a parsed task file holds it
/// before it is typed: a scalar, or a record of named fields in schema
/// order.  An absent optional field is stored as `Null`.
pub enum Value {
    Null,
    Bool(bool),
    UInt(u64),
    Int(i64),
    Text(String),
    List(Vec<Value>),
    Record(Vec<(String, Value)>),
}

// The task schema stores each tagged variant under a snake-case tag value.
// The tag layer of that codec is owned here: writing a tag and reading one
// back are inverse, and distinct variants never share a tag.

pub open spec fn scroll_direction_tag_spec(d: ScrollDirection) -> Seq<char> {
    match d {
        ScrollDirection::Up => "up"@,
        ScrollDirection::Down => "down"@,
        ScrollDirection::Left => "left"@,
        ScrollDirection::Right => "right"@,
    }
}

/// The schema's tag value of a scroll direction.
pub fn scroll_direction_tag(d: ScrollDirection) -> (r: &'static str)
    ensures
        r@ == scroll_direction_tag_spec(d),
{
    match d {
        ScrollDirection::Up => "up",
        ScrollDirection::Down => "down",
        ScrollDirection::Left => "left",
        ScrollDirection::Right => "right",
    }
}

pub open spec fn scroll_direction_parse_spec(s: Seq<char>) -> Option<ScrollDirection> {
    if s == "up"@ {
        Some(ScrollDirection::Up)
    } else if s == "down"@ {
        Some(ScrollDirection::Down)
    } else if s == "left"@ {
        Some(ScrollDirection::Left)
    } else if s == "right"@ {
        Some(ScrollDirection::Right)
    } else {
        None
    }
}

/// Reads a scroll direction back from its tag value; anything else is
/// rejected.
pub fn parse_scroll_direction(s: &str) -> (r: Option<ScrollDirection>)
    ensures
        r == scroll_direction_parse_spec(s@),
{
    if str_eq(s, "up") {
        Some(ScrollDirection::Up)
    } else if str_eq(s, "down") {
        Some(ScrollDirection::Down)
    } else if str_eq(s, "left") {
        Some(ScrollDirection::Left)
    } else if str_eq(s, "right") {
        Some(ScrollDirection::Right)
    } else {
        None
    }
}

/// Writing a scroll direction's tag and reading it back yields the same
/// direction, and a tag that parses was written by exactly that direction.
pub proof fn lemma_scroll_direction_tag_round_trip(d: ScrollDirection, s: Seq<char>)
    ensures
        scroll_direction_parse_spec(scroll_direction_tag_spec(d)) == Some(d),
        scroll_direction_parse_spec(s) matches Some(e) ==> scroll_direction_tag_spec(e) == s,
{
    reveal_strlit("up");
    reveal_strlit("down");
    reveal_strlit("left");
    reveal_strlit("right");
    assert("up"@.len() == 2);
    assert("down"@.len() == 4);
    assert("left"@.len() == 4);
    assert("right"@.len() == 5);
    assert("down"@[0] == 'd' && "left"@[0] == 'l');
}

pub open spec fn element_state_parse_spec(s: Seq<char>) -> Option<ElementState> {
    if s == "visible"@ {
        Some(ElementState::Visible)
    } else if s == "hidden"@ {
        Some(ElementState::Hidden)
    } else if s == "enabled"@ {
        Some(ElementState::Enabled)
    } else if s == "disabled"@ {
        Some(ElementState::Disabled)
    } else {
        None
    }
}

/// Reads an element state back from its tag value (which is also its name in
/// timeout messages); anything else is rejected.
pub fn parse_element_state(s: &str) -> (r: Option<ElementState>)
    ensures
        r == element_state_parse_spec(s@),
{
    if str_eq(s, "visible") {
        Some(ElementState::Visible)
    } else if str_eq(s, "hidden") {
        Some(ElementState::Hidden)
    } else if str_eq(s, "enabled") {
        Some(ElementState::Enabled)
    } else if str_eq(s, "disabled") {
        Some(ElementState::Disabled)
    } else {
        None
    }
}

/// Writing an element state's name and reading it back yields the same
/// state, and a name that parses was written by exactly that state.
pub proof fn lemma_element_state_tag_round_trip(st: ElementState, s: Seq<char>)
    ensures
        element_state_parse_spec(element_state_name(st)) == Some(st),
        element_state_parse_spec(s) matches Some(e) ==> element_state_name(e) == s,
{
    reveal_strlit("visible");
    reveal_strlit("hidden");
    reveal_strlit("enabled");
    reveal_strlit("disabled");
    assert("visible"@.len() == 7);
    assert("hidden"@.len() == 6);
    assert("enabled"@.len() == 7);
    assert("disabled"@.len() == 8);
    assert("visible"@[0] == 'v' && "enabled"@[0] == 'e');
}

pub open spec fn action_tag_spec(a: Action) -> Seq<char> {
    match a {
        Action::Navigate { .. } => "navigate"@,
        Action::Click { .. } => "click"@,
        Action::Type { .. } => "type"@,
        Action::Wait { .. } => "wait"@,
        Action::Scroll { .. } => "scroll"@,
        Action::Hover { .. } => "hover"@,
        Action::Press { .. } => "press"@,
        Action::Execute { .. } => "execute"@,
    }
}

/// The schema's tag value of an action variant.
pub fn action_tag(a: &Action) -> (r: &'static str)
    ensures
        r@ == action_tag_spec(*a),
{
    match a {
        Action::Navigate { .. } => "navigate",
        Action::Click { .. } => "click",
        Action::Type { .. } => "type",
        Action::Wait { .. } => "wait",
        Action::Scroll { .. } => "scroll",
        Action::Hover { .. } => "hover",
        Action::Press { .. } => "press",
        Action::Execute { .. } => "execute",
    }
}

/// Two actions with the same tag are the same variant: the tag read back
/// from a stored action always selects the variant that wrote it.
pub proof fn lemma_action_tag_injective(a: Action, b: Action)
    requires
        action_tag_spec(a) == action_tag_spec(b),
    ensures
        a is Navigate <==> b is Navigate,
        a is Click <==> b is Click,
        a is Type <==> b is Type,
        a is Wait <==> b is Wait,
        a is Scroll <==> b is Scroll,
        a is Hover <==> b is Hover,
        a is Press <==> b is Press,
        a is Execute <==> b is Execute,
{
    reveal_strlit("navigate");
    reveal_strlit("click");
    reveal_strlit("type");
    reveal_strlit("wait");
    reveal_strlit("scroll");
    reveal_strlit("hover");
    reveal_strlit("press");
    reveal_strlit("execute");
    assert("navigate"@.len() == 8);
    assert("click"@.len() == 5);
    assert("type"@.len() == 4);
    assert("wait"@.len() == 4);
    assert("scroll"@.len() == 6);
    assert("hover"@.len() == 5);
    assert("press"@.len() == 5);
    assert("execute"@.len() == 7);
    assert("type"@[0] == 't' && "wait"@[0] == 'w');
    assert("click"@[0] == 'c' && "hover"@[0] == 'h' && "press"@[0] == 'p');
}

pub open spec fn wait_condition_tag_spec(w: WaitCondition) -> Seq<char> {
    match w {
        WaitCondition::Selector { .. } => "selector"@,
        WaitCondition::Duration { .. } => "duration"@,
        WaitCondition::NetworkIdle { .. } => "network_idle"@,
        WaitCondition::Url { .. } => "url"@,
        WaitCondition::Element { .. } => "element"@,
    }
}

/// The schema's tag value of a wait-condition variant.
pub fn wait_condition_tag(w: &WaitCondition) -> (r: &'static str)
    ensures
        r@ == wait_condition_tag_spec(*w),
{
    match w {
        WaitCondition::Selector { .. } => "selector",
        WaitCondition::Duration { .. } => "duration",
        WaitCondition::NetworkIdle { .. } => "network_idle",
        WaitCondition::Url { .. } => "url",
        WaitCondition::Element { .. } => "element",
    }
}

/// Two wait conditions with the same tag are the same variant.
pub proof fn lemma_wait_condition_tag_injective(a: WaitCondition, b: WaitCondition)
    requires
        wait_condition_tag_spec(a) == wait_condition_tag_spec(b),
    ensures
        a is Selector <==> b is Selector,
        a is Duration <==> b is Duration,
        a is NetworkIdle <==> b is NetworkIdle,
        a is Url <==> b is Url,
        a is Element <==> b is Element,
{
    reveal_strlit("selector");
    reveal_strlit("duration");
    reveal_strlit("network_idle");
    reveal_strlit("url");
    reveal_strlit("element");
    assert("selector"@.len() == 8);
    assert("duration"@.len() == 8);
    assert("network_idle"@.len() == 12);
    assert("url"@.len() == 3);
    assert("element"@.len() == 7);
    assert("selector"@[0] == 's' && "duration"@[0] == 'd');
}

proof fn action_tag_literal_facts()
    ensures
        "navigate"@.len() == 8,
        "click"@.len() == 5,
        "type"@.len() == 4,
        "wait"@.len() == 4,
        "scroll"@.len() == 6,
        "hover"@.len() == 5,
        "press"@.len() == 5,
        "execute"@.len() == 7,
        "type"@[0] == 't',
        "wait"@[0] == 'w',
        "click"@[0] == 'c',
        "hover"@[0] == 'h',
        "press"@[0] == 'p',
{
    reveal_strlit("navigate");
    reveal_strlit("click");
    reveal_strlit("type");
    reveal_strlit("wait");
    reveal_strlit("scroll");
    reveal_strlit("hover");
    reveal_strlit("press");
    reveal_strlit("execute");
}

pub open spec fn is_text_field(f: (String, Value), key: Seq<char>, s: Seq<char>) -> bool {
    f.0@ == key && (f.1 matches Value::Text(t) && t@ == s)
}

pub open spec fn is_u64_field(f: (String, Value), key: Seq<char>, n: u64) -> bool {
    f.0@ == key && (f.1 matches Value::UInt(m) && m == n)
}

pub open spec fn is_i32_field(f: (String, Value), key: Seq<char>, n: i32) -> bool {
    f.0@ == key && (f.1 matches Value::Int(m) && m == n as i64)
}

pub open spec fn is_bool_field(f: (String, Value), key: Seq<char>, b: bool) -> bool {
    f.0@ == key && (f.1 matches Value::Bool(c) && c == b)
}

pub open spec fn is_opt_u64_field(f: (String, Value), key: Seq<char>, o: Option<u64>) -> bool {
    f.0@ == key && match o {
        Some(n) => f.1 matches Value::UInt(m) && m == n,
        None => f.1 is Null,
    }
}

/// `v` is the schema record of the action `a`: the tag field first, then the
/// variant's fields under their schema keys, in schema order.
pub open spec fn is_action_value(v: Value, a: Action) -> bool {
    v matches Value::Record(fields) && {
        let fs = fields@;
        match a {
            Action::Navigate { url } => fs.len() == 2 && is_text_field(fs[0], "type"@, "navigate"@)
                && is_text_field(fs[1], "url"@, url@),
            Action::Click { selector, wait_before_ms } => fs.len() == 3 && is_text_field(
                fs[0],
                "type"@,
                "click"@,
            ) && is_text_field(fs[1], "selector"@, selector@) && is_opt_u64_field(
                fs[2],
                "wait_before_ms"@,
                wait_before_ms,
            ),
            Action::Type { selector, value, clear_first } => fs.len() == 4 && is_text_field(
                fs[0],
                "type"@,
                "type"@,
            ) && is_text_field(fs[1], "selector"@, selector@) && is_text_field(
                fs[2],
                "value"@,
                value@,
            ) && is_bool_field(fs[3], "clear_first"@, clear_first),
            Action::Wait { duration_ms } => fs.len() == 2 && is_text_field(
                fs[0],
                "type"@,
                "wait"@,
            ) && is_u64_field(fs[1], "duration_ms"@, duration_ms),
            Action::Scroll { direction, amount } => fs.len() == 3 && is_text_field(
                fs[0],
                "type"@,
                "scroll"@,
            ) && is_text_field(fs[1], "direction"@, scroll_direction_tag_spec(direction))
                && is_i32_field(fs[2], "amount"@, amount),
            Action::Hover { selector } => fs.len() == 2 && is_text_field(fs[0], "type"@, "hover"@)
                && is_text_field(fs[1], "selector"@, selector@),
            Action::Press { key } => fs.len() == 2 && is_text_field(fs[0], "type"@, "press"@)
                && is_text_field(fs[1], "key"@, key@),
            Action::Execute { script } => fs.len() == 2 && is_text_field(
                fs[0],
                "type"@,
                "execute"@,
            ) && is_text_field(fs[1], "script"@, script@),
        }
    }
}

/// Two actions are field-for-field equal: the same variant with the same
/// field values.
pub open spec fn action_eq_spec(a: Action, b: Action) -> bool {
    match (a, b) {
        (Action::Navigate { url: u1 }, Action::Navigate { url: u2 }) => u1@ == u2@,
        (
            Action::Click { selector: s1, wait_before_ms: w1 },
            Action::Click { selector: s2, wait_before_ms: w2 },
        ) => s1@ == s2@ && w1 == w2,
        (
            Action::Type { selector: s1, value: v1, clear_first: c1 },
            Action::Type { selector: s2, value: v2, clear_first: c2 },
        ) => s1@ == s2@ && v1@ == v2@ && c1 == c2,
        (Action::Wait { duration_ms: d1 }, Action::Wait { duration_ms: d2 }) => d1 == d2,
        (
            Action::Scroll { direction: d1, amount: a1 },
            Action::Scroll { direction: d2, amount: a2 },
        ) => d1 == d2 && a1 == a2,
        (Action::Hover { selector: s1 }, Action::Hover { selector: s2 }) => s1@ == s2@,
        (Action::Press { key: k1 }, Action::Press { key: k2 }) => k1@ == k2@,
        (Action::Execute { script: s1 }, Action::Execute { script: s2 }) => s1@ == s2@,
        _ => false,
    }
}

/// One schema record encodes at most one action, up to field-for-field
/// equality.
pub proof fn lemma_action_value_unique(v: Value, a: Action, b: Action)
    requires
        is_action_value(v, a),
        is_action_value(v, b),
    ensures
        action_eq_spec(a, b),
{
    action_tag_literal_facts();
    assert forall|d1: ScrollDirection, d2: ScrollDirection|
        scroll_direction_tag_spec(d1) == scroll_direction_tag_spec(d2) implies d1 == d2 by {
        lemma_scroll_direction_tag_round_trip(d1, scroll_direction_tag_spec(d1));
        lemma_scroll_direction_tag_round_trip(d2, scroll_direction_tag_spec(d2));
    }
}

/// Writes an action into its schema record.
pub fn encode_action(a: &Action) -> (v: Value)
    ensures
        is_action_value(v, *a),
{
    let mut fs: Vec<(String, Value)> = Vec::new();
    match a {
        Action::Navigate { url } => {
            fs.push((String::from_str("type"), Value::Text(String::from_str("navigate"))));
            fs.push((String::from_str("url"), Value::Text(url.clone())));
        },
        Action::Click { selector, wait_before_ms } => {
            fs.push((String::from_str("type"), Value::Text(String::from_str("click"))));
            fs.push((String::from_str("selector"), Value::Text(selector.clone())));
            let w = match wait_before_ms {
                Some(ms) => Value::UInt(*ms),
                None => Value::Null,
            };
            fs.push((String::from_str("wait_before_ms"), w));
        },
        Action::Type { selector, value, clear_first } => {
            fs.push((String::from_str("type"), Value::Text(String::from_str("type"))));
            fs.push((String::from_str("selector"), Value::Text(selector.clone())));
            fs.push((String::from_str("value"), Value::Text(value.clone())));
            fs.push((String::from_str("clear_first"), Value::Bool(*clear_first)));
        },
        Action::Wait { duration_ms } => {
            fs.push((String::from_str("type"), Value::Text(String::from_str("wait"))));
            fs.push((String::from_str("duration_ms"), Value::UInt(*duration_ms)));
        },
        Action::Scroll { direction, amount } => {
            fs.push((String::from_str("type"), Value::Text(String::from_str("scroll"))));
            let tag = scroll_direction_tag(*direction);
            fs.push((String::from_str("direction"), Value::Text(String::from_str(tag))));
            fs.push((String::from_str("amount"), Value::Int(*amount as i64)));
        },
        Action::Hover { selector } => {
            fs.push((String::from_str("type"), Value::Text(String::from_str("hover"))));
            fs.push((String::from_str("selector"), Value::Text(selector.clone())));
        },
        Action::Press { key } => {
            fs.push((String::from_str("type"), Value::Text(String::from_str("press"))));
            fs.push((String::from_str("key"), Value::Text(key.clone())));
        },
        Action::Execute { script } => {
            fs.push((String::from_str("type"), Value::Text(String::from_str("execute"))));
            fs.push((String::from_str("script"), Value::Text(script.clone())));
        },
    }
    Value::Record(fs)
}

/// Reads an action back from its schema record.  Every record that encodes
/// an action is accepted; everything else is rejected.
pub fn decode_action(v: &Value) -> (r: Option<Action>)
    ensures
        r matches Some(a) ==> is_action_value(*v, a),
        forall|a: Action| is_action_value(*v, a) ==> r is Some,
{
    proof {
        action_tag_literal_facts();
    }
    let fields = match v {
        Value::Record(fs) => fs,
        _ => {
            return None;
        },
    };
    if fields.len() < 2 {
        return None;
    }
    if !str_eq(fields[0].0.as_str(), "type") {
        return None;
    }
    let tag = match &fields[0].1 {
        Value::Text(t) => t,
        _ => {
            return None;
        },
    };
    if str_eq(tag.as_str(), "navigate") {
        if fields.len() != 2 || !str_eq(fields[1].0.as_str(), "url") {
            return None;
        }
        match &fields[1].1 {
            Value::Text(t) => Some(Action::Navigate { url: t.clone() }),
            _ => None,
        }
    } else if str_eq(tag.as_str(), "click") {
        if fields.len() != 3 || !str_eq(fields[1].0.as_str(), "selector") || !str_eq(
            fields[2].0.as_str(),
            "wait_before_ms",
        ) {
            return None;
        }
        let selector = match &fields[1].1 {
            Value::Text(t) => t.clone(),
            _ => {
                return None;
            },
        };
        match &fields[2].1 {
            Value::UInt(ms) => Some(Action::Click { selector, wait_before_ms: Some(*ms) }),
            Value::Null => Some(Action::Click { selector, wait_before_ms: None }),
            _ => None,
        }
    } else if str_eq(tag.as_str(), "type") {
        if fields.len() != 4 || !str_eq(fields[1].0.as_str(), "selector") || !str_eq(
            fields[2].0.as_str(),
            "value",
        ) || !str_eq(fields[3].0.as_str(), "clear_first") {
            return None;
        }
        let selector = match &fields[1].1 {
            Value::Text(t) => t.clone(),
            _ => {
                return None;
            },
        };
        let value = match &fields[2].1 {
            Value::Text(t) => t.clone(),
            _ => {
                return None;
            },
        };
        match &fields[3].1 {
            Value::Bool(c) => Some(Action::Type { selector, value, clear_first: *c }),
            _ => None,
        }
    } else if str_eq(tag.as_str(), "wait") {
        if fields.len() != 2 || !str_eq(fields[1].0.as_str(), "duration_ms") {
            return None;
        }
        match &fields[1].1 {
            Value::UInt(ms) => Some(Action::Wait { duration_ms: *ms }),
            _ => None,
        }
    } else if str_eq(tag.as_str(), "scroll") {
        if fields.len() != 3 || !str_eq(fields[1].0.as_str(), "direction") || !str_eq(
            fields[2].0.as_str(),
            "amount",
        ) {
            return None;
        }
        let direction = match &fields[1].1 {
            Value::Text(t) => {
                match parse_scroll_direction(t.as_str()) {
                    Some(d) => d,
                    None => {
                        proof {
                            assert forall|a: Action| !is_action_value(*v, a) by {
                                match a {
                                    Action::Scroll { direction, .. } => {
                                        lemma_scroll_direction_tag_round_trip(direction, t@);
                                    },
                                    _ => {},
                                }
                            }
                        }
                        return None;
                    },
                }
            },
            _ => {
                return None;
            },
        };
        match &fields[2].1 {
            Value::Int(m) => {
                if *m >= -2147483648i64 && *m <= 2147483647i64 {
                    Some(Action::Scroll { direction, amount: *m as i32 })
                } else {
                    None
                }
            },
            _ => None,
        }
    } else if str_eq(tag.as_str(), "hover") {
        if fields.len() != 2 || !str_eq(fields[1].0.as_str(), "selector") {
            return None;
        }
        match &fields[1].1 {
            Value::Text(t) => Some(Action::Hover { selector: t.clone() }),
            _ => None,
        }
    } else if str_eq(tag.as_str(), "press") {
        if fields.len() != 2 || !str_eq(fields[1].0.as_str(), "key") {
            return None;
        }
        match &fields[1].1 {
            Value::Text(t) => Some(Action::Press { key: t.clone() }),
            _ => None,
        }
    } else if str_eq(tag.as_str(), "execute") {
        if fields.len() != 2 || !str_eq(fields[1].0.as_str(), "script") {
            return None;
        }
        match &fields[1].1 {
            Value::Text(t) => Some(Action::Execute { script: t.clone() }),
            _ => None,
        }
    } else {
        None
    }
}

/// Writing an action into its schema record and reading it back yields a
/// field-for-field equal action: every variant and every field preserved.
pub fn action_round_trip(a: &Action) -> (r: Option<Action>)
    ensures
        r matches Some(b) && action_eq_spec(b, *a),
{
    let v = encode_action(a);
    let r = decode_action(&v);
    proof {
        if r is Some {
            lemma_action_value_unique(v, r.unwrap(), *a);
        }
    }
    r
}

proof fn wait_tag_literal_facts()
    ensures
        "selector"@.len() == 8,
        "duration"@.len() == 8,
        "network_idle"@.len() == 12,
        "url"@.len() == 3,
        "element"@.len() == 7,
        "selector"@[0] == 's',
        "duration"@[0] == 'd',
{
    reveal_strlit("selector");
    reveal_strlit("duration");
    reveal_strlit("network_idle");
    reveal_strlit("url");
    reveal_strlit("element");
}

pub open spec fn is_u8_field(f: (String, Value), key: Seq<char>, n: u8) -> bool {
    f.0@ == key && (f.1 matches Value::UInt(m) && m == n as u64)
}

/// `v` is the schema record of the wait condition `w`: the tag field first,
/// then the variant's fields under their schema keys, in schema order.
pub open spec fn is_wait_value(v: Value, w: WaitCondition) -> bool {
    v matches Value::Record(fields) && {
        let fs = fields@;
        match w {
            WaitCondition::Selector { value, timeout_ms, visible } => fs.len() == 4
                && is_text_field(fs[0], "type"@, "selector"@) && is_text_field(
                fs[1],
                "value"@,
                value@,
            ) && is_u64_field(fs[2], "timeout_ms"@, timeout_ms) && is_bool_field(
                fs[3],
                "visible"@,
                visible,
            ),
            WaitCondition::Duration { ms } => fs.len() == 2 && is_text_field(
                fs[0],
                "type"@,
                "duration"@,
            ) && is_u64_field(fs[1], "ms"@, ms),
            WaitCondition::NetworkIdle { timeout_ms, max_connections } => fs.len() == 3
                && is_text_field(fs[0], "type"@, "network_idle"@) && is_u64_field(
                fs[1],
                "timeout_ms"@,
                timeout_ms,
            ) && is_u8_field(fs[2], "max_connections"@, max_connections),
            WaitCondition::Url { pattern, timeout_ms } => fs.len() == 3 && is_text_field(
                fs[0],
                "type"@,
                "url"@,
            ) && is_text_field(fs[1], "pattern"@, pattern@) && is_u64_field(
                fs[2],
                "timeout_ms"@,
                timeout_ms,
            ),
            WaitCondition::Element { selector, state, timeout_ms } => fs.len() == 4
                && is_text_field(fs[0], "type"@, "element"@) && is_text_field(
                fs[1],
                "selector"@,
                selector@,
            ) && is_text_field(fs[2], "state"@, element_state_name(state)) && is_u64_field(
                fs[3],
                "timeout_ms"@,
                timeout_ms,
            ),
        }
    }
}

/// Two wait conditions are field-for-field equal: the same variant with the
/// same field values.
pub open spec fn wait_eq_spec(a: WaitCondition, b: WaitCondition) -> bool {
    match (a, b) {
        (
            WaitCondition::Selector { value: v1, timeout_ms: t1, visible: x1 },
            WaitCondition::Selector { value: v2, timeout_ms: t2, visible: x2 },
        ) => v1@ == v2@ && t1 == t2 && x1 == x2,
        (WaitCondition::Duration { ms: m1 }, WaitCondition::Duration { ms: m2 }) => m1 == m2,
        (
            WaitCondition::NetworkIdle { timeout_ms: t1, max_connections: c1 },
            WaitCondition::NetworkIdle { timeout_ms: t2, max_connections: c2 },
        ) => t1 == t2 && c1 == c2,
        (
            WaitCondition::Url { pattern: p1, timeout_ms: t1 },
            WaitCondition::Url { pattern: p2, timeout_ms: t2 },
        ) => p1@ == p2@ && t1 == t2,
        (
            WaitCondition::Element { selector: s1, state: e1, timeout_ms: t1 },
            WaitCondition::Element { selector: s2, state: e2, timeout_ms: t2 },
        ) => s1@ == s2@ && e1 == e2 && t1 == t2,
        _ => false,
    }
}

/// One schema record encodes at most one wait condition, up to
/// field-for-field equality.
pub proof fn lemma_wait_value_unique(v: Value, a: WaitCondition, b: WaitCondition)
    requires
        is_wait_value(v, a),
        is_wait_value(v, b),
    ensures
        wait_eq_spec(a, b),
{
    wait_tag_literal_facts();
    assert forall|e1: ElementState, e2: ElementState|
        element_state_name(e1) == element_state_name(e2) implies e1 == e2 by {
        lemma_element_state_tag_round_trip(e1, element_state_name(e1));
        lemma_element_state_tag_round_trip(e2, element_state_name(e2));
    }
}

/// Writes a wait condition into its schema record.
pub fn encode_wait_condition(w: &WaitCondition) -> (v: Value)
    ensures
        is_wait_value(v, *w),
{
    let mut fs: Vec<(String, Value)> = Vec::new();
    match w {
        WaitCondition::Selector { value, timeout_ms, visible } => {
            fs.push((String::from_str("type"), Value::Text(String::from_str("selector"))));
            fs.push((String::from_str("value"), Value::Text(value.clone())));
            fs.push((String::from_str("timeout_ms"), Value::UInt(*timeout_ms)));
            fs.push((String::from_str("visible"), Value::Bool(*visible)));
        },
        WaitCondition::Duration { ms } => {
            fs.push((String::from_str("type"), Value::Text(String::from_str("duration"))));
            fs.push((String::from_str("ms"), Value::UInt(*ms)));
        },
        WaitCondition::NetworkIdle { timeout_ms, max_connections } => {
            fs.push((String::from_str("type"), Value::Text(String::from_str("network_idle"))));
            fs.push((String::from_str("timeout_ms"), Value::UInt(*timeout_ms)));
            fs.push((String::from_str("max_connections"), Value::UInt(*max_connections as u64)));
        },
        WaitCondition::Url { pattern, timeout_ms } => {
            fs.push((String::from_str("type"), Value::Text(String::from_str("url"))));
            fs.push((String::from_str("pattern"), Value::Text(pattern.clone())));
            fs.push((String::from_str("timeout_ms"), Value::UInt(*timeout_ms)));
        },
        WaitCondition::Element { selector, state, timeout_ms } => {
            fs.push((String::from_str("type"), Value::Text(String::from_str("element"))));
            fs.push((String::from_str("selector"), Value::Text(selector.clone())));
            fs.push((String::from_str("state"), Value::Text(String::from_str(state.name()))));
            fs.push((String::from_str("timeout_ms"), Value::UInt(*timeout_ms)));
        },
    }
    Value::Record(fs)
}

/// Reads a wait condition back from its schema record.  Every record that
/// encodes a wait condition is accepted; everything else is rejected.
pub fn decode_wait_condition(v: &Value) -> (r: Option<WaitCondition>)
    ensures
        r matches Some(w) ==> is_wait_value(*v, w),
        forall|w: WaitCondition| is_wait_value(*v, w) ==> r is Some,
{
    proof {
        wait_tag_literal_facts();
    }
    let fields = match v {
        Value::Record(fs) => fs,
        _ => {
            return None;
        },
    };
    if fields.len() < 2 {
        return None;
    }
    if !str_eq(fields[0].0.as_str(), "type") {
        return None;
    }
    let tag = match &fields[0].1 {
        Value::Text(t) => t,
        _ => {
            return None;
        },
    };
    if str_eq(tag.as_str(), "selector") {
        if fields.len() != 4 || !str_eq(fields[1].0.as_str(), "value") || !str_eq(
            fields[2].0.as_str(),
            "timeout_ms",
        ) || !str_eq(fields[3].0.as_str(), "visible") {
            return None;
        }
        let value = match &fields[1].1 {
            Value::Text(t) => t.clone(),
            _ => {
                return None;
            },
        };
        let timeout_ms = match &fields[2].1 {
            Value::UInt(t) => *t,
            _ => {
                return None;
            },
        };
        match &fields[3].1 {
            Value::Bool(b) => Some(WaitCondition::Selector { value, timeout_ms, visible: *b }),
            _ => None,
        }
    } else if str_eq(tag.as_str(), "duration") {
        if fields.len() != 2 || !str_eq(fields[1].0.as_str(), "ms") {
            return None;
        }
        match &fields[1].1 {
            Value::UInt(ms) => Some(WaitCondition::Duration { ms: *ms }),
            _ => None,
        }
    } else if str_eq(tag.as_str(), "network_idle") {
        if fields.len() != 3 || !str_eq(fields[1].0.as_str(), "timeout_ms") || !str_eq(
            fields[2].0.as_str(),
            "max_connections",
        ) {
            return None;
        }
        let timeout_ms = match &fields[1].1 {
            Value::UInt(t) => *t,
            _ => {
                return None;
            },
        };
        match &fields[2].1 {
            Value::UInt(c) => {
                if *c <= 255 {
                    Some(
                        WaitCondition::NetworkIdle { timeout_ms, max_connections: *c as u8 },
                    )
                } else {
                    None
                }
            },
            _ => None,
        }
    } else if str_eq(tag.as_str(), "url") {
        if fields.len() != 3 || !str_eq(fields[1].0.as_str(), "pattern") || !str_eq(
            fields[2].0.as_str(),
            "timeout_ms",
        ) {
            return None;
        }
        let pattern = match &fields[1].1 {
            Value::Text(t) => t.clone(),
            _ => {
                return None;
            },
        };
        match &fields[2].1 {
            Value::UInt(t) => Some(WaitCondition::Url { pattern, timeout_ms: *t }),
            _ => None,
        }
    } else if str_eq(tag.as_str(), "element") {
        if fields.len() != 4 || !str_eq(fields[1].0.as_str(), "selector") || !str_eq(
            fields[2].0.as_str(),
            "state",
        ) || !str_eq(fields[3].0.as_str(), "timeout_ms") {
            return None;
        }
        let selector = match &fields[1].1 {
            Value::Text(t) => t.clone(),
            _ => {
                return None;
            },
        };
        let state = match &fields[2].1 {
            Value::Text(t) => {
                match parse_element_state(t.as_str()) {
                    Some(e) => e,
                    None => {
                        proof {
                            assert forall|w: WaitCondition| !is_wait_value(*v, w) by {
                                match w {
                                    WaitCondition::Element { state, .. } => {
                                        lemma_element_state_tag_round_trip(state, t@);
                                    },
                                    _ => {},
                                }
                            }
                        }
                        return None;
                    },
                }
            },
            _ => {
                return None;
            },
        };
        match &fields[3].1 {
            Value::UInt(t) => Some(
                WaitCondition::Element { selector, state, timeout_ms: *t },
            ),
            _ => None,
        }
    } else {
        None
    }
}

/// Writing a wait condition into its schema record and reading it back
/// yields a field-for-field equal wait condition: every variant and every
/// field preserved.
pub fn wait_condition_round_trip(w: &WaitCondition) -> (r: Option<WaitCondition>)
    ensures
        r matches Some(u) && wait_eq_spec(u, *w),
{
    let v = encode_wait_condition(w);
    let r = decode_wait_condition(&v);
    proof {
        if r is Some {
            lemma_wait_value_unique(v, r.unwrap(), *w);
        }
    }
    r
}

pub open spec fn is_opt_text_field(f: (String, Value), key: Seq<char>, o: Option<String>) -> bool {
    f.0@ == key && match o {
        Some(s) => f.1 matches Value::Text(t) && t@ == s@,
        None => f.1 is Null,
    }
}

/// `v` is the schema record of the step `st`: name, action record, optional
/// wait record, capture flag and optional description, in schema order.
pub open spec fn is_step_value(v: Value, st: Step) -> bool {
    v matches Value::Record(fields) && {
        let fs = fields@;
        &&& fs.len() == 5
        &&& is_text_field(fs[0], "name"@, st.name@)
        &&& fs[1].0@ == "action"@
        &&& is_action_value(fs[1].1, st.action)
        &&& fs[2].0@ == "wait"@
        &&& match st.wait {
            Some(w) => is_wait_value(fs[2].1, w),
            None => fs[2].1 is Null,
        }
        &&& is_bool_field(fs[3], "capture"@, st.capture)
        &&& is_opt_text_field(fs[4], "description"@, st.description)
    }
}

pub open spec fn opt_text_eq(a: Option<String>, b: Option<String>) -> bool {
    match (a, b) {
        (Some(x), Some(y)) => x@ == y@,
        (None, None) => true,
        _ => false,
    }
}

/// Two steps are field-for-field equal: the same name, action, wait,
/// capture flag and description.
pub open spec fn step_eq_spec(a: Step, b: Step) -> bool {
    &&& a.name@ == b.name@
    &&& action_eq_spec(a.action, b.action)
    &&& match (a.wait, b.wait) {
        (Some(w1), Some(w2)) => wait_eq_spec(w1, w2),
        (None, None) => true,
        _ => false,
    }
    &&& a.capture == b.capture
    &&& opt_text_eq(a.description, b.description)
}

/// One schema record encodes at most one step, up to field-for-field
/// equality.
pub proof fn lemma_step_value_unique(v: Value, a: Step, b: Step)
    requires
        is_step_value(v, a),
        is_step_value(v, b),
    ensures
        step_eq_spec(a, b),
{
    let fields = v->Record_0;
    lemma_action_value_unique(fields@[1].1, a.action, b.action);
    match (a.wait, b.wait) {
        (Some(w1), Some(w2)) => {
            lemma_wait_value_unique(fields@[2].1, w1, w2);
        },
        _ => {},
    }
}

/// Writes a step into its schema record.
pub fn encode_step(st: &Step) -> (v: Value)
    ensures
        is_step_value(v, *st),
{
    let mut fs: Vec<(String, Value)> = Vec::new();
    fs.push((String::from_str("name"), Value::Text(st.name.clone())));
    fs.push((String::from_str("action"), encode_action(&st.action)));
    let wait = match &st.wait {
        Some(w) => encode_wait_condition(w),
        None => Value::Null,
    };
    fs.push((String::from_str("wait"), wait));
    fs.push((String::from_str("capture"), Value::Bool(st.capture)));
    let description = match &st.description {
        Some(d) => Value::Text(d.clone()),
        None => Value::Null,
    };
    fs.push((String::from_str("description"), description));
    Value::Record(fs)
}

/// Reads a step back from its schema record.  Every record that encodes a
/// step is accepted; everything else is rejected.
pub fn decode_step(v: &Value) -> (r: Option<Step>)
    ensures
        r matches Some(st) ==> is_step_value(*v, st),
        forall|st: Step| is_step_value(*v, st) ==> r is Some,
{
    let fields = match v {
        Value::Record(fs) => fs,
        _ => {
            return None;
        },
    };
    if fields.len() != 5 || !str_eq(fields[0].0.as_str(), "name") || !str_eq(
        fields[1].0.as_str(),
        "action",
    ) || !str_eq(fields[2].0.as_str(), "wait") || !str_eq(fields[3].0.as_str(), "capture")
        || !str_eq(fields[4].0.as_str(), "description") {
        return None;
    }
    let name = match &fields[0].1 {
        Value::Text(t) => t.clone(),
        _ => {
            return None;
        },
    };
    let action = match decode_action(&fields[1].1) {
        Some(a) => a,
        None => {
            return None;
        },
    };
    let wait = match &fields[2].1 {
        Value::Null => None,
        other => {
            match decode_wait_condition(other) {
                Some(w) => Some(w),
                None => {
                    return None;
                },
            }
        },
    };
    let capture = match &fields[3].1 {
        Value::Bool(b) => *b,
        _ => {
            return None;
        },
    };
    let description = match &fields[4].1 {
        Value::Text(t) => Some(t.clone()),
        Value::Null => None,
        _ => {
            return None;
        },
    };
    Some(Step { name, action, wait, capture, description })
}

/// Writing a step into its schema record and reading it back yields a
/// field-for-field equal step.
pub fn step_round_trip(st: &Step) -> (r: Option<Step>)
    ensures
        r matches Some(u) && step_eq_spec(u, *st),
{
    let v = encode_step(st);
    let r = decode_step(&v);
    proof {
        if r is Some {
            lemma_step_value_unique(v, r.unwrap(), *st);
        }
    }
    r
}

/// `v` is the schema record of the cookie `c`.
pub open spec fn is_cookie_value(v: Value, c: Cookie) -> bool {
    v matches Value::Record(fields) && {
        let fs = fields@;
        &&& fs.len() == 3
        &&& is_text_field(fs[0], "name"@, c.name@)
        &&& is_text_field(fs[1], "value"@, c.value@)
        &&& is_text_field(fs[2], "domain"@, c.domain@)
    }
}

pub open spec fn cookie_eq_spec(a: Cookie, b: Cookie) -> bool {
    a.name@ == b.name@ && a.value@ == b.value@ && a.domain@ == b.domain@
}

fn encode_cookie(c: &Cookie) -> (v: Value)
    ensures
        is_cookie_value(v, *c),
{
    let mut fs: Vec<(String, Value)> = Vec::new();
    fs.push((String::from_str("name"), Value::Text(c.name.clone())));
    fs.push((String::from_str("value"), Value::Text(c.value.clone())));
    fs.push((String::from_str("domain"), Value::Text(c.domain.clone())));
    Value::Record(fs)
}

fn decode_cookie(v: &Value) -> (r: Option<Cookie>)
    ensures
        r matches Some(c) ==> is_cookie_value(*v, c),
        forall|c: Cookie| is_cookie_value(*v, c) ==> r is Some,
{
    let fields = match v {
        Value::Record(fs) => fs,
        _ => {
            return None;
        },
    };
    if fields.len() != 3 || !str_eq(fields[0].0.as_str(), "name") || !str_eq(
        fields[1].0.as_str(),
        "value",
    ) || !str_eq(fields[2].0.as_str(), "domain") {
        return None;
    }
    let name = match &fields[0].1 {
        Value::Text(t) => t.clone(),
        _ => {
            return None;
        },
    };
    let value = match &fields[1].1 {
        Value::Text(t) => t.clone(),
        _ => {
            return None;
        },
    };
    match &fields[2].1 {
        Value::Text(t) => Some(Cookie { name, value, domain: t.clone() }),
        _ => None,
    }
}

/// `v` is the schema record of one local-storage entry.
pub open spec fn is_pair_value(v: Value, p: (String, String)) -> bool {
    v matches Value::Record(fields) && {
        let fs = fields@;
        &&& fs.len() == 2
        &&& is_text_field(fs[0], "key"@, p.0@)
        &&& is_text_field(fs[1], "value"@, p.1@)
    }
}

pub open spec fn pair_eq_spec(a: (String, String), b: (String, String)) -> bool {
    a.0@ == b.0@ && a.1@ == b.1@
}

fn encode_pair(p: &(String, String)) -> (v: Value)
    ensures
        is_pair_value(v, *p),
{
    let mut fs: Vec<(String, Value)> = Vec::new();
    fs.push((String::from_str("key"), Value::Text(p.0.clone())));
    fs.push((String::from_str("value"), Value::Text(p.1.clone())));
    Value::Record(fs)
}

fn decode_pair(v: &Value) -> (r: Option<(String, String)>)
    ensures
        r matches Some(p) ==> is_pair_value(*v, p),
        forall|p: (String, String)| is_pair_value(*v, p) ==> r is Some,
{
    let fields = match v {
        Value::Record(fs) => fs,
        _ => {
            return None;
        },
    };
    if fields.len() != 2 || !str_eq(fields[0].0.as_str(), "key") || !str_eq(
        fields[1].0.as_str(),
        "value",
    ) {
        return None;
    }
    let key = match &fields[0].1 {
        Value::Text(t) => t.clone(),
        _ => {
            return None;
        },
    };
    match &fields[1].1 {
        Value::Text(t) => Some((key, t.clone())),
        _ => None,
    }
}

/// `v` is the schema list of the cookies `cs`, in order.
pub open spec fn is_cookie_list(v: Value, cs: Seq<Cookie>) -> bool {
    v matches Value::List(items) && items@.len() == cs.len() && (forall|j: int|
        0 <= j < cs.len() ==> is_cookie_value(#[trigger] items@[j], cs[j]))
}

/// `v` is the schema list of the local-storage entries `ps`, in order.
pub open spec fn is_pair_list(v: Value, ps: Seq<(String, String)>) -> bool {
    v matches Value::List(items) && items@.len() == ps.len() && (forall|j: int|
        0 <= j < ps.len() ==> is_pair_value(#[trigger] items@[j], ps[j]))
}

fn encode_cookie_list(cs: &Vec<Cookie>) -> (v: Value)
    ensures
        is_cookie_list(v, cs@),
{
    let mut items: Vec<Value> = Vec::new();
    let mut i: usize = 0;
    while i < cs.len()
        invariant
            i <= cs@.len(),
            items@.len() == i,
            forall|j: int| 0 <= j < i ==> is_cookie_value(#[trigger] items@[j], cs@[j]),
        decreases cs@.len() - i,
    {
        items.push(encode_cookie(&cs[i]));
        i = i + 1;
    }
    Value::List(items)
}

fn encode_pair_list(ps: &Vec<(String, String)>) -> (v: Value)
    ensures
        is_pair_list(v, ps@),
{
    let mut items: Vec<Value> = Vec::new();
    let mut i: usize = 0;
    while i < ps.len()
        invariant
            i <= ps@.len(),
            items@.len() == i,
            forall|j: int| 0 <= j < i ==> is_pair_value(#[trigger] items@[j], ps@[j]),
        decreases ps@.len() - i,
    {
        items.push(encode_pair(&ps[i]));
        i = i + 1;
    }
    Value::List(items)
}

fn decode_cookie_list(v: &Value) -> (r: Option<Vec<Cookie>>)
    ensures
        r matches Some(cs) ==> is_cookie_list(*v, cs@),
        forall|cs: Seq<Cookie>| is_cookie_list(*v, cs) ==> r is Some,
{
    let items = match v {
        Value::List(its) => its,
        _ => {
            return None;
        },
    };
    let mut out: Vec<Cookie> = Vec::new();
    let mut i: usize = 0;
    while i < items.len()
        invariant
            *v is List,
            v->List_0@ == items@,
            i <= items@.len(),
            out@.len() == i,
            forall|j: int| 0 <= j < i ==> is_cookie_value(items@[j], #[trigger] out@[j]),
        decreases items@.len() - i,
    {
        match decode_cookie(&items[i]) {
            Some(c) => out.push(c),
            None => {
                assert forall|cs: Seq<Cookie>| !is_cookie_list(*v, cs) by {
                    if is_cookie_list(*v, cs) {
                        assert(is_cookie_value(items@[i as int], cs[i as int]));
                        assert(false);
                    }
                }
                return None;
            },
        }
        i = i + 1;
    }
    Some(out)
}

fn decode_pair_list(v: &Value) -> (r: Option<Vec<(String, String)>>)
    ensures
        r matches Some(ps) ==> is_pair_list(*v, ps@),
        forall|ps: Seq<(String, String)>| is_pair_list(*v, ps) ==> r is Some,
{
    let items = match v {
        Value::List(its) => its,
        _ => {
            return None;
        },
    };
    let mut out: Vec<(String, String)> = Vec::new();
    let mut i: usize = 0;
    while i < items.len()
        invariant
            *v is List,
            v->List_0@ == items@,
            i <= items@.len(),
            out@.len() == i,
            forall|j: int| 0 <= j < i ==> is_pair_value(items@[j], #[trigger] out@[j]),
        decreases items@.len() - i,
    {
        match decode_pair(&items[i]) {
            Some(p) => out.push(p),
            None => {
                assert forall|ps: Seq<(String, String)>| !is_pair_list(*v, ps) by {
                    if is_pair_list(*v, ps) {
                        assert(is_pair_value(items@[i as int], ps[i as int]));
                        assert(false);
                    }
                }
                return None;
            },
        }
        i = i + 1;
    }
    Some(out)
}

/// `v` is the schema record of the setup `s`: the auth flag, the optional
/// starting URL, the optional cookie list and the optional local-storage
/// list, in schema order.
pub open spec fn is_setup_value(v: Value, s: Setup) -> bool {
    v matches Value::Record(fields) && {
        let fs = fields@;
        &&& fs.len() == 4
        &&& is_bool_field(fs[0], "auth_required"@, s.auth_required)
        &&& is_opt_text_field(fs[1], "starting_url"@, s.starting_url)
        &&& fs[2].0@ == "cookies"@
        &&& match s.cookies {
            Some(cs) => is_cookie_list(fs[2].1, cs@),
            None => fs[2].1 is Null,
        }
        &&& fs[3].0@ == "local_storage"@
        &&& match s.local_storage {
            Some(ps) => is_pair_list(fs[3].1, ps@),
            None => fs[3].1 is Null,
        }
    }
}

/// Two setups are field-for-field equal: flag, starting URL, cookies and
/// local-storage entries all the same, in order.
pub open spec fn setup_eq_spec(a: Setup, b: Setup) -> bool {
    &&& a.auth_required == b.auth_required
    &&& opt_text_eq(a.starting_url, b.starting_url)
    &&& match (a.cookies, b.cookies) {
        (Some(c1), Some(c2)) => c1@.len() == c2@.len() && (forall|j: int|
            0 <= j < c1@.len() ==> cookie_eq_spec(#[trigger] c1@[j], c2@[j])),
        (None, None) => true,
        _ => false,
    }
    &&& match (a.local_storage, b.local_storage) {
        (Some(p1), Some(p2)) => p1@.len() == p2@.len() && (forall|j: int|
            0 <= j < p1@.len() ==> pair_eq_spec(#[trigger] p1@[j], p2@[j])),
        (None, None) => true,
        _ => false,
    }
}

/// One schema record encodes at most one setup, up to field-for-field
/// equality.
pub proof fn lemma_setup_value_unique(v: Value, a: Setup, b: Setup)
    requires
        is_setup_value(v, a),
        is_setup_value(v, b),
    ensures
        setup_eq_spec(a, b),
{
    let fields = v->Record_0;
    match (a.cookies, b.cookies) {
        (Some(c1), Some(c2)) => {
            let items = fields@[2].1->List_0;
            assert forall|j: int| 0 <= j < c1@.len() implies cookie_eq_spec(
                #[trigger] c1@[j],
                c2@[j],
            ) by {
                assert(is_cookie_value(items@[j], c1@[j]));
                assert(is_cookie_value(items@[j], c2@[j]));
            }
        },
        _ => {},
    }
    match (a.local_storage, b.local_storage) {
        (Some(p1), Some(p2)) => {
            let items = fields@[3].1->List_0;
            assert forall|j: int| 0 <= j < p1@.len() implies pair_eq_spec(
                #[trigger] p1@[j],
                p2@[j],
            ) by {
                assert(is_pair_value(items@[j], p1@[j]));
                assert(is_pair_value(items@[j], p2@[j]));
            }
        },
        _ => {},
    }
}

fn encode_setup(s: &Setup) -> (v: Value)
    ensures
        is_setup_value(v, *s),
{
    let mut fs: Vec<(String, Value)> = Vec::new();
    fs.push((String::from_str("auth_required"), Value::Bool(s.auth_required)));
    let starting = match &s.starting_url {
        Some(u) => Value::Text(u.clone()),
        None => Value::Null,
    };
    fs.push((String::from_str("starting_url"), starting));
    let cookies = match &s.cookies {
        Some(cs) => encode_cookie_list(cs),
        None => Value::Null,
    };
    fs.push((String::from_str("cookies"), cookies));
    let storage = match &s.local_storage {
        Some(ps) => encode_pair_list(ps),
        None => Value::Null,
    };
    fs.push((String::from_str("local_storage"), storage));
    Value::Record(fs)
}

fn decode_setup(v: &Value) -> (r: Option<Setup>)
    ensures
        r matches Some(s) ==> is_setup_value(*v, s),
        forall|s: Setup| is_setup_value(*v, s) ==> r is Some,
{
    let fields = match v {
        Value::Record(fs) => fs,
        _ => {
            return None;
        },
    };
    if fields.len() != 4 || !str_eq(fields[0].0.as_str(), "auth_required") || !str_eq(
        fields[1].0.as_str(),
        "starting_url",
    ) || !str_eq(fields[2].0.as_str(), "cookies") || !str_eq(
        fields[3].0.as_str(),
        "local_storage",
    ) {
        return None;
    }
    let auth_required = match &fields[0].1 {
        Value::Bool(b) => *b,
        _ => {
            return None;
        },
    };
    let starting_url = match &fields[1].1 {
        Value::Text(t) => Some(t.clone()),
        Value::Null => None,
        _ => {
            return None;
        },
    };
    let cookies = match &fields[2].1 {
        Value::Null => None,
        other => {
            match decode_cookie_list(other) {
                Some(cs) => Some(cs),
                None => {
                    return None;
                },
            }
        },
    };
    let local_storage = match &fields[3].1 {
        Value::Null => None,
        other => {
            match decode_pair_list(other) {
                Some(ps) => Some(ps),
                None => {
                    return None;
                },
            }
        },
    };
    Some(Setup { auth_required, starting_url, cookies, local_storage })
}

/// `v` is the schema list of the steps `ss`, in order.
pub open spec fn is_step_list(v: Value, ss: Seq<Step>) -> bool {
    v matches Value::List(items) && items@.len() == ss.len() && (forall|j: int|
        0 <= j < ss.len() ==> is_step_value(#[trigger] items@[j], ss[j]))
}

fn encode_step_list(ss: &Vec<Step>) -> (v: Value)
    ensures
        is_step_list(v, ss@),
{
    let mut items: Vec<Value> = Vec::new();
    let mut i: usize = 0;
    while i < ss.len()
        invariant
            i <= ss@.len(),
            items@.len() == i,
            forall|j: int| 0 <= j < i ==> is_step_value(#[trigger] items@[j], ss@[j]),
        decreases ss@.len() - i,
    {
        items.push(encode_step(&ss[i]));
        i = i + 1;
    }
    Value::List(items)
}

fn decode_step_list(v: &Value) -> (r: Option<Vec<Step>>)
    ensures
        r matches Some(ss) ==> is_step_list(*v, ss@),
        forall|ss: Seq<Step>| is_step_list(*v, ss) ==> r is Some,
{
    let items = match v {
        Value::List(its) => its,
        _ => {
            return None;
        },
    };
    let mut out: Vec<Step> = Vec::new();
    let mut i: usize = 0;
    while i < items.len()
        invariant
            *v is List,
            v->List_0@ == items@,
            i <= items@.len(),
            out@.len() == i,
            forall|j: int| 0 <= j < i ==> is_step_value(items@[j], #[trigger] out@[j]),
        decreases items@.len() - i,
    {
        match decode_step(&items[i]) {
            Some(st) => out.push(st),
            None => {
                assert forall|ss: Seq<Step>| !is_step_list(*v, ss) by {
                    if is_step_list(*v, ss) {
                        assert(is_step_value(items@[i as int], ss[i as int]));
                        assert(false);
                    }
                }
                return None;
            },
        }
        i = i + 1;
    }
    Some(out)
}

/// `v` is the schema record of the task definition `t`: id, app,
/// description and base URL, the optional setup record, and the step list,
/// in schema order.
pub open spec fn is_task_def_value(v: Value, t: TaskDefinition) -> bool {
    v matches Value::Record(fields) && {
        let fs = fields@;
        &&& fs.len() == 6
        &&& is_text_field(fs[0], "id"@, t.id@)
        &&& is_text_field(fs[1], "app"@, t.app@)
        &&& is_text_field(fs[2], "description"@, t.description@)
        &&& is_text_field(fs[3], "base_url"@, t.base_url@)
        &&& fs[4].0@ == "setup"@
        &&& match t.setup {
            Some(s) => is_setup_value(fs[4].1, s),
            None => fs[4].1 is Null,
        }
        &&& fs[5].0@ == "steps"@
        &&& is_step_list(fs[5].1, t.steps@)
    }
}

/// Two task definitions are field-for-field equal: the same id, app,
/// description and base URL, the same setup (cookies and storage in order),
/// and the same steps in order, each with the same action and wait variant.
pub open spec fn task_def_eq_spec(a: TaskDefinition, b: TaskDefinition) -> bool {
    &&& a.id@ == b.id@
    &&& a.app@ == b.app@
    &&& a.description@ == b.description@
    &&& a.base_url@ == b.base_url@
    &&& match (a.setup, b.setup) {
        (Some(s1), Some(s2)) => setup_eq_spec(s1, s2),
        (None, None) => true,
        _ => false,
    }
    &&& a.steps@.len() == b.steps@.len()
    &&& forall|j: int| 0 <= j < a.steps@.len() ==> step_eq_spec(#[trigger] a.steps@[j], b.steps@[j])
}

/// One schema record encodes at most one task definition, up to
/// field-for-field equality.
pub proof fn lemma_task_def_value_unique(v: Value, a: TaskDefinition, b: TaskDefinition)
    requires
        is_task_def_value(v, a),
        is_task_def_value(v, b),
    ensures
        task_def_eq_spec(a, b),
{
    let fields = v->Record_0;
    match (a.setup, b.setup) {
        (Some(s1), Some(s2)) => {
            lemma_setup_value_unique(fields@[4].1, s1, s2);
        },
        _ => {},
    }
    let items = fields@[5].1->List_0;
    assert forall|j: int| 0 <= j < a.steps@.len() implies step_eq_spec(
        #[trigger] a.steps@[j],
        b.steps@[j],
    ) by {
        lemma_step_value_unique(items@[j], a.steps@[j], b.steps@[j]);
    }
}

/// Writes a task definition into its schema record.
pub fn encode_task_def(t: &TaskDefinition) -> (v: Value)
    ensures
        is_task_def_value(v, *t),
{
    let mut fs: Vec<(String, Value)> = Vec::new();
    fs.push((String::from_str("id"), Value::Text(t.id.clone())));
    fs.push((String::from_str("app"), Value::Text(t.app.clone())));
    fs.push((String::from_str("description"), Value::Text(t.description.clone())));
    fs.push((String::from_str("base_url"), Value::Text(t.base_url.clone())));
    let setup = match &t.setup {
        Some(s) => encode_setup(s),
        None => Value::Null,
    };
    fs.push((String::from_str("setup"), setup));
    fs.push((String::from_str("steps"), encode_step_list(&t.steps)));
    Value::Record(fs)
}

/// Reads a task definition back from its schema record.  Every record that
/// encodes a task definition is accepted; everything else is rejected.
pub fn decode_task_def(v: &Value) -> (r: Option<TaskDefinition>)
    ensures
        r matches Some(t) ==> is_task_def_value(*v, t),
        forall|t: TaskDefinition| is_task_def_value(*v, t) ==> r is Some,
{
    let fields = match v {
        Value::Record(fs) => fs,
        _ => {
            return None;
        },
    };
    if fields.len() != 6 || !str_eq(fields[0].0.as_str(), "id") || !str_eq(
        fields[1].0.as_str(),
        "app",
    ) || !str_eq(fields[2].0.as_str(), "description") || !str_eq(
        fields[3].0.as_str(),
        "base_url",
    ) || !str_eq(fields[4].0.as_str(), "setup") || !str_eq(fields[5].0.as_str(), "steps") {
        return None;
    }
    let id = match &fields[0].1 {
        Value::Text(t) => t.clone(),
        _ => {
            return None;
        },
    };
    let app = match &fields[1].1 {
        Value::Text(t) => t.clone(),
        _ => {
            return None;
        },
    };
    let description = match &fields[2].1 {
        Value::Text(t) => t.clone(),
        _ => {
            return None;
        },
    };
    let base_url = match &fields[3].1 {
        Value::Text(t) => t.clone(),
        _ => {
            return None;
        },
    };
    let setup = match &fields[4].1 {
        Value::Null => None,
        other => {
            match decode_setup(other) {
                Some(s) => Some(s),
                None => {
                    return None;
                },
            }
        },
    };
    let steps = match decode_step_list(&fields[5].1) {
        Some(ss) => ss,
        None => {
            return None;
        },
    };
    Some(TaskDefinition { id, app, description, base_url, setup, steps })
}

/// Writing a task definition into its schema record and reading it back
/// yields a field-for-field equal structure: cookies, setup, steps and wait
/// variants all preserved.
pub fn task_def_round_trip(t: &TaskDefinition) -> (r: Option<TaskDefinition>)
    ensures
        r matches Some(u) && task_def_eq_spec(u, *t),
{
    let v = encode_task_def(t);
    let r = decode_task_def(&v);
    proof {
        if r is Some {
            lemma_task_def_value_unique(v, r.unwrap(), *t);
        }
    }
    r
}

} // verus!