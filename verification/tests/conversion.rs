use std::cell::Cell;

use enum_from_variant::classify::{PayloadClassification, Strategy};
use enum_from_variant::emit::{convert, ConversionSpec, Payload};

#[derive(Debug, Clone, PartialEq, Eq)]
struct StoreFault {
    code: u32,
}

#[derive(Debug, Clone, PartialEq, Eq)]
struct NetworkFault;

fn render_network_fault(_fault: &NetworkFault) -> String {
    "timeout".to_string()
}

#[test]
fn direct_wrap_hands_the_value_on_unchanged() {
    let fault = StoreFault { code: 7 };
    let payload = convert(Strategy::DirectWrap, fault.clone(), |f: &StoreFault| {
        format!("store fault {}", f.code)
    });
    assert_eq!(payload, Payload::Direct(fault));
}

#[test]
fn direct_wrap_never_renders() {
    let calls = Cell::new(0u32);
    let payload = convert(Strategy::DirectWrap, StoreFault { code: 1 }, |_f: &StoreFault| {
        calls.set(calls.get() + 1);
        String::new()
    });
    assert_eq!(calls.get(), 0);
    assert_eq!(payload, Payload::Direct(StoreFault { code: 1 }));
}

#[test]
fn direct_wrap_accepts_a_renderer_that_cannot_run() {
    let payload = convert(Strategy::DirectWrap, 5u8, |_v: &u8| -> String {
        panic!("the renderer must not be called")
    });
    assert_eq!(payload, Payload::Direct(5u8));
}

#[test]
fn stringify_wrap_holds_the_rendered_text() {
    let payload = convert(Strategy::StringifyWrap, NetworkFault, render_network_fault);
    assert_eq!(payload, Payload::Text("timeout".to_string()));
}

#[test]
fn stringify_wrap_renders_exactly_once() {
    let calls = Cell::new(0u32);
    let payload = convert(Strategy::StringifyWrap, StoreFault { code: 3 }, |f: &StoreFault| {
        calls.set(calls.get() + 1);
        format!("store fault {}", f.code)
    });
    assert_eq!(calls.get(), 1);
    assert_eq!(payload, Payload::Text("store fault 3".to_string()));
}

#[test]
fn stringify_wrap_renders_each_value_once() {
    let calls = Cell::new(0u32);
    for code in 0..5u32 {
        let payload = convert(Strategy::StringifyWrap, code, |c: &u32| {
            calls.set(calls.get() + 1);
            c.to_string()
        });
        assert_eq!(payload, Payload::Text(code.to_string()));
    }
    assert_eq!(calls.get(), 5);
}

#[test]
fn conversion_spec_strategy_follows_its_classification() {
    let spec = |classification| ConversionSpec {
        source: "S".to_string(),
        variant: "V".to_string(),
        classification,
    };
    assert_eq!(spec(PayloadClassification::NamedType).strategy(), Strategy::DirectWrap);
    assert_eq!(spec(PayloadClassification::PlainText).strategy(), Strategy::StringifyWrap);
    assert_eq!(spec(PayloadClassification::Absent).strategy(), Strategy::StringifyWrap);
}

#[test]
fn conversion_spec_clone_is_equal() {
    let spec = ConversionSpec {
        source: "StoreFault".to_string(),
        variant: "FromStore".to_string(),
        classification: PayloadClassification::NamedType,
    };
    assert_eq!(spec.clone(), spec);
}
