use cala_core::os::web::utf16::encode_utf16;
use cala_core::os::web::{
    Element, Fetch, HostCall, JsFn, JsPromise, JsString, JsVar, Probe, PromiseRegistry,
    PromiseState, ProtocolViolation, Scalar, ABSENT,
};
use std::task::Poll;

#[test]
fn absent_is_minus_one() {
    assert_eq!(ABSENT, -1);
}

#[test]
fn from_raw_owns_the_handle() {
    assert_eq!(JsVar::from_raw(0).as_raw(), 0);
    assert_eq!(JsVar::from_raw(7).as_raw(), 7);
    assert_eq!(JsVar::from_raw(i32::MAX).as_raw(), i32::MAX);
}

#[test]
fn from_i32_stores_the_value() {
    assert_eq!(JsVar::from_i32(42), HostCall::StoreInt { value: 42 });
    assert_eq!(JsVar::from_i32(-750), HostCall::StoreInt { value: -750 });
}

#[test]
fn scalars_are_loaded_by_kind() {
    let var = JsVar::from_raw(4);
    assert_eq!(var.into_i32(), HostCall::Load { var: 4, kind: Scalar::Int });
    assert_eq!(var.into_f32(), HostCall::Load { var: 4, kind: Scalar::Float });
    assert_eq!(var.into_f64(), HostCall::Load { var: 4, kind: Scalar::Double });
}

#[test]
fn call_sends_absent_for_an_argument_that_is_not_passed() {
    let function = JsVar::from_raw(9).into_fn();
    let a = JsVar::from_raw(5);
    let b = JsVar::from_raw(6);
    assert_eq!(
        function.call(Some(&a), Some(&b)),
        HostCall::Call { function: 9, param_a: 5, param_b: 6 }
    );
    assert_eq!(
        function.call(Some(&a), None),
        HostCall::Call { function: 9, param_a: 5, param_b: -1 }
    );
    assert_eq!(
        function.call(None, Some(&b)),
        HostCall::Call { function: 9, param_a: -1, param_b: 6 }
    );
    assert_eq!(function.call(None, None), HostCall::Call { function: 9, param_a: -1, param_b: -1 });
}

#[test]
fn returned_reads_absent_as_nothing() {
    assert!(JsFn::returned(-1).is_none());
    assert_eq!(JsFn::returned(0).map(|var| var.as_raw()), Some(0));
    assert_eq!(JsFn::returned(12).map(|var| var.as_raw()), Some(12));
    assert_eq!(JsFn::returned(-2).map(|var| var.as_raw()), Some(-2));
}

#[test]
fn argument_that_comes_back_is_the_same_variable() {
    let function = JsVar::from_raw(1).into_fn();
    let argument = JsVar::from_raw(33);
    match function.call(Some(&argument), None) {
        HostCall::Call { param_a, param_b, .. } => {
            assert_eq!(JsFn::returned(param_a).map(|var| var.as_raw()), Some(33));
            assert!(JsFn::returned(param_b).is_none());
        }
        other => panic!("not a call: {:?}", other),
    }
}

#[test]
fn utf16_of_ascii_is_one_unit_per_character() {
    assert_eq!(encode_utf16(""), Vec::<u16>::new());
    assert_eq!(encode_utf16("A"), vec![65]);
    assert_eq!(encode_utf16("Hi!"), vec![72, 105, 33]);
}

#[test]
fn utf16_of_the_basic_plane_is_the_scalar_value() {
    assert_eq!(encode_utf16("\u{263A}"), vec![0x263A]);
    assert_eq!(encode_utf16("\u{D7FF}\u{E000}\u{FFFF}"), vec![0xD7FF, 0xE000, 0xFFFF]);
}

#[test]
fn utf16_beyond_the_basic_plane_is_a_surrogate_pair() {
    assert_eq!(encode_utf16("\u{10000}"), vec![0xD800, 0xDC00]);
    assert_eq!(encode_utf16("\u{1D11E}"), vec![0xD834, 0xDD1E]);
    assert_eq!(encode_utf16("\u{10FFFF}"), vec![0xDBFF, 0xDFFF]);
    assert_eq!(encode_utf16("a\u{1F600}b"), vec![97, 0xD83D, 0xDE00, 98]);
}

#[test]
fn utf16_agrees_with_the_standard_library() {
    for text in ["Hello, world! \u{263A}", "\u{1D11E} clef", "\u{0}\u{7F}\u{80}\u{7FF}\u{800}"] {
        assert_eq!(encode_utf16(text), text.encode_utf16().collect::<Vec<u16>>());
    }
}

#[test]
fn new_string_sends_the_text_in_utf16() {
    assert_eq!(
        JsString::new("Hello, world!"),
        HostCall::Text { units: vec![72, 101, 108, 108, 111, 44, 32, 119, 111, 114, 108, 100, 33] }
    );
    assert_eq!(JsString::new(""), HostCall::Text { units: vec![] });
    assert_eq!(JsString::new("\u{1D11E}"), HostCall::Text { units: vec![0xD834, 0xDD1E] });
}

#[test]
fn string_wraps_a_variable() {
    let string = JsString::from_var(JsVar::from_raw(21));
    assert_eq!(string.as_var().as_raw(), 21);
    assert_eq!(string.into_var().as_raw(), 21);
}

#[test]
fn new_function_sends_the_source_of_a_function_of_two_parameters() {
    let source = "\"use strict\";return function(param_a, param_b) { alert(param_a); };";
    assert_eq!(
        JsFn::new("alert(param_a);"),
        HostCall::Text { units: source.encode_utf16().collect() }
    );
    let empty = "\"use strict\";return function(param_a, param_b) {  };";
    assert_eq!(JsFn::new(""), HostCall::Text { units: empty.encode_utf16().collect() });
}

#[test]
fn compile_names_the_source_string() {
    let source = JsString::from_var(JsVar::from_raw(3));
    assert_eq!(JsFn::compile(&source), HostCall::Function { source: 3 });
    assert_eq!(JsVar::from_raw(8).into_fn().into_var().as_raw(), 8);
}

#[test]
fn read_opens_with_a_probe_for_each_element_type() {
    let var = JsVar::from_raw(5);
    assert_eq!(var.read_utf16(), Probe { var: 5, element: Element::Text });
    assert_eq!(var.read_bytes(), Probe { var: 5, element: Element::Bytes });
    assert_eq!(var.read_ints(), Probe { var: 5, element: Element::Ints });
    assert_eq!(var.read_floats(), Probe { var: 5, element: Element::Floats });
    assert_eq!(var.read_doubles(), Probe { var: 5, element: Element::Doubles });
    assert_eq!(var.read(Element::Ints), Probe { var: 5, element: Element::Ints });
}

#[test]
fn read_asks_for_nothing_then_for_all() {
    let probe = JsVar::from_raw(5).read_bytes();
    assert_eq!(probe.request(), HostCall::Read { var: 5, element: Element::Bytes, length: 0 });
    let fetch = probe.sized(10);
    assert_eq!(fetch, Fetch { var: 5, element: Element::Bytes, length: 10 });
    assert_eq!(fetch.request(), HostCall::Read { var: 5, element: Element::Bytes, length: 10 });
    assert_eq!(fetch.finish(10), Ok(10));
}

#[test]
fn read_of_another_length_than_requested_breaks_the_protocol() {
    let fetch = JsVar::from_raw(5).read_ints().sized(10);
    assert_eq!(fetch.finish(9), Err(ProtocolViolation { requested: 10, written: 9 }));
    let fetch = JsVar::from_raw(5).read_ints().sized(10);
    assert_eq!(fetch.finish(11), Err(ProtocolViolation { requested: 10, written: 11 }));
    let fetch = JsVar::from_raw(5).read_ints().sized(0);
    assert_eq!(fetch.finish(1), Err(ProtocolViolation { requested: 0, written: 1 }));
}

#[test]
fn read_of_an_empty_buffer_ends_with_no_elements() {
    let fetch = JsVar::from_raw(5).read_utf16().sized(0);
    assert_eq!(fetch.request(), HostCall::Read { var: 5, element: Element::Text, length: 0 });
    assert_eq!(fetch.additional(0), 0);
    assert_eq!(fetch.finish(0), Ok(0));
}

#[test]
fn read_reserves_what_is_missing() {
    let fetch = JsVar::from_raw(5).read_bytes().sized(10);
    assert_eq!(fetch.additional(0), 10);
    assert_eq!(fetch.additional(4), 6);
    assert_eq!(fetch.additional(10), 0);
    assert_eq!(fetch.additional(25), 0);
    let fetch = JsVar::from_raw(5).read_bytes().sized(u32::MAX);
    assert_eq!(fetch.additional(1), u32::MAX as usize - 1);
    assert_eq!(fetch.finish(u32::MAX), Ok(u32::MAX as usize));
}

#[test]
fn write_sends_the_number_of_elements() {
    let var = JsVar::from_raw(5);
    assert_eq!(
        var.write_bytes(&[1, 2, 3]),
        HostCall::Write { var: 5, element: Element::Bytes, length: 3 }
    );
    assert_eq!(
        var.write_ints(&[-1, 70000]),
        HostCall::Write { var: 5, element: Element::Ints, length: 2 }
    );
    assert_eq!(var.write_bytes(&[]), HostCall::Write { var: 5, element: Element::Bytes, length: 0 });
    assert_eq!(
        var.write(Element::Doubles, 4),
        HostCall::Write { var: 5, element: Element::Doubles, length: 4 }
    );
}

#[test]
fn into_promise_registers_interest_and_arms_the_host() {
    let mut registry = PromiseRegistry::new();
    let (promise, arm) = JsVar::from_raw(7).into_promise::<JsVar>(&mut registry);
    assert_eq!(arm, Some(HostCall::Waker { promise: 7 }));
    assert_eq!(registry.state(7), PromiseState::AwaitingWake);
    assert_eq!(promise.into_var().as_raw(), 7);
}

#[test]
fn into_promise_of_an_awaited_handle_does_not_arm_again() {
    let mut registry = PromiseRegistry::new();
    registry.begin_wait(7);
    let (_promise, arm) = JsVar::from_raw(7).into_promise::<JsVar>(&mut registry);
    assert_eq!(arm, None);
    assert_eq!(registry.state(7), PromiseState::AwaitingWake);
}

/// The integer behind a handle, as a test stands in for it: the handle itself.
#[derive(Debug, PartialEq)]
struct Number(i32);

impl From<JsVar> for Number {
    fn from(var: JsVar) -> Number {
        Number(var.as_raw())
    }
}

#[test]
fn promise_poll_converts_the_value() {
    let mut registry = PromiseRegistry::new();
    let (promise, _arm) = JsVar::from_raw(7).into_promise::<Number>(&mut registry);
    assert_eq!(promise.poll(&mut registry), Poll::Pending);
    assert_eq!(registry.state(7), PromiseState::AwaitingWake);
    registry.resolve(7, 42);
    assert_eq!(promise.poll(&mut registry), Poll::Ready(Number(42)));
    assert_eq!(registry.state(7), PromiseState::Empty);
    assert_eq!(promise.poll(&mut registry), Poll::Pending);
}

#[test]
fn release_frees_the_handle_and_purges_its_entry() {
    let mut registry = PromiseRegistry::new();
    let (promise, _arm) = JsVar::from_raw(7).into_promise::<JsVar>(&mut registry);
    registry.begin_wait(8);
    let released = promise.into_var().release(&mut registry);
    assert_eq!(released.free, HostCall::Free { var: 7 });
    assert!(released.unclaimed.is_none());
    assert_eq!(registry.state(7), PromiseState::Empty);
    assert_eq!(registry.state(8), PromiseState::AwaitingWake);
    assert_eq!(registry.len(), 1);
    assert!(!registry.resolve(7, 42));
    assert_eq!(registry.state(7), PromiseState::Empty);
    assert_eq!(registry.len(), 1);
}

#[test]
fn release_of_a_handle_without_entry_frees_it() {
    let mut registry = PromiseRegistry::new();
    let released = JsVar::from_raw(3).release(&mut registry);
    assert_eq!(released.free, HostCall::Free { var: 3 });
    assert!(released.unclaimed.is_none());
    assert_eq!(registry.len(), 0);
}

#[test]
fn release_hands_over_the_value_that_nobody_took() {
    let mut registry = PromiseRegistry::new();
    let (promise, _arm) = JsVar::from_raw(7).into_promise::<JsVar>(&mut registry);
    registry.resolve(7, 42);
    let released = promise.into_var().release(&mut registry);
    assert_eq!(released.free, HostCall::Free { var: 7 });
    assert_eq!(released.unclaimed.map(|var| var.as_raw()), Some(42));
    assert_eq!(registry.len(), 0);
}
