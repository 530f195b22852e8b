use ittapi::jit::{
    EventTag, EventType, Jit, JitError, JitState, MethodLoad, MethodLoadBuilder, NameField,
};
use ittapi::{BackendString, Call, Entry, Pending, Table};

fn text(label: &str) -> BackendString {
    BackendString::new(label).unwrap()
}

fn only_notify() -> Table {
    let mut table = Table::unwired();
    table.wire(Entry::NotifyEvent);
    table
}

fn shutdown_call() -> Call {
    Call::NotifyEvent { tag: EventTag::Shutdown, payload: None }
}

fn asks_for_shutdown() -> Pending<Result<(), JitError>> {
    Pending::Awaiting(shutdown_call())
}

fn done() -> Pending<Result<(), JitError>> {
    Pending::Ready(Ok(()))
}

#[test]
fn build_fills_in_the_record() {
    let jit = Jit::default();
    let event = MethodLoadBuilder::new("compute".to_string(), 0x7000, 128)
        .class_file_name("Compute.class".to_string())
        .source_file_name("compute.rs".to_string())
        .build(jit.get_method_id(17))
        .unwrap();
    assert_eq!(
        event,
        EventType::MethodLoadFinished(MethodLoad {
            method_id: jit.get_method_id(17),
            method_name: text("compute"),
            method_load_address: 0x7000,
            method_size: 128,
            line_number_size: 0,
            line_number_table: 0,
            class_id: 0,
            class_file_name: text("Compute.class"),
            source_file_name: text("compute.rs"),
        })
    );
}

#[test]
fn build_names_missing_files_as_unknown() {
    let jit = Jit::default();
    let event = MethodLoadBuilder::new("f".to_string(), 0, 0).build(jit.get_method_id(1)).unwrap();
    match event {
        EventType::MethodLoadFinished(load) => {
            assert_eq!(load.class_file_name, text("<unknown class file name>"));
            assert_eq!(load.source_file_name, text("<unknown source file name>"));
            assert_eq!(load.method_size, 0);
        }
        EventType::Shutdown => panic!("built a shutdown"),
    }
}

#[test]
fn build_takes_the_largest_size() {
    let jit = Jit::default();
    let len = u32::MAX as usize;
    let event =
        MethodLoadBuilder::new("f".to_string(), 0, len).build(jit.get_method_id(1)).unwrap();
    match event {
        EventType::MethodLoadFinished(load) => assert_eq!(load.method_size, u32::MAX),
        EventType::Shutdown => panic!("built a shutdown"),
    }
}

#[test]
fn build_reports_the_first_invalid_name() {
    let jit = Jit::default();
    let id = jit.get_method_id(1);
    assert_eq!(
        MethodLoadBuilder::new("me\0thod".to_string(), 0, 8)
            .class_file_name("cl\0ass".to_string())
            .source_file_name("\0source".to_string())
            .build(id),
        Err(JitError::InvalidName { field: NameField::Method, position: 2 })
    );
    assert_eq!(
        MethodLoadBuilder::new("method".to_string(), 0, 8)
            .class_file_name("class\0".to_string())
            .source_file_name("\0source".to_string())
            .build(id),
        Err(JitError::InvalidName { field: NameField::ClassFile, position: 5 })
    );
    assert_eq!(
        MethodLoadBuilder::new("method".to_string(), 0, 8)
            .class_file_name("class".to_string())
            .source_file_name("\0source".to_string())
            .build(id),
        Err(JitError::InvalidName { field: NameField::SourceFile, position: 0 })
    );
    assert_eq!(
        MethodLoadBuilder::new("method".to_string(), 0, 8)
            .source_file_name("so\0urce".to_string())
            .build(id),
        Err(JitError::InvalidName { field: NameField::SourceFile, position: 2 })
    );
}

#[test]
fn an_invalid_method_name_comes_before_the_size() {
    let jit = Jit::default();
    // The name is refused before the length is looked at.
    assert_eq!(
        MethodLoadBuilder::new("\0".to_string(), 0, usize::MAX).build(jit.get_method_id(1)),
        Err(JitError::InvalidName { field: NameField::Method, position: 0 })
    );
}

#[test]
fn later_names_replace_earlier_ones() {
    let jit = Jit::default();
    let event = MethodLoadBuilder::new("f".to_string(), 0, 0)
        .class_file_name("A".to_string())
        .class_file_name("B".to_string())
        .source_file_name("a.rs".to_string())
        .source_file_name("b.rs".to_string())
        .build(jit.get_method_id(1))
        .unwrap();
    match event {
        EventType::MethodLoadFinished(load) => {
            assert_eq!(load.class_file_name, text("B"));
            assert_eq!(load.source_file_name, text("b.rs"));
        }
        EventType::Shutdown => panic!("built a shutdown"),
    }
}

#[test]
fn tags_and_records_of_notifications() {
    let jit = Jit::default();
    let event = MethodLoadBuilder::new("f".to_string(), 0, 0).build(jit.get_method_id(1)).unwrap();
    assert_eq!(event.tag(), EventTag::MethodInlineLoadFinished);
    assert!(event.data().is_some());
    assert_eq!(EventType::Shutdown.tag(), EventTag::Shutdown);
    assert_eq!(EventType::Shutdown.data(), None);
}

#[test]
fn method_ids_are_distinct() {
    let jit = Jit::default();
    // A backend that issues the next number each time.
    let mut next = 1u32;
    let mut issue = || {
        let issued = next;
        next += 1;
        issued
    };
    let first = jit.get_method_id(issue());
    let second = jit.get_method_id(issue());
    assert_ne!(first, second);
    assert_eq!(first.value(), 1);
    assert_eq!(second.value(), 2);
    assert_eq!(jit.get_method_id(7), jit.get_method_id(7));
}

#[test]
fn notify_event_sends_tag_and_record() {
    let jit = Jit::default();
    assert_eq!(jit.notify_event(EventType::Shutdown, &Table::wired()), asks_for_shutdown());
    let event = MethodLoadBuilder::new("f".to_string(), 0x10, 4).build(jit.get_method_id(3)).unwrap();
    match jit.notify_event(event, &only_notify()) {
        Pending::Awaiting(Call::NotifyEvent { tag, payload }) => {
            assert_eq!(tag, EventTag::MethodInlineLoadFinished);
            let load = payload.unwrap();
            assert_eq!(load.method_id.value(), 3);
            assert_eq!(load.method_name, text("f"));
            assert_eq!(load.method_load_address, 0x10);
            assert_eq!(load.method_size, 4);
        }
        other => panic!("unexpected {:?}", other),
    }
}

#[test]
fn notify_event_without_a_backend_succeeds_vacuously() {
    let jit = Jit::default();
    assert_eq!(jit.notify_event(EventType::Shutdown, &Table::unwired()), done());
}

#[test]
fn only_the_success_status_is_a_success() {
    assert_eq!(Jit::notified(1), Ok(()));
    assert_eq!(Jit::notified(0), Err(JitError::NotifyFailed));
    assert_eq!(Jit::notified(2), Err(JitError::NotifyFailed));
    assert_eq!(Jit::notified(-1), Err(JitError::NotifyFailed));
    assert_eq!(Jit::method_loaded(1), Ok(()));
    assert_eq!(Jit::method_loaded(0), Err(JitError::RegistrationFailed));
    assert_eq!(Jit::method_loaded(i32::MIN), Err(JitError::RegistrationFailed));
}

#[test]
fn errors_in_words() {
    assert_eq!(JitError::NotifyFailed.message(), "error when notifying event");
    assert_eq!(JitError::RegistrationFailed.message(), "error when registering a method");
    assert_eq!(
        JitError::InvalidName { field: NameField::Method, position: 0 }.message(),
        "CString::new failed"
    );
}

#[test]
fn load_method_reports_the_method() {
    let jit = Jit::default();
    let builder = MethodLoadBuilder::new("compute".to_string(), 0x7000, 128)
        .source_file_name("compute.rs".to_string());
    match jit.load_method(builder, 42, &Table::wired()) {
        Pending::Awaiting(Call::NotifyEvent { tag, payload }) => {
            assert_eq!(tag, EventTag::MethodInlineLoadFinished);
            assert_eq!(
                payload,
                Some(MethodLoad {
                    method_id: jit.get_method_id(42),
                    method_name: text("compute"),
                    method_load_address: 0x7000,
                    method_size: 128,
                    line_number_size: 0,
                    line_number_table: 0,
                    class_id: 0,
                    class_file_name: text("<unknown class file name>"),
                    source_file_name: text("compute.rs"),
                })
            );
        }
        other => panic!("unexpected {:?}", other),
    }
}

#[test]
fn load_method_without_a_backend_sends_nothing() {
    let jit = Jit::default();
    let builder = MethodLoadBuilder::new("compute".to_string(), 0x7000, 128);
    assert_eq!(jit.load_method(builder, 42, &Table::unwired()), done());
}

#[test]
fn load_method_propagates_an_invalid_name() {
    let jit = Jit::default();
    let builder = MethodLoadBuilder::new("compute".to_string(), 0x7000, 128)
        .class_file_name("a\0b".to_string());
    assert_eq!(
        jit.load_method(builder, 42, &Table::wired()),
        Pending::Ready(Err(JitError::InvalidName { field: NameField::ClassFile, position: 1 }))
    );
    // The name is refused whether or not there is a backend to tell.
    let builder = MethodLoadBuilder::new("comp\0ute".to_string(), 0x7000, 128);
    assert_eq!(
        jit.load_method(builder, 42, &Table::unwired()),
        Pending::Ready(Err(JitError::InvalidName { field: NameField::Method, position: 4 }))
    );
}

#[test]
fn shutdown_is_idempotent() {
    let table = Table::wired();
    let mut jit = Jit::default();
    assert_eq!(jit.state(), JitState::Active);
    assert_eq!(jit.shutdown(&table), asks_for_shutdown());
    assert_eq!(jit.shutdown_notified(1), Ok(()));
    assert_eq!(jit.state(), JitState::ShutdownComplete);
    // A second shutdown, and the one made when the reporter is given up, send
    // nothing more.
    assert_eq!(jit.shutdown(&table), done());
    assert_eq!(jit.shutdown(&table), done());
    assert_eq!(jit.state(), JitState::ShutdownComplete);
}

#[test]
fn a_failed_shutdown_can_be_tried_again() {
    let table = only_notify();
    let mut jit = Jit::default();
    assert_eq!(jit.shutdown(&table), asks_for_shutdown());
    assert_eq!(jit.shutdown_notified(0), Err(JitError::NotifyFailed));
    assert_eq!(jit.state(), JitState::Active);
    assert_eq!(jit.shutdown(&table), asks_for_shutdown());
    assert_eq!(jit.shutdown_notified(1), Ok(()));
    assert_eq!(jit.state(), JitState::ShutdownComplete);
    assert_eq!(jit.shutdown(&table), done());
}

#[test]
fn shutdown_without_a_backend_is_complete_at_once() {
    let mut jit = Jit::default();
    assert_eq!(jit.shutdown(&Table::unwired()), done());
    assert_eq!(jit.state(), JitState::ShutdownComplete);
    // A collector that attaches afterwards is not told any more.
    assert_eq!(jit.shutdown(&Table::wired()), done());
}

#[test]
fn a_shutdown_that_awaits_its_answer_leaves_the_reporter_active() {
    let mut jit = Jit::default();
    assert_eq!(jit.shutdown(&Table::wired()), asks_for_shutdown());
    assert_eq!(jit.state(), JitState::Active);
}
