use arbitrator::jit::{on_up_message, HostAction, ReleaseStep, StylusThreadHandler, ThreadStep, UpMsg};

#[test]
fn outermost_call_owns_the_thread() {
    let mut handler = StylusThreadHandler::new();
    assert_eq!(handler.increase_call(), ThreadStep::Spawn);
    assert!(handler.has_thread);
    assert_eq!(handler.increase_call(), ThreadStep::Reuse);
    assert_eq!(handler.calls, 2);
    assert_eq!(handler.decrease_call(), ReleaseStep::Keep);
    assert!(handler.has_thread);
    assert_eq!(handler.decrease_call(), ReleaseStep::Join);
    assert_eq!(handler, StylusThreadHandler::new());
}

#[test]
fn host_steps_while_a_program_runs() {
    let mut handler = StylusThreadHandler::new();
    handler.increase_call();
    handler.increase_call();
    let call = UpMsg::<u8>::Call { func: 3, args: vec![vec![1, 2]] };
    match on_up_message(&mut handler, call) {
        HostAction::CallGo { func, args } => assert_eq!((func, args), (3, vec![vec![1, 2]])),
        other => panic!("unexpected {:?}", other),
    }
    assert_eq!(handler.calls, 2);
    match on_up_message(&mut handler, UpMsg::<u8>::Panic("boom".to_string())) {
        HostAction::Fail(message) => assert_eq!(message, "boom"),
        other => panic!("unexpected {:?}", other),
    }
    match on_up_message(&mut handler, UpMsg::WasmDone { outcome: 9u8, ink_left: 40 }) {
        HostAction::Return { outcome, ink_left, release } => {
            assert_eq!((outcome, ink_left, release), (9, 40, ReleaseStep::Keep))
        }
        other => panic!("unexpected {:?}", other),
    }
    match on_up_message(&mut handler, UpMsg::WasmDone { outcome: 1u8, ink_left: 0 }) {
        HostAction::Return { release, .. } => assert_eq!(release, ReleaseStep::Join),
        other => panic!("unexpected {:?}", other),
    }
    assert_eq!(handler, StylusThreadHandler::new());
}
