use winit_toyos::event::{KeyPress, WindowEvent, WindowInput};
use winit_toyos::run_loop::{
    ControlFlow, CreatedWindow, Effect, Input, LoopCore, Request, StartCause, Step,
};

type Core = LoopCore<u64>;

fn window(id: u64) -> CreatedWindow {
    CreatedWindow { id, width: 800, height: 600 }
}

fn status(exiting: bool, redraw_pending: bool, control_flow: ControlFlow<u64>) -> Input<u64> {
    Input::Status { exiting, redraw_pending, control_flow }
}

/// Runs the first iteration up to the status request, with one window created.
fn to_status(core: &mut Core) {
    let s = core.step(Input::Created(Some(window(5))));
    assert_eq!(s.request, Request::PopCreated);
    let s = core.step(Input::Created(None));
    assert_eq!(s.request, Request::PopDestroyed);
    let s = core.step(Input::Destroyed(None));
    assert_eq!(s.request, Request::PollWindow);
    let s = core.step(Input::Polled(None));
    assert_eq!(s.request, Request::TryWakeUp);
    let s = core.step(Input::WokenUp(false));
    assert_eq!(s.request, Request::PopRedraw);
    let s = core.step(Input::Redraw(None));
    assert_eq!(s.effects, vec![Effect::AboutToWait]);
    assert_eq!(s.request, Request::Status);
}

#[test]
fn first_iteration_creates_surfaces() {
    let (_core, step): (Core, Step<u64>) = LoopCore::start();
    assert_eq!(step.effects, vec![Effect::NewEvents(StartCause::Init), Effect::CanCreateSurfaces]);
    assert_eq!(step.request, Request::PopCreated);
}

#[test]
fn created_window_gets_its_size() {
    let (mut core, _) = Core::start();
    let s = core.step(Input::Created(Some(window(5))));
    assert_eq!(
        s.effects,
        vec![Effect::Window { id: 5, event: WindowEvent::SurfaceResized { width: 800, height: 600 } }]
    );
    assert_eq!(s.request, Request::PopCreated);
}

#[test]
fn full_iteration_delivers_in_order() {
    let (mut core, _) = Core::start();
    core.step(Input::Created(Some(window(5))));
    core.step(Input::Created(None));
    let s = core.step(Input::Destroyed(None));
    assert_eq!(s.request, Request::PollWindow);
    let s = core.step(Input::Polled(Some(WindowInput::Frame)));
    assert_eq!(s.effects, vec![Effect::RequestRedraw(5)]);
    assert_eq!(s.request, Request::PollWindow);
    let s = core.step(Input::Polled(Some(WindowInput::Resized { width: 3, height: 4 })));
    assert_eq!(
        s.effects,
        vec![
            Effect::Window { id: 5, event: WindowEvent::SurfaceResized { width: 3, height: 4 } },
            Effect::RequestRedraw(5),
        ]
    );
    let s = core.step(Input::Polled(Some(WindowInput::Close)));
    assert_eq!(s.effects, vec![Effect::Window { id: 5, event: WindowEvent::CloseRequested }]);
    let s = core.step(Input::Polled(Some(WindowInput::ClipboardPaste)));
    assert!(s.effects.is_empty());
    let s = core.step(Input::Polled(Some(WindowInput::LayoutChanged)));
    assert!(s.effects.is_empty());
    let s = core.step(Input::Polled(None));
    assert_eq!(s.request, Request::TryWakeUp);
    let s = core.step(Input::WokenUp(true));
    assert_eq!(s.effects, vec![Effect::ProxyWakeUp]);
    assert_eq!(s.request, Request::TryWakeUp);
    let s = core.step(Input::WokenUp(false));
    assert_eq!(s.request, Request::PopRedraw);
    let s = core.step(Input::Redraw(Some(5)));
    assert_eq!(s.effects, vec![Effect::Window { id: 5, event: WindowEvent::RedrawRequested }]);
    let s = core.step(Input::Redraw(None));
    assert_eq!(s.effects, vec![Effect::AboutToWait]);
    assert_eq!(s.request, Request::Status);
}

#[test]
fn exit_ends_the_loop_for_good() {
    let (mut core, _) = Core::start();
    to_status(&mut core);
    let s = core.step(status(true, true, ControlFlow::Poll));
    assert!(s.effects.is_empty());
    assert_eq!(s.request, Request::Exit);
    let s = core.step(Input::Created(Some(window(9))));
    assert!(s.effects.is_empty());
    assert_eq!(s.request, Request::Exit);
}

#[test]
fn pending_redraw_polls_instead_of_waiting() {
    let (mut core, _) = Core::start();
    to_status(&mut core);
    let s = core.step(status(false, true, ControlFlow::Wait));
    assert_eq!(s.effects, vec![Effect::NewEvents(StartCause::Poll)]);
    assert_eq!(s.request, Request::PopCreated);
}

#[test]
fn poll_control_flow_starts_over() {
    let (mut core, _) = Core::start();
    to_status(&mut core);
    let s = core.step(status(false, false, ControlFlow::Poll));
    assert_eq!(s.effects, vec![Effect::NewEvents(StartCause::Poll)]);
    assert_eq!(s.request, Request::PopCreated);
}

#[test]
fn wait_blocks_on_the_window() {
    let (mut core, _) = Core::start();
    to_status(&mut core);
    let s = core.step(status(false, false, ControlFlow::Wait));
    assert!(s.effects.is_empty());
    assert_eq!(s.request, Request::WaitForEvent);
    let s = core.step(Input::Polled(Some(WindowInput::Close)));
    assert_eq!(s.effects, vec![Effect::Window { id: 5, event: WindowEvent::CloseRequested }]);
    assert_eq!(s.request, Request::Now);
    let s = core.step(Input::Time(42));
    assert_eq!(
        s.effects,
        vec![Effect::NewEvents(StartCause::WaitCancelled { start: 42, requested_resume: None })]
    );
    assert_eq!(s.request, Request::PopCreated);
}

#[test]
fn wait_without_window_reads_the_clock() {
    let (mut core, _) = Core::start();
    core.step(Input::Created(None));
    let s = core.step(Input::Destroyed(None));
    assert_eq!(s.request, Request::TryWakeUp);
    core.step(Input::WokenUp(false));
    core.step(Input::Redraw(None));
    let s = core.step(status(false, false, ControlFlow::Wait));
    assert_eq!(s.request, Request::Now);
    let s = core.step(Input::Time(7));
    assert_eq!(
        s.effects,
        vec![Effect::NewEvents(StartCause::WaitCancelled { start: 7, requested_resume: None })]
    );
}

#[test]
fn wait_until_times_out() {
    let (mut core, _) = Core::start();
    to_status(&mut core);
    let s = core.step(status(false, false, ControlFlow::WaitUntil(100)));
    assert_eq!(s.request, Request::CheckDeadline(100));
    let s = core.step(Input::Deadline { now: 60, remaining_ns: Some(40) });
    assert!(s.effects.is_empty());
    assert_eq!(s.request, Request::PollWindowFor { timeout_ns: 40 });
    let s = core.step(Input::Polled(None));
    assert_eq!(
        s.effects,
        vec![Effect::NewEvents(StartCause::ResumeTimeReached { start: 60, requested_resume: 100 })]
    );
    assert_eq!(s.request, Request::PopCreated);
}

#[test]
fn wait_until_interrupted_by_event() {
    let (mut core, _) = Core::start();
    to_status(&mut core);
    core.step(status(false, false, ControlFlow::WaitUntil(100)));
    core.step(Input::Deadline { now: 60, remaining_ns: Some(40) });
    let s = core.step(Input::Polled(Some(WindowInput::Frame)));
    assert_eq!(
        s.effects,
        vec![
            Effect::RequestRedraw(5),
            Effect::NewEvents(StartCause::WaitCancelled { start: 60, requested_resume: Some(100) }),
        ]
    );
}

#[test]
fn deadline_already_passed() {
    let (mut core, _) = Core::start();
    to_status(&mut core);
    core.step(status(false, false, ControlFlow::WaitUntil(100)));
    let s = core.step(Input::Deadline { now: 120, remaining_ns: None });
    assert_eq!(
        s.effects,
        vec![Effect::NewEvents(StartCause::ResumeTimeReached { start: 120, requested_resume: 100 })]
    );
}

#[test]
fn long_timeouts_truncate_to_64_bits() {
    let (mut core, _) = Core::start();
    to_status(&mut core);
    core.step(status(false, false, ControlFlow::WaitUntil(100)));
    let s = core.step(Input::Deadline { now: 1, remaining_ns: Some((1u128 << 64) + 5) });
    assert_eq!(s.request, Request::PollWindowFor { timeout_ns: 5 });
}

#[test]
fn destroying_current_window_releases_it() {
    let (mut core, _) = Core::start();
    core.step(Input::Created(Some(window(5))));
    core.step(Input::Created(None));
    let s = core.step(Input::Destroyed(Some(4)));
    assert_eq!(s.effects, vec![Effect::Window { id: 4, event: WindowEvent::Destroyed }]);
    let s = core.step(Input::Destroyed(Some(5)));
    assert_eq!(
        s.effects,
        vec![Effect::Window { id: 5, event: WindowEvent::Destroyed }, Effect::ReleaseWindow]
    );
    let s = core.step(Input::Destroyed(None));
    assert_eq!(s.request, Request::TryWakeUp);
}

#[test]
fn latest_created_window_is_current() {
    let (mut core, _) = Core::start();
    core.step(Input::Created(Some(window(1))));
    core.step(Input::Created(Some(window(2))));
    core.step(Input::Created(None));
    core.step(Input::Destroyed(None));
    let s = core.step(Input::Polled(Some(WindowInput::Close)));
    assert_eq!(s.effects, vec![Effect::Window { id: 2, event: WindowEvent::CloseRequested }]);
}

#[test]
fn key_input_reaches_current_window() {
    let (mut core, _) = Core::start();
    core.step(Input::Created(Some(window(5))));
    core.step(Input::Created(None));
    core.step(Input::Destroyed(None));
    let s = core.step(Input::Polled(Some(WindowInput::KeyInput(KeyPress {
        keycode: 0xE0,
        pressed: true,
        text: String::new(),
    }))));
    assert_eq!(s.effects.len(), 2);
    match &s.effects[1] {
        Effect::Window { id: 5, event: WindowEvent::ModifiersChanged(m) } => {
            assert_eq!(m.state.bits, 0x020);
            assert_eq!(m.pressed_mods.bits, 0x04);
        },
        other => panic!("unexpected effect {other:?}"),
    }
}

#[test]
fn answers_out_of_turn_are_ignored() {
    let (mut core, _) = Core::start();
    let s = core.step(Input::Redraw(Some(3)));
    assert!(s.effects.is_empty());
    assert_eq!(s.request, Request::PopCreated);
    let s = core.step(Input::Time(9));
    assert!(s.effects.is_empty());
    assert_eq!(s.request, Request::PopCreated);
}
