use vstd::prelude::*;

use crate::event::{ElementState, MouseEvent, WindowEvent, WindowInput};
use crate::event_loop::{
    key_events_ok, mouse_after, mouse_event_of, process_key_event, process_mouse_event,
};
use crate::modifiers::EventState;

verus! {

/// Why an iteration of the event loop begins. `I` is the clock's instant type.
#[derive(Debug, PartialEq, Eq)]
pub enum StartCause<I> {
    /// The requested resume time was reached: the moment the wait began, and the resume time.
    ResumeTimeReached { start: I, requested_resume: I },
    /// An event ended the wait: the moment it ended, and the resume time if one was asked for.
    WaitCancelled { start: I, requested_resume: Option<I> },
    /// The application asked to keep polling, or a redraw is pending.
    Poll,
    /// The first iteration.
    Init,
}

/// How the application wants the loop to continue once it has nothing left to deliver.
#[derive(Debug, PartialEq, Eq)]
pub enum ControlFlow<I> {
    Poll,
    Wait,
    WaitUntil(I),
}

/// A window that was created, with its surface size.
#[derive(Clone, Copy, Debug, PartialEq, Eq, Structural)]
pub struct CreatedWindow {
    pub id: u64,
    pub width: u32,
    pub height: u32,
}

/// What the loop hands to the application, or asks of the platform, in order.
#[derive(Debug, PartialEq, Eq)]
pub enum Effect<I> {
    /// Call `new_events` with this cause.
    NewEvents(StartCause<I>),
    /// Call `can_create_surfaces`.
    CanCreateSurfaces,
    /// Deliver this event for window `id`.
    Window { id: u64, event: WindowEvent },
    /// Queue a redraw of window `id`, once.
    RequestRedraw(u64),
    /// Let go of the current window: it was destroyed.
    ReleaseWindow,
    /// Call `proxy_wake_up`.
    ProxyWakeUp,
    /// Call `about_to_wait`.
    AboutToWait,
}

/// What the loop needs to know next; the answer comes back as the next `Input`.
#[derive(Debug, PartialEq, Eq)]
pub enum Request<I> {
    /// Take the oldest created window, if any: answer `Created`.
    PopCreated,
    /// Take the oldest destroyed window, if any: answer `Destroyed`.
    PopDestroyed,
    /// Read the current window's next event without waiting: answer `Polled`.
    PollWindow,
    /// Take one wake-up from the proxy channel, if any: answer `WokenUp`.
    TryWakeUp,
    /// Take the oldest pending redraw, if any: answer `Redraw`.
    PopRedraw,
    /// Report whether the application exits, whether a redraw is pending, and its control
    /// flow: answer `Status`.
    Status,
    /// Wait for the current window's next event: answer `Polled`.
    WaitForEvent,
    /// Read the clock: answer `Time`.
    Now,
    /// Read the clock and the time left until this resume time: answer `Deadline`.
    CheckDeadline(I),
    /// Wait at most this many nanoseconds for the current window's next event: answer
    /// `Polled`.
    PollWindowFor { timeout_ns: u64 },
    /// The loop is over.
    Exit,
}

/// The answer to a request.
#[derive(Debug, PartialEq, Eq)]
pub enum Input<I> {
    Created(Option<CreatedWindow>),
    Destroyed(Option<u64>),
    Polled(Option<WindowInput>),
    WokenUp(bool),
    Redraw(Option<u64>),
    Status { exiting: bool, redraw_pending: bool, control_flow: ControlFlow<I> },
    Time(I),
    /// The clock, and the nanoseconds left until the resume time, or `None` once it passed.
    Deadline { now: I, remaining_ns: Option<u128> },
}

/// Where the loop stands within an iteration.
#[derive(Debug, PartialEq, Eq)]
pub enum Phase<I> {
    Creates,
    Destroys,
    PollWindow,
    Wakeups,
    Redraws,
    Status,
    Blocking,
    WaitClock,
    DeadlineClock(I),
    DeadlinePoll { start: I, deadline: I, timeout_ns: u64 },
    Exited,
}

/// The effects of one step and the request that follows them.
pub struct Step<I> {
    pub effects: Vec<Effect<I>>,
    pub request: Request<I>,
}

/// The event loop's decisions, as a state machine: the platform performs each step's effects
/// in order, answers its request, and hands the answer back.
pub struct LoopCore<I> {
    phase: Phase<I>,
    event_state: EventState,
    current_window: Option<u64>,
}

/// The state of the loop, as a value.
pub struct LoopModel<I> {
    pub phase: Phase<I>,
    pub event_state: EventState,
    pub current_window: Option<u64>,
}

impl<I> View for LoopCore<I> {
    type V = LoopModel<I>;

    closed spec fn view(&self) -> LoopModel<I> {
        LoopModel {
            phase: self.phase,
            event_state: self.event_state,
            current_window: self.current_window,
        }
    }
}

/// The request each phase makes.
pub open spec fn request_of<I>(phase: Phase<I>) -> Request<I> {
    match phase {
        Phase::Creates => Request::PopCreated,
        Phase::Destroys => Request::PopDestroyed,
        Phase::PollWindow => Request::PollWindow,
        Phase::Wakeups => Request::TryWakeUp,
        Phase::Redraws => Request::PopRedraw,
        Phase::Status => Request::Status,
        Phase::Blocking => Request::WaitForEvent,
        Phase::WaitClock => Request::Now,
        Phase::DeadlineClock(deadline) => Request::CheckDeadline(deadline),
        Phase::DeadlinePoll { timeout_ns, .. } => Request::PollWindowFor { timeout_ns },
        Phase::Exited => Request::Exit,
    }
}

/// The phases that read the current window hold only while there is one.
pub open spec fn well_formed<I>(m: LoopModel<I>) -> bool {
    (m.phase is PollWindow || m.phase is Blocking || m.phase is DeadlinePoll)
        ==> m.current_window is Some
}

/// The effects that begin an iteration: `new_events`, and on the first iteration
/// `can_create_surfaces` right after it.
pub open spec fn begin_effects<I>(cause: StartCause<I>) -> Seq<Effect<I>> {
    if cause is Init {
        seq![Effect::NewEvents(cause), Effect::CanCreateSurfaces]
    } else {
        seq![Effect::NewEvents(cause)]
    }
}

/// The events carried by window effects.
pub open spec fn events_of<I>(effects: Seq<Effect<I>>) -> Seq<WindowEvent> {
    Seq::new(effects.len(), |i: int| effects[i]->event)
}

/// Every effect delivers an event to window `id`.
pub open spec fn all_for_window<I>(effects: Seq<Effect<I>>, id: u64) -> bool {
    forall|i: int| 0 <= i < effects.len() ==> (#[trigger] effects[i] is Window && effects[i]->id == id)
}

/// The effects of an event read from window `id`, and the tracked state after it.
pub open spec fn dispatched<I>(
    id: u64,
    input: WindowInput,
    before: EventState,
    after: EventState,
    effects: Seq<Effect<I>>,
) -> bool {
    match input {
        WindowInput::KeyInput(press) => {
            &&& all_for_window(effects, id)
            &&& key_events_ok(press, before, after, events_of(effects))
        },
        WindowInput::MouseInput(mouse) => {
            &&& after.keyboard == before.keyboard
            &&& after.mouse.bits == mouse_after(before.mouse.bits, mouse)
            &&& effects == match mouse_event_of(mouse) {
                Some(event) => seq![Effect::Window { id, event }],
                None => Seq::<Effect<I>>::empty(),
            }
        },
        WindowInput::Resized { width, height } => {
            &&& after == before
            &&& effects == seq![
                Effect::<I>::Window { id, event: WindowEvent::SurfaceResized { width, height } },
                Effect::RequestRedraw(id),
            ]
        },
        WindowInput::Close => {
            &&& after == before
            &&& effects == seq![Effect::<I>::Window { id, event: WindowEvent::CloseRequested }]
        },
        WindowInput::Frame => {
            &&& after == before
            &&& effects == seq![Effect::<I>::RequestRedraw(id)]
        },
        WindowInput::ClipboardPaste | WindowInput::LayoutChanged => {
            &&& after == before
            &&& effects == Seq::<Effect<I>>::empty()
        },
    }
}

/// The effects of an event read from the current window, if there is one; with no window the
/// event is dropped.
pub open spec fn dispatched_to<I>(
    current: Option<u64>,
    input: WindowInput,
    before: EventState,
    after: EventState,
    effects: Seq<Effect<I>>,
) -> bool {
    match current {
        Some(id) => dispatched(id, input, before, after, effects),
        None => after == before && effects.len() == 0,
    }
}

/// The loop begins a new iteration for `cause`, with nothing else changed.
pub open spec fn begins<I>(
    m: LoopModel<I>,
    cause: StartCause<I>,
    m2: LoopModel<I>,
    effects: Seq<Effect<I>>,
) -> bool {
    &&& m2.phase == Phase::<I>::Creates
    &&& m2.event_state == m.event_state
    &&& m2.current_window == m.current_window
    &&& effects == begin_effects(cause)
}

/// The loop moves to `phase` with no effect and nothing else changed.
pub open spec fn moves<I>(
    m: LoopModel<I>,
    phase: Phase<I>,
    m2: LoopModel<I>,
    effects: Seq<Effect<I>>,
) -> bool {
    &&& m2.phase == phase
    &&& m2.event_state == m.event_state
    &&& m2.current_window == m.current_window
    &&& effects.len() == 0
}

/// One step of the loop: from state `m`, given the answer `input` to its request, the loop
/// reaches `m2` with `effects`. An answer that does not fit the request changes nothing.
pub open spec fn transition<I>(
    m: LoopModel<I>,
    input: Input<I>,
    m2: LoopModel<I>,
    effects: Seq<Effect<I>>,
) -> bool {
    match (m.phase, input) {
        (Phase::Creates, Input::Created(Some(w))) => {
            &&& m2.phase == Phase::<I>::Creates
            &&& m2.event_state == m.event_state
            &&& m2.current_window == Some(w.id)
            &&& effects == seq![
                Effect::<I>::Window {
                    id: w.id,
                    event: WindowEvent::SurfaceResized { width: w.width, height: w.height },
                },
            ]
        },
        (Phase::Creates, Input::Created(None)) => moves(m, Phase::Destroys, m2, effects),
        (Phase::Destroys, Input::Destroyed(Some(id))) => {
            &&& m2.phase == Phase::<I>::Destroys
            &&& m2.event_state == m.event_state
            &&& if m.current_window == Some(id) {
                &&& m2.current_window == None::<u64>
                &&& effects == seq![
                    Effect::<I>::Window { id, event: WindowEvent::Destroyed },
                    Effect::ReleaseWindow,
                ]
            } else {
                &&& m2.current_window == m.current_window
                &&& effects == seq![Effect::<I>::Window { id, event: WindowEvent::Destroyed }]
            }
        },
        (Phase::Destroys, Input::Destroyed(None)) => moves(
            m,
            if m.current_window is Some {
                Phase::PollWindow
            } else {
                Phase::Wakeups
            },
            m2,
            effects,
        ),
        (Phase::PollWindow, Input::Polled(Some(event))) => {
            &&& m2.phase == Phase::<I>::PollWindow
            &&& m2.current_window == m.current_window
            &&& dispatched_to(m.current_window, event, m.event_state, m2.event_state, effects)
        },
        (Phase::PollWindow, Input::Polled(None)) => moves(m, Phase::Wakeups, m2, effects),
        (Phase::Wakeups, Input::WokenUp(true)) => {
            &&& m2 == m
            &&& effects == seq![Effect::<I>::ProxyWakeUp]
        },
        (Phase::Wakeups, Input::WokenUp(false)) => moves(m, Phase::Redraws, m2, effects),
        (Phase::Redraws, Input::Redraw(Some(id))) => {
            &&& m2 == m
            &&& effects == seq![Effect::<I>::Window { id, event: WindowEvent::RedrawRequested }]
        },
        (Phase::Redraws, Input::Redraw(None)) => {
            &&& m2.phase == Phase::<I>::Status
            &&& m2.event_state == m.event_state
            &&& m2.current_window == m.current_window
            &&& effects == seq![Effect::<I>::AboutToWait]
        },
        (Phase::Status, Input::Status { exiting, redraw_pending, control_flow }) => {
            if exiting {
                moves(m, Phase::Exited, m2, effects)
            } else if redraw_pending {
                begins(m, StartCause::Poll, m2, effects)
            } else {
                match control_flow {
                    ControlFlow::Poll => begins(m, StartCause::Poll, m2, effects),
                    ControlFlow::Wait => moves(
                        m,
                        if m.current_window is Some {
                            Phase::Blocking
                        } else {
                            Phase::WaitClock
                        },
                        m2,
                        effects,
                    ),
                    ControlFlow::WaitUntil(deadline) => moves(
                        m,
                        Phase::DeadlineClock(deadline),
                        m2,
                        effects,
                    ),
                }
            }
        },
        (Phase::Blocking, Input::Polled(Some(event))) => {
            &&& m2.phase == Phase::<I>::WaitClock
            &&& m2.current_window == m.current_window
            &&& dispatched_to(m.current_window, event, m.event_state, m2.event_state, effects)
        },
        (Phase::Blocking, Input::Polled(None)) => moves(m, Phase::WaitClock, m2, effects),
        (Phase::WaitClock, Input::Time(now)) => begins(
            m,
            StartCause::WaitCancelled { start: now, requested_resume: None },
            m2,
            effects,
        ),
        (Phase::DeadlineClock(deadline), Input::Deadline { now, remaining_ns }) => {
            match remaining_ns {
                Some(ns) => if m.current_window is Some {
                    moves(
                        m,
                        Phase::DeadlinePoll { start: now, deadline, timeout_ns: ns as u64 },
                        m2,
                        effects,
                    )
                } else {
                    begins(
                        m,
                        StartCause::ResumeTimeReached { start: now, requested_resume: deadline },
                        m2,
                        effects,
                    )
                },
                None => begins(
                    m,
                    StartCause::ResumeTimeReached { start: now, requested_resume: deadline },
                    m2,
                    effects,
                ),
            }
        },
        (Phase::DeadlinePoll { start, deadline, .. }, Input::Polled(Some(event))) => {
            &&& effects.len() >= 1
            &&& m2.phase == Phase::<I>::Creates
            &&& m2.current_window == m.current_window
            &&& dispatched_to(
                m.current_window,
                event,
                m.event_state,
                m2.event_state,
                effects.drop_last(),
            )
            &&& effects.last() == Effect::NewEvents(
                StartCause::WaitCancelled { start, requested_resume: Some(deadline) },
            )
        },
        (Phase::DeadlinePoll { start, deadline, .. }, Input::Polled(None)) => begins(
            m,
            StartCause::ResumeTimeReached { start, requested_resume: deadline },
            m2,
            effects,
        ),
        _ => {
            &&& m2 == m
            &&& effects.len() == 0
        },
    }
}

/// Delivers an event read from window `id`, tracking keys and buttons.
fn dispatch<I>(id: u64, input: WindowInput, event_state: &mut EventState) -> (effects: Vec<
    Effect<I>,
>)
    ensures
        dispatched(id, input, *old(event_state), *final(event_state), effects@),
{
    let mut effects: Vec<Effect<I>> = Vec::new();
    match input {
        WindowInput::KeyInput(press) => {
            let mut events = process_key_event(&press, event_state);
            let ghost all = events@;
            while events.len() > 0
                invariant
                    effects@.len() + events@.len() == all.len(),
                    events@ == all.subrange(effects@.len() as int, all.len() as int),
                    all_for_window(effects@, id),
                    events_of(effects@) == all.subrange(0, effects@.len() as int),
                decreases events@.len(),
            {
                let ghost done: int = effects@.len() as int;
                let event = events.remove(0);
                effects.push(Effect::Window { id, event });
                proof {
                    assert(events_of(effects@) =~= all.subrange(0, done + 1));
                    assert(events@ =~= all.subrange(done + 1, all.len() as int));
                }
            }
            proof {
                assert(events_of(effects@) =~= all);
            }
        },
        WindowInput::MouseInput(mouse) => {
            if let Some(event) = process_mouse_event(mouse, event_state) {
                effects.push(Effect::Window { id, event });
            }
        },
        WindowInput::Resized { width, height } => {
            effects.push(Effect::Window { id, event: WindowEvent::SurfaceResized { width, height } });
            effects.push(Effect::RequestRedraw(id));
            assert(effects@ =~= seq![
                Effect::<I>::Window { id, event: WindowEvent::SurfaceResized { width, height } },
                Effect::RequestRedraw(id),
            ]);
        },
        WindowInput::Close => {
            effects.push(Effect::Window { id, event: WindowEvent::CloseRequested });
        },
        WindowInput::Frame => {
            // The compositor is ready for a new frame: ask for a redraw.
            effects.push(Effect::RequestRedraw(id));
        },
        WindowInput::ClipboardPaste => {},
        WindowInput::LayoutChanged => {},
    }
    effects
}

impl<I: Copy> LoopCore<I> {
    /// The loop before its first iteration, and that iteration's first step: `new_events`
    /// for `Init`, then `can_create_surfaces`, then the created windows.
    pub fn start() -> (r: (LoopCore<I>, Step<I>))
        ensures
            r.0@.phase == Phase::<I>::Creates,
            r.0@.current_window == None::<u64>,
            r.0@.event_state.keyboard.bits == 0,
            r.0@.event_state.mouse.bits == 0,
            well_formed(r.0@),
            r.1.effects@ == begin_effects(StartCause::<I>::Init),
            r.1.request == Request::<I>::PopCreated,
    {
        let core = LoopCore {
            phase: Phase::Creates,
            event_state: EventState::new(),
            current_window: None,
        };
        let mut effects = Vec::new();
        effects.push(Effect::NewEvents(StartCause::Init));
        effects.push(Effect::CanCreateSurfaces);
        (core, Step { effects, request: Request::PopCreated })
    }

    /// The request of the loop's current phase.
    pub fn request(&self) -> (r: Request<I>)
        ensures
            r == request_of(self@.phase),
    {
        match &self.phase {
            Phase::Creates => Request::PopCreated,
            Phase::Destroys => Request::PopDestroyed,
            Phase::PollWindow => Request::PollWindow,
            Phase::Wakeups => Request::TryWakeUp,
            Phase::Redraws => Request::PopRedraw,
            Phase::Status => Request::Status,
            Phase::Blocking => Request::WaitForEvent,
            Phase::WaitClock => Request::Now,
            Phase::DeadlineClock(deadline) => Request::CheckDeadline(*deadline),
            Phase::DeadlinePoll { timeout_ns, .. } => Request::PollWindowFor {
                timeout_ns: *timeout_ns,
            },
            Phase::Exited => Request::Exit,
        }
    }

    /// Begins a new iteration for `cause`.
    fn begin(&mut self, cause: StartCause<I>, effects: &mut Vec<Effect<I>>)
        ensures
            final(self)@.phase == Phase::<I>::Creates,
            final(self)@.event_state == old(self)@.event_state,
            final(self)@.current_window == old(self)@.current_window,
            final(effects)@ == old(effects)@ + begin_effects(cause),
    {
        let init = match cause {
            StartCause::Init => true,
            _ => false,
        };
        effects.push(Effect::NewEvents(cause));
        if init {
            effects.push(Effect::CanCreateSurfaces);
        }
        self.phase = Phase::Creates;
    }

    /// Delivers an event read from the current window, if there is one.
    fn dispatch_current(&mut self, input: WindowInput) -> (effects: Vec<Effect<I>>)
        ensures
            final(self)@.phase == old(self)@.phase,
            final(self)@.current_window == old(self)@.current_window,
            dispatched_to(
                old(self)@.current_window,
                input,
                old(self)@.event_state,
                final(self)@.event_state,
                effects@,
            ),
    {
        match self.current_window {
            Some(id) => dispatch(id, input, &mut self.event_state),
            None => Vec::new(),
        }
    }

    /// Takes the answer to the last request and decides what happens next.
    pub fn step(&mut self, input: Input<I>) -> (s: Step<I>)
        ensures
            transition(old(self)@, input, final(self)@, s.effects@),
            s.request == request_of(final(self)@.phase),
            well_formed(old(self)@) ==> well_formed(final(self)@),
    {
        let mut effects: Vec<Effect<I>> = Vec::new();
        match input {
            Input::Created(created) => {
                if let Phase::Creates = self.phase {
                    match created {
                        Some(w) => {
                            self.current_window = Some(w.id);
                            effects.push(
                                Effect::Window {
                                    id: w.id,
                                    event: WindowEvent::SurfaceResized {
                                        width: w.width,
                                        height: w.height,
                                    },
                                },
                            );
                        },
                        None => {
                            self.phase = Phase::Destroys;
                        },
                    }
                }
            },
            Input::Destroyed(destroyed) => {
                if let Phase::Destroys = self.phase {
                    match destroyed {
                        Some(id) => {
                            effects.push(Effect::Window { id, event: WindowEvent::Destroyed });
                            if self.current_window == Some(id) {
                                self.current_window = None;
                                effects.push(Effect::ReleaseWindow);
                                assert(effects@ =~= seq![
                                    Effect::<I>::Window { id, event: WindowEvent::Destroyed },
                                    Effect::ReleaseWindow,
                                ]);
                            }
                        },
                        None => {
                            if self.current_window.is_some() {
                                self.phase = Phase::PollWindow;
                            } else {
                                self.phase = Phase::Wakeups;
                            }
                        },
                    }
                }
            },
            Input::Polled(polled) => {
                match &self.phase {
                    Phase::PollWindow => {
                        match polled {
                            Some(event) => {
                                effects = self.dispatch_current(event);
                            },
                            None => {
                                self.phase = Phase::Wakeups;
                            },
                        }
                    },
                    Phase::Blocking => {
                        match polled {
                            Some(event) => {
                                effects = self.dispatch_current(event);
                            },
                            None => {},
                        }
                        self.phase = Phase::WaitClock;
                    },
                    Phase::DeadlinePoll { start, deadline, .. } => {
                        let start = *start;
                        let deadline = *deadline;
                        match polled {
                            Some(event) => {
                                effects = self.dispatch_current(event);
                                let ghost dispatched_effects = effects@;
                                self.begin(
                                    StartCause::WaitCancelled {
                                        start,
                                        requested_resume: Some(deadline),
                                    },
                                    &mut effects,
                                );
                                proof {
                                    assert(effects@.drop_last() =~= dispatched_effects);
                                }
                            },
                            None => {
                                self.begin(
                                    StartCause::ResumeTimeReached {
                                        start,
                                        requested_resume: deadline,
                                    },
                                    &mut effects,
                                );
                            },
                        }
                    },
                    _ => {},
                }
            },
            Input::WokenUp(woken) => {
                if let Phase::Wakeups = self.phase {
                    if woken {
                        effects.push(Effect::ProxyWakeUp);
                    } else {
                        self.phase = Phase::Redraws;
                    }
                }
            },
            Input::Redraw(redraw) => {
                if let Phase::Redraws = self.phase {
                    match redraw {
                        Some(id) => {
                            effects.push(Effect::Window { id, event: WindowEvent::RedrawRequested });
                        },
                        None => {
                            effects.push(Effect::AboutToWait);
                            self.phase = Phase::Status;
                        },
                    }
                }
            },
            Input::Status { exiting, redraw_pending, control_flow } => {
                if let Phase::Status = self.phase {
                    if exiting {
                        self.phase = Phase::Exited;
                    } else if redraw_pending {
                        // A redraw queued during `about_to_wait` is delivered on the next
                        // iteration instead of blocking.
                        self.begin(StartCause::Poll, &mut effects);
                    } else {
                        match control_flow {
                            ControlFlow::Poll => {
                                self.begin(StartCause::Poll, &mut effects);
                            },
                            ControlFlow::Wait => {
                                if self.current_window.is_some() {
                                    self.phase = Phase::Blocking;
                                } else {
                                    self.phase = Phase::WaitClock;
                                }
                            },
                            ControlFlow::WaitUntil(deadline) => {
                                self.phase = Phase::DeadlineClock(deadline);
                            },
                        }
                    }
                }
            },
            Input::Time(now) => {
                if let Phase::WaitClock = self.phase {
                    self.begin(
                        StartCause::WaitCancelled { start: now, requested_resume: None },
                        &mut effects,
                    );
                }
            },
            Input::Deadline { now, remaining_ns } => {
                if let Phase::DeadlineClock(deadline) = &self.phase {
                    let deadline = *deadline;
                    match remaining_ns {
                        Some(ns) => {
                            if self.current_window.is_some() {
                                self.phase = Phase::DeadlinePoll {
                                    start: now,
                                    deadline,
                                    timeout_ns: #[verifier::truncate] (ns as u64),
                                };
                            } else {
                                self.begin(
                                    StartCause::ResumeTimeReached {
                                        start: now,
                                        requested_resume: deadline,
                                    },
                                    &mut effects,
                                );
                            }
                        },
                        None => {
                            self.begin(
                                StartCause::ResumeTimeReached {
                                    start: now,
                                    requested_resume: deadline,
                                },
                                &mut effects,
                            );
                        },
                    }
                }
            },
        }
        let request = self.request();
        Step { effects, request }
    }
}

/// The order of the phases within an iteration.
pub open spec fn phase_rank<I>(phase: Phase<I>) -> int {
    match phase {
        Phase::Creates => 0,
        Phase::Destroys => 1,
        Phase::PollWindow => 2,
        Phase::Wakeups => 3,
        Phase::Redraws => 4,
        Phase::Status => 5,
        Phase::Blocking => 6,
        Phase::WaitClock => 7,
        Phase::DeadlineClock(_) => 6,
        Phase::DeadlinePoll { .. } => 7,
        Phase::Exited => 8,
    }
}

/// Once the loop has exited it stays so: nothing is delivered and it asks only to exit.
pub proof fn lemma_exit_is_final<I>(
    m: LoopModel<I>,
    input: Input<I>,
    m2: LoopModel<I>,
    effects: Seq<Effect<I>>,
)
    requires
        m.phase is Exited,
        transition(m, input, m2, effects),
    ensures
        m2 == m,
        effects.len() == 0,
        request_of(m2.phase) == Request::<I>::Exit,
{
}

/// When the application asked to exit by the time it was about to wait, the loop ends at
/// once, whatever else is pending.
pub proof fn lemma_exit_when_asked<I>(
    m: LoopModel<I>,
    redraw_pending: bool,
    control_flow: ControlFlow<I>,
    m2: LoopModel<I>,
    effects: Seq<Effect<I>>,
)
    requires
        m.phase is Status,
        transition(m, (Input::Status { exiting: true, redraw_pending, control_flow }), m2, effects),
    ensures
        effects.len() == 0,
        request_of(m2.phase) == Request::<I>::Exit,
{
}

/// A redraw pending after `about_to_wait` is never waited on: the loop begins the next
/// iteration at once, as a poll, whatever the control flow.
pub proof fn lemma_pending_redraw_polls<I>(
    m: LoopModel<I>,
    control_flow: ControlFlow<I>,
    m2: LoopModel<I>,
    effects: Seq<Effect<I>>,
)
    requires
        m.phase is Status,
        transition(
            m,
            (Input::Status { exiting: false, redraw_pending: true, control_flow }),
            m2,
            effects,
        ),
    ensures
        effects == seq![Effect::NewEvents(StartCause::<I>::Poll)],
        request_of(m2.phase) == Request::<I>::PopCreated,
{
}

/// `can_create_surfaces` comes only with the first iteration: no step after the start ever
/// delivers it, nor an `Init` start cause.
pub proof fn lemma_create_surfaces_once<I>(
    m: LoopModel<I>,
    input: Input<I>,
    m2: LoopModel<I>,
    effects: Seq<Effect<I>>,
)
    requires
        transition(m, input, m2, effects),
    ensures
        forall|i: int|
            0 <= i < effects.len() ==> !(#[trigger] effects[i] is CanCreateSurfaces)
                && effects[i] != Effect::NewEvents(StartCause::<I>::Init),
{
    if let (Phase::DeadlinePoll { .. }, Input::Polled(Some(event))) = (m.phase, input) {
        if let Some(id) = m.current_window {
            let front = effects.drop_last();
            assert forall|i: int| 0 <= i < effects.len() implies !(#[trigger] effects[i] is CanCreateSurfaces)
                && effects[i] != Effect::NewEvents(StartCause::<I>::Init) by {
                if i < effects.len() - 1 {
                    assert(effects[i] == front[i]);
                    match event {
                        WindowInput::KeyInput(_) => {
                            assert(all_for_window(front, id));
                            assert(front[i] is Window);
                        },
                        _ => {},
                    }
                }
            }
        }
    }
}

/// Destroying the current window lets go of it; destroying another window leaves the current
/// one in place. Either way the application hears of the destruction.
pub proof fn lemma_destroy<I>(m: LoopModel<I>, id: u64, m2: LoopModel<I>, effects: Seq<Effect<I>>)
    requires
        m.phase is Destroys,
        transition(m, Input::Destroyed(Some(id)), m2, effects),
    ensures
        effects[0] == (Effect::<I>::Window { id, event: WindowEvent::Destroyed }),
        m.current_window == Some(id) ==> m2.current_window is None && effects.contains(
            Effect::ReleaseWindow,
        ),
        m.current_window != Some(id) ==> m2.current_window == m.current_window && !effects.contains(
            Effect::ReleaseWindow,
        ),
{
    if m.current_window == Some(id) {
        assert(effects[1] == Effect::<I>::ReleaseWindow);
    }
}

/// A created window becomes the current one, and the application learns its surface size.
pub proof fn lemma_create<I>(
    m: LoopModel<I>,
    w: CreatedWindow,
    m2: LoopModel<I>,
    effects: Seq<Effect<I>>,
)
    requires
        m.phase is Creates,
        transition(m, Input::Created(Some(w)), m2, effects),
    ensures
        m2.current_window == Some(w.id),
        effects == seq![
            (Effect::<I>::Window {
                id: w.id,
                event: (WindowEvent::SurfaceResized { width: w.width, height: w.height }),
            }),
        ],
{
}

/// Without a window, waiting for events never blocks on one: the loop reads the clock and
/// begins the next iteration.
pub proof fn lemma_wait_without_window<I>(m: LoopModel<I>, m2: LoopModel<I>, effects: Seq<Effect<I>>)
    requires
        m.phase is Status,
        m.current_window is None,
        transition(
            m,
            (Input::Status {
                exiting: false,
                redraw_pending: false,
                control_flow: ControlFlow::Wait,
            }),
            m2,
            effects,
        ),
    ensures
        request_of(m2.phase) == Request::<I>::Now,
        effects.len() == 0,
{
}

/// The loop reads from a window only while it has one.
pub proof fn lemma_reads_need_window<I>(m: LoopModel<I>)
    requires
        well_formed(m),
        request_of(m.phase) is PollWindow || request_of(m.phase) is WaitForEvent || request_of(
            m.phase,
        ) is PollWindowFor,
    ensures
        m.current_window is Some,
{
}

/// Within an iteration the phases only move forward; the only way back is a new iteration,
/// which begins by delivering `new_events`.
pub proof fn lemma_phases_in_order<I>(
    m: LoopModel<I>,
    input: Input<I>,
    m2: LoopModel<I>,
    effects: Seq<Effect<I>>,
)
    requires
        transition(m, input, m2, effects),
    ensures
        m2.phase == m.phase || phase_rank(m2.phase) > phase_rank(m.phase) || (m2.phase is Creates
            && effects.len() > 0 && effects.last() is NewEvents),
{
}

/// A mouse report read from the current window reaches that window: a move as one
/// `PointerMoved` at the reported position, a press or release as one `PointerButton` of that
/// state at that position, a scroll as one `MouseWheel` of the reported lines; other reports
/// give nothing.
pub proof fn lemma_mouse_reaches_window<I>(
    m: LoopModel<I>,
    mouse: MouseEvent,
    m2: LoopModel<I>,
    effects: Seq<Effect<I>>,
)
    requires
        m.phase is PollWindow || m.phase is Blocking,
        m.current_window is Some,
        transition(m, Input::Polled(Some(WindowInput::MouseInput(mouse))), m2, effects),
    ensures
        m2.current_window == m.current_window,
        mouse.event_type is Move ==> effects == seq![
            (Effect::<I>::Window {
                id: m.current_window->Some_0,
                event: (WindowEvent::PointerMoved { x: mouse.x, y: mouse.y }),
            }),
        ],
        mouse.event_type is Scroll ==> effects == seq![
            (Effect::<I>::Window {
                id: m.current_window->Some_0,
                event: (WindowEvent::MouseWheel { lines_y: mouse.scroll }),
            }),
        ],
        mouse.event_type is Press || mouse.event_type is Release ==> effects.len() == 1
            && effects[0] is Window && effects[0]->id == m.current_window->Some_0
            && effects[0]->event is PointerButton && effects[0]->event->PointerButton_x == mouse.x
            && effects[0]->event->PointerButton_y == mouse.y && effects[0]->event->PointerButton_state
            == (if mouse.event_type is Press {
            ElementState::Pressed
        } else {
            ElementState::Released
        }),
        mouse.event_type is Other ==> effects.len() == 0,
{
}

/// The other reports read from the current window: a resize tells the window its new size and
/// asks for a redraw, a close request reaches the window, a frame asks for a redraw, and
/// pasted text and layout changes give nothing.
pub proof fn lemma_window_reports<I>(
    m: LoopModel<I>,
    input: WindowInput,
    m2: LoopModel<I>,
    effects: Seq<Effect<I>>,
)
    requires
        m.phase is PollWindow || m.phase is Blocking,
        m.current_window is Some,
        transition(m, Input::Polled(Some(input)), m2, effects),
    ensures
        input matches WindowInput::Resized { width, height } ==> effects == seq![
            (Effect::<I>::Window {
                id: m.current_window->Some_0,
                event: (WindowEvent::SurfaceResized { width, height }),
            }),
            Effect::RequestRedraw(m.current_window->Some_0),
        ],
        input is Close ==> effects == seq![
            (Effect::<I>::Window { id: m.current_window->Some_0, event: WindowEvent::CloseRequested }),
        ],
        input is Frame ==> effects == seq![Effect::<I>::RequestRedraw(m.current_window->Some_0)],
        input is ClipboardPaste || input is LayoutChanged ==> effects.len() == 0,
{
}

} // verus!
