//! Console events injected by the headless test intrinsics.
use vstd::prelude::*;
use crate::error::TuiError;
use crate::value::Value;
use crate::worker::{Worker, lemma_popped_compose, spec_arg, spec_int, spec_is_application, spec_popped};

verus! {

/// What a mouse event does.
#[derive(Debug, Clone, Copy, PartialEq, Eq, Structural)]
pub enum MouseAction {
    Move,
    Down,
    Up,
    ScrollUp,
    ScrollDown,
}

/// Which mouse button an event uses.
#[derive(Debug, Clone, Copy, PartialEq, Eq, Structural)]
pub enum MouseButton {
    NoButton,
    Left,
    Right,
    Middle,
}

/// A console event queued for a headless run (no modifier keys, no
/// double click).
#[derive(Debug)]
pub enum TestConsoleEvent {
    Mouse { action: MouseAction, button: MouseButton, x: i64, y: i64 },
    Resize { width: i64, height: i64 },
    Paste { text: String },
    FocusGained,
    FocusLost,
}

/// The test-event intrinsics that queue console events.
#[derive(Debug, Clone, Copy, PartialEq, Eq, Structural)]
pub enum TestEventIntrinsic {
    /// `TestMoveMouse(App, X, Y)`.
    MoveMouse,
    /// `TestClickMouse(App, X, Y)`: a left press and release.
    ClickMouse,
    /// `TestResize(App, Width, Height)`.
    Resize,
    /// `TestPaste(App, Text)`.
    Paste,
    /// `TestFocus(App, Gained)`.
    Focus,
}

/// The mathematical content of a queued event.
pub enum TestEventView {
    Mouse(MouseAction, MouseButton, i64, i64),
    Resize(i64, i64),
    Paste(Seq<char>),
    FocusGained,
    FocusLost,
}

impl TestConsoleEvent {
    pub open spec fn view(self) -> TestEventView {
        match self {
            TestConsoleEvent::Mouse { action, button, x, y } => TestEventView::Mouse(action, button, x, y),
            TestConsoleEvent::Resize { width, height } => TestEventView::Resize(width, height),
            TestConsoleEvent::Paste { text } => TestEventView::Paste(text@),
            TestConsoleEvent::FocusGained => TestEventView::FocusGained,
            TestConsoleEvent::FocusLost => TestEventView::FocusLost,
        }
    }
}

/// The queued events, as values.
pub open spec fn spec_event_views(events: Seq<TestConsoleEvent>) -> Seq<TestEventView> {
    events.map_values(|e: TestConsoleEvent| e.view())
}

/// Two integers (the second on top) and then the `Application`.
pub open spec fn spec_pair_app_args(s: Seq<Value>) -> (Result<(i64, i64), TuiError>, int) {
    if s.len() < 1 {
        (Err(TuiError::StackUnderflow), 0)
    } else {
        match spec_int(spec_arg(s, 0)) {
            Err(e) => (Err(e), 1),
            Ok(b) => if s.len() < 2 {
                (Err(TuiError::StackUnderflow), 1)
            } else {
                match spec_int(spec_arg(s, 1)) {
                    Err(e) => (Err(e), 2),
                    Ok(a) => if s.len() < 3 {
                        (Err(TuiError::StackUnderflow), 2)
                    } else if !spec_is_application(spec_arg(s, 2)) {
                        (Err(TuiError::WrongRecordType), 3)
                    } else {
                        (Ok((a, b)), 3)
                    },
                }
            },
        }
    }
}

/// The argument of `TestPaste` / `TestFocus` on top, then the
/// `Application`; the events it queues, or why not.
pub open spec fn spec_single_arg_events(s: Seq<Value>, intrinsic: TestEventIntrinsic) -> (Result<Seq<TestEventView>, TuiError>, int) {
    if s.len() < 1 {
        (Err(TuiError::StackUnderflow), 0)
    } else {
        let ev = match (intrinsic, spec_arg(s, 0)) {
            (TestEventIntrinsic::Paste, Value::Str(t)) => Ok(seq![TestEventView::Paste(t@)]),
            (TestEventIntrinsic::Focus, Value::Boolean(g)) => Ok(
                seq![if g { TestEventView::FocusGained } else { TestEventView::FocusLost }],
            ),
            _ => Err(TuiError::TestArgumentKind),
        };
        match ev {
            Err(e) => (Err(e), 1),
            Ok(evs) => if s.len() < 2 {
                (Err(TuiError::StackUnderflow), 1)
            } else if !spec_is_application(spec_arg(s, 1)) {
                (Err(TuiError::WrongRecordType), 2)
            } else {
                (Ok(evs), 2)
            },
        }
    }
}

/// The events a test-event intrinsic queues for the stack `s`, and how many
/// values it pops.
pub open spec fn spec_test_events(s: Seq<Value>, intrinsic: TestEventIntrinsic) -> (Result<Seq<TestEventView>, TuiError>, int) {
    match intrinsic {
        TestEventIntrinsic::Paste => spec_single_arg_events(s, intrinsic),
        TestEventIntrinsic::Focus => spec_single_arg_events(s, intrinsic),
        _ => {
            let (r, n) = spec_pair_app_args(s);
            match r {
                Err(e) => (Err(e), n),
                Ok((a, b)) => (Ok(match intrinsic {
                    TestEventIntrinsic::MoveMouse => seq![TestEventView::Mouse(MouseAction::Move, MouseButton::NoButton, a, b)],
                    TestEventIntrinsic::ClickMouse => seq![
                        TestEventView::Mouse(MouseAction::Down, MouseButton::Left, a, b),
                        TestEventView::Mouse(MouseAction::Up, MouseButton::Left, a, b),
                    ],
                    _ => seq![TestEventView::Resize(a, b)],
                }), n),
            }
        },
    }
}

impl Worker {
    /// Queue a console event for the headless run.
    fn enqueue_test_console_event(&mut self, event: TestConsoleEvent)
        ensures
            *final(self) == (Worker { test_console_events: final(self).test_console_events, ..*old(self) }),
            spec_event_views(final(self).test_console_events@) == spec_event_views(old(self).test_console_events@).push(
                event.view(),
            ),
    {
        let ghost before = self.test_console_events@;
        let ghost v = event.view();
        self.test_console_events.push(event);
        assert(spec_event_views(self.test_console_events@) =~= spec_event_views(before).push(v));
    }

    /// The headless test-event intrinsics: pop the arguments and queue the
    /// console events they stand for.
    pub fn exec_tui_test_event_intrinsic(&mut self, intrinsic: TestEventIntrinsic) -> (r: Result<(), TuiError>)
        ensures
            *final(self) == (Worker {
                stack: final(self).stack,
                test_console_events: final(self).test_console_events,
                ..*old(self)
            }),
            final(self).stack@ == spec_popped(old(self).stack@, spec_test_events(old(self).stack@, intrinsic).1),
            match spec_test_events(old(self).stack@, intrinsic).0 {
                Err(e) => r == Err::<(), TuiError>(e) && final(self).test_console_events == old(self).test_console_events,
                Ok(evs) => r is Ok && spec_event_views(final(self).test_console_events@) == spec_event_views(
                    old(self).test_console_events@,
                ) + evs,
            },
    {
        proof {
            lemma_popped_compose(self.stack@, 0);
            if self.stack@.len() >= 1 {
                lemma_popped_compose(self.stack@, 1);
            }
            if self.stack@.len() >= 2 {
                lemma_popped_compose(self.stack@, 2);
            }
        }
        let ghost q0 = spec_event_views(self.test_console_events@);
        match intrinsic {
            TestEventIntrinsic::Paste => {
                let text = match self.pop()? {
                    Value::Str(t) => t,
                    _ => {
                        return Err(TuiError::TestArgumentKind);
                    },
                };
                self.pop_tui_application()?;
                self.enqueue_test_console_event(TestConsoleEvent::Paste { text });
                assert(spec_event_views(self.test_console_events@) =~= q0 + spec_test_events(old(self).stack@, intrinsic).0->Ok_0);
            },
            TestEventIntrinsic::Focus => {
                let gained = match self.pop()? {
                    Value::Boolean(g) => g,
                    _ => {
                        return Err(TuiError::TestArgumentKind);
                    },
                };
                self.pop_tui_application()?;
                if gained {
                    self.enqueue_test_console_event(TestConsoleEvent::FocusGained);
                } else {
                    self.enqueue_test_console_event(TestConsoleEvent::FocusLost);
                }
                assert(spec_event_views(self.test_console_events@) =~= q0 + spec_test_events(old(self).stack@, intrinsic).0->Ok_0);
            },
            _ => {
                let b = self.pop_int()?;
                let a = self.pop_int()?;
                self.pop_tui_application()?;
                match intrinsic {
                    TestEventIntrinsic::MoveMouse => {
                        self.enqueue_test_console_event(
                            TestConsoleEvent::Mouse { action: MouseAction::Move, button: MouseButton::NoButton, x: a, y: b },
                        );
                    },
                    TestEventIntrinsic::ClickMouse => {
                        self.enqueue_test_console_event(
                            TestConsoleEvent::Mouse { action: MouseAction::Down, button: MouseButton::Left, x: a, y: b },
                        );
                        self.enqueue_test_console_event(
                            TestConsoleEvent::Mouse { action: MouseAction::Up, button: MouseButton::Left, x: a, y: b },
                        );
                    },
                    _ => {
                        self.enqueue_test_console_event(TestConsoleEvent::Resize { width: a, height: b });
                    },
                }
                assert(spec_event_views(self.test_console_events@) =~= q0 + spec_test_events(old(self).stack@, intrinsic).0->Ok_0);
            },
        }
        Ok(())
    }
}

} // verus!
