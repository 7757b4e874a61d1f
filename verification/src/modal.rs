//! Modal intrinsics whose work the host finishes: message boxes, file
//! dialogs and simulated mouse clicks. Each pops and checks its arguments
//! here and says what the host must do.
use vstd::prelude::*;
use crate::decode::{TvRect, spec_decode_optional_string, spec_decode_string};
use crate::error::TuiError;
use crate::store::TurboVisionState;
use crate::value::Value;
use crate::worker::{
    HeadlessTvApp, TuiState, Worker, lemma_popped_compose, spec_arg, spec_int, spec_is_application, spec_popped,
    spec_text_rect_app_args,
};

verus! {

/// How a `MessageBox` call continues.
#[derive(Debug)]
pub enum MessageBoxRun {
    /// Answered at once (headless); the command has been pushed.
    Finished { command: i64 },
    /// The open session shows the message box.
    RunInSession { message: String, options: u16 },
    /// The live Turbo Vision application shows the message box.
    RunLive { message: String, options: u16 },
}

/// What a `RunFileDialog` call asks the open session to show.
#[derive(Debug)]
pub struct FileDialogRequest {
    pub bounds: TvRect,
    pub title: String,
    pub wildcard: String,
    pub start_path: Option<String>,
}

/// Arguments of `MessageBox(App, Message, Options)`.
pub open spec fn spec_message_box_args(s: Seq<Value>) -> (Result<(u16, Seq<char>), TuiError>, int) {
    if s.len() < 1 {
        (Err(TuiError::StackUnderflow), 0)
    } else {
        match spec_int(spec_arg(s, 0)) {
            Err(e) => (Err(e), 1),
            Ok(n) => if n < 0 || n > u16::MAX {
                (Err(TuiError::MessageBoxOptionsOutOfRange), 1)
            } else if s.len() < 2 {
                (Err(TuiError::StackUnderflow), 1)
            } else {
                match spec_decode_string(spec_arg(s, 1)) {
                    Err(e) => (Err(e), 2),
                    Ok(m) => if s.len() < 3 {
                        (Err(TuiError::StackUnderflow), 2)
                    } else if !spec_is_application(spec_arg(s, 2)) {
                        (Err(TuiError::WrongRecordType), 3)
                    } else {
                        (Ok((n as u16, m)), 3)
                    },
                }
            },
        }
    }
}

/// Arguments of `RunFileDialog(App, Bounds, Title, Wildcard, StartPath)`.
pub open spec fn spec_file_dialog_args(s: Seq<Value>) -> (
    Result<(Option<Seq<char>>, Seq<char>, Seq<char>, TvRect), TuiError>,
    int,
) {
    if s.len() < 1 {
        (Err(TuiError::StackUnderflow), 0)
    } else {
        match spec_decode_optional_string(spec_arg(s, 0)) {
            Err(e) => (Err(e), 1),
            Ok(p) => if s.len() < 2 {
                (Err(TuiError::StackUnderflow), 1)
            } else {
                match spec_decode_string(spec_arg(s, 1)) {
                    Err(e) => (Err(e), 2),
                    Ok(w) => {
                        let (r, n) = spec_text_rect_app_args(spec_popped(s, 2));
                        match r {
                            Err(e) => (Err(e), n + 2),
                            Ok((t, b)) => (Ok((p, w, t, b)), n + 2),
                        }
                    },
                }
            },
        }
    }
}

/// Arguments of `TestSetFileDialogResult(App, Result)`.
pub open spec fn spec_file_result_args(s: Seq<Value>) -> (Result<Option<Seq<char>>, TuiError>, int) {
    if s.len() < 1 {
        (Err(TuiError::StackUnderflow), 0)
    } else {
        match spec_decode_optional_string(spec_arg(s, 0)) {
            Err(e) => (Err(e), 1),
            Ok(p) => if s.len() < 2 {
                (Err(TuiError::StackUnderflow), 1)
            } else if !spec_is_application(spec_arg(s, 1)) {
                (Err(TuiError::WrongRecordType), 2)
            } else {
                (Ok(p), 2)
            },
        }
    }
}

/// Arguments of `TestClickMouse(App, X, Y)` (Y on top).
pub open spec fn spec_click_args(s: Seq<Value>) -> (Result<(i64, i64), TuiError>, int) {
    if s.len() < 1 {
        (Err(TuiError::StackUnderflow), 0)
    } else {
        match spec_int(spec_arg(s, 0)) {
            Err(e) => (Err(e), 1),
            Ok(y) => if s.len() < 2 {
                (Err(TuiError::StackUnderflow), 1)
            } else {
                match spec_int(spec_arg(s, 1)) {
                    Err(e) => (Err(e), 2),
                    Ok(x) => if s.len() < 3 {
                        (Err(TuiError::StackUnderflow), 2)
                    } else if !spec_is_application(spec_arg(s, 2)) {
                        (Err(TuiError::WrongRecordType), 3)
                    } else {
                        (Ok((x, y)), 3)
                    },
                }
            },
        }
    }
}

/// The click position checks after the arguments: headless session, `i16`
/// coordinates, and a position on the headless terminal (whose size is
/// compared as `i16`, as the terminal reports it).
pub open spec fn spec_click_position(headless: bool, x: i64, y: i64, width: u16, height: u16) -> Result<(i16, i16), TuiError> {
    if !headless {
        Err(TuiError::TestClickNeedsHeadless)
    } else if x < i16::MIN || x > i16::MAX || y < i16::MIN || y > i16::MAX {
        Err(TuiError::CoordinateOutOfRange)
    } else if x < 0 || y < 0 || x >= (width as i16) || y >= (height as i16) {
        Err(TuiError::MouseOutsideTerminal)
    } else {
        Ok((x as i16, y as i16))
    }
}

impl Worker {
    /// `Application.MessageBox(App, Message, Options)`: only on the main
    /// task. A headless session answers with the queued test result when
    /// there is one; otherwise an open session (`session_open`) shows the
    /// box; otherwise a headless session answers `0` and a live one shows
    /// it.
    pub fn turbo_vision_message_box(&mut self, session_open: bool) -> (r: Result<MessageBoxRun, TuiError>)
        requires
            old(self).wf(),
        ensures
            final(self).wf(),
            final(self).stack@.len() >= spec_popped(old(self).stack@, spec_message_box_args(old(self).stack@).1).len(),
            final(self).stack@.subrange(0, spec_popped(old(self).stack@, spec_message_box_args(old(self).stack@).1).len() as int)
                == spec_popped(old(self).stack@, spec_message_box_args(old(self).stack@).1),
            match spec_message_box_args(old(self).stack@).0 {
                Err(e) => (r matches Err(e2) && e2 == e) && *final(self) == (Worker { stack: final(self).stack, ..*old(self) })
                    && final(self).stack@ == spec_popped(old(self).stack@, spec_message_box_args(old(self).stack@).1),
                Ok((options, message)) => {
                    let popped = spec_popped(old(self).stack@, 3);
                    let queued = old(self).tui.turbo_vision.test_dialog_result;
                    if old(self).current_task_id != 0 {
                        (r matches Err(e) && e == TuiError::NotMainTask) && final(self).stack@ == popped
                            && *final(self) == (Worker { stack: final(self).stack, ..*old(self) })
                    } else if old(self).tui.headless && queued is Some {
                        (r matches Ok(MessageBoxRun::Finished { command }) && command == queued->0)
                            && final(self).stack@ == popped.push(Value::Integer(queued->0))
                            && *final(self) == (Worker {
                                stack: final(self).stack,
                                tui: TuiState {
                                    turbo_vision: TurboVisionState { test_dialog_result: None, ..old(self).tui.turbo_vision },
                                    ..old(self).tui
                                },
                                ..*old(self)
                            })
                    } else if session_open {
                        (r matches Ok(MessageBoxRun::RunInSession { message: m, options: o }) && m@ == message && o == options)
                            && final(self).stack@ == popped && *final(self) == (Worker { stack: final(self).stack, ..*old(self) })
                    } else if old(self).tui.headless {
                        (r matches Ok(MessageBoxRun::Finished { command }) && command == 0)
                            && final(self).stack@ == popped.push(Value::Integer(0))
                            && *final(self) == (Worker { stack: final(self).stack, ..*old(self) })
                    } else {
                        (r matches Ok(MessageBoxRun::RunLive { message: m, options: o }) && m@ == message && o == options)
                            && final(self).stack@ == popped && *final(self) == (Worker { stack: final(self).stack, ..*old(self) })
                    }
                },
            },
    {
        proof {
            lemma_popped_compose(self.stack@, 0);
            if self.stack@.len() >= 1 {
                lemma_popped_compose(self.stack@, 1);
            }
            if self.stack@.len() >= 2 {
                lemma_popped_compose(self.stack@, 2);
            }
        }
        let options = self.pop_int()?;
        if options < 0 || options > 65535 {
            return Err(TuiError::MessageBoxOptionsOutOfRange);
        }
        let options = options as u16;
        let message = self.pop_turbo_vision_string()?;
        self.pop_tui_application()?;
        if self.current_task_id != 0 {
            return Err(TuiError::NotMainTask);
        }
        if self.tui.headless {
            if let Some(command) = self.tui.turbo_vision.test_dialog_result {
                self.tui.turbo_vision.test_dialog_result = None;
                self.push(Value::Integer(command));
                return Ok(MessageBoxRun::Finished { command });
            }
        }
        if session_open {
            return Ok(MessageBoxRun::RunInSession { message, options });
        }
        if self.tui.headless {
            self.push(Value::Integer(0));
            return Ok(MessageBoxRun::Finished { command: 0 });
        }
        Ok(MessageBoxRun::RunLive { message, options })
    }

    /// `Application.RunFileDialog(App, Bounds, Title, Wildcard, StartPath)`:
    /// needs an open session (`session_open`), which then shows the dialog
    /// and pushes its `Option of string` answer.
    pub fn turbo_vision_run_file_dialog(&mut self, session_open: bool) -> (r: Result<FileDialogRequest, TuiError>)
        ensures
            *final(self) == (Worker { stack: final(self).stack, ..*old(self) }),
            final(self).stack@ == spec_popped(old(self).stack@, spec_file_dialog_args(old(self).stack@).1),
            match spec_file_dialog_args(old(self).stack@).0 {
                Err(e) => r matches Err(e2) && e2 == e,
                Ok((p, w, t, b)) => if !session_open {
                    r matches Err(e) && e == TuiError::FileDialogNeedsSession
                } else {
                    r matches Ok(req) && req.bounds == b && req.title@ == t && req.wildcard@ == w && match req.start_path {
                        Some(sp) => p == Some(sp@),
                        None => p is None,
                    }
                },
            },
    {
        proof {
            lemma_popped_compose(self.stack@, 0);
            if self.stack@.len() >= 1 {
                lemma_popped_compose(self.stack@, 1);
            }
            if self.stack@.len() >= 2 {
                lemma_popped_compose(self.stack@, 2);
            }
        }
        let start_path = self.pop_optional_string()?;
        let wildcard = self.pop_turbo_vision_string()?;
        let (title, bounds) = self.pop_text_rect_app()?;
        if !session_open {
            return Err(TuiError::FileDialogNeedsSession);
        }
        Ok(FileDialogRequest { bounds, title, wildcard, start_path })
    }

    /// `Application.TestSetFileDialogResult(App, Result)`: the answer the
    /// next headless file dialog gives, for the session to keep.
    pub fn turbo_vision_test_set_file_dialog_result(&mut self) -> (r: Result<Option<String>, TuiError>)
        ensures
            *final(self) == (Worker { stack: final(self).stack, ..*old(self) }),
            final(self).stack@ == spec_popped(old(self).stack@, spec_file_result_args(old(self).stack@).1),
            match spec_file_result_args(old(self).stack@).0 {
                Err(e) => r matches Err(e2) && e2 == e,
                Ok(p) => r matches Ok(q) && match q {
                    Some(s) => p == Some(s@),
                    None => p is None,
                },
            },
    {
        proof {
            lemma_popped_compose(self.stack@, 0);
            if self.stack@.len() >= 1 {
                lemma_popped_compose(self.stack@, 1);
            }
        }
        let result = self.pop_optional_string()?;
        self.pop_tui_application()?;
        Ok(result)
    }

    /// `Application.TestClickMouse(App, X, Y)` in a headless session on a
    /// `screen_width` x `screen_height` console: checks the position, makes
    /// sure the headless Turbo Vision session has the console's size, and
    /// returns the position for the session to press and release the left
    /// button at.
    pub fn turbo_vision_test_click_mouse(&mut self, screen_width: u16, screen_height: u16) -> (r: Result<(i16, i16), TuiError>)
        ensures
            final(self).stack@ == spec_popped(old(self).stack@, spec_click_args(old(self).stack@).1),
            match spec_click_args(old(self).stack@).0 {
                Err(e) => (r matches Err(e2) && e2 == e) && *final(self) == (Worker { stack: final(self).stack, ..*old(self) }),
                Ok((x, y)) => match spec_click_position(old(self).tui.headless, x, y, screen_width, screen_height) {
                    Err(e) => (r matches Err(e2) && e2 == e) && *final(self) == (Worker { stack: final(self).stack, ..*old(self) }),
                    Ok(p) => r == Ok::<(i16, i16), TuiError>(p) && *final(self) == (Worker {
                        stack: final(self).stack,
                        headless_tv_app: Some(HeadlessTvApp { width: screen_width, height: screen_height }),
                        ..*old(self)
                    }),
                },
            },
    {
        proof {
            lemma_popped_compose(self.stack@, 0);
            if self.stack@.len() >= 1 {
                lemma_popped_compose(self.stack@, 1);
            }
            if self.stack@.len() >= 2 {
                lemma_popped_compose(self.stack@, 2);
            }
        }
        let y = self.pop_int()?;
        let x = self.pop_int()?;
        self.pop_tui_application()?;
        if !self.tui.headless {
            return Err(TuiError::TestClickNeedsHeadless);
        }
        if x < -32768 || x > 32767 || y < -32768 || y > 32767 {
            return Err(TuiError::CoordinateOutOfRange);
        }
        let x = x as i16;
        let y = y as i16;
        let width = #[verifier::truncate] (screen_width as i16);
        let height = #[verifier::truncate] (screen_height as i16);
        if x < 0 || y < 0 || x >= width || y >= height {
            return Err(TuiError::MouseOutsideTerminal);
        }
        self.turbo_vision_ensure_headless_app(screen_width, screen_height);
        Ok((x, y))
    }
}

} // verus!
