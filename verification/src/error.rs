//! Errors raised by the `Std.Tui` bridge.
use vstd::prelude::*;

verus! {

/// Diagnostic code family of a runtime error.
#[derive(Debug, Clone, Copy, PartialEq, Eq, Structural)]
pub enum ErrorCode {
    /// A value of the wrong type or record kind was passed.
    TypeMismatch,
    /// An intrinsic received well-typed but unusable arguments or state.
    IntrinsicStackState,
    /// The console or terminal is in the wrong state for the request.
    ConsoleState,
    /// A record operand is missing a field or carries the wrong shape.
    OperandTypeMismatch,
    /// A handler names a function that is not declared.
    UndefinedFunction,
    /// A handler function has the wrong number of parameters.
    WrongCallArity,
    /// The VM stack held fewer values than the intrinsic pops.
    StackUnderflow,
}

/// Why a `Std.Tui` operation failed.
#[derive(Debug, Clone, Copy, PartialEq, Eq, Structural)]
pub enum TuiError {
    /// The VM stack was empty where a value was expected.
    StackUnderflow,
    /// A value is not of the expected kind (string, array, record, ...).
    WrongValueKind,
    /// A record has another record type than the one expected.
    WrongRecordType,
    /// A handle record is not of the expected handle type.
    WrongHandleType,
    /// A handle record has no integer `__id` token.
    MissingHandleToken,
    /// A handle token lies outside `1..=u32::MAX`.
    HandleOutOfRange,
    /// A required field is absent (reported as an operand error).
    MissingField,
    /// A required field of a Turbo Vision record is absent.
    MissingRecordField,
    /// A field holds a value of the wrong kind.
    WrongFieldKind,
    /// An array element is not a string.
    ArrayElementNotString { index: usize },
    /// The argument is not an array.
    NotAnArray,
    /// A coordinate does not fit the Turbo Vision `i16` range.
    CoordinateOutOfRange,
    /// A width or height is zero or negative.
    DimensionNotPositive,
    /// A command, group or key id does not fit `u16`.
    IdOutOfRange,
    /// A length or index is negative.
    NegativeNumber,
    /// An accelerator string has more than one character.
    NotSingleCharacter,
    /// An `Option` payload or value has the wrong kind.
    WrongOptionKind,
    /// No object of the expected kind exists under the handle.
    UnknownHandle { handle: u32 },
    /// The child control already belongs to a dialog or window.
    AlreadyAttached { handle: u32 },
    /// `SetText` was applied to a list box.
    SetTextOnListBox,
    /// An input line text is longer than its `MaxLength`.
    TextTooLong,
    /// The menu bar or status line was already installed as chrome.
    ChromeAlreadyAttached { handle: u32 },
    /// The application already shows a menu bar or status line.
    ChromeAlreadySet,
    /// A menu index lies outside the menu bar.
    MenuIndexOutOfRange,
    /// A menu item index lies outside the menu.
    MenuItemIndexOutOfRange,
    /// A menu separator was dispatched.
    SeparatorDispatch,
    /// A screen coordinate is outside `1..=u16::MAX`.
    ScreenCoordinateOutOfRange,
    /// A screen coordinate lies outside the virtual screen.
    OutsideScreen,
    /// A view id token is negative.
    ViewIdOutOfRange,
    /// A handler value is not a function.
    NotAFunction,
    /// A handler names an undeclared function.
    UndefinedFunction,
    /// A handler has the wrong arity.
    WrongArity { expected: u8, found: u8 },
    /// A live Turbo Vision session is needed but the session is headless.
    HeadlessSession,
    /// A modal dialog was run from a task other than the main one.
    NotMainTask,
    /// A value that should be a `ViewId` record is not one.
    NotAViewId,
    /// A test screen dimension lies outside `1..=u16::MAX`.
    TestDimensionOutOfRange,
    /// An `Option` operand holds a value of the wrong kind.
    WrongOptionOperand,
    /// Interactive work needs the live session, which is not open.
    LiveSessionMissing,
    /// Message box options do not fit 16 bits.
    MessageBoxOptionsOutOfRange,
    /// A file dialog was requested without an open session.
    FileDialogNeedsSession,
    /// A simulated mouse click was requested outside a headless session.
    TestClickNeedsHeadless,
    /// A simulated mouse click lies outside the headless terminal.
    MouseOutsideTerminal,
    /// A test-event argument is of the wrong kind.
    TestArgumentKind,
    /// A queried screen cell is not painted or holds colors outside the
    /// packed CRT range.
    ScreenCellUnavailable,
    /// A control-state query named a view of another control kind.
    WrongControlKind,
}

/// The diagnostic code family that an error is reported under.
pub open spec fn spec_error_code(e: TuiError) -> ErrorCode {
    match e {
        TuiError::StackUnderflow => ErrorCode::StackUnderflow,
        TuiError::WrongValueKind => ErrorCode::TypeMismatch,
        TuiError::WrongRecordType => ErrorCode::TypeMismatch,
        TuiError::WrongHandleType => ErrorCode::TypeMismatch,
        TuiError::WrongFieldKind => ErrorCode::TypeMismatch,
        TuiError::NotSingleCharacter => ErrorCode::TypeMismatch,
        TuiError::WrongOptionKind => ErrorCode::TypeMismatch,
        TuiError::MissingField => ErrorCode::OperandTypeMismatch,
        TuiError::NotAFunction => ErrorCode::OperandTypeMismatch,
        TuiError::UndefinedFunction => ErrorCode::UndefinedFunction,
        TuiError::WrongArity { .. } => ErrorCode::WrongCallArity,
        TuiError::ScreenCoordinateOutOfRange => ErrorCode::ConsoleState,
        TuiError::OutsideScreen => ErrorCode::ConsoleState,
        TuiError::HeadlessSession => ErrorCode::ConsoleState,
        TuiError::NotMainTask => ErrorCode::ConsoleState,
        TuiError::TestDimensionOutOfRange => ErrorCode::ConsoleState,
        TuiError::WrongOptionOperand => ErrorCode::OperandTypeMismatch,
        TuiError::LiveSessionMissing => ErrorCode::ConsoleState,
        TuiError::MessageBoxOptionsOutOfRange => ErrorCode::ConsoleState,
        TuiError::FileDialogNeedsSession => ErrorCode::ConsoleState,
        TuiError::ScreenCellUnavailable => ErrorCode::ConsoleState,
        TuiError::WrongControlKind => ErrorCode::ConsoleState,
        _ => ErrorCode::IntrinsicStackState,
    }
}

impl TuiError {
    /// The diagnostic code family of this error.
    pub fn code(&self) -> (code: ErrorCode)
        ensures
            code == spec_error_code(*self),
    {
        match self {
            TuiError::StackUnderflow => ErrorCode::StackUnderflow,
            TuiError::WrongValueKind => ErrorCode::TypeMismatch,
            TuiError::WrongRecordType => ErrorCode::TypeMismatch,
            TuiError::WrongHandleType => ErrorCode::TypeMismatch,
            TuiError::WrongFieldKind => ErrorCode::TypeMismatch,
            TuiError::NotSingleCharacter => ErrorCode::TypeMismatch,
            TuiError::WrongOptionKind => ErrorCode::TypeMismatch,
            TuiError::MissingField => ErrorCode::OperandTypeMismatch,
            TuiError::NotAFunction => ErrorCode::OperandTypeMismatch,
            TuiError::UndefinedFunction => ErrorCode::UndefinedFunction,
            TuiError::WrongArity { .. } => ErrorCode::WrongCallArity,
            TuiError::ScreenCoordinateOutOfRange => ErrorCode::ConsoleState,
            TuiError::OutsideScreen => ErrorCode::ConsoleState,
            TuiError::HeadlessSession => ErrorCode::ConsoleState,
            TuiError::NotMainTask => ErrorCode::ConsoleState,
            TuiError::TestDimensionOutOfRange => ErrorCode::ConsoleState,
            TuiError::WrongOptionOperand => ErrorCode::OperandTypeMismatch,
            TuiError::LiveSessionMissing => ErrorCode::ConsoleState,
            TuiError::MessageBoxOptionsOutOfRange => ErrorCode::ConsoleState,
            TuiError::FileDialogNeedsSession => ErrorCode::ConsoleState,
            TuiError::ScreenCellUnavailable => ErrorCode::ConsoleState,
            TuiError::WrongControlKind => ErrorCode::ConsoleState,
            _ => ErrorCode::IntrinsicStackState,
        }
    }
}

} // verus!
