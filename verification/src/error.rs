//! The errors a drag session reports to its caller.

use vstd::prelude::*;

verus! {

/// Why a drag session could not be started or finished.
///
/// Every error is returned to the caller of the step that met it. None of
/// them is ever delivered through the result callback.
#[derive(Debug, Clone, PartialEq, Eq)]
pub enum Error {
    /// A native Win32 call failed with this `HRESULT`.
    WindowsError(i32),
    /// A file system operation failed; the text is the system's message.
    Io(String),
    /// The window handle is not of the kind the platform backend expects.
    UnsupportedWindowHandle,
    /// The native API refused to begin the drag.
    FailedToStartDrag,
    /// The preview image file does not exist.
    ImageNotFound,
    /// No target could be advertised for the payload (GTK).
    EmptyTargetList,
    /// The items could not be dropped.
    FailedToDrop,
    /// The pointer position could not be queried.
    FailedToGetCursorPosition,
}

impl Error {
    /// The description of the error.
    pub open spec fn description(self) -> Seq<char> {
        match self {
            Error::WindowsError(code) => hresult_text(code),
            Error::Io(text) => text@,
            Error::UnsupportedWindowHandle => "unsupported window handle"@,
            Error::FailedToStartDrag => "failed to start drag"@,
            Error::ImageNotFound => "drag image not found"@,
            Error::EmptyTargetList => "empty drag target list"@,
            Error::FailedToDrop => "failed to drop items"@,
            Error::FailedToGetCursorPosition => "failed to get cursor position"@,
        }
    }

    /// The native status code of a `WindowsError`.
    pub fn code(&self) -> (r: Option<i32>)
        ensures
            r == (match *self {
                Error::WindowsError(code) => Some(code),
                _ => None,
            }),
    {
        match self {
            Error::WindowsError(code) => Some(*code),
            _ => None,
        }
    }

    /// Human-readable description.
    ///
    /// An `Io` error shows the system's own message, a `WindowsError` its
    /// status code as eight hexadecimal digits after `0x`.
    pub fn message(&self) -> (r: String)
        ensures
            r@ == self.description(),
    {
        match self {
            Error::WindowsError(code) => format_hresult(*code),
            Error::Io(text) => text.clone(),
            Error::UnsupportedWindowHandle => "unsupported window handle".to_owned(),
            Error::FailedToStartDrag => "failed to start drag".to_owned(),
            Error::ImageNotFound => "drag image not found".to_owned(),
            Error::EmptyTargetList => "empty drag target list".to_owned(),
            Error::FailedToDrop => "failed to drop items".to_owned(),
            Error::FailedToGetCursorPosition => "failed to get cursor position".to_owned(),
        }
    }
}

/// The hexadecimal digit for `n`, upper case.
pub open spec fn hex_digit(n: int) -> char {
    if n < 10 {
        (48 + n) as u8 as char
    } else {
        (55 + n) as u8 as char
    }
}

/// A status code as the unsigned 32-bit number with the same bits.
pub open spec fn unsigned_code(code: i32) -> int {
    if code >= 0 {
        code as int
    } else {
        code + 0x1_0000_0000
    }
}

/// A status code as text: `0x` and its eight hexadecimal digits.
pub open spec fn hresult_text(code: i32) -> Seq<char> {
    let v = unsigned_code(code);
    seq![
        '0',
        'x',
        hex_digit((v / 0x1000_0000) % 16),
        hex_digit((v / 0x100_0000) % 16),
        hex_digit((v / 0x10_0000) % 16),
        hex_digit((v / 0x1_0000) % 16),
        hex_digit((v / 0x1000) % 16),
        hex_digit((v / 0x100) % 16),
        hex_digit((v / 0x10) % 16),
        hex_digit(v % 16),
    ]
}

fn digit(n: u64) -> (r: char)
    requires
        n < 16,
    ensures
        r == hex_digit(n as int),
{
    if n < 10 {
        (48 + n) as u8 as char
    } else {
        (55 + n) as u8 as char
    }
}

fn format_hresult(code: i32) -> (r: String)
    ensures
        r@ == hresult_text(code),
{
    let v: u64 = if code >= 0 {
        code as u64
    } else {
        (code as i64 + 0x1_0000_0000) as u64
    };
    let mut chars: Vec<char> = Vec::new();
    chars.push('0');
    chars.push('x');
    chars.push(digit((v / 0x1000_0000) % 16));
    chars.push(digit((v / 0x100_0000) % 16));
    chars.push(digit((v / 0x10_0000) % 16));
    chars.push(digit((v / 0x1_0000) % 16));
    chars.push(digit((v / 0x1000) % 16));
    chars.push(digit((v / 0x100) % 16));
    chars.push(digit((v / 0x10) % 16));
    chars.push(digit(v % 16));
    assert(chars@ =~= hresult_text(code));
    crate::text::string_of(&chars)
}

} // verus!
