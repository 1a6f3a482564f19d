//! An error that remembers the places it passed through.

use vstd::prelude::*;
use vstd::string::StringExecFns;

use crate::decimal::{decimal, decimal_text};

verus! {

/// The model of a `Backtrace`: a place in the source, and what failed there.
pub struct Frame {
    pub message: Option<Seq<char>>,
    pub file: Seq<char>,
    pub line: u32,
    pub column: u32,
}

/// The model of an `Error`.
pub struct ErrorModel {
    pub message: Option<Seq<char>>,
    pub frames: Seq<Frame>,
}

/// What a frame says, as text: its message, or a note that the error only
/// passed through, then the place.
pub open spec fn frame_text(frame: Frame) -> Seq<char> {
    (match frame.message {
        Some(message) => message,
        None => "propagated..."@,
    }) + " (at "@ + frame.file + ":"@ + decimal(frame.line as nat) + ":"@ + decimal(
        frame.column as nat,
    ) + ")"@
}

/// The text of the first frame at or after `from` that has a message, empty
/// where none has.
pub open spec fn first_message(frames: Seq<Frame>, from: int) -> Seq<char>
    decreases frames.len() - from + 1,
{
    if from < 0 || from >= frames.len() {
        Seq::empty()
    } else if frames[from].message is Some {
        frame_text(frames[from])
    } else {
        first_message(frames, from + 1)
    }
}

/// `text` with one more line that lists `frame`.
pub open spec fn with_cause(text: Seq<char>, frame: Frame) -> Seq<char> {
    (if text.len() > 0 {
        text + "\n"@
    } else {
        text
    }) + " - "@ + frame_text(frame)
}

/// `text` with one line for each of the first `n` frames, the latest first.
pub open spec fn with_causes(text: Seq<char>, frames: Seq<Frame>, n: int) -> Seq<char>
    decreases n,
{
    if n <= 0 || n > frames.len() {
        text
    } else {
        with_causes(with_cause(text, frames[n - 1]), frames, n - 1)
    }
}

/// What an error says, as text: the first frame with a message, and, where
/// the error has more than one frame, a line for each frame, the latest first.
pub open spec fn error_text(frames: Seq<Frame>) -> Seq<char> {
    let head = first_message(frames, 0);
    if frames.len() > 1 {
        with_causes(head, frames, frames.len() as int)
    } else {
        head
    }
}

/// A place that an error passed through.
#[derive(Debug)]
pub struct Backtrace {
    message: Option<String>,
    file: String,
    line: u32,
    column: u32,
}

impl View for Backtrace {
    type V = Frame;

    closed spec fn view(&self) -> Frame {
        Frame {
            message: match self.message {
                Some(message) => Some(message@),
                None => None,
            },
            file: self.file@,
            line: self.line,
            column: self.column,
        }
    }
}

impl Backtrace {
    /// What this place says, as text.
    pub fn to_string(&self) -> (s: String)
        ensures
            s@ == frame_text(self@),
    {
        let mut s = match &self.message {
            Some(message) => message.clone(),
            None => "propagated...".to_owned(),
        };
        s.append(" (at ");
        s.append(self.file.as_str());
        s.append(":");
        s.append(decimal_text(self.line as u64).as_str());
        s.append(":");
        s.append(decimal_text(self.column as u64).as_str());
        s.append(")");
        s
    }
}

/// An error with an optional message and the places it passed through.
#[derive(Debug)]
pub struct Error {
    message: Option<String>,
    backtrace: Vec<Backtrace>,
}

impl View for Error {
    type V = ErrorModel;

    closed spec fn view(&self) -> ErrorModel {
        ErrorModel {
            message: match self.message {
                Some(message) => Some(message@),
                None => None,
            },
            frames: Seq::new(self.backtrace@.len(), |i: int| self.backtrace@[i]@),
        }
    }
}

impl Error {
    /// An error with a message, that has passed through no place yet.
    pub fn new(message: &str) -> (error: Error)
        ensures
            error@ == (ErrorModel { message: Some(message@), frames: Seq::empty() }),
    {
        let error = Error { message: Some(message.to_owned()), backtrace: Vec::new() };
        assert(error@.frames == Seq::<Frame>::empty());
        error
    }

    /// An error without a message, that only passes on a failure.
    pub fn propagate() -> (error: Error)
        ensures
            error@ == (ErrorModel { message: None, frames: Seq::empty() }),
    {
        let error = Error { message: None, backtrace: Vec::new() };
        assert(error@.frames == Seq::<Frame>::empty());
        error
    }

    /// The places that the error passed through, the earliest first.
    pub fn backtrace(&self) -> (frames: &Vec<Backtrace>)
        ensures
            frames@.len() == self@.frames.len(),
            forall|i: int| 0 <= i < frames@.len() ==> (#[trigger] frames@[i])@ == self@.frames[i],
    {
        &self.backtrace
    }

    /// The error after it passed through the place `file:line:column`: that
    /// place is added, with the error's own message.
    pub fn traced(self, file: &str, line: u32, column: u32) -> (error: Error)
        ensures
            error@ == (ErrorModel {
                message: self@.message,
                frames: self@.frames.push(
                    Frame { message: self@.message, file: file@, line: line, column: column },
                ),
            }),
    {
        let mut error = self;
        let message = match &error.message {
            Some(message) => Some(message.clone()),
            None => None,
        };
        error.backtrace.push(Backtrace { message, file: file.to_owned(), line, column });
        assert(error@.frames == self@.frames.push(
            Frame { message: self@.message, file: file@, line: line, column: column },
        ));
        error
    }

    /// The error that passes on a failure of another kind, which said `cause`
    /// at the place `file:line:column`.
    pub fn caused(cause: &str, file: &str, line: u32, column: u32) -> (error: Error)
        ensures
            error@ == (ErrorModel {
                message: None,
                frames: seq![
                    Frame { message: Some(cause@), file: file@, line: line, column: column },
                ],
            }),
    {
        let mut error = Error::propagate();
        error.backtrace.push(
            Backtrace { message: Some(cause.to_owned()), file: file.to_owned(), line, column },
        );
        assert(error@.frames == seq![
            Frame { message: Some(cause@), file: file@, line: line, column: column },
        ]);
        error
    }

    fn head_text(&self) -> (s: String)
        ensures
            s@ == first_message(self@.frames, 0),
    {
        let n = self.backtrace.len();
        let mut i: usize = 0;
        while i < n
            invariant
                n == self.backtrace@.len(),
                n == self@.frames.len(),
                i <= n,
                first_message(self@.frames, 0) == first_message(self@.frames, i as int),
            decreases n - i,
        {
            if self.backtrace[i].message.is_some() {
                assert(self@.frames[i as int] == self.backtrace@[i as int]@);
                return self.backtrace[i].to_string();
            }
            assert(self@.frames[i as int] == self.backtrace@[i as int]@);
            i = i + 1;
        }
        String::new()
    }

    /// What the error says, as text.
    pub fn to_string(&self) -> (s: String)
        ensures
            s@ == error_text(self@.frames),
    {
        let mut s = self.head_text();
        let n = self.backtrace.len();
        if n > 1 {
            let mut k: usize = n;
            while k > 0
                invariant
                    n == self.backtrace@.len(),
                    n == self@.frames.len(),
                    k <= n,
                    with_causes(first_message(self@.frames, 0), self@.frames, n as int)
                        == with_causes(s@, self@.frames, k as int),
                decreases k,
            {
                k = k - 1;
                assert(self@.frames[k as int] == self.backtrace@[k as int]@);
                if !s.as_str().is_empty() {
                    s.append("\n");
                }
                s.append(" - ");
                s.append(self.backtrace[k].to_string().as_str());
            }
        }
        s
    }
}

/// An error with the text as its message.
impl From<String> for Error {
    fn from(value: String) -> (error: Error)
        ensures
            error@ == (ErrorModel { message: Some(value@), frames: Seq::empty() }),
    {
        Error::new(value.as_str())
    }
}

impl vstd::std_specs::convert::FromSpecImpl<String> for Error {
    open spec fn obeys_from_spec() -> bool {
        false
    }

    open spec fn from_spec(value: String) -> Error {
        arbitrary()
    }
}

/// An error with the text as its message.
impl From<&str> for Error {
    fn from(value: &str) -> (error: Error)
        ensures
            error@ == (ErrorModel { message: Some(value@), frames: Seq::empty() }),
    {
        Error::new(value)
    }
}

impl vstd::std_specs::convert::FromSpecImpl<&str> for Error {
    open spec fn obeys_from_spec() -> bool {
        false
    }

    open spec fn from_spec(value: &str) -> Error {
        arbitrary()
    }
}

/// An error without a message, that only passes on a failure.
impl From<()> for Error {
    fn from(value: ()) -> (error: Error)
        ensures
            error@ == (ErrorModel { message: None, frames: Seq::empty() }),
    {
        Error::propagate()
    }
}

impl vstd::std_specs::convert::FromSpecImpl<()> for Error {
    open spec fn obeys_from_spec() -> bool {
        false
    }

    open spec fn from_spec(value: ()) -> Error {
        arbitrary()
    }
}

/// Results that can note the place they pass through when they are failures.
pub trait ResultExt<T>: Sized {
    /// The result after it passed through `file:line:column`.
    spec fn traced_at(self, file: Seq<char>, line: u32, column: u32) -> Result<T, ErrorModel>;

    /// Notes the place `file:line:column` on a failure; a success is left as it is.
    fn trace(self, file: &str, line: u32, column: u32) -> (r: Result<T, Error>)
        ensures
            match r {
                Ok(value) => self.traced_at(file@, line, column) == Ok::<T, ErrorModel>(value),
                Err(error) => self.traced_at(file@, line, column) == Err::<T, ErrorModel>(error@),
            },
    ;
}

impl<T> ResultExt<T> for Result<T, Error> {
    open spec fn traced_at(self, file: Seq<char>, line: u32, column: u32) -> Result<
        T,
        ErrorModel,
    > {
        match self {
            Ok(value) => Ok(value),
            Err(error) => Err(
                ErrorModel {
                    message: error@.message,
                    frames: error@.frames.push(
                        Frame { message: error@.message, file: file, line: line, column: column },
                    ),
                },
            ),
        }
    }

    fn trace(self, file: &str, line: u32, column: u32) -> (r: Result<T, Error>) {
        match self {
            Ok(value) => Ok(value),
            Err(error) => Err(error.traced(file, line, column)),
        }
    }
}

} // verus!
