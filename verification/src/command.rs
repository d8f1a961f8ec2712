//! What the driver is asked to do, and what it reports back.

use vstd::prelude::*;
use vstd::string::*;
use crate::error::{Operation, RunError};

verus! {

/// One child process to start: the program, its arguments in order, and the
/// operation it stands for.
#[derive(Debug, PartialEq, Eq)]
pub struct Invocation {
    pub program: String,
    pub args: Vec<String>,
    pub operation: Operation,
}

pub struct InvocationView {
    pub program: Seq<char>,
    pub args: Seq<Seq<char>>,
    pub operation: Operation,
}

impl View for Invocation {
    type V = InvocationView;

    open spec fn view(&self) -> InvocationView {
        InvocationView {
            program: self.program@,
            args: self.args.deep_view(),
            operation: self.operation,
        }
    }
}

/// Text to put at the end of a file, which is created if it is missing.
#[derive(Debug, PartialEq, Eq)]
pub struct Append {
    pub path: String,
    /// The bytes to write, line terminator included.
    pub data: String,
}

pub struct AppendView {
    pub path: Seq<char>,
    pub data: Seq<char>,
}

impl View for Append {
    type V = AppendView;

    open spec fn view(&self) -> AppendView {
        AppendView { path: self.path@, data: self.data@ }
    }
}

impl AppendView {
    /// What the file holds after the request has been carried out in full on
    /// a file that held `before` (nothing, where it did not exist).
    pub open spec fn applied(self, before: Seq<char>) -> Seq<char> {
        before + self.data
    }
}

/// One request to the driver.
#[derive(Debug, PartialEq, Eq)]
pub enum Action {
    /// Read the named variable of the process environment.
    ReadVariable(String),
    /// Set the variable in the environment that later children inherit.
    Export(String, String),
    /// Start the child with inherited streams and wait for it.
    Run(Invocation),
    /// Start the child, collect its standard output, and wait for it.
    Capture(Invocation),
    /// Start the child with its standard output piped, keep that stream,
    /// and do not wait.
    Spawn(Invocation),
    /// Start the child with the kept stream as its standard input and wait
    /// for it.
    Feed(Invocation),
    /// Append to a file.
    Write(Append),
}

pub enum ActionView {
    ReadVariable(Seq<char>),
    Export(Seq<char>, Seq<char>),
    Run(InvocationView),
    Capture(InvocationView),
    Spawn(InvocationView),
    Feed(InvocationView),
    Write(AppendView),
}

impl View for Action {
    type V = ActionView;

    open spec fn view(&self) -> ActionView {
        match self {
            Action::ReadVariable(name) => ActionView::ReadVariable(name@),
            Action::Export(name, value) => ActionView::Export(name@, value@),
            Action::Run(child) => ActionView::Run(child@),
            Action::Capture(child) => ActionView::Capture(child@),
            Action::Spawn(child) => ActionView::Spawn(child@),
            Action::Feed(child) => ActionView::Feed(child@),
            Action::Write(request) => ActionView::Write(request@),
        }
    }
}

/// What the driver saw when it carried out a request.
#[derive(Debug, PartialEq, Eq)]
pub enum Event {
    /// The variable's value; `None` where it is unset or not valid text.
    Variable(Option<String>),
    /// The variable was set.
    Exported,
    /// The child ran to its end; its exit code, `None` where a signal ended it.
    Exited(Option<i32>),
    /// The child ran to its end; its exit code and all of its standard output.
    Captured(Option<i32>, Vec<u8>),
    /// The child started; whether its output stream could be taken.
    Spawned(bool),
    /// The file was opened; whether the text was written.
    Appended(bool),
    /// The request could not be carried out: the child did not start or could
    /// not be waited for, the file could not be opened.
    Failed,
}

pub enum EventView {
    Variable(Option<Seq<char>>),
    Exported,
    Exited(Option<i32>),
    Captured(Option<i32>, Seq<u8>),
    Spawned(bool),
    Appended(bool),
    Failed,
}

impl View for Event {
    type V = EventView;

    open spec fn view(&self) -> EventView {
        match self {
            Event::Variable(value) => EventView::Variable(value.deep_view()),
            Event::Exported => EventView::Exported,
            Event::Exited(code) => EventView::Exited(*code),
            Event::Captured(code, output) => EventView::Captured(*code, output@),
            Event::Spawned(piped) => EventView::Spawned(*piped),
            Event::Appended(written) => EventView::Appended(*written),
            Event::Failed => EventView::Failed,
        }
    }
}

/// The bytes of an optional buffer.
pub open spec fn bytes_of(buffer: Option<Vec<u8>>) -> Option<Seq<u8>> {
    match buffer {
        Some(bytes) => Some(bytes@),
        None => None,
    }
}

impl EventView {
    /// A child ran to its end and exited with status zero.
    pub open spec fn exited_cleanly(self) -> bool {
        self == EventView::Exited(Some(0i32))
    }

    /// The value of a variable that was read.
    pub open spec fn value(self) -> Option<Seq<char>> {
        match self {
            EventView::Variable(value) => value,
            _ => None,
        }
    }

    /// The standard output of a child that was captured and exited with
    /// status zero.
    pub open spec fn output(self) -> Option<Seq<u8>> {
        match self {
            EventView::Captured(Some(code), bytes) if code == 0 => Some(bytes),
            _ => None,
        }
    }
}

impl InvocationView {
    /// Success iff the child started and exited with status zero; every other
    /// report is one failure, named by the operation.
    pub open spec fn settled(self, event: EventView) -> Result<(), RunError> {
        if event.exited_cleanly() {
            Ok(())
        } else {
            Err(RunError::Step(self.operation))
        }
    }
}

impl AppendView {
    /// Success iff the file was opened. A write that failed after that is for
    /// the driver to log; it does not fail the step.
    pub open spec fn settled(self, event: EventView) -> Result<(), RunError> {
        if event is Appended {
            Ok(())
        } else {
            Err(RunError::FileOpen)
        }
    }
}

impl Event {
    pub fn exited_cleanly(&self) -> (r: bool)
        ensures
            r == self@.exited_cleanly(),
    {
        match self {
            Event::Exited(Some(code)) => *code == 0,
            _ => false,
        }
    }

    /// Takes the captured output out of the event.
    pub fn output(self) -> (r: Option<Vec<u8>>)
        ensures
            bytes_of(r) == self@.output(),
    {
        match self {
            Event::Captured(Some(code), bytes) => {
                if code == 0 {
                    Some(bytes)
                } else {
                    None
                }
            },
            _ => None,
        }
    }
}

impl Invocation {
    pub fn settle(&self, event: &Event) -> (r: Result<(), RunError>)
        ensures
            r == self@.settled(event@),
    {
        if event.exited_cleanly() {
            Ok(())
        } else {
            Err(RunError::Step(self.operation))
        }
    }
}

impl Append {
    /// Carries the request out on a file whose contents are held in memory.
    pub fn apply(&self, contents: &mut String)
        ensures
            final(contents)@ == self@.applied(old(contents)@),
    {
        contents.append(self.data.as_str());
    }

    pub fn settle(&self, event: &Event) -> (r: Result<(), RunError>)
        ensures
            r == self@.settled(event@),
    {
        match event {
            Event::Appended(_) => Ok(()),
            _ => Err(RunError::FileOpen),
        }
    }
}

/// Appending does not look at what the file holds: a request carried out
/// twice leaves its text in the file twice, one after the other.
pub proof fn lemma_append_twice(request: AppendView, before: Seq<char>)
    ensures
        request.applied(request.applied(before)) == before + request.data + request.data,
{
}

} // verus!
