//! What passes between the library and its caller: the actions that the
//! caller carries out on the operating system, and the events by which it
//! reports how each went.

use vstd::prelude::*;

verus! {

/// One thing for the caller to do. After every action but `Finish` the
/// caller reports an [`Event`].
#[derive(Debug, PartialEq, Eq)]
pub enum Action {
    /// Open the key at `path` in the current user's registry hive, creating
    /// it where it is absent. The value actions that follow act on this key.
    OpenKey { path: String },
    /// Write a 32-bit integer value under the open key.
    SetNumber { name: String, value: u32 },
    /// Write a string value under the open key.
    SetText { name: String, value: String },
    /// Delete a value under the open key.
    DeleteValue { name: String },
    /// Tell all top-level windows that the settings in `area` have changed,
    /// waiting at most `timeout_ms` for each.
    Broadcast { area: String, timeout_ms: u32 },
    /// Run a program and wait for it to end. With `capture` its standard
    /// output is collected and reported; without, it goes where the caller's
    /// own output goes.
    Run { program: String, args: Vec<String>, capture: bool },
    /// The operation is over, with this result. Nothing is left to do.
    Finish { result: Result<(), String> },
}

pub enum ActionView {
    OpenKey { path: Seq<char> },
    SetNumber { name: Seq<char>, value: u32 },
    SetText { name: Seq<char>, value: Seq<char> },
    DeleteValue { name: Seq<char> },
    Broadcast { area: Seq<char>, timeout_ms: u32 },
    Run { program: Seq<char>, args: Seq<Seq<char>>, capture: bool },
    Finish { result: Result<(), Seq<char>> },
}

/// A result whose error is a text, seen as a sequence of characters.
pub open spec fn result_view(result: Result<(), String>) -> Result<(), Seq<char>> {
    match result {
        Ok(()) => Ok(()),
        Err(message) => Err(message@),
    }
}

impl View for Action {
    type V = ActionView;

    open spec fn view(&self) -> ActionView {
        match self {
            Action::OpenKey { path } => ActionView::OpenKey { path: path@ },
            Action::SetNumber { name, value } => ActionView::SetNumber {
                name: name@,
                value: *value,
            },
            Action::SetText { name, value } => ActionView::SetText { name: name@, value: value@ },
            Action::DeleteValue { name } => ActionView::DeleteValue { name: name@ },
            Action::Broadcast { area, timeout_ms } => ActionView::Broadcast {
                area: area@,
                timeout_ms: *timeout_ms,
            },
            Action::Run { program, args, capture } => ActionView::Run {
                program: program@,
                args: args.deep_view(),
                capture: *capture,
            },
            Action::Finish { result } => ActionView::Finish { result: result_view(*result) },
        }
    }
}

impl ActionView {
    /// Whether the action acts on the registry key that an `OpenKey` opened.
    pub open spec fn needs_key(self) -> bool {
        self is SetNumber || self is SetText || self is DeleteValue
    }
}

impl Action {
    /// Whether the action acts on the registry key that an `OpenKey` opened.
    pub fn needs_key(&self) -> (b: bool)
        ensures
            b == self@.needs_key(),
    {
        match self {
            Action::SetNumber { .. } => true,
            Action::SetText { .. } => true,
            Action::DeleteValue { .. } => true,
            _ => false,
        }
    }

    /// Whether the action opens a registry key.
    pub fn opens_key(&self) -> (b: bool)
        ensures
            b == (self@ is OpenKey),
    {
        match self {
            Action::OpenKey { .. } => true,
            _ => false,
        }
    }

    /// Whether the action ends the operation.
    pub fn is_finish(&self) -> (b: bool)
        ensures
            b == (self@ is Finish),
    {
        match self {
            Action::Finish { .. } => true,
            _ => false,
        }
    }
}

/// How an action went.
#[derive(Clone, Debug, PartialEq, Eq)]
pub enum Event {
    /// The action was carried out. `output` is what a program that ran with
    /// `capture` wrote to its standard output, and empty otherwise. How the
    /// program ended is of no account.
    Done { output: Vec<u8> },
    /// The action could not be carried out: the registry refused, or the
    /// program could not be started.
    Failed { message: String },
}

pub enum EventView {
    Done { output: Seq<u8> },
    Failed { message: Seq<char> },
}

impl View for Event {
    type V = EventView;

    open spec fn view(&self) -> EventView {
        match self {
            Event::Done { output } => EventView::Done { output: output@ },
            Event::Failed { message } => EventView::Failed { message: message@ },
        }
    }
}

/// An action together with what its failure means: that of a mandatory step
/// ends the operation with the failure's message, any other is passed over.
#[derive(Debug, PartialEq, Eq)]
pub struct Step {
    pub action: Action,
    pub mandatory: bool,
}

pub struct StepView {
    pub action: ActionView,
    pub mandatory: bool,
}

impl View for Step {
    type V = StepView;

    open spec fn view(&self) -> StepView {
        StepView { action: self.action@, mandatory: self.mandatory }
    }
}

} // verus!
