//! One operation, from its first action to its result. The session decides;
//! the caller acts: it carries out the action it is handed, reports the
//! event, and is handed the next action, until that action is `Finish`.

use crate::action::{Action, ActionView, Event, EventView, Step, StepView, result_view};
use crate::config::{Platform, ProxyRequest, ProxyRequestView};
use crate::script::{
    listing_action, listing_command, services_script, services_steps, steps_view, windows_script,
    windows_steps, UNSUPPORTED_MESSAGE,
};
use crate::services::{applicable_services, service_names, utf8_lossy};
use std::collections::VecDeque;
use vstd::prelude::*;

verus! {

/// What a session waits for.
pub enum AwaitingView {
    /// The event of the command that lists the network services.
    Listing,
    /// The event of a step.
    Step { mandatory: bool, opens_key: bool },
    /// Nothing: the operation is over.
    Finished { result: Result<(), Seq<char>> },
}

/// A session as a value: the request, what it waits for, the steps that are
/// still to come, whether the registry key is open, and the messages of the
/// failures that were passed over so far.
pub struct SessionView {
    pub request: ProxyRequestView,
    pub awaiting: AwaitingView,
    pub pending: Seq<StepView>,
    pub key_open: bool,
    pub passed_over: Seq<Seq<char>>,
}

/// `pending` without the steps at its head that cannot be carried out: those
/// that need the registry key while none is open.
pub open spec fn runnable(pending: Seq<StepView>, key_open: bool) -> Seq<StepView>
    decreases pending.len(),
{
    if pending.len() > 0 && pending[0].action.needs_key() && !key_open {
        runnable(pending.skip(1), key_open)
    } else {
        pending
    }
}

/// The session ends with `result`.
pub open spec fn finish(s: SessionView, result: Result<(), Seq<char>>) -> (
    SessionView,
    ActionView,
) {
    (
        SessionView {
            awaiting: AwaitingView::Finished { result },
            pending: Seq::empty(),
            ..s
        },
        ActionView::Finish { result },
    )
}

/// The session goes on to the next step that can be carried out, and ends
/// with success where there is none.
pub open spec fn proceed(s: SessionView) -> (SessionView, ActionView) {
    let rest = runnable(s.pending, s.key_open);
    if rest.len() == 0 {
        finish(s, Ok(()))
    } else {
        (
            SessionView {
                awaiting: AwaitingView::Step {
                    mandatory: rest[0].mandatory,
                    opens_key: rest[0].action is OpenKey,
                },
                pending: rest.skip(1),
                ..s
            },
            rest[0].action,
        )
    }
}

/// How an operation begins. On Windows the script is fixed from the start;
/// on macOS the services are listed first; elsewhere the operation fails at
/// once, with no action on the system.
pub open spec fn begin_model(platform: Platform, request: ProxyRequestView) -> (
    SessionView,
    ActionView,
) {
    let fresh = SessionView {
        request,
        awaiting: AwaitingView::Listing,
        pending: Seq::empty(),
        key_open: false,
        passed_over: Seq::empty(),
    };
    match platform {
        Platform::Windows => proceed(SessionView { pending: windows_script(request), ..fresh }),
        Platform::MacOs => (fresh, listing_action()),
        Platform::Unsupported => finish(fresh, Err(UNSUPPORTED_MESSAGE@)),
    }
}

/// How a session answers an event.
///
/// - A failure of a mandatory step, or of the listing, ends the operation
///   with the failure's message. Any other failure is passed over: its
///   message is kept for whoever wants to know, and the result is as if
///   nothing had failed.
/// - A listing that was made gives the steps for the services it names.
/// - A key that was opened lets the steps that need it be carried out.
/// - A session that is over stays over.
pub open spec fn advance_model(s: SessionView, event: EventView) -> (SessionView, ActionView) {
    match s.awaiting {
        AwaitingView::Finished { result } => (s, ActionView::Finish { result }),
        AwaitingView::Listing => match event {
            EventView::Failed { message } => finish(s, Err(message)),
            EventView::Done { output } => proceed(
                SessionView {
                    pending: services_script(s.request, applicable_services(utf8_lossy(output))),
                    ..s
                },
            ),
        },
        AwaitingView::Step { mandatory, opens_key } => match event {
            EventView::Failed { message } => if mandatory {
                finish(s, Err(message))
            } else {
                proceed(SessionView { passed_over: s.passed_over.push(message), ..s })
            },
            EventView::Done { output } => proceed(
                SessionView { key_open: s.key_open || opens_key, ..s },
            ),
        },
    }
}

enum Awaiting {
    Listing,
    Step { mandatory: bool, opens_key: bool },
    Finished { result: Result<(), String> },
}

impl View for Awaiting {
    type V = AwaitingView;

    closed spec fn view(&self) -> AwaitingView {
        match self {
            Awaiting::Listing => AwaitingView::Listing,
            Awaiting::Step { mandatory, opens_key } => AwaitingView::Step {
                mandatory: *mandatory,
                opens_key: *opens_key,
            },
            Awaiting::Finished { result } => AwaitingView::Finished {
                result: result_view(*result),
            },
        }
    }
}

/// An operation in progress.
pub struct ProxySession {
    request: ProxyRequest,
    awaiting: Awaiting,
    pending: VecDeque<Step>,
    key_open: bool,
    passed_over: Vec<String>,
}

impl View for ProxySession {
    type V = SessionView;

    closed spec fn view(&self) -> SessionView {
        SessionView {
            request: self.request@,
            awaiting: self.awaiting@,
            pending: steps_view(self.pending@),
            key_open: self.key_open,
            passed_over: self.passed_over.deep_view(),
        }
    }
}

fn copy_result(result: &Result<(), String>) -> (copy: Result<(), String>)
    ensures
        result_view(copy) == result_view(*result),
{
    match result {
        Ok(()) => Ok(()),
        Err(message) => Err(message.clone()),
    }
}

impl ProxySession {
    /// Begins `request` on `platform` and says what to do first.
    pub fn begin(platform: Platform, request: ProxyRequest) -> (started: (ProxySession, Action))
        ensures
            (started.0@, started.1@) == begin_model(platform, request@),
    {
        match platform {
            Platform::Windows => {
                let pending = windows_steps(&request);
                let mut session = ProxySession::fresh(request, pending);
                let action = session.proceed();
                (session, action)
            },
            Platform::MacOs => {
                let session = ProxySession::fresh(request, VecDeque::new());
                assert(session@.pending =~= Seq::<StepView>::empty());
                (session, listing_command())
            },
            Platform::Unsupported => {
                let mut session = ProxySession::fresh(request, VecDeque::new());
                let action = session.finish(Err(UNSUPPORTED_MESSAGE.to_owned()));
                (session, action)
            },
        }
    }

    /// A session that has done nothing yet and has `pending` before it.
    fn fresh(request: ProxyRequest, pending: VecDeque<Step>) -> (session: ProxySession)
        ensures
            session@ == (SessionView {
                request: request@,
                awaiting: AwaitingView::Listing,
                pending: steps_view(pending@),
                key_open: false,
                passed_over: Seq::empty(),
            }),
    {
        let session = ProxySession {
            request,
            awaiting: Awaiting::Listing,
            pending,
            key_open: false,
            passed_over: Vec::new(),
        };
        assert(session.passed_over.deep_view() =~= Seq::<Seq<char>>::empty());
        session
    }

    /// Takes the event of the action that was handed out last and says what
    /// to do next.
    pub fn advance(&mut self, event: Event) -> (action: Action)
        ensures
            (final(self)@, action@) == advance_model(old(self)@, event@),
    {
        match &self.awaiting {
            Awaiting::Finished { result } => Action::Finish { result: copy_result(result) },
            Awaiting::Listing => match event {
                Event::Failed { message } => self.finish(Err(message)),
                Event::Done { output } => {
                    let services = service_names(output.as_slice());
                    self.pending = services_steps(&self.request, &services);
                    self.proceed()
                },
            },
            Awaiting::Step { mandatory, opens_key } => match event {
                Event::Failed { message } => {
                    if *mandatory {
                        self.finish(Err(message))
                    } else {
                        let ghost before = self.passed_over.deep_view();
                        let ghost text = message@;
                        self.passed_over.push(message);
                        assert(self.passed_over.deep_view() =~= before.push(text));
                        self.proceed()
                    }
                },
                Event::Done { output } => {
                    if *opens_key {
                        self.key_open = true;
                    }
                    self.proceed()
                },
            },
        }
    }

    /// Whether the operation is over.
    pub fn is_finished(&self) -> (b: bool)
        ensures
            b == (self@.awaiting is Finished),
    {
        match &self.awaiting {
            Awaiting::Finished { .. } => true,
            _ => false,
        }
    }

    /// The result of the operation, once it is over.
    pub fn result(&self) -> (r: Option<Result<(), String>>)
        ensures
            match self@.awaiting {
                AwaitingView::Finished { result } => r matches Some(given) && result_view(given)
                    == result,
                _ => r is None,
            },
    {
        match &self.awaiting {
            Awaiting::Finished { result } => Some(copy_result(result)),
            _ => None,
        }
    }

    /// The messages of the failures that were passed over so far, oldest
    /// first. They have no part in the result.
    pub fn passed_over(&self) -> (messages: Vec<String>)
        ensures
            messages.deep_view() == self@.passed_over,
    {
        let mut messages: Vec<String> = Vec::new();
        let mut i: usize = 0;
        while i < self.passed_over.len()
            invariant
                i <= self.passed_over.len(),
                messages.deep_view() == self.passed_over.deep_view().take(i as int),
            decreases self.passed_over.len() - i,
        {
            let ghost before = messages.deep_view();
            messages.push(self.passed_over[i].clone());
            assert(messages.deep_view() =~= before.push(self.passed_over[i as int]@));
            assert(self.passed_over.deep_view().take(i + 1) =~= before.push(
                self.passed_over[i as int]@,
            ));
            i = i + 1;
        }
        assert(self.passed_over.deep_view().take(i as int) =~= self.passed_over.deep_view());
        messages
    }

    fn finish(&mut self, result: Result<(), String>) -> (action: Action)
        ensures
            (final(self)@, action@) == finish(old(self)@, result_view(result)),
    {
        let action = Action::Finish { result: copy_result(&result) };
        self.awaiting = Awaiting::Finished { result };
        self.pending = VecDeque::new();
        assert(steps_view(self.pending@) =~= Seq::<StepView>::empty());
        action
    }

    fn proceed(&mut self) -> (action: Action)
        ensures
            (final(self)@, action@) == proceed(old(self)@),
    {
        loop
            invariant
                self.request == old(self).request,
                self.awaiting == old(self).awaiting,
                self.key_open == old(self).key_open,
                self.passed_over == old(self).passed_over,
                runnable(steps_view(self.pending@), self.key_open) == runnable(
                    steps_view(old(self).pending@),
                    self.key_open,
                ),
            decreases self.pending@.len(),
        {
            let ghost before = steps_view(self.pending@);
            match self.pending.pop_front() {
                None => {
                    assert(before.len() == 0);
                    return self.finish(Ok(()));
                },
                Some(step) => {
                    assert(before[0] == step@);
                    assert(steps_view(self.pending@) =~= before.skip(1));
                    if step.action.needs_key() && !self.key_open {
                        // The key could not be opened: the step is left out.
                    } else {
                        self.awaiting = Awaiting::Step {
                            mandatory: step.mandatory,
                            opens_key: step.action.opens_key(),
                        };
                        return step.action;
                    }
                },
            }
        }
    }
}

} // verus!
