//! Routing of tray menu selections to window and process actions.
//!
//! The router decides; the hosting shell performs. For each selection the
//! shell looks up the main window, tells the router whether it exists, and
//! carries out the calls it gets back, in their order. Selections from
//! several sources pass through the router's queue, which hands them out
//! one at a time in the order of their arrival.

use crate::error::ErrorKind;
use std::collections::VecDeque;
use vstd::prelude::*;
use vstd::string::*;

verus! {

/// The label of the window that `Show` is meant for.
pub const MAIN_WINDOW: &'static str = "main";

/// The exit code that `Quit` ends the process with.
pub const EXIT_CODE: i32 = 0;

/// A selection in the tray menu.
#[derive(Clone, Copy, Debug, PartialEq, Eq, Structural)]
pub enum MenuAction {
    /// Bring the main window to the front.
    Show,
    /// End the process.
    Quit,
}

/// One thing that the hosting shell is asked to do.
#[derive(Clone, Copy, Debug, PartialEq, Eq, Structural)]
pub enum HostCall {
    /// Make the main window visible.
    ShowWindow,
    /// Give the main window the input focus.
    FocusWindow,
    /// End the process at once with this exit code.
    Terminate(i32),
}

/// What the router decided for one selection.
#[derive(Debug)]
pub struct Routing {
    /// The calls to perform, first to last.
    pub calls: Vec<HostCall>,
    /// What is worth a line in the log, without being a failure.
    pub notice: Option<ErrorKind>,
}

/// The selection that a menu item's identifier stands for.
pub open spec fn action_of(id: Seq<char>) -> Option<MenuAction> {
    if id == "show"@ {
        Some(MenuAction::Show)
    } else if id == "quit"@ {
        Some(MenuAction::Quit)
    } else {
        None
    }
}

/// The calls that a selection leads to. `Show` makes the window visible and
/// then focuses it, or does nothing where there is no window; `Quit` ends
/// the process whether or not there is one.
pub open spec fn routed_calls(action: MenuAction, window_found: bool) -> Seq<HostCall> {
    match action {
        MenuAction::Show => if window_found {
            seq![HostCall::ShowWindow, HostCall::FocusWindow]
        } else {
            seq![]
        },
        MenuAction::Quit => seq![HostCall::Terminate(EXIT_CODE)],
    }
}

/// The notice that goes with a selection: a missing window, for `Show`
/// alone.
pub open spec fn routed_notice(action: MenuAction, window_found: bool) -> Option<ErrorKind> {
    if action == MenuAction::Show && !window_found {
        Some(ErrorKind::WindowNotFound)
    } else {
        None
    }
}

impl MenuAction {
    /// Reads the identifier of a menu item. Identifiers other than `show`
    /// and `quit` stand for no selection.
    pub fn from_id(id: &str) -> (res: Option<MenuAction>)
        ensures
            res == action_of(id@),
    {
        let given = id.to_owned();
        if given == "show".to_owned() {
            Some(MenuAction::Show)
        } else if given == "quit".to_owned() {
            Some(MenuAction::Quit)
        } else {
            None
        }
    }
}

/// Decides what the shell does for one selection, given whether the main
/// window exists at this moment.
pub fn route(action: MenuAction, window_found: bool) -> (res: Routing)
    ensures
        res.calls@ == routed_calls(action, window_found),
        res.notice == routed_notice(action, window_found),
{
    let mut calls: Vec<HostCall> = Vec::new();
    let mut notice: Option<ErrorKind> = None;
    match action {
        MenuAction::Show => {
            if window_found {
                calls.push(HostCall::ShowWindow);
                calls.push(HostCall::FocusWindow);
            } else {
                notice = Some(ErrorKind::WindowNotFound);
            }
        },
        MenuAction::Quit => {
            calls.push(HostCall::Terminate(EXIT_CODE));
        },
    }
    assert(calls@ =~= routed_calls(action, window_found));
    Routing { calls, notice }
}

/// The state of a router: the selections that wait, oldest first, and
/// whether `Quit` has been handed out.
pub struct RouterView {
    pub pending: Seq<MenuAction>,
    pub terminated: bool,
}

impl RouterView {
    /// The selection that is handed out next, if any. After `Quit` none is.
    pub open spec fn next_action(self) -> Option<MenuAction> {
        if self.terminated || self.pending.len() == 0 {
            None
        } else {
            Some(self.pending[0])
        }
    }

    /// The state after one more selection has arrived.
    pub open spec fn after_submit(self, action: MenuAction) -> RouterView {
        RouterView { pending: self.pending.push(action), terminated: self.terminated }
    }

    /// The state after the next selection has been handed out.
    pub open spec fn after_next(self) -> RouterView {
        match self.next_action() {
            None => self,
            Some(action) => RouterView {
                pending: self.pending.drop_first(),
                terminated: action == MenuAction::Quit,
            },
        }
    }

    /// The selections that the next `steps` hand-outs deliver, in order.
    pub open spec fn delivered(self, steps: nat) -> Seq<MenuAction>
        decreases steps,
    {
        if steps == 0 {
            seq![]
        } else {
            match self.next_action() {
                None => seq![],
                Some(action) => seq![action] + self.after_next().delivered((steps - 1) as nat),
            }
        }
    }
}

/// The selections of a queue that are ever handled: all of them up to and
/// including the first `Quit`.
pub open spec fn handled(pending: Seq<MenuAction>) -> Seq<MenuAction>
    decreases pending.len(),
{
    if pending.len() == 0 {
        seq![]
    } else if pending[0] == MenuAction::Quit {
        seq![MenuAction::Quit]
    } else {
        seq![pending[0]] + handled(pending.drop_first())
    }
}

/// What is handled is a prefix of what arrived: nothing is reordered,
/// dropped from the middle, or merged.
pub proof fn lemma_handled_is_a_prefix(pending: Seq<MenuAction>)
    ensures
        handled(pending).len() <= pending.len(),
        handled(pending) == pending.take(handled(pending).len() as int),
    decreases pending.len(),
{
    if pending.len() > 0 && pending[0] != MenuAction::Quit {
        lemma_handled_is_a_prefix(pending.drop_first());
        let rest = pending.drop_first();
        let n = handled(rest).len() as int;
        assert(handled(pending) =~= pending.take(n + 1)) by {
            assert(rest.take(n) =~= pending.subrange(1, n + 1));
        }
    } else if pending.len() > 0 {
        assert(handled(pending) =~= pending.take(1));
    } else {
        assert(handled(pending) =~= pending.take(0));
    }
}

/// A router that has not handed out `Quit` delivers its selections in the
/// order of their arrival, one for each hand-out, and stops after the first
/// `Quit`.
pub proof fn lemma_delivery_in_arrival_order(state: RouterView, steps: nat)
    requires
        !state.terminated,
    ensures
        state.delivered(steps) == if steps <= handled(state.pending).len() {
            handled(state.pending).take(steps as int)
        } else {
            handled(state.pending)
        },
    decreases steps,
{
    let all = handled(state.pending);
    if steps == 0 {
        assert(all.take(0) =~= Seq::<MenuAction>::empty());
    } else if state.pending.len() == 0 {
    } else if state.pending[0] == MenuAction::Quit {
        let after = state.after_next();
        assert(after.terminated);
        assert(after.delivered((steps - 1) as nat) =~= Seq::<MenuAction>::empty());
        assert(state.delivered(steps) =~= seq![MenuAction::Quit]);
        assert(all.take(1) =~= all);
    } else {
        let after = state.after_next();
        lemma_delivery_in_arrival_order(after, (steps - 1) as nat);
        let rest = handled(after.pending);
        assert(all == seq![state.pending[0]] + rest);
        if steps - 1 <= rest.len() {
            assert(all.take(steps as int) =~= seq![state.pending[0]] + rest.take(steps - 1));
        }
    }
}

/// The router with its queue. It is meant for one thread: each hand-out
/// runs to its end before the next begins.
pub struct TrayEventRouter {
    pending: VecDeque<MenuAction>,
    terminated: bool,
}

impl View for TrayEventRouter {
    type V = RouterView;

    closed spec fn view(&self) -> RouterView {
        RouterView { pending: self.pending@, terminated: self.terminated }
    }
}

impl TrayEventRouter {
    /// A router with nothing waiting.
    pub fn new() -> (router: TrayEventRouter)
        ensures
            router@.pending.len() == 0,
            !router@.terminated,
    {
        TrayEventRouter { pending: VecDeque::new(), terminated: false }
    }

    /// Puts a selection at the end of the queue.
    pub fn submit(&mut self, action: MenuAction)
        ensures
            final(self)@ == old(self)@.after_submit(action),
    {
        self.pending.push_back(action);
    }

    /// The number of selections that wait.
    pub fn pending(&self) -> (n: usize)
        ensures
            n == self@.pending.len(),
    {
        self.pending.len()
    }

    /// Whether `Quit` has been handed out.
    pub fn is_terminated(&self) -> (b: bool)
        ensures
            b == self@.terminated,
    {
        self.terminated
    }

    /// Takes the oldest selection from the queue and routes it, given
    /// whether the main window exists at this moment. Returns nothing, and
    /// changes nothing, where the queue is empty or `Quit` has been handed
    /// out before.
    pub fn dispatch_next(&mut self, window_found: bool) -> (res: Option<Routing>)
        ensures
            final(self)@ == old(self)@.after_next(),
            old(self)@.next_action() is None ==> res is None,
            old(self)@.next_action() matches Some(action) ==> (res matches Some(routing)
                && routing.calls@ == routed_calls(action, window_found) && routing.notice
                == routed_notice(action, window_found)),
    {
        if self.terminated {
            return None;
        }
        match self.pending.pop_front() {
            None => None,
            Some(action) => {
                self.terminated = matches!(action, MenuAction::Quit);
                assert(self.pending@ =~= old(self).pending@.drop_first());
                Some(route(action, window_found))
            },
        }
    }
}

} // verus!
