//! The reconciliation loop of the thread that owns the window, one tick at a
//! time. A tick merges the hotkey activations, at most one platform event and
//! the queued actions into one ordered list of things to do; the owner of the
//! window carries the list out.
use crate::taocket_context::{build_custom_event_script, custom_event_script};
use crate::taocket_hotkey::{resolved, HotkeyActivation, HotkeyBinding, HotkeyBindingView, HotkeyTable};
use crate::taocket_window::{ActionInbox, TxEvent, TxEventView, UserWindowEvent, WindowCommand};
use vstd::prelude::*;

verus! {

/// What the platform hands to the loop in a tick.
#[derive(Debug)]
pub enum PlatformEvent {
    /// The user asked to close the window.
    CloseRequested,
    /// The platform's event queue ran empty.
    MainEventsCleared,
    /// An event of the embedding application, as JSON text, for the frontend.
    Application(String),
    /// Any other event.
    Other,
}

/// The mathematical content of a [`PlatformEvent`].
pub enum PlatformEventView {
    CloseRequested,
    MainEventsCleared,
    Application(Seq<char>),
    Other,
}

impl View for PlatformEvent {
    type V = PlatformEventView;

    open spec fn view(&self) -> PlatformEventView {
        match self {
            PlatformEvent::CloseRequested => PlatformEventView::CloseRequested,
            PlatformEvent::MainEventsCleared => PlatformEventView::MainEventsCleared,
            PlatformEvent::Application(detail) => PlatformEventView::Application(detail@),
            PlatformEvent::Other => PlatformEventView::Other,
        }
    }
}

/// The mathematical content of the platform event of a tick, if there is one.
pub open spec fn seen(platform: Option<PlatformEvent>) -> Option<PlatformEventView> {
    match platform {
        Some(event) => Some(event@),
        None => None,
    }
}

/// One thing for the owner of the window to do.
#[derive(Debug, PartialEq)]
pub enum UiAction<X> {
    /// Call the hotkey handler with this binding and a fresh copy of the dispatcher.
    InvokeHotkey(HotkeyBinding),
    /// Ask the platform for a redraw, which happens later.
    RequestRedraw,
    /// Evaluate a script in the UI surface. A failure is logged and passed over.
    EvaluateScript(String),
    /// Hand an event to the embedding application's own handler.
    ForwardUser(X),
    /// Apply a command to the window.
    Window(WindowCommand),
    /// Leave the loop and tear down. Comes last, and once in the life of a loop.
    Shutdown,
}

/// The mathematical content of a [`UiAction`].
pub enum UiActionView<X> {
    InvokeHotkey(HotkeyBindingView),
    RequestRedraw,
    EvaluateScript(Seq<char>),
    ForwardUser(X),
    Window(WindowCommand),
    Shutdown,
}

impl<X> View for UiAction<X> {
    type V = UiActionView<X>;

    open spec fn view(&self) -> UiActionView<X> {
        match self {
            UiAction::InvokeHotkey(binding) => UiActionView::InvokeHotkey(binding@),
            UiAction::RequestRedraw => UiActionView::RequestRedraw,
            UiAction::EvaluateScript(script) => UiActionView::EvaluateScript(script@),
            UiAction::ForwardUser(event) => UiActionView::ForwardUser(*event),
            UiAction::Window(command) => UiActionView::Window(*command),
            UiAction::Shutdown => UiActionView::Shutdown,
        }
    }
}

impl<X> DeepView for UiAction<X> {
    type V = UiActionView<X>;

    open spec fn deep_view(&self) -> UiActionView<X> {
        self@
    }
}

/// The name of the custom event under which application events reach the frontend.
pub open spec fn application_event_name() -> Seq<char> {
    "taocket:websocket|event"@
}

/// Step one of a tick: the handler calls for the pending activations, in
/// their order. An activation counts on its release edge and if its
/// identifier is bound; any other is passed over.
pub open spec fn invoked<X>(
    table: Map<u32, HotkeyBinding>,
    activations: Seq<HotkeyActivation>,
) -> Seq<UiActionView<X>>
    decreases activations.len(),
{
    if activations.len() == 0 {
        Seq::empty()
    } else {
        let before = invoked::<X>(table, activations.drop_last());
        match resolved(table, activations.last()) {
            Some(binding) => before.push(UiActionView::InvokeHotkey(binding@)),
            None => before,
        }
    }
}

/// Step two of a tick: what the platform event asks for. A close request
/// asks for nothing here; it ends the loop (see [`closes`]).
pub open spec fn platform_applied<X>(platform: Option<PlatformEventView>) -> Seq<UiActionView<X>> {
    match platform {
        Some(PlatformEventView::MainEventsCleared) => seq![UiActionView::RequestRedraw],
        Some(PlatformEventView::Application(detail)) => seq![
            UiActionView::EvaluateScript(custom_event_script(application_event_name(), detail)),
        ],
        _ => Seq::empty(),
    }
}

/// What one queued action asks for. A close command asks for nothing here;
/// it ends the loop (see [`closes`]).
pub open spec fn applied<X>(event: TxEventView<X>) -> Option<UiActionView<X>> {
    match event {
        TxEventView::User(user) => Some(UiActionView::ForwardUser(user)),
        TxEventView::Script(script) => Some(UiActionView::EvaluateScript(script)),
        TxEventView::Window(UserWindowEvent::Minimize) => Some(
            UiActionView::Window(WindowCommand::SetMinimized(true)),
        ),
        TxEventView::Window(UserWindowEvent::Maximize) => Some(
            UiActionView::Window(WindowCommand::SetMaximized(true)),
        ),
        TxEventView::Window(UserWindowEvent::UnMaximize) => Some(
            UiActionView::Window(WindowCommand::SetMaximized(false)),
        ),
        TxEventView::Window(UserWindowEvent::Focus) => Some(
            UiActionView::Window(WindowCommand::SetFocus),
        ),
        TxEventView::Window(UserWindowEvent::Close) => None,
    }
}

/// Step three of a tick: what the queued actions ask for, all of them, first
/// in, first out.
pub open spec fn drained<X>(queue: Seq<TxEventView<X>>) -> Seq<UiActionView<X>>
    decreases queue.len(),
{
    if queue.len() == 0 {
        Seq::empty()
    } else {
        let before = drained(queue.drop_last());
        match applied(queue.last()) {
            Some(action) => before.push(action),
            None => before,
        }
    }
}

/// Whether a tick ends the loop: the platform asked to close the window, or a
/// queued action did.
pub open spec fn closes<X>(platform: Option<PlatformEventView>, queue: Seq<TxEventView<X>>) -> bool {
    platform == Some(PlatformEventView::CloseRequested) || queue.contains(
        TxEventView::Window(UserWindowEvent::Close),
    )
}

/// Everything a tick of a running loop asks for, in order: the hotkey
/// handler calls, then what the platform event asks for, then what the
/// queued actions ask for, and last, if the tick ends the loop, the shutdown.
pub open spec fn tick_actions<X>(
    table: Map<u32, HotkeyBinding>,
    activations: Seq<HotkeyActivation>,
    platform: Option<PlatformEventView>,
    queue: Seq<TxEventView<X>>,
) -> Seq<UiActionView<X>> {
    invoked::<X>(table, activations) + platform_applied::<X>(platform) + drained(queue) + (if closes(
        platform,
        queue,
    ) {
        seq![UiActionView::Shutdown]
    } else {
        Seq::empty()
    })
}

/// The state of a loop, as a mathematical value.
pub struct ReconcilerView<X> {
    /// Whether the loop has ended.
    pub terminal: bool,
    /// The actions that wait for the next tick, oldest first.
    pub pending: Seq<TxEventView<X>>,
}

/// The state of the reconciliation loop: whether it still runs, and the
/// actions that wait for its next tick.
#[derive(Debug)]
pub struct Reconciler<X> {
    terminal: bool,
    pending: Vec<TxEvent<X>>,
}

impl<X> View for Reconciler<X> {
    type V = ReconcilerView<X>;

    closed spec fn view(&self) -> ReconcilerView<X> {
        ReconcilerView { terminal: self.terminal, pending: self.pending.deep_view() }
    }
}

/// What the platform event of a tick asks for.
fn apply_platform<X>(platform: Option<PlatformEvent>, actions: &mut Vec<UiAction<X>>) -> (close: bool)
    ensures
        final(actions).deep_view() == old(actions).deep_view() + platform_applied::<X>(
            seen(platform),
        ),
        close == (platform matches Some(PlatformEvent::CloseRequested)),
{
    let ghost before = actions.deep_view();
    match platform {
        Some(PlatformEvent::CloseRequested) => true,
        Some(PlatformEvent::MainEventsCleared) => {
            actions.push(UiAction::RequestRedraw);
            false
        },
        Some(PlatformEvent::Application(detail)) => {
            let script = build_custom_event_script("taocket:websocket|event", detail.as_str());
            actions.push(UiAction::EvaluateScript(script));
            assert(actions.deep_view() =~= before + seq![
                UiActionView::<X>::EvaluateScript(
                    custom_event_script(application_event_name(), detail@),
                ),
            ]);
            false
        },
        _ => false,
    }
}

/// What one queued action asks for.
fn apply_event<X>(event: TxEvent<X>) -> (action: Option<UiAction<X>>)
    ensures
        action is Some <==> applied(event@) is Some,
        action matches Some(a) ==> applied(event@) == Some(a@),
{
    match event {
        TxEvent::User(user) => Some(UiAction::ForwardUser(user)),
        TxEvent::Script(script) => Some(UiAction::EvaluateScript(script)),
        TxEvent::Window(UserWindowEvent::Minimize) => Some(
            UiAction::Window(WindowCommand::SetMinimized(true)),
        ),
        TxEvent::Window(UserWindowEvent::Maximize) => Some(
            UiAction::Window(WindowCommand::SetMaximized(true)),
        ),
        TxEvent::Window(UserWindowEvent::UnMaximize) => Some(
            UiAction::Window(WindowCommand::SetMaximized(false)),
        ),
        TxEvent::Window(UserWindowEvent::Focus) => Some(UiAction::Window(WindowCommand::SetFocus)),
        TxEvent::Window(UserWindowEvent::Close) => None,
    }
}

impl<X> Reconciler<X> {
    /// A running loop with nothing queued.
    pub fn new() -> (reconciler: Self)
        ensures
            !reconciler@.terminal,
            reconciler@.pending == Seq::<TxEventView<X>>::empty(),
    {
        Reconciler { terminal: false, pending: Vec::new() }
    }

    /// Whether the loop has ended.
    pub fn is_terminal(&self) -> (terminal: bool)
        ensures
            terminal == self@.terminal,
    {
        self.terminal
    }

    /// The number of actions that wait for the next tick.
    pub fn pending_count(&self) -> (count: usize)
        ensures
            count == self@.pending.len(),
    {
        self.pending.len()
    }

    /// Queues an action behind those already waiting. It is applied by the
    /// next tick that starts after this call.
    pub fn enqueue(&mut self, event: TxEvent<X>)
        ensures
            final(self)@.terminal == old(self)@.terminal,
            final(self)@.pending == old(self)@.pending.push(event@),
    {
        self.pending.push(event);
    }

    /// Queues a batch of actions, in their order, behind those already waiting.
    pub fn enqueue_all(&mut self, batch: Vec<TxEvent<X>>)
        ensures
            final(self)@.terminal == old(self)@.terminal,
            final(self)@.pending == old(self)@.pending + batch.deep_view(),
    {
        let mut batch = batch;
        self.pending.append(&mut batch);
    }

    /// Moves what is queued in the inbox right now behind the actions already
    /// waiting. What the inbox held is for it to say; whatever it was, the
    /// actions that were waiting keep their places in front.
    pub fn absorb(&mut self, inbox: &ActionInbox<X>) -> (taken: usize)
        ensures
            final(self)@.terminal == old(self)@.terminal,
            final(self)@.pending.len() == old(self)@.pending.len() + taken,
            final(self)@.pending.take(old(self)@.pending.len() as int) == old(self)@.pending,
    {
        let batch = inbox.drain();
        let taken = batch.len();
        self.enqueue_all(batch);
        taken
    }

    /// Runs one tick.
    ///
    /// On a running loop the tick applies, in this order: the hotkey handler
    /// calls for `activations`; what `platform` asks for; and every action
    /// that was waiting when the tick began, first in, first out. Nothing is
    /// left waiting. If the platform or a waiting action asks to close, the
    /// whole tick is still carried out; the loop is then over and the last
    /// action of the tick is the shutdown. On a loop that is over a tick does
    /// nothing at all.
    pub fn tick(
        &mut self,
        hotkeys: &HotkeyTable,
        activations: &Vec<HotkeyActivation>,
        platform: Option<PlatformEvent>,
    ) -> (actions: Vec<UiAction<X>>)
        ensures
            old(self)@.terminal ==> final(self)@ == old(self)@ && actions.deep_view()
                == Seq::<UiActionView<X>>::empty(),
            !old(self)@.terminal ==> {
                &&& actions.deep_view() == tick_actions(
                    hotkeys@,
                    activations@,
                    seen(platform),
                    old(self)@.pending,
                )
                &&& final(self)@.pending == Seq::<TxEventView<X>>::empty()
                &&& final(self)@.terminal == closes(seen(platform), old(self)@.pending)
            },
    {
        let mut actions: Vec<UiAction<X>> = Vec::new();
        if self.terminal {
            return actions;
        }
        let ghost platform_view = seen(platform);
        let ghost queue = self@.pending;

        let mut i: usize = 0;
        while i < activations.len()
            invariant
                i <= activations.len(),
                actions.deep_view() == invoked::<X>(hotkeys@, activations@.take(i as int)),
            decreases activations.len() - i,
        {
            let ghost before = actions.deep_view();
            assert(activations@.take(i + 1).drop_last() == activations@.take(i as int));
            match hotkeys.resolve(activations[i]) {
                Some(binding) => {
                    let binding = binding.clone();
                    actions.push(UiAction::InvokeHotkey(binding));
                    assert(actions.deep_view() =~= before.push(
                        UiActionView::InvokeHotkey(binding@),
                    ));
                },
                None => {},
            }
            i = i + 1;
        }
        assert(activations@.take(i as int) == activations@);

        let mut close = apply_platform(platform, &mut actions);
        let ghost ahead = actions.deep_view();

        let mut batch: Vec<TxEvent<X>> = Vec::new();
        core::mem::swap(&mut self.pending, &mut batch);
        for event in it: batch
            invariant
                it.seq() == batch@,
                batch.deep_view() == queue,
                actions.deep_view() == ahead + drained(queue.take(it.index())),
                close == closes(platform_view, queue.take(it.index())),
        {
            let ghost before = actions.deep_view();
            let ghost k = it.index();
            assert(queue.take(k + 1).drop_last() == queue.take(k));
            match &event {
                TxEvent::Window(UserWindowEvent::Close) => {
                    close = true;
                },
                _ => {},
            }
            match apply_event(event) {
                Some(action) => {
                    actions.push(action);
                    assert(actions.deep_view() =~= before.push(action@));
                },
                None => {},
            }
        }
        assert(queue.take(queue.len() as int) == queue);
        if close {
            self.terminal = true;
            actions.push(UiAction::Shutdown);
        }
        actions
    }
}

/// Draining keeps the order of the queue: what a queue asks for is what its
/// front part asks for, followed by what the rest asks for.
pub proof fn lemma_drained_in_order<X>(front: Seq<TxEventView<X>>, back: Seq<TxEventView<X>>)
    ensures
        drained(front + back) == drained(front) + drained(back),
    decreases back.len(),
{
    if back.len() > 0 {
        lemma_drained_in_order(front, back.drop_last());
        assert((front + back).drop_last() == front + back.drop_last());
    }
}

/// The place that the action of the `i`-th queued entry takes among the
/// actions of the drain.
pub open spec fn slot<X>(queue: Seq<TxEventView<X>>, i: int) -> int {
    drained(queue.take(i)).len() as int
}

/// First in, first out: of two queued entries that each ask for an action,
/// the one queued earlier is applied earlier, and each is applied as it was
/// queued. So a script sent before another by one sender is evaluated before
/// it.
pub proof fn lemma_applied_in_queue_order<X>(queue: Seq<TxEventView<X>>, i: int, j: int)
    requires
        0 <= i < j < queue.len(),
        applied(queue[i]) is Some,
        applied(queue[j]) is Some,
    ensures
        0 <= slot(queue, i) < slot(queue, j) < drained(queue).len(),
        Some(drained(queue)[slot(queue, i)]) == applied(queue[i]),
        Some(drained(queue)[slot(queue, j)]) == applied(queue[j]),
{
    lemma_slot_holds(queue, i);
    lemma_slot_holds(queue, j);
    let upto = queue.take(j);
    assert(upto.take(i + 1) == queue.take(i + 1));
    assert(upto == upto.take(i + 1) + upto.skip(i + 1));
    lemma_drained_in_order(upto.take(i + 1), upto.skip(i + 1));
}

proof fn lemma_slot_holds<X>(queue: Seq<TxEventView<X>>, i: int)
    requires
        0 <= i < queue.len(),
        applied(queue[i]) is Some,
    ensures
        0 <= slot(queue, i) < drained(queue).len(),
        Some(drained(queue)[slot(queue, i)]) == applied(queue[i]),
        drained(queue.take(i + 1)) == drained(queue.take(i)).push(applied(queue[i])->0),
{
    let head = queue.take(i + 1);
    assert(head.drop_last() == queue.take(i));
    assert(queue == head + queue.skip(i + 1));
    lemma_drained_in_order(head, queue.skip(i + 1));
}

/// What reaches a loop between two ticks and what the second of them is given.
pub struct TickInput<X> {
    /// The actions queued since the tick before, oldest first.
    pub arrivals: Seq<TxEventView<X>>,
    /// The registered hotkeys.
    pub table: Map<u32, HotkeyBinding>,
    /// The pending hotkey activations.
    pub activations: Seq<HotkeyActivation>,
    /// The platform event of the tick, if there is one.
    pub platform: Option<PlatformEventView>,
}

/// The actions of a tick that finds `input.arrivals` queued behind what was waiting.
pub open spec fn actions_of<X>(state: ReconcilerView<X>, input: TickInput<X>) -> Seq<UiActionView<X>> {
    if state.terminal {
        Seq::empty()
    } else {
        tick_actions(input.table, input.activations, input.platform, state.pending + input.arrivals)
    }
}

/// The state that such a tick leaves.
pub open spec fn state_after<X>(state: ReconcilerView<X>, input: TickInput<X>) -> ReconcilerView<X> {
    if state.terminal {
        ReconcilerView { terminal: true, pending: state.pending + input.arrivals }
    } else {
        ReconcilerView {
            terminal: closes(input.platform, state.pending + input.arrivals),
            pending: Seq::empty(),
        }
    }
}

/// The state after a run of ticks.
pub open spec fn run_state<X>(state: ReconcilerView<X>, inputs: Seq<TickInput<X>>) -> ReconcilerView<X>
    decreases inputs.len(),
{
    if inputs.len() == 0 {
        state
    } else {
        state_after(run_state(state, inputs.drop_last()), inputs.last())
    }
}

/// Everything that a run of ticks asks for, in order.
pub open spec fn run_actions<X>(state: ReconcilerView<X>, inputs: Seq<TickInput<X>>) -> Seq<UiActionView<X>>
    decreases inputs.len(),
{
    if inputs.len() == 0 {
        Seq::empty()
    } else {
        run_actions(state, inputs.drop_last()) + actions_of(
            run_state(state, inputs.drop_last()),
            inputs.last(),
        )
    }
}

/// Actions queued while a tick is under way wait for the next one. The tick
/// asks for exactly what was waiting when it began, whatever is queued after
/// that (by a hotkey handler that the tick calls, or by anyone else); and the
/// tick after it applies what was queued in the meantime, in the order in
/// which it was queued.
pub proof fn lemma_late_actions_wait<X>(
    state: ReconcilerView<X>,
    this_tick: TickInput<X>,
    late: Seq<TxEventView<X>>,
    next_tick: TickInput<X>,
)
    requires
        !state.terminal,
        next_tick.arrivals == late,
    ensures
        actions_of(state, this_tick) == tick_actions(
            this_tick.table,
            this_tick.activations,
            this_tick.platform,
            state.pending + this_tick.arrivals,
        ),
        state_after(state, this_tick).pending == Seq::<TxEventView<X>>::empty(),
        !state_after(state, this_tick).terminal ==> actions_of(
            state_after(state, this_tick),
            next_tick,
        ) == tick_actions(next_tick.table, next_tick.activations, next_tick.platform, late),
{
}

proof fn lemma_no_shutdown_before_the_end<X>(
    table: Map<u32, HotkeyBinding>,
    activations: Seq<HotkeyActivation>,
    platform: Option<PlatformEventView>,
    queue: Seq<TxEventView<X>>,
)
    ensures
        forall|i: int|
            0 <= i < invoked::<X>(table, activations).len() ==> !((#[trigger] invoked::<X>(
                table,
                activations,
            )[i]) is Shutdown),
        forall|i: int|
            0 <= i < platform_applied::<X>(platform).len() ==> !((#[trigger] platform_applied::<X>(
                platform,
            )[i]) is Shutdown),
        forall|i: int| 0 <= i < drained(queue).len() ==> !((#[trigger] drained(queue)[i]) is Shutdown),
    decreases activations.len() + queue.len(),
{
    if activations.len() > 0 {
        lemma_no_shutdown_before_the_end(table, activations.drop_last(), platform, queue);
    } else if queue.len() > 0 {
        lemma_no_shutdown_before_the_end(table, activations, platform, queue.drop_last());
    }
}

/// A tick shuts the loop down at most once, as its last action, and does so
/// exactly if it closes the loop: however many of its inputs ask to close.
pub proof fn lemma_tick_shuts_down_once<X>(
    table: Map<u32, HotkeyBinding>,
    activations: Seq<HotkeyActivation>,
    platform: Option<PlatformEventView>,
    queue: Seq<TxEventView<X>>,
)
    ensures
        forall|i: int|
            0 <= i < tick_actions(table, activations, platform, queue).len() && (
            #[trigger] tick_actions(table, activations, platform, queue)[i]) is Shutdown ==> i
                == tick_actions(table, activations, platform, queue).len() - 1,
        closes(platform, queue) <==> tick_actions(table, activations, platform, queue).len() > 0
            && tick_actions(table, activations, platform, queue).last() is Shutdown,
{
    lemma_no_shutdown_before_the_end(table, activations, platform, queue);
}

/// A loop is torn down once. Over any run of ticks of a running loop, the
/// shutdown is asked for at most once, and nothing at all is asked for after
/// it; it is asked for exactly if the run ends the loop. A close that comes
/// again, by the same way or by another, in the same tick or in a later one,
/// adds nothing.
pub proof fn lemma_shutdown_once<X>(state: ReconcilerView<X>, inputs: Seq<TickInput<X>>)
    requires
        !state.terminal,
    ensures
        forall|i: int|
            0 <= i < run_actions(state, inputs).len() && (#[trigger] run_actions(
                state,
                inputs,
            )[i]) is Shutdown ==> i == run_actions(state, inputs).len() - 1,
        run_state(state, inputs).terminal <==> run_actions(state, inputs).len() > 0 && run_actions(
            state,
            inputs,
        ).last() is Shutdown,
    decreases inputs.len(),
{
    if inputs.len() > 0 {
        let front = inputs.drop_last();
        let before = run_state(state, front);
        lemma_shutdown_once(state, front);
        if !before.terminal {
            lemma_tick_shuts_down_once(
                inputs.last().table,
                inputs.last().activations,
                inputs.last().platform,
                before.pending + inputs.last().arrivals,
            );
        }
    }
}

} // verus!
