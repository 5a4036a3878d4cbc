use taocket::reconcile::{PlatformEvent, Reconciler, UiAction};
use taocket::taocket_hotkey::{
    parse_hotkey, HotkeyActivation, HotkeyBinding, HotkeyState, HotkeyTable, KeyCode,
};
use taocket::taocket_window::{
    action_queue, take_received, Dispatcher, TxEvent, UserWindowEvent, WindowCommand,
};

fn script(text: &str) -> TxEvent<u32> {
    TxEvent::Script(text.to_string())
}

fn evaluate(text: &str) -> UiAction<u32> {
    UiAction::EvaluateScript(text.to_string())
}

fn released(id: u32) -> HotkeyActivation {
    HotkeyActivation { id, state: HotkeyState::Released }
}

fn pressed(id: u32) -> HotkeyActivation {
    HotkeyActivation { id, state: HotkeyState::Pressed }
}

fn binding(id: u32, key: &str, func: &str) -> HotkeyBinding {
    HotkeyBinding { id, key: key.to_string(), func: func.to_string() }
}

#[test]
fn scripts_are_applied_in_the_order_sent() {
    let (dispatcher, inbox) = action_queue::<u32>();
    assert!(dispatcher.send_script("a".to_string()));
    assert!(dispatcher.send_script("b".to_string()));
    let mut reconciler = Reconciler::new();
    assert_eq!(reconciler.absorb(&inbox), 2);
    assert_eq!(reconciler.pending_count(), 2);
    let actions = reconciler.tick(&HotkeyTable::new(), &Vec::new(), None);
    assert_eq!(actions, vec![evaluate("a"), evaluate("b")]);
    assert_eq!(reconciler.pending_count(), 0);
    assert!(!reconciler.is_terminal());
}

#[test]
fn every_kind_of_action_is_applied() {
    let mut reconciler = Reconciler::new();
    reconciler.enqueue_all(vec![
        TxEvent::User(42),
        script("x()"),
        TxEvent::Window(UserWindowEvent::Minimize),
        TxEvent::Window(UserWindowEvent::Maximize),
        TxEvent::Window(UserWindowEvent::UnMaximize),
        TxEvent::Window(UserWindowEvent::Focus),
    ]);
    let actions = reconciler.tick(&HotkeyTable::new(), &Vec::new(), Some(PlatformEvent::Other));
    assert_eq!(
        actions,
        vec![
            UiAction::ForwardUser(42),
            evaluate("x()"),
            UiAction::Window(WindowCommand::SetMinimized(true)),
            UiAction::Window(WindowCommand::SetMaximized(true)),
            UiAction::Window(WindowCommand::SetMaximized(false)),
            UiAction::Window(WindowCommand::SetFocus),
        ]
    );
}

#[test]
fn platform_events_come_before_the_queue() {
    let mut reconciler = Reconciler::new();
    reconciler.enqueue(script("queued"));
    let actions =
        reconciler.tick(&HotkeyTable::new(), &Vec::new(), Some(PlatformEvent::MainEventsCleared));
    assert_eq!(actions, vec![UiAction::RequestRedraw, evaluate("queued")]);

    reconciler.enqueue(script("queued"));
    let actions = reconciler.tick(
        &HotkeyTable::new(),
        &Vec::new(),
        Some(PlatformEvent::Application("{\"n\":1}".to_string())),
    );
    assert_eq!(
        actions,
        vec![
            evaluate(
                "window.dispatchEvent(new CustomEvent('taocket:websocket|event', { detail: {\"n\":1} }));"
            ),
            evaluate("queued"),
        ]
    );
}

#[test]
fn actions_enqueued_during_a_tick_wait_for_the_next() {
    let (dispatcher, inbox) = action_queue::<u32>();
    let mut table = HotkeyTable::new();
    assert!(table.register(binding(5, "ctrl+k", "palette")));
    let mut reconciler = Reconciler::new();

    assert!(dispatcher.send_script("before".to_string()));
    reconciler.absorb(&inbox);
    let first = reconciler.tick(&table, &vec![released(5)], None);
    assert_eq!(
        first,
        vec![UiAction::InvokeHotkey(binding(5, "ctrl+k", "palette")), evaluate("before")]
    );
    for action in &first {
        if let UiAction::InvokeHotkey(bound) = action {
            let handle: Dispatcher<u32> = dispatcher.clone();
            assert!(handle.send_script(format!("run('{}')", bound.func)));
            assert!(handle.send_user(7));
        }
    }
    assert_eq!(reconciler.pending_count(), 0);

    reconciler.absorb(&inbox);
    let second = reconciler.tick(&table, &Vec::new(), None);
    assert_eq!(second, vec![evaluate("run('palette')"), UiAction::ForwardUser(7)]);
}

#[test]
fn close_twice_shuts_down_once() {
    let (dispatcher, inbox) = action_queue::<u32>();
    assert!(dispatcher.send_window(UserWindowEvent::Close));
    assert!(dispatcher.send_script("after close".to_string()));
    assert!(dispatcher.send_window(UserWindowEvent::Close));
    let mut reconciler = Reconciler::new();
    reconciler.absorb(&inbox);
    let actions =
        reconciler.tick(&HotkeyTable::new(), &Vec::new(), Some(PlatformEvent::CloseRequested));
    assert_eq!(actions, vec![evaluate("after close"), UiAction::Shutdown]);
    assert!(reconciler.is_terminal());

    assert!(dispatcher.send_window(UserWindowEvent::Close));
    reconciler.absorb(&inbox);
    let again =
        reconciler.tick(&HotkeyTable::new(), &vec![released(1)], Some(PlatformEvent::CloseRequested));
    assert!(again.is_empty());
    assert!(reconciler.is_terminal());
    assert_eq!(reconciler.pending_count(), 1);
}

#[test]
fn close_by_either_way_alone() {
    let mut by_platform: Reconciler<u32> = Reconciler::new();
    let actions =
        by_platform.tick(&HotkeyTable::new(), &Vec::new(), Some(PlatformEvent::CloseRequested));
    assert_eq!(actions, vec![UiAction::Shutdown]);
    assert!(by_platform.is_terminal());

    let mut by_action: Reconciler<u32> = Reconciler::new();
    by_action.enqueue(TxEvent::Window(UserWindowEvent::Close));
    let actions = by_action.tick(&HotkeyTable::new(), &Vec::new(), None);
    assert_eq!(actions, vec![UiAction::Shutdown]);
    assert!(by_action.is_terminal());
}

#[test]
fn an_idle_tick_does_nothing() {
    let mut reconciler: Reconciler<u32> = Reconciler::new();
    assert!(reconciler.tick(&HotkeyTable::new(), &Vec::new(), None).is_empty());
    assert!(!reconciler.is_terminal());
}

#[test]
fn registered_hotkey_released_calls_the_handler_once() {
    let combination = parse_hotkey("ctrl+shift+k").expect("a key combination");
    assert!(combination.modifiers.control);
    assert!(combination.modifiers.shift);
    assert!(!combination.modifiers.alt);
    assert!(!combination.modifiers.meta);
    assert_eq!(combination.code, KeyCode::KeyK);

    let id = global_hotkey::hotkey::HotKey::new(
        Some(global_hotkey::hotkey::Modifiers::CONTROL | global_hotkey::hotkey::Modifiers::SHIFT),
        global_hotkey::hotkey::Code::KeyK,
    )
    .id();
    let mut table = HotkeyTable::new();
    assert!(table.register(binding(id, "ctrl+shift+k", "open_palette")));
    assert!(table.register(binding(id.wrapping_add(1), "ctrl+shift+j", "other")));

    let mut reconciler: Reconciler<u32> = Reconciler::new();
    let actions = reconciler.tick(&table, &vec![released(id)], None);
    assert_eq!(
        actions,
        vec![UiAction::InvokeHotkey(binding(id, "ctrl+shift+k", "open_palette"))]
    );
}

#[test]
fn only_bound_release_edges_count() {
    let mut table = HotkeyTable::new();
    assert!(table.register(binding(1, "f1", "help")));
    assert!(table.register(binding(2, "f2", "rename")));
    let mut reconciler: Reconciler<u32> = Reconciler::new();
    let actions = reconciler.tick(
        &table,
        &vec![pressed(1), released(2), released(3), released(1), pressed(2), released(2)],
        None,
    );
    assert_eq!(
        actions,
        vec![
            UiAction::InvokeHotkey(binding(2, "f2", "rename")),
            UiAction::InvokeHotkey(binding(1, "f1", "help")),
            UiAction::InvokeHotkey(binding(2, "f2", "rename")),
        ]
    );
}

#[test]
fn hotkey_table_keeps_the_first_binding() {
    let mut table = HotkeyTable::new();
    assert_eq!(table.len(), 0);
    assert!(table.get(1).is_none());
    assert!(table.register(binding(1, "ctrl+a", "first")));
    assert!(!table.register(binding(1, "ctrl+a", "second")));
    assert_eq!(table.len(), 1);
    assert_eq!(table.get(1), Some(&binding(1, "ctrl+a", "first")));
    assert_eq!(table.resolve(released(1)), Some(&binding(1, "ctrl+a", "first")));
    assert_eq!(table.resolve(pressed(1)), None);
    assert_eq!(table.resolve(released(2)), None);
    assert_eq!(binding(1, "ctrl+a", "first").clone(), binding(1, "ctrl+a", "first"));
}

#[test]
fn dispatcher_without_inbox_refuses() {
    let (dispatcher, inbox) = action_queue::<u32>();
    assert!(dispatcher.send(TxEvent::User(1)));
    drop(inbox);
    assert!(!dispatcher.send_script("lost".to_string()));
    assert!(!dispatcher.send_user(2));
    assert!(!dispatcher.send_window(UserWindowEvent::Focus));
}

#[test]
fn inbox_drains_in_order_and_leaves_nothing() {
    let (dispatcher, inbox) = action_queue::<u32>();
    assert!(inbox.drain().is_empty());
    let other = dispatcher.clone();
    assert!(dispatcher.send_user(1));
    assert!(other.send_user(2));
    assert!(dispatcher.send_window(UserWindowEvent::Focus));
    assert_eq!(
        inbox.drain(),
        vec![TxEvent::User(1), TxEvent::User(2), TxEvent::Window(UserWindowEvent::Focus)]
    );
    assert!(inbox.drain().is_empty());
}

#[test]
fn dispatcher_made_from_a_sender() {
    let (tx, rx) = crossbeam_channel::unbounded::<TxEvent<u32>>();
    let dispatcher = Dispatcher::new(tx);
    assert!(dispatcher.send_user(3));
    assert_eq!(rx.try_recv().ok(), Some(TxEvent::User(3)));
}

#[test]
fn enqueue_keeps_what_was_waiting_in_front() {
    let (dispatcher, inbox) = action_queue::<u32>();
    let mut reconciler = Reconciler::new();
    reconciler.enqueue(script("first"));
    assert!(dispatcher.send_script("second".to_string()));
    assert_eq!(reconciler.absorb(&inbox), 1);
    reconciler.enqueue_all(vec![script("third"), script("fourth")]);
    assert_eq!(reconciler.pending_count(), 4);
    let actions = reconciler.tick(&HotkeyTable::new(), &Vec::new(), None);
    assert_eq!(
        actions,
        vec![evaluate("first"), evaluate("second"), evaluate("third"), evaluate("fourth")]
    );
}

#[test]
fn a_bounded_drain_takes_the_oldest_and_leaves_the_rest() {
    let (dispatcher, inbox) = action_queue::<u32>();
    for n in 1..=5 {
        assert!(dispatcher.send_user(n));
    }
    assert!(inbox.drain_up_to(0).is_empty());
    assert_eq!(inbox.drain_up_to(2), vec![TxEvent::User(1), TxEvent::User(2)]);
    assert_eq!(inbox.drain_up_to(10), vec![TxEvent::User(3), TxEvent::User(4), TxEvent::User(5)]);
    assert!(inbox.drain_up_to(10).is_empty());
    assert!(dispatcher.send_user(6));
    assert_eq!(inbox.drain(), vec![TxEvent::User(6)]);
}

#[test]
fn hub_hands_out_its_own_channel_end() {
    let (sink, hub) = taocket::ws::event_queue();
    assert!(sink.emit(taocket::ws::Event::Disconnect(12)));
    assert!(matches!(hub.receiver().try_recv(), Ok(taocket::ws::Event::Disconnect(12))));
    assert!(hub.is_empty());
}

#[test]
fn what_a_receive_gave_goes_behind_the_batch() {
    let mut batch: Vec<TxEvent<u32>> = vec![TxEvent::User(1)];
    assert!(take_received(&mut batch, Some(script("two"))));
    assert!(take_received(&mut batch, Some(TxEvent::Window(UserWindowEvent::Close))));
    assert_eq!(
        batch,
        vec![TxEvent::User(1), script("two"), TxEvent::Window(UserWindowEvent::Close)]
    );
    assert!(!take_received(&mut batch, None));
    assert_eq!(batch.len(), 3);

    let mut empty: Vec<TxEvent<u32>> = Vec::new();
    assert!(!take_received(&mut empty, None));
    assert!(empty.is_empty());
}
