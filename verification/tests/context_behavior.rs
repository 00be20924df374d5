use webview_editor::context::{Phase, WindowHandler};
use webview_editor::editor::{HTMLSource, WebViewEditor};
use webview_editor::msg::{EditorError, MalformedPolicy, Message};
use webview_editor::timers::TimerRegistry;

fn spawned_editor() -> (WebViewEditor, WindowHandler, TimerRegistry, webview_editor::lifecycle::Instance) {
    let editor = WebViewEditor::new(HTMLSource::Inline(String::from("<html></html>")), (200, 150));
    let mut ctx = editor.new_context();
    let mut timers = TimerRegistry::new();
    let inst = editor.spawn(&mut ctx, &mut timers, true).expect("spawn");
    (editor, ctx, timers, inst)
}

#[test]
fn resize_on_live_instance_keeps_sizes_consistent() {
    let (_editor, mut ctx, _timers, _inst) = spawned_editor();
    ctx.resize(320, 240);
    assert_eq!(ctx.width, 320);
    assert_eq!(ctx.height, 240);
    match &ctx.phase {
        Phase::Spawned { adapter, host } => {
            assert_eq!(adapter.bounds_width, 320);
            assert_eq!(adapter.bounds_height, 240);
            assert_eq!(host.last_notified, Some((320, 240)));
        }
        _ => panic!("expected a live spawn window"),
    }
}

#[test]
fn resize_without_live_instance_is_a_no_op() {
    let editor = WebViewEditor::new(HTMLSource::Inline(String::from("<p>hi</p>")), (200, 150));
    let mut ctx = editor.new_context();
    ctx.resize(320, 240);
    assert_eq!(ctx.width, 200);
    assert_eq!(ctx.height, 150);
    assert!(matches!(ctx.phase, Phase::Unspawned));
    assert_eq!(ctx.queue.len(), 0);
}

#[test]
fn inbound_messages_drain_in_emission_order() {
    let (_editor, mut ctx, _timers, _inst) = spawned_editor();
    ctx.handle_ipc("{\"type\":\"set_size\",\"width\":10,\"height\":20}", MalformedPolicy::Fatal)
        .expect("first payload");
    ctx.handle_ipc(
        "{\"type\":\"set_param\",\"id\":\"gain\",\"value\":0.5}",
        MalformedPolicy::Fatal,
    )
    .expect("second payload");
    ctx.handle_ipc("{\"type\":\"init\"}", MalformedPolicy::Fatal).expect("third payload");
    let drained = ctx.drain_messages();
    assert_eq!(drained.len(), 3);
    assert_eq!(drained[0], Message::Resize { width: 10, height: 20 });
    assert_eq!(
        drained[1],
        Message::SetParameter { id: String::from("gain"), value_text: String::from("0.5") }
    );
    assert_eq!(drained[2], Message::Init);
}

#[test]
fn draining_an_empty_queue_is_empty_and_idempotent() {
    let (_editor, mut ctx, _timers, _inst) = spawned_editor();
    let first = ctx.drain_messages();
    assert!(first.is_empty());
    let second = ctx.drain_messages();
    assert!(second.is_empty());
    assert_eq!(ctx.queue.len(), 0);
}

#[test]
fn next_event_pops_oldest_first() {
    let (_editor, mut ctx, _timers, _inst) = spawned_editor();
    ctx.handle_ipc("{\"type\":\"init\"}", MalformedPolicy::Fatal).unwrap();
    ctx.handle_ipc("{\"type\":\"set_size\",\"width\":1,\"height\":2}", MalformedPolicy::Fatal)
        .unwrap();
    assert_eq!(ctx.next_event(), Some(Message::Init));
    assert_eq!(ctx.next_event(), Some(Message::Resize { width: 1, height: 2 }));
    assert_eq!(ctx.next_event(), None);
}

#[test]
fn send_message_on_torn_down_instance_fails_no_active_view() {
    let (_editor, mut ctx, mut timers, inst) = spawned_editor();
    webview_editor::lifecycle::teardown(inst, &mut ctx, &mut timers);
    let value = serde_json::from_str::<serde_json::Value>("{\"a\":1}").unwrap();
    assert_eq!(ctx.send_json(&value), Err(EditorError::NoActiveView));
    assert_eq!(ctx.send_text("{}"), Err(EditorError::NoActiveView));
    assert!(matches!(ctx.phase, Phase::TornDown));
}

#[test]
fn send_json_delivers_through_the_intake_call() {
    let (_editor, mut ctx, _timers, _inst) = spawned_editor();
    let value = serde_json::from_str::<serde_json::Value>("{\"a\":1}").unwrap();
    ctx.send_json(&value).expect("send into live page");
    match &ctx.phase {
        Phase::Spawned { adapter, .. } => {
            assert_eq!(adapter.scripts.len(), 1);
            assert_eq!(adapter.scripts[0], "onPluginMessageInternal(\"{\\\"a\\\":1}\");");
        }
        _ => panic!("expected a live spawn window"),
    }
}

#[test]
fn malformed_payload_is_fatal_by_reference_policy() {
    let (_editor, mut ctx, _timers, _inst) = spawned_editor();
    let r = ctx.handle_ipc("this is not json", MalformedPolicy::Fatal);
    assert_eq!(r, Err(EditorError::MalformedInboundMessage));
    assert_eq!(ctx.queue.len(), 0);
    let r = ctx.handle_ipc("{\"type\":\"unheard_of\"}", MalformedPolicy::Fatal);
    assert_eq!(r, Err(EditorError::MalformedInboundMessage));
    assert_eq!(ctx.queue.len(), 0);
}

#[test]
fn malformed_payload_can_be_discarded_by_policy() {
    let (_editor, mut ctx, _timers, _inst) = spawned_editor();
    let r = ctx.handle_ipc("not json either", MalformedPolicy::Discard);
    assert_eq!(r, Ok(()));
    assert_eq!(ctx.queue.len(), 0);
    ctx.handle_ipc("{\"type\":\"init\"}", MalformedPolicy::Discard).unwrap();
    assert_eq!(ctx.queue.len(), 1);
}
