use webview_editor::assets::{asset_reply, asset_url, resolve_asset, NotFoundPolicy};
use webview_editor::context::Phase;
use webview_editor::editor::{HTMLSource, WebViewEditor};
use webview_editor::json::{classify_message, InboundFields};
use webview_editor::msg::{EditorError, MalformedPolicy, Message, Outbound};
use webview_editor::timers::TimerRegistry;
use webview_editor::wire::{build_outbound_json, build_set_size_json, check_json_number, escape_json, u32_to_dec};

#[test]
fn decimal_rendering_is_exact() {
    assert_eq!(u32_to_dec(0), "0");
    assert_eq!(u32_to_dec(7), "7");
    assert_eq!(u32_to_dec(60), "60");
    assert_eq!(u32_to_dec(4294967295), "4294967295");
}

#[test]
fn escaping_covers_quotes_backslashes_and_controls() {
    assert_eq!(escape_json("plain"), "plain");
    assert_eq!(escape_json("a\"b"), "a\\\"b");
    assert_eq!(escape_json("a\\b"), "a\\\\b");
    assert_eq!(escape_json("a\nb\tc"), "a\\u000ab\\u0009c");
    assert_eq!(escape_json(""), "");
    assert_eq!(escape_json("ünïcødé"), "ünïcødé");
}

#[test]
fn outbound_documents_are_exact() {
    assert_eq!(
        build_set_size_json(200, 150),
        "{\"type\":\"set_size\",\"width\":200,\"height\":150}"
    );
    let m = Outbound::ParamChange {
        param: String::from("gain"),
        value_text: String::from("0.42"),
        text: String::from("-3.2 dB"),
    };
    assert_eq!(
        build_outbound_json(&m),
        "{\"type\":\"param_change\",\"param\":\"gain\",\"value\":0.42,\"text\":\"-3.2 dB\"}"
    );
}

#[test]
fn param_change_reaches_the_page_through_the_intake_call() {
    let editor = WebViewEditor::new(HTMLSource::Inline(String::from("x")), (200, 150));
    let mut ctx = editor.new_context();
    let mut timers = TimerRegistry::new();
    let _inst = editor.spawn(&mut ctx, &mut timers, true).expect("spawn");
    let m = Outbound::ParamChange {
        param: String::from("gain"),
        value_text: String::from("1.0"),
        text: String::from("0 dB"),
    };
    ctx.send_outbound(&m).expect("live");
    match &ctx.phase {
        Phase::Spawned { adapter, .. } => {
            assert_eq!(
                adapter.scripts[0],
                "onPluginMessageInternal(\"{\\\"type\\\":\\\"param_change\\\",\\\"param\\\":\\\"gain\\\",\\\"value\\\":1.0,\\\"text\\\":\\\"0 dB\\\"}\");"
            );
        }
        _ => panic!("expected a live spawn window"),
    }
    // and not on a torn-down one
    webview_editor::lifecycle::teardown(_inst, &mut ctx, &mut timers);
    assert_eq!(ctx.send_outbound(&Outbound::SetSize { width: 1, height: 1 }), Err(EditorError::NoActiveView));
}

fn fields(
    tag: &str,
    width: Option<u64>,
    height: Option<u64>,
    id: Option<&str>,
    value_text: Option<&str>,
) -> InboundFields {
    InboundFields {
        tag: String::from(tag),
        width,
        height,
        id: id.map(String::from),
        value_text: value_text.map(String::from),
    }
}

#[test]
fn classification_is_exact_per_tag() {
    let ok = classify_message(fields("init", None, None, None, None));
    assert_eq!(ok, Ok(Message::Init));
    let ok = classify_message(fields("set_size", Some(8), Some(9), None, None));
    assert_eq!(ok, Ok(Message::Resize { width: 8, height: 9 }));
    let ok = classify_message(fields("set_param", None, None, Some("cutoff"), Some("0.7")));
    assert_eq!(
        ok,
        Ok(Message::SetParameter { id: String::from("cutoff"), value_text: String::from("0.7") })
    );
    let ok = classify_message(fields("set_gain", None, None, None, Some("0.1")));
    assert_eq!(
        ok,
        Ok(Message::SetParameter { id: String::from("gain"), value_text: String::from("0.1") })
    );
}

#[test]
fn classification_rejects_what_the_protocol_does_not_know() {
    let e = Err(EditorError::MalformedInboundMessage);
    assert_eq!(classify_message(fields("set_size", Some(8), None, None, None)), e);
    assert_eq!(classify_message(fields("set_size", None, Some(9), None, None)), e);
    assert_eq!(classify_message(fields("set_size", Some(u64::MAX), Some(9), None, None)), e);
    assert_eq!(classify_message(fields("set_param", None, None, None, None)), e);
    assert_eq!(classify_message(fields("set_gain", None, None, None, None)), e);
    assert_eq!(classify_message(fields("shutdown", None, None, None, None)), e);
}

#[test]
fn json_number_texts_are_recognized_exactly() {
    assert!(check_json_number("0"));
    assert!(check_json_number("-0"));
    assert!(check_json_number("7"));
    assert!(check_json_number("-12.75"));
    assert!(check_json_number("0.5"));
    assert!(check_json_number("1e10"));
    assert!(check_json_number("2.5E-3"));
    assert!(check_json_number("10e+2"));
    assert!(!check_json_number(""));
    assert!(!check_json_number("-"));
    assert!(!check_json_number("01"));
    assert!(!check_json_number("1."));
    assert!(!check_json_number(".5"));
    assert!(!check_json_number("1e"));
    assert!(!check_json_number("1e+"));
    assert!(!check_json_number("--1"));
    assert!(!check_json_number("1.2.3"));
    assert!(!check_json_number("nan"));
}

#[test]
fn oversized_inbound_resize_is_malformed_not_wrapped() {
    let editor = WebViewEditor::new(HTMLSource::Inline(String::from("x")), (10, 10));
    let mut ctx = editor.new_context();
    let mut timers = TimerRegistry::new();
    let _inst = editor.spawn(&mut ctx, &mut timers, true).expect("spawn");
    let r = ctx.handle_ipc(
        "{\"type\":\"set_size\",\"width\":4294967296,\"height\":5}",
        MalformedPolicy::Fatal,
    );
    assert_eq!(r, Err(EditorError::MalformedInboundMessage));
    assert_eq!(ctx.queue.len(), 0);
}

#[test]
fn asset_root_path_resolves_to_index_html() {
    let r = resolve_asset("site", "/");
    assert_eq!(r.full_path, "site/index.html");
    assert_eq!(r.content_type, "text/html");
}

#[test]
fn asset_file_path_resolves_under_root_with_inferred_type() {
    let r = resolve_asset("site", "/app.js");
    assert_eq!(r.full_path, "site/app.js");
    assert_eq!(r.content_type, "text/javascript");
    let r = resolve_asset("site", "/style.css");
    assert_eq!(r.content_type, "text/css");
    let r = resolve_asset("site", "/README");
    assert_eq!(r.content_type, "text/plain");
}

#[test]
fn missing_asset_follows_the_configured_policy() {
    let r = resolve_asset("site", "/gone.html");
    let fatal = asset_reply(r, None, NotFoundPolicy::Fatal);
    assert!(matches!(fatal, Err(EditorError::AssetNotFound)));
    let r = resolve_asset("site", "/gone.html");
    let soft = asset_reply(r, None, NotFoundPolicy::Respond404).expect("keeps serving");
    assert_eq!(soft.status, 404);
    assert!(soft.body.is_empty());
    assert!(soft.allow_any_origin);
}

#[test]
fn present_asset_is_served_with_its_type_and_cross_origin_header() {
    let r = resolve_asset("site", "/app.js");
    let body = b"console.log(1);".to_vec();
    let rep = asset_reply(r, Some(body.clone()), NotFoundPolicy::Fatal).expect("found");
    assert_eq!(rep.status, 200);
    assert_eq!(rep.body, body);
    assert_eq!(rep.content_type, "text/javascript");
    assert!(rep.allow_any_origin);
}

#[test]
fn asset_protocol_urls_take_the_platform_form() {
    assert_eq!(asset_url("assets", false), "assets://localhost");
    assert_eq!(asset_url("assets", true), "http://assets.localhost");
}

#[test]
fn asset_dir_protocol_rewrites_the_source() {
    let editor = WebViewEditor::new(HTMLSource::Inline(String::from("x")), (10, 10))
        .with_asset_dir_protocol(String::from("dist"), None, false);
    assert_eq!(editor.custom_protocol, Some(String::from("assets")));
    assert_eq!(editor.asset_root, Some(String::from("dist")));
    assert_eq!(editor.source, HTMLSource::URL(String::from("assets://localhost")));
    let editor = WebViewEditor::new(HTMLSource::Inline(String::from("x")), (10, 10))
        .with_asset_dir_protocol(String::from("dist"), Some(String::from("mine")), true);
    assert_eq!(editor.custom_protocol, Some(String::from("mine")));
    assert_eq!(editor.source, HTMLSource::URL(String::from("http://mine.localhost")));
}

#[test]
fn editor_defaults_and_builders() {
    let editor = WebViewEditor::new(HTMLSource::Inline(String::from("x")), (10, 20));
    let ctx = editor.new_context();
    assert_eq!(editor.size(&ctx), (10, 20));
    assert_eq!(editor.background_color, (255, 255, 255, 255));
    assert!(!editor.developer_mode);
    assert_eq!(editor.malformed_policy, MalformedPolicy::Fatal);
    assert_eq!(editor.not_found_policy, NotFoundPolicy::Fatal);
    assert!(!editor.set_scale_factor());
    let editor = editor
        .with_background_color((9, 8, 7, 6))
        .with_developer_mode(true)
        .with_custom_protocol(String::from("data"))
        .with_malformed_policy(MalformedPolicy::Discard)
        .with_not_found_policy(NotFoundPolicy::Respond404);
    assert_eq!(editor.background_color, (9, 8, 7, 6));
    assert!(editor.developer_mode);
    assert_eq!(editor.custom_protocol, Some(String::from("data")));
    assert_eq!(editor.malformed_policy, MalformedPolicy::Discard);
    assert_eq!(editor.not_found_policy, NotFoundPolicy::Respond404);
}

#[test]
fn error_descriptions_are_nonempty() {
    assert_eq!(EditorError::NoActiveView.describe(), "no active view");
    assert_eq!(EditorError::ViewConstructionFailed.describe(), "view construction failed");
    assert_eq!(EditorError::SerializationError.describe(), "serialization error");
    assert_eq!(EditorError::MalformedInboundMessage.describe(), "malformed inbound message");
    assert_eq!(EditorError::AssetNotFound.describe(), "asset not found");
}
