use helix_plugin::blame::follow_up;
use helix_plugin::blame::on_config_change;
use helix_plugin::blame::on_document_open;
use helix_plugin::blame::switched_on;
use helix_plugin::blame::BlameEvent;
use helix_plugin::blame::BlameFollowUp;
use helix_plugin::blame::BlameHandler;
use helix_plugin::lua::EntrySource;
use helix_plugin::lua::LuaEngine;
use helix_plugin::types::DocumentId;
use helix_plugin::types::EventData;
use helix_plugin::types::EventType;
use helix_plugin::types::Plugin;
use helix_plugin::types::PluginConfig;
use helix_plugin::types::PluginEvent;
use helix_plugin::types::PluginMetadata;
use helix_plugin::types::UiHandler;
use helix_plugin::types::UiHandlerWrapper;
use helix_plugin::ui_requests::TermUiHandler;
use helix_plugin::ui_requests::UiRequest;
use std::path::PathBuf;
use std::sync::Arc;

struct Screen;

#[test]
fn requests_are_queued_for_the_event_loop() {
    let (sender, mut receiver) = tokio::sync::mpsc::unbounded_channel::<UiRequest>();
    let mut engine = LuaEngine::<Screen>::new().unwrap();
    engine.set_ui_handler(UiHandlerWrapper(Arc::new(TermUiHandler::new(sender))));
    engine.register_api(PluginConfig::default()).unwrap();
    let script = r#"
        answers = {}
        helix.on("ready", function()
            helix.ui.prompt("Name?", "anon", function(a) table.insert(answers, a) end)
            helix.ui.confirm("Sure?", function(a) table.insert(answers, tostring(a)) end)
            helix.ui.picker({ items = { "x", "y" }, prompt = "Pick:", on_select = function(a) table.insert(answers, a) end })
        end)
    "#;
    let plugin = Plugin {
        metadata: PluginMetadata { name: "asker".to_string(), ..Default::default() },
        path: PathBuf::from("asker"),
        enabled: true,
    };
    engine.load_plugin(plugin, EntrySource::Code { code: script.to_string() }).unwrap();
    let mut screen = Screen;
    engine
        .call_event_handlers(
            &mut screen,
            &PluginEvent { event_type: EventType::OnReady, data: EventData::Empty },
        )
        .unwrap();

    match receiver.try_recv().unwrap() {
        UiRequest::Prompt { message, default, plugin_name, callback_id } => {
            assert_eq!(message, "Name?");
            assert_eq!(default, Some("anon".to_string()));
            assert_eq!(plugin_name, "asker");
            assert_eq!(callback_id, 1);
        }
        other => panic!("unexpected request: {:?}", other),
    }
    let confirm = receiver.try_recv().unwrap();
    assert_eq!(confirm.completion_key(), ("asker".to_string(), 2));
    assert!(matches!(confirm, UiRequest::Confirm { .. }));
    let picker = receiver.try_recv().unwrap();
    match &picker {
        UiRequest::Picker { items, prompt, .. } => {
            assert_eq!(items, &vec!["x".to_string(), "y".to_string()]);
            assert_eq!(prompt, "Pick:");
        }
        other => panic!("unexpected request: {:?}", other),
    }
    assert!(receiver.try_recv().is_err());

    let (plugin_name, id) = picker.completion_key();
    engine
        .handle_ui_callback(&mut screen, plugin_name, id, serde_json::Value::String("y".to_string()))
        .unwrap();
    let answers: Vec<String> = engine.lua().globals().get("answers").unwrap();
    assert_eq!(answers, vec!["y"]);
}

#[test]
fn requests_to_a_closed_channel_are_dropped() {
    let (sender, receiver) = tokio::sync::mpsc::unbounded_channel::<UiRequest>();
    drop(receiver);
    let mut engine = LuaEngine::<Screen>::new().unwrap();
    engine.set_ui_handler(UiHandlerWrapper(Arc::new(TermUiHandler::new(sender))));
    engine.register_api(PluginConfig::default()).unwrap();
    let plugin = Plugin {
        metadata: PluginMetadata { name: "p".to_string(), ..Default::default() },
        path: PathBuf::from("p"),
        enabled: true,
    };
    let script = r#"helix.on("ready", function() helix.ui.confirm("Sure?", function() end) end)"#;
    engine.load_plugin(plugin, EntrySource::Code { code: script.to_string() }).unwrap();
    let mut screen = Screen;
    let result = engine.call_event_handlers(
        &mut screen,
        &PluginEvent { event_type: EventType::OnReady, data: EventData::Empty },
    );
    assert!(result.is_ok());
}

#[test]
fn blame_requests_are_merged() {
    let mut handler = BlameHandler::new(DocumentId(1));
    assert!(handler.finish_debounce().is_none());

    let delay = handler.handle_event(BlameEvent {
        path: PathBuf::from("a.rs"),
        doc_id: DocumentId(1),
        line: Some(3),
    });
    assert_eq!(delay, 50);
    handler.handle_event(BlameEvent { path: PathBuf::from("b.rs"), doc_id: DocumentId(2), line: None });
    let due = handler.finish_debounce().unwrap();
    assert_eq!(due.path, PathBuf::from("b.rs"));
    assert_eq!(due.doc_id, DocumentId(2));
    assert_eq!(due.line, None);
    assert!(handler.finish_debounce().is_none());
}

#[test]
fn blame_follow_up_depends_on_auto_fetch() {
    assert_eq!(follow_up(true, Some(4)), BlameFollowUp::Nothing);
    assert_eq!(follow_up(true, None), BlameFollowUp::Nothing);
    assert_eq!(follow_up(false, Some(4)), BlameFollowUp::ShowLine(4));
    assert_eq!(follow_up(false, None), BlameFollowUp::Announce);
}

#[test]
fn blame_is_requested_for_documents_with_a_path() {
    assert!(on_document_open(false, PathBuf::from("a.rs"), DocumentId(1)).is_none());
    let request = on_document_open(true, PathBuf::from("a.rs"), DocumentId(1)).unwrap();
    assert_eq!(request.path, PathBuf::from("a.rs"));
    assert_eq!(request.line, None);

    assert!(switched_on(false, true));
    assert!(!switched_on(true, true));
    assert!(!switched_on(false, false));
    assert!(!switched_on(true, false));

    let documents = vec![
        (DocumentId(1), Some(PathBuf::from("a.rs"))),
        (DocumentId(2), None),
        (DocumentId(3), Some(PathBuf::from("c.rs"))),
    ];
    assert_eq!(on_config_change(true, true, documents.clone()).len(), 0);
    assert_eq!(on_config_change(true, false, documents.clone()).len(), 0);
    let requests = on_config_change(false, true, documents);
    assert_eq!(requests.len(), 2);
    assert_eq!(requests[0].doc_id, DocumentId(1));
    assert_eq!(requests[0].path, PathBuf::from("a.rs"));
    assert_eq!(requests[1].doc_id, DocumentId(3));
    assert_eq!(requests[1].line, None);
}

#[test]
fn handler_queues_into_the_channel_it_was_made_with() {
    let (sender, mut receiver) = tokio::sync::mpsc::unbounded_channel::<UiRequest>();
    let (other, mut unused) = tokio::sync::mpsc::unbounded_channel::<UiRequest>();
    let handler = TermUiHandler::new(sender);
    let mut screen = Screen;
    handler.confirm(&mut screen, "Sure?".to_string(), "p".to_string(), 4);
    handler.prompt(&mut screen, "Name?".to_string(), None, "p".to_string(), 5);
    handler.picker(&mut screen, vec!["a".to_string()], "Pick:".to_string(), "q".to_string(), 6);
    drop(other);
    assert!(unused.try_recv().is_err());
    assert_eq!(receiver.try_recv().unwrap().completion_key(), ("p".to_string(), 4));
    assert_eq!(receiver.try_recv().unwrap().completion_key(), ("p".to_string(), 5));
    assert_eq!(receiver.try_recv().unwrap().completion_key(), ("q".to_string(), 6));
    assert!(receiver.try_recv().is_err());
}
