use helix_plugin::types::EventType;
use std::str::FromStr;

#[test]
fn event_names_round_trip() {
    let all = [
        (EventType::OnInit, "init"),
        (EventType::OnReady, "ready"),
        (EventType::OnBufferOpen, "buffer_open"),
        (EventType::OnBufferPreSave, "buffer_pre_save"),
        (EventType::OnBufferPostSave, "buffer_post_save"),
        (EventType::OnBufferClose, "buffer_close"),
        (EventType::OnBufferChanged, "buffer_changed"),
        (EventType::OnModeChange, "mode_change"),
        (EventType::OnKeyPress, "key_press"),
        (EventType::OnLspAttach, "lsp_attach"),
        (EventType::OnLspDiagnostic, "lsp_diagnostic"),
        (EventType::OnLspInitialized, "lsp_initialized"),
        (EventType::OnSelectionChange, "selection_change"),
        (EventType::OnViewChange, "view_change"),
    ];
    for (event_type, name) in all {
        assert_eq!(event_type.as_str(), name);
        assert_eq!(EventType::from_str(name), Ok(event_type));
        assert_eq!(EventType::parse(name), Some(event_type));
    }
}

#[test]
fn unknown_event_name_is_rejected() {
    assert_eq!(EventType::from_str("buffer_save"), Err(()));
    assert_eq!(EventType::parse(""), None);
    assert_eq!(EventType::parse("Init"), None);
}

#[test]
fn from_str_agrees_with_parse() {
    for name in ["init", "lsp_initialized", "selection_change", "nothing", ""] {
        assert_eq!(EventType::from_str(name).ok(), EventType::parse(name));
    }
}
