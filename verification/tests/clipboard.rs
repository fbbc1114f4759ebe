use rdp_remote::clipboard::{ClipboardContent, ClipboardManager};

#[test]
fn test_clipboard_manager_new() {
    let manager = ClipboardManager::new();
    assert!(manager.get_last_content().is_none());
}

#[test]
fn test_clipboard_content_text() {
    let content = ClipboardContent::Text("Hello World".to_string());
    match content {
        ClipboardContent::Text(text) => {
            assert_eq!(text, "Hello World");
        }
    }
}

#[test]
fn test_clipboard_manager_set_content() {
    let mut manager = ClipboardManager::new();
    let content = ClipboardContent::Text("Test content".to_string());
    manager.set_content(content.clone());

    assert!(manager.get_last_content().is_some());
    match manager.get_last_content().as_ref().unwrap() {
        ClipboardContent::Text(text) => {
            assert_eq!(text, "Test content");
        }
    }
}

#[test]
fn test_clipboard_manager_check_changes_detects_change() {
    let mut manager = ClipboardManager::new();

    assert!(manager.check_changes().is_none());

    let content = ClipboardContent::Text("New content".to_string());
    manager.set_content(content.clone());

    let changed = manager.check_changes();
    assert!(changed.is_some());
    match changed.unwrap() {
        ClipboardContent::Text(text) => {
            assert_eq!(text, "New content");
        }
    }

    assert!(manager.check_changes().is_none());
}

#[test]
fn test_clipboard_manager_check_changes_detects_multiple_changes() {
    let mut manager = ClipboardManager::new();

    manager.set_content(ClipboardContent::Text("First".to_string()));
    let changed = manager.check_changes();
    assert!(changed.is_some());

    manager.set_content(ClipboardContent::Text("Second".to_string()));
    let changed = manager.check_changes();
    assert!(changed.is_some());
    match changed.unwrap() {
        ClipboardContent::Text(text) => {
            assert_eq!(text, "Second");
        }
    }
}

#[test]
fn test_clipboard_no_duplicate_sync() {
    let mut manager = ClipboardManager::new();

    assert!(manager.check_changes().is_none());

    manager.set_content(ClipboardContent::Text("Content".to_string()));
    assert!(manager.check_changes().is_some());

    assert!(manager.check_changes().is_none());
}

#[test]
fn same_text_set_again_is_not_a_change() {
    let mut manager = ClipboardManager::new();
    manager.set_content(ClipboardContent::Text("same".to_string()));
    assert!(manager.check_changes().is_some());
    manager.set_content(ClipboardContent::Text("same".to_string()));
    assert!(manager.check_changes().is_none());
    assert_eq!(manager.get_last_content(), Some(&ClipboardContent::Text("same".to_string())));
}
