use yuha::clipboard::{clear_clipboard, get_clipboard, is_clipboard_empty, set_clipboard, ClipboardStore};

#[test]
fn test_clipboard_operations() {
    let mut store = ClipboardStore::new();
    let test_content = "Hello, clipboard!";
    assert!(set_clipboard(&mut store, test_content).is_ok());

    let retrieved = get_clipboard(&store).unwrap();
    assert_eq!(retrieved, test_content);

    assert!(clear_clipboard(&mut store).is_ok());
    assert!(is_clipboard_empty(&store).unwrap());
}

#[test]
fn test_async_clipboard() {
    let mut store = ClipboardStore::new();
    let test_content = "Async test";
    assert!(set_clipboard(&mut store, test_content).is_ok());

    let retrieved = get_clipboard(&store).unwrap();
    assert_eq!(retrieved, test_content);
}

#[test]
fn last_write_wins() {
    let mut store = ClipboardStore::default();
    assert!(is_clipboard_empty(&store).unwrap());
    set_clipboard(&mut store, "one").unwrap();
    set_clipboard(&mut store, "two").unwrap();
    assert_eq!(get_clipboard(&store).unwrap(), "two");
    assert!(!is_clipboard_empty(&store).unwrap());
}
