//! The clipboard shared by the remote server's requests: text that is read, written and
//! cleared.
use vstd::prelude::*;

use crate::error::YuhaError;

verus! {

/// The content of the clipboard.
#[derive(Debug)]
pub struct ClipboardStore {
    content: String,
}

impl View for ClipboardStore {
    type V = Seq<char>;

    /// The text held.
    closed spec fn view(&self) -> Seq<char> {
        self.content@
    }
}

impl ClipboardStore {
    /// An empty clipboard.
    pub fn new() -> (r: Self)
        ensures
            r@ == Seq::<char>::empty(),
    {
        ClipboardStore { content: String::new() }
    }
}

impl Default for ClipboardStore {
    fn default() -> (r: Self)
        ensures
            r@ == Seq::<char>::empty(),
    {
        Self::new()
    }
}

/// A copy of the clipboard's text.
pub fn get_clipboard(store: &ClipboardStore) -> (r: Result<String, YuhaError>)
    ensures
        r matches Ok(s) && s@ == store@,
{
    Ok(store.content.clone())
}

/// Replaces the clipboard's text.
pub fn set_clipboard(store: &mut ClipboardStore, content: &str) -> (r: Result<(), YuhaError>)
    ensures
        r is Ok,
        final(store)@ == content@,
{
    store.content = String::from_str(content);
    Ok(())
}

/// Empties the clipboard.
pub fn clear_clipboard(store: &mut ClipboardStore) -> (r: Result<(), YuhaError>)
    ensures
        r is Ok,
        final(store)@ == Seq::<char>::empty(),
{
    let r = set_clipboard(store, "");
    proof {
        reveal_strlit("");
    }
    r
}

/// Whether the clipboard is empty.
pub fn is_clipboard_empty(store: &ClipboardStore) -> (r: Result<bool, YuhaError>)
    ensures
        r matches Ok(b) && b == (store@.len() == 0),
{
    let content = get_clipboard(store)?;
    Ok(content.as_str().is_empty())
}

} // verus!
