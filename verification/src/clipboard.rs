use vstd::prelude::*;

verus! {

/// Which clipboard buffer an operation addresses.
#[derive(Clone, Copy, Debug, PartialEq, Eq, Structural)]
pub enum ClipboardKind {
    /// The standard clipboard.
    Standard,
    /// The primary selection (present on X11 and Wayland).
    Primary,
}

/// A clipboard that holds nothing: reads find no text and writes are dropped.
#[derive(Clone, Copy, Debug)]
pub struct NullClipboard;

impl NullClipboard {
    /// Reads the clipboard of the given kind: there is never any text.
    pub fn read(&self, kind: ClipboardKind) -> (contents: Option<String>)
        ensures
            contents is None,
    {
        None
    }

    /// Writes text to the clipboard of the given kind: the text is discarded.
    pub fn write(&mut self, kind: ClipboardKind, contents: String)
        ensures
            *final(self) == *old(self),
    {
    }
}

} // verus!
