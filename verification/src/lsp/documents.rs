//! The documents that the language server has been told are open, and the
//! notifications that tell it.

use crate::error::LspError;
use crate::lsp::LspResult;
use vstd::prelude::*;

verus! {

/// A message to the language server that expects no answer.
#[derive(Clone, Debug, PartialEq, Eq)]
pub enum Notification {
    /// The handshake is complete.
    Initialized,
    /// The server shall exit.
    Exit,
    /// A document was opened.
    DidOpen {
        /// The URI of the document.
        uri: String,
        /// The language of the document.
        language_id: String,
        /// The version of the text.
        version: i32,
        /// The whole text.
        text: String,
    },
    /// The text of a document was replaced.
    DidChange {
        /// The URI of the document.
        uri: String,
        /// The version of the new text.
        version: i32,
        /// The whole new text.
        text: String,
    },
    /// A document was closed.
    DidClose {
        /// The URI of the document.
        uri: String,
    },
}

/// The text that reports a failure to send a notification.
pub open spec fn send_failure_text(label: Seq<char>, failure: Seq<char>) -> Seq<char> {
    label + " notification failed: "@ + failure
}

/// The text that reports a failure to send a notification.
pub fn send_failure(label: &str, failure: &str) -> (detail: String)
    ensures
        detail@ == send_failure_text(label@, failure@),
{
    let mut detail = String::new();
    detail.append(label);
    detail.append(" notification failed: ");
    detail.append(failure);
    detail
}

/// The language that a file extension stands for; `plaintext` for a missing
/// or unknown extension.
pub open spec fn language_of(extension: Option<Seq<char>>) -> Seq<char> {
    match extension {
        None => "plaintext"@,
        Some(ext) => if ext == "rs"@ {
            "rust"@
        } else if ext == "py"@ {
            "python"@
        } else if ext == "js"@ {
            "javascript"@
        } else if ext == "ts"@ {
            "typescript"@
        } else if ext == "go"@ {
            "go"@
        } else if ext == "c"@ {
            "c"@
        } else if ext == "cpp"@ || ext == "cc"@ || ext == "cxx"@ {
            "cpp"@
        } else if ext == "java"@ {
            "java"@
        } else {
            "plaintext"@
        },
    }
}

/// The view of an optional string.
pub open spec fn optional_text(text: Option<&str>) -> Option<Seq<char>> {
    match text {
        Some(t) => Some(t@),
        None => None,
    }
}

/// The language identifier for a file with the given extension.
pub fn language_id(extension: Option<&str>) -> (language: &'static str)
    ensures
        language@ == language_of(optional_text(extension)),
{
    match extension {
        None => "plaintext",
        Some(ext) => {
            if ext.eq("rs") {
                "rust"
            } else if ext.eq("py") {
                "python"
            } else if ext.eq("js") {
                "javascript"
            } else if ext.eq("ts") {
                "typescript"
            } else if ext.eq("go") {
                "go"
            } else if ext.eq("c") {
                "c"
            } else if ext.eq("cpp") || ext.eq("cc") || ext.eq("cxx") {
                "cpp"
            } else if ext.eq("java") {
                "java"
            } else {
                "plaintext"
            }
        },
    }
}

/// The set of open documents after `uri` was opened.
pub open spec fn after_open(open: Set<Seq<char>>, uri: Seq<char>) -> Set<Seq<char>> {
    open.insert(uri)
}

/// The set of open documents after `uri` was closed.
pub open spec fn after_close(open: Set<Seq<char>>, uri: Seq<char>) -> Set<Seq<char>> {
    open.remove(uri)
}

/// What a change of the document `uri` comes to, with `open` the set of open
/// documents: the notification of the change if the document is open, and
/// `DocumentNotFound` if it is not.
pub open spec fn change_outcome(
    open: Set<Seq<char>>,
    uri: Seq<char>,
    path: Seq<char>,
    text: Seq<char>,
    result: LspResult<Notification>,
) -> bool {
    if open.contains(uri) {
        result matches Ok(Notification::DidChange { uri: sent_uri, version, text: sent_text })
            && sent_uri@ == uri && version == 1 && sent_text@ == text
    } else {
        result matches Err(LspError::DocumentNotFound(detail)) && detail@
            == "document not open: "@ + path
    }
}

/// The documents that the language server holds open, by URI.
#[derive(Debug)]
pub struct DocumentTracker {
    open: Vec<String>,
}

impl View for DocumentTracker {
    type V = Set<Seq<char>>;

    /// The URIs of the open documents.
    closed spec fn view(&self) -> Set<Seq<char>> {
        Set::new(|uri: Seq<char>| exists|i: int| 0 <= i < self.open@.len() && self.open@[i]@ == uri)
    }
}

impl DocumentTracker {
    /// A tracker with no open document.
    pub fn new() -> (tracker: DocumentTracker)
        ensures
            tracker@ == Set::<Seq<char>>::empty(),
    {
        let tracker = DocumentTracker { open: Vec::new() };
        tracker
    }

    fn position(&self, uri: &str) -> (found: Option<usize>)
        ensures
            match found {
                Some(i) => i < self.open@.len() && self.open@[i as int]@ == uri@,
                None => !self@.contains(uri@),
            },
    {
        let mut i: usize = 0;
        while i < self.open.len()
            invariant
                i <= self.open@.len(),
                forall|k: int| 0 <= k < i ==> self.open@[k]@ != uri@,
            decreases self.open@.len() - i,
        {
            if self.open[i].as_str().eq(uri) {
                return Some(i);
            }
            i = i + 1;
        }
        None
    }

    /// Whether the document `uri` is open.
    pub fn is_open(&self, uri: &str) -> (open: bool)
        ensures
            open == self@.contains(uri@),
    {
        self.position(uri).is_some()
    }

    /// The notification that opens the document `uri`: the whole text, at
    /// version 0, in the language of the file's extension. The same
    /// notification is made whether or not the document is open already.
    pub fn open(&self, uri: &str, extension: Option<&str>, text: String) -> (notification:
        Notification)
        ensures
            notification matches Notification::DidOpen {
                uri: sent_uri,
                language_id: language,
                version,
                text: sent_text,
            } && sent_uri@ == uri@ && language@ == language_of(optional_text(extension))
                && version == 0 && sent_text@ == text@,
    {
        Notification::DidOpen {
            uri: uri.to_owned(),
            language_id: language_id(extension).to_owned(),
            version: 0,
            text,
        }
    }

    /// Records that the document `uri` was opened.
    pub fn opened(&mut self, uri: String)
        ensures
            final(self)@ == after_open(old(self)@, uri@),
    {
        let found = self.position(uri.as_str());
        if found.is_none() {
            let ghost before = self.open@;
            self.open.push(uri);
            assert(self@ =~= after_open(old(self)@, uri@)) by {
                assert forall|u: Seq<char>| self@.contains(u) == after_open(
                    old(self)@,
                    uri@,
                ).contains(u) by {
                    if old(self)@.contains(u) {
                        let i = choose|i: int| 0 <= i < before.len() && before[i]@ == u;
                        assert(self.open@[i]@ == u);
                    }
                    if u == uri@ {
                        assert(self.open@[before.len() as int]@ == u);
                    }
                }
            }
        }
    }

    /// The notification that replaces the text of the document `uri`, if the
    /// document is open. A document that is not open is not changed.
    pub fn change(&self, uri: &str, path: &str, text: &str) -> (result: LspResult<Notification>)
        ensures
            change_outcome(self@, uri@, path@, text@, result),
    {
        if self.is_open(uri) {
            Ok(Notification::DidChange { uri: uri.to_owned(), version: 1, text: text.to_owned() })
        } else {
            let mut detail = String::new();
            detail.append("document not open: ");
            detail.append(path);
            Err(LspError::DocumentNotFound(detail))
        }
    }

    /// The notification that closes the document `uri`, whether or not the
    /// document is open.
    pub fn close(&self, uri: &str) -> (notification: Notification)
        ensures
            notification matches Notification::DidClose { uri: sent_uri } && sent_uri@ == uri@,
    {
        Notification::DidClose { uri: uri.to_owned() }
    }

    /// Records that the document `uri` was closed, whether or not it was open.
    pub fn closed(&mut self, uri: &str)
        ensures
            final(self)@ == after_close(old(self)@, uri@),
    {
        let mut kept: Vec<String> = Vec::new();
        let mut i: usize = 0;
        while i < self.open.len()
            invariant
                i <= self.open@.len(),
                *self == *old(self),
                forall|k: int| 0 <= k < kept@.len() ==> kept@[k]@ != uri@ && old(self)@.contains(
                    #[trigger] kept@[k]@,
                ),
                forall|k: int|
                    0 <= k < i && self.open@[k]@ != uri@ ==> exists|j: int|
                        0 <= j < kept@.len() && kept@[j]@ == (#[trigger] self.open@[k])@,
            decreases self.open@.len() - i,
        {
            if !self.open[i].as_str().eq(uri) {
                let ghost before = kept@;
                kept.push(self.open[i].clone());
                assert forall|k: int| 0 <= k < i + 1 && self.open@[k]@ != uri@ implies exists|
                    j: int,
                | 0 <= j < kept@.len() && kept@[j]@ == (#[trigger] self.open@[k])@ by {
                    if k < i {
                        let j = choose|j: int| 0 <= j < before.len() && before[j]@ == self.open@[k]@;
                        assert(kept@[j]@ == self.open@[k]@);
                    } else {
                        assert(kept@[before.len() as int]@ == self.open@[k]@);
                    }
                }
            }
            i = i + 1;
        }
        self.open = kept;
    }
}

/// A document that was never opened cannot be changed.
pub proof fn lemma_change_of_unopened_fails(
    uri: Seq<char>,
    path: Seq<char>,
    text: Seq<char>,
    result: LspResult<Notification>,
)
    requires
        change_outcome(Set::<Seq<char>>::empty(), uri, path, text, result),
    ensures
        result matches Err(LspError::DocumentNotFound(_)),
{
}

/// A document that was closed cannot be changed, whatever was open before.
pub proof fn lemma_change_after_close_fails(
    open: Set<Seq<char>>,
    uri: Seq<char>,
    path: Seq<char>,
    text: Seq<char>,
    result: LspResult<Notification>,
)
    requires
        change_outcome(after_close(open, uri), uri, path, text, result),
    ensures
        result matches Err(LspError::DocumentNotFound(_)),
{
}

/// A change fails with `DocumentNotFound` exactly when the document is not open.
pub proof fn lemma_change_fails_iff_not_open(
    open: Set<Seq<char>>,
    uri: Seq<char>,
    path: Seq<char>,
    text: Seq<char>,
    result: LspResult<Notification>,
)
    requires
        change_outcome(open, uri, path, text, result),
    ensures
        result is Err <==> !open.contains(uri),
        result is Err ==> result matches Err(LspError::DocumentNotFound(_)),
{
}

/// Opening a document twice leaves the same documents open as opening it
/// once, and the document can then be changed.
pub proof fn lemma_open_is_idempotent(open: Set<Seq<char>>, uri: Seq<char>)
    ensures
        after_open(after_open(open, uri), uri) == after_open(open, uri),
        after_open(open, uri).contains(uri),
{
}

} // verus!
