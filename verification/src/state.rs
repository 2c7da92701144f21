//! The editor state that owns one history per open document: the current
//! buffer text, the current file path, a dirty flag, and the `History`.
//! Discrete edits are recorded with `record_change`; `undo` and `redo`
//! replace the buffer text from the history.

use vstd::prelude::*;
use vstd::string::StrSliceExecFns;
use crate::history::DEFAULT_MAX_SIZE;
use crate::history::History;
use crate::history::HistoryView;

verus! {

/// The part of a path after its last `/`: the name a title bar shows for
/// the document. Empty when the path ends in a separator.
pub open spec fn file_name_part(path: Seq<char>) -> Seq<char>
    decreases path.len(),
{
    if path.len() == 0 {
        Seq::empty()
    } else if path.last() == '/' {
        Seq::empty()
    } else {
        file_name_part(path.drop_last()).push(path.last())
    }
}

/// `file_name_part` is the suffix that starts right after the last `/`
/// (or at the front when there is no `/` at all).
proof fn lemma_file_name_part_is_suffix(path: Seq<char>, k: int)
    requires
        0 <= k <= path.len(),
        forall|j: int| k <= j < path.len() ==> path[j] != '/',
        k == 0 || path[k - 1] == '/',
    ensures
        file_name_part(path) =~~= path.subrange(k, path.len() as int),
    decreases path.len(),
{
    if path.len() == 0 {
        assert(file_name_part(path) =~~= path.subrange(0, 0));
    } else if path.last() == '/' {
        assert(k == path.len());
        assert(file_name_part(path) =~~= path.subrange(k, path.len() as int));
    } else {
        assert(k < path.len());
        let shorter = path.drop_last();
        lemma_file_name_part_is_suffix(shorter, k);
        assert(file_name_part(path) =~~= path.subrange(k, path.len() as int));
    }
}

/// The mathematical value of an `EditorState`.
#[verifier::ext_equal]
pub struct EditorStateView {
    pub content: Seq<char>,
    pub current_file: Option<Seq<char>>,
    pub is_modified: bool,
    pub history: HistoryView,
}

/// The state of one open document: its buffer text, the path it was
/// loaded from or saved to (if any), whether it has unsaved changes, and
/// its undo/redo history.
pub struct EditorState {
    content: String,
    current_file: Option<String>,
    is_modified: bool,
    history: History,
}

impl View for EditorState {
    type V = EditorStateView;

    closed spec fn view(&self) -> EditorStateView {
        EditorStateView {
            content: self.content@,
            current_file: match self.current_file {
                Some(p) => Some(p@),
                None => None,
            },
            is_modified: self.is_modified,
            history: self.history@,
        }
    }
}

impl EditorState {
    /// The invariant: the owned history is well formed.
    pub open spec fn wf(&self) -> bool {
        self@.history.wf()
    }

    /// A fresh, unmodified document: empty buffer, no file, and a history
    /// seeded with the empty text.
    pub fn new() -> (s: EditorState)
        ensures
            s.wf(),
            s@.content == Seq::<char>::empty(),
            s@.current_file is None,
            !s@.is_modified,
            s@.history.snapshots =~~= seq![Seq::<char>::empty()],
            s@.history.current_index == 0,
            s@.history.max_size == DEFAULT_MAX_SIZE,
    {
        let content = String::new();
        let history = History::new(content.clone());
        EditorState { content, current_file: None, is_modified: false, history }
    }

    /// The buffer text, for display.
    pub fn content(&self) -> (r: &String)
        ensures
            r@ == self@.content,
    {
        &self.content
    }

    /// Exclusive access to the buffer text for an edit; the document is
    /// marked modified, and everything else is left alone.
    pub fn content_mut(&mut self) -> (r: &mut String)
        ensures
            (*r)@ == old(self)@.content,
            final(self)@.content == (*final(r))@,
            final(self)@.current_file == old(self)@.current_file,
            final(self)@.is_modified,
            final(self)@.history == old(self)@.history,
    {
        self.is_modified = true;
        &mut self.content
    }

    /// The file name of the current file: the part of its path after the
    /// last `/`, or `None` when there is no file or that part is empty.
    pub fn current_file_name(&self) -> (r: Option<String>)
        ensures
            self@.current_file is None ==> r is None,
            self@.current_file is Some ==> {
                let name = file_name_part(self@.current_file->Some_0);
                &&& r is Some <==> name.len() > 0
                &&& r is Some ==> r->Some_0@ == name
            },
    {
        match &self.current_file {
            None => None,
            Some(path) => {
                let s: &str = path.as_str();
                let n: usize = s.unicode_len();
                let mut start: usize = 0;
                let mut i: usize = 0;
                while i < n
                    invariant
                        0 <= start <= i <= n,
                        n == s@.len(),
                        start == 0 || s@[start - 1] == '/',
                        forall|j: int| start <= j < i ==> s@[j] != '/',
                    decreases n - i,
                {
                    if s.get_char(i) == '/' {
                        start = i + 1;
                    }
                    i = i + 1;
                }
                proof {
                    lemma_file_name_part_is_suffix(s@, start as int);
                }
                if start == n {
                    None
                } else {
                    Some(s.substring_char(start, n).to_owned())
                }
            },
        }
    }

    /// Replace the whole document, as after opening a file: the buffer
    /// holds `content`, the path is `path`, the document counts as saved,
    /// and the history starts over, seeded with the new text.
    pub fn set_content(&mut self, content: String, path: String)
        ensures
            final(self).wf(),
            final(self)@.content == content@,
            final(self)@.current_file == Some(path@),
            !final(self)@.is_modified,
            final(self)@.history.snapshots =~~= seq![content@],
            final(self)@.history.current_index == 0,
            final(self)@.history.max_size == DEFAULT_MAX_SIZE,
    {
        self.history = History::new(content.clone());
        self.content = content;
        self.current_file = Some(path);
        self.is_modified = false;
    }

    /// A copy of the buffer text, as handed to a file writer.
    pub fn get_content(&self) -> (r: String)
        ensures
            r@ == self@.content,
    {
        self.content.clone()
    }

    /// Reset to a blank, unsaved document with a fresh history.
    pub fn new_file(&mut self)
        ensures
            final(self).wf(),
            final(self)@.content == Seq::<char>::empty(),
            final(self)@.current_file is None,
            !final(self)@.is_modified,
            final(self)@.history.snapshots =~~= seq![Seq::<char>::empty()],
            final(self)@.history.current_index == 0,
            final(self)@.history.max_size == DEFAULT_MAX_SIZE,
    {
        let content = String::new();
        self.history = History::new(content.clone());
        self.content = content;
        self.current_file = None;
        self.is_modified = false;
    }

    /// The path of the current file, if the document has one.
    pub fn current_file(&self) -> (r: Option<&String>)
        ensures
            r is Some <==> self@.current_file is Some,
            r is Some ==> r->Some_0@ == self@.current_file->Some_0,
    {
        match &self.current_file {
            Some(p) => Some(p),
            None => None,
        }
    }

    /// Remember `path` as the current file, as after a successful save.
    pub fn set_current_file(&mut self, path: String)
        ensures
            final(self)@.current_file == Some(path@),
            final(self)@.content == old(self)@.content,
            final(self)@.is_modified == old(self)@.is_modified,
            final(self)@.history == old(self)@.history,
    {
        self.current_file = Some(path);
    }

    /// Record the buffer's current text as a new undoable state.
    pub fn record_change(&mut self)
        requires
            old(self).wf(),
        ensures
            final(self).wf(),
            final(self)@.history =~~= old(self)@.history.push_spec(old(self)@.content),
            final(self)@.content == old(self)@.content,
            final(self)@.current_file == old(self)@.current_file,
            final(self)@.is_modified == old(self)@.is_modified,
    {
        let text = self.content.clone();
        self.history.push(text);
    }

    /// Step the history back and load that text into the buffer. Returns
    /// whether anything happened; when it did, the document counts as
    /// modified. When nothing could be undone, the state is untouched.
    pub fn undo(&mut self) -> (r: bool)
        requires
            old(self).wf(),
        ensures
            final(self).wf(),
            r == old(self)@.history.can_undo(),
            final(self)@.history =~~= old(self)@.history.undo_spec(),
            final(self)@.current_file == old(self)@.current_file,
            r ==> final(self)@.content == final(self)@.history.current_text()
                && final(self)@.is_modified,
            !r ==> final(self)@ =~~= old(self)@,
    {
        match self.history.undo() {
            Some(text) => {
                self.content = text;
                self.is_modified = true;
                true
            },
            None => false,
        }
    }

    /// Step the history forward and load that text into the buffer.
    /// Returns whether anything happened; when it did, the document
    /// counts as modified. When nothing could be redone, the state is
    /// untouched.
    pub fn redo(&mut self) -> (r: bool)
        requires
            old(self).wf(),
        ensures
            final(self).wf(),
            r == old(self)@.history.can_redo(),
            final(self)@.history =~~= old(self)@.history.redo_spec(),
            final(self)@.current_file == old(self)@.current_file,
            r ==> final(self)@.content == final(self)@.history.current_text()
                && final(self)@.is_modified,
            !r ==> final(self)@ =~~= old(self)@,
    {
        match self.history.redo() {
            Some(text) => {
                self.content = text;
                self.is_modified = true;
                true
            },
            None => false,
        }
    }

    /// True iff an undo would do something.
    pub fn can_undo(&self) -> (r: bool)
        ensures
            r == self@.history.can_undo(),
    {
        self.history.can_undo()
    }

    /// True iff a redo would do something.
    pub fn can_redo(&self) -> (r: bool)
        requires
            self.wf(),
        ensures
            r == self@.history.can_redo(),
    {
        self.history.can_redo()
    }

    /// True iff the document has unsaved changes.
    pub fn is_modified(&self) -> (r: bool)
        ensures
            r == self@.is_modified,
    {
        self.is_modified
    }
}

} // verus!
