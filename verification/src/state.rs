//! The application state the commands work on: the two file panes (each a
//! strip of tabs), the mode, the popup on screen, the message line, and what
//! each feature keeps between keystrokes. Work that leaves the process — the
//! shell, the clipboard, the state file, worker threads — is not done here:
//! it is queued in `effects` for the front end to carry out, in order.
use vstd::prelude::*;

use crate::lang::Lang;

verus! {

/// Which kind of keys cian is taking.
#[derive(Clone, Copy, Debug, PartialEq, Eq, Structural)]
pub enum Mode {
    Normal,
    Visual,
    Command,
    Filter,
    Search,
}

/// Which surface has the keyboard.
#[derive(Clone, Copy, Debug, PartialEq, Eq, Structural)]
pub enum FocusedPane {
    Left,
    Right,
    Shell,
}

/// One row of a listing.
#[derive(Clone, Debug)]
pub struct Entry {
    pub name: String,
    pub path: String,
    pub is_dir: bool,
    /// The `..` row.
    pub is_parent: bool,
}

/// One directory listing with its cursor and marks.
#[derive(Clone, Debug)]
pub struct Pane {
    pub cwd: String,
    pub entries: Vec<Entry>,
    pub cursor: usize,
    /// Marked paths (a set: no path twice).
    pub marks: Vec<String>,
    pub filter: String,
    /// Directories visited, most recent first.
    pub history: Vec<String>,
    pub show_hidden: bool,
    /// Browsing a remote host over SFTP.
    pub remote: bool,
    /// Browsing inside an archive.
    pub in_archive: bool,
    /// A flattened (branch) view of a tree.
    pub flat: bool,
}

/// The tabs of one side.
#[derive(Clone, Debug)]
pub struct FileTabs {
    pub tabs: Vec<Pane>,
    pub active: usize,
}

/// The paths of `v`, as character sequences.
pub open spec fn path_views(v: Seq<String>) -> Seq<Seq<char>> {
    Seq::new(v.len(), |i: int| v[i]@)
}

/// `new` is `old` after Space on its `i`-th entry: a marked entry is
/// unmarked, an unmarked one (never `..`) marked; nothing else changes.
pub open spec fn mark_toggled(old: Pane, new: Pane, i: usize) -> bool {
    &&& new == (Pane { marks: new.marks, ..old })
    &&& i < old.entries@.len() && old.marked_at(i as int) ==> path_views(
        new.marks@,
    ) == path_views(old.marks@).filter(
        |q: Seq<char>| q != old.entries@[i as int].path@,
    )
    &&& i < old.entries@.len() && !old.marked_at(i as int)
        && !old.entries@[i as int].is_parent ==> new.marks@ == old.marks@.push(old.entries@[i as int].path)
    &&& (i >= old.entries@.len() || (!old.marked_at(i as int)
        && old.entries@[i as int].is_parent)) ==> new.marks@ == old.marks@
}

impl Pane {
    /// Is `path` among the marks?
    pub open spec fn has_mark(self, path: Seq<char>) -> bool {
        path_views(self.marks@).contains(path)
    }

    /// Is the `i`-th entry marked?
    pub open spec fn marked_at(self, i: int) -> bool {
        0 <= i < self.entries@.len() && self.has_mark(self.entries@[i].path@)
    }

    /// The paths the pane's operations act on: the marked entries (never
    /// `..`), in listing order; with nothing marked, the entry under the
    /// cursor unless it is `..`.
    pub open spec fn targets(self) -> Seq<Seq<char>> {
        if self.marks@.len() > 0 {
            marked_paths(self.entries@, self)
        } else if self.cursor < self.entries@.len() && !self.entries@[self.cursor as int].is_parent {
            seq![self.entries@[self.cursor as int].path@]
        } else {
            seq![]
        }
    }

    /// `Pane::is_marked`.
    pub fn is_marked(&self, i: usize) -> (b: bool)
        ensures
            b == self.marked_at(i as int),
    {
        if i >= self.entries.len() {
            return false;
        }
        let p = &self.entries[i].path;
        let mut k: usize = 0;
        while k < self.marks.len()
            invariant
                k <= self.marks.len(),
                i < self.entries.len(),
                *p == self.entries@[i as int].path,
                forall|j: int| 0 <= j < k ==> self.marks@[j]@ != p@,
            decreases self.marks.len() - k,
        {
            if self.marks[k] == *p {
                assert(path_views(self.marks@)[k as int] == p@);
                return true;
            }
            k += 1;
        }
        assert(!path_views(self.marks@).contains(p@)) by {
            if path_views(self.marks@).contains(p@) {
                let j = choose|j: int| 0 <= j < self.marks@.len() && path_views(self.marks@)[j] == p@;
                assert(self.marks@[j]@ == p@);
            }
        }
        false
    }

    /// `Pane::mark_count`.
    pub fn mark_count(&self) -> (n: usize)
        ensures
            n == self.marks@.len(),
    {
        self.marks.len()
    }

    /// Mark the `i`-th entry (never `..`; a mark already there stays one).
    pub fn set_mark_at(&mut self, i: usize)
        ensures
            *final(self) == (Pane { marks: final(self).marks, ..*old(self) }),
            (i < old(self).entries@.len() && !old(self).entries@[i as int].is_parent
                && !old(self).marked_at(i as int)) ==> final(self).marks@ == old(self).marks@.push(
                old(self).entries@[i as int].path,
            ),
            !(i < old(self).entries@.len() && !old(self).entries@[i as int].is_parent
                && !old(self).marked_at(i as int)) ==> final(self).marks@ == old(self).marks@,
    {
        if i < self.entries.len() && !self.entries[i].is_parent && !self.is_marked(i) {
            let p = self.entries[i].path.clone();
            self.marks.push(p);
        }
    }

    /// Unmark the `i`-th entry if it is marked (every copy of its path goes).
    fn unmark_at(&mut self, i: usize)
        requires
            i < old(self).entries@.len(),
        ensures
            *final(self) == (Pane { marks: final(self).marks, ..*old(self) }),
            path_views(final(self).marks@) == path_views(old(self).marks@).filter(
                |q: Seq<char>| q != old(self).entries@[i as int].path@,
            ),
    {
        let p = self.entries[i].path.clone();
        let mut kept: Vec<String> = Vec::new();
        let mut k: usize = 0;
        let ghost all = path_views(self.marks@);
        assert(all.take(0).filter(|q: Seq<char>| q != p@) =~= seq![]);
        while k < self.marks.len()
            invariant
                k <= self.marks.len(),
                all == path_views(self.marks@),
                p@ == self.entries@[i as int].path@,
                path_views(kept@) == all.take(k as int).filter(|q: Seq<char>| q != p@),
            decreases self.marks.len() - k,
        {
            proof {
                assert(all.take(k + 1).drop_last() =~= all.take(k as int));
                assert(all.take(k + 1).last() == self.marks@[k as int]@);
                reveal_with_fuel(Seq::filter, 1);
            }
            if self.marks[k] != p {
                let m = self.marks[k].clone();
                let ghost before = path_views(kept@);
                kept.push(m);
                assert(path_views(kept@) =~= before.push(self.marks@[k as int]@));
            }
            k += 1;
        }
        assert(all.take(self.marks.len() as int) =~= all);
        self.marks = kept;
    }

    /// Flip the mark on the `i`-th entry.
    pub fn toggle_mark_at(&mut self, i: usize)
        ensures
            mark_toggled(*old(self), *final(self), i),
    {
        if i < self.entries.len() && self.is_marked(i) {
            self.unmark_at(i);
        } else {
            self.set_mark_at(i);
        }
    }

    /// Drop every mark.
    pub fn clear_marks(&mut self)
        ensures
            *final(self) == (Pane { marks: final(self).marks, ..*old(self) }),
            final(self).marks@.len() == 0,
    {
        self.marks = Vec::new();
    }

    /// The entry under the cursor.
    pub fn selected(&self) -> (e: Option<&Entry>)
        ensures
            self.cursor < self.entries@.len() ==> e == Some(&self.entries@[self.cursor as int]),
            self.cursor >= self.entries@.len() ==> e is None,
    {
        if self.cursor < self.entries.len() {
            Some(&self.entries[self.cursor])
        } else {
            None
        }
    }

    /// The paths the pane's operations act on.
    pub fn target_paths(&self) -> (out: Vec<String>)
        ensures
            path_views(out@) == self.targets(),
    {
        if self.marks.len() > 0 {
            let mut out: Vec<String> = Vec::new();
            let mut i: usize = self.entries.len();
            assert(path_views(out@) =~= seq![]);
            assert(self.entries@.skip(self.entries@.len() as int) =~= seq![]);
            while i > 0
                invariant
                    i <= self.entries.len(),
                    self.marks@.len() > 0,
                    path_views(out@) == marked_paths(self.entries@.skip(i as int), *self),
                decreases i,
            {
                let ghost rest = self.entries@.skip(i - 1);
                assert(rest.drop_first() =~= self.entries@.skip(i as int));
                assert(rest[0] == self.entries@[i - 1]);
                if !self.entries[i - 1].is_parent && self.is_marked(i - 1) {
                    let p = self.entries[i - 1].path.clone();
                    let ghost before = path_views(out@);
                    out.insert(0, p);
                    assert(path_views(out@) =~= seq![p@] + before);
                }
                i -= 1;
            }
            assert(self.entries@.skip(0) =~= self.entries@);
            out
        } else if self.cursor < self.entries.len() && !self.entries[self.cursor].is_parent {
            let mut out: Vec<String> = Vec::new();
            out.push(self.entries[self.cursor].path.clone());
            assert(path_views(out@) =~= seq![self.entries@[self.cursor as int].path@]);
            out
        } else {
            let out: Vec<String> = Vec::new();
            assert(path_views(out@) =~= seq![]);
            out
        }
    }

    /// Move the cursor by `delta`, stopping at either end.
    pub fn move_cursor(&mut self, delta: isize)
        ensures
            *final(self) == (Pane { cursor: final(self).cursor, ..*old(self) }),
            old(self).entries@.len() == 0 ==> final(self).cursor == 0,
            old(self).entries@.len() > 0 ==> final(self).cursor == clamp(
                old(self).cursor + delta,
                0,
                old(self).entries@.len() - 1,
            ),
    {
        let n = self.entries.len();
        if n == 0 {
            self.cursor = 0;
            return;
        }
        let last = (n - 1) as i128;
        let want = self.cursor as i128 + delta as i128;
        let c = if want < 0 { 0 } else if want > last { last } else { want };
        self.cursor = c as usize;
    }
}

/// `v` held to `[lo, hi]`.
pub open spec fn clamp(v: int, lo: int, hi: int) -> int {
    if v < lo {
        lo
    } else if v > hi {
        hi
    } else {
        v
    }
}

/// The marked, non-`..` entries of `es`, in order.
pub open spec fn marked_paths(es: Seq<Entry>, p: Pane) -> Seq<Seq<char>>
    decreases es.len(),
{
    if es.len() == 0 {
        seq![]
    } else {
        let rest = marked_paths(es.drop_first(), p);
        if !es[0].is_parent && p.has_mark(es[0].path@) {
            seq![es[0].path@] + rest
        } else {
            rest
        }
    }
}

/// What a text prompt is for.
#[derive(Debug)]
pub enum InputKind {
    Rename { original: String },
    BulkRenamePattern { targets: Vec<String> },
    NewFile { parent: String },
    NewDir { parent: String },
    FindRecursive,
    GrepRecursive,
    JumpPath,
    AiShellCmd,
    AiShellRefine { description: String, rejected: String },
    AiRename,
    AiSearch,
    SvnCommit { paths: Vec<String> },
    /// A bookmark's name, in the group at `path`: a new one, or the one at
    /// `edit_idx`; `group` makes a folder.
    ShortcutName { path: Vec<usize>, edit_idx: Option<usize>, group: bool },
    ExtractPassword { archive: String, members: Vec<String>, dest: String, strip: String },
    ZipPassword { dest: String, sources: Vec<String> },
    /// The name `src` takes as it is copied or moved into `dest_dir`.
    TransferAs { op: PendingOp, src: String, dest_dir: String },
    /// Where to copy or move `targets` to, typed in.
    DestPath { op: PendingOp, targets: Vec<String> },
    /// A bookmark's target, after its name: `name` is the name given.
    ShortcutTarget { path: Vec<usize>, edit_idx: Option<usize>, name: String },
}

/// One row of the rename review: `path`, now named `old`, to become `new`.
#[derive(Debug)]
pub struct RenameItem {
    pub path: String,
    pub old: String,
    pub new: String,
    pub selected: bool,
}

/// What an AI request is for, and what its answer is read against.
#[derive(Debug)]
pub enum AiPurpose {
    /// A turn of the open chat.
    Chat,
    /// A shell command doing what `description` says.
    ShellCommand { description: String },
    /// A commit message for the staged changes.
    CommitMessage,
    /// New names for these files (name, path).
    Rename { names: Vec<(String, String)> },
    /// Which of the surveyed files answer a question.
    SemSearch,
}

/// What is at a path.
#[derive(Clone, Copy, Debug, PartialEq, Eq, Structural)]
pub enum PathKind {
    Missing,
    Dir,
    File,
}

/// A key, as far as the commands here tell keys apart.
#[derive(Clone, Copy, Debug, PartialEq, Eq, Structural)]
pub enum KeyCode {
    Esc,
    Enter,
    Backspace,
    Up,
    Down,
    Left,
    Right,
    Home,
    End,
    PageUp,
    PageDown,
    Delete,
    Tab,
    BackTab,
    /// A function key, by its number.
    F(u8),
    Char(char),
    Other,
}

/// A key with the modifiers the commands look at.
#[derive(Clone, Copy, Debug, PartialEq, Eq, Structural)]
pub struct KeyPress {
    pub code: KeyCode,
    pub ctrl: bool,
    pub shift: bool,
    pub alt: bool,
}

/// Copy or move.
#[derive(Clone, Copy, Debug, PartialEq, Eq, Structural)]
pub enum PendingOp {
    Copy,
    Move,
}

/// Which backend a chat talks to.
#[derive(Clone, Copy, Debug, PartialEq, Eq, Structural)]
pub enum ChatMode {
    Ai,
}

/// How a chat window presents itself: its title, and whether it is the
/// plain look.
#[derive(Debug)]
pub struct ChatSkin {
    pub title: String,
    pub simple: bool,
}

/// One turn of a conversation.
#[derive(Debug)]
pub struct ChatMsg {
    pub user: bool,
    pub text: String,
}

/// A row of the duplicate-file review.
#[derive(Debug)]
pub struct DupeItem {
    pub path: String,
    pub group: usize,
    pub keeper: bool,
    pub selected: bool,
}

/// A row of a review checklist (junk files).
#[derive(Debug)]
pub struct JunkItem {
    pub path: String,
    pub selected: bool,
}

/// One line of a folder comparison.
#[derive(Debug)]
pub struct CompareEntry {
    pub rel: String,
}

/// What is on screen over the panes.
#[derive(Debug)]
pub enum Popup {
    Closed,
    Notice { lines: Vec<String> },
    Search { buffer: String },
    /// A one-field prompt: the caret is a character index into `buffer`,
    /// and `select_all` means the next edit replaces the whole text.
    TextInput {
        title: String,
        prompt: String,
        buffer: String,
        cursor: usize,
        select_all: bool,
        kind: InputKind,
    },
    ConfirmDelete { targets: Vec<String> },
    History { entries: Vec<String>, cursor: usize },
    Snippets { cursor: usize, filter: String },
    ConfirmSnippet { name: String, cmd: String, enter: bool },
    DestPicker { op: PendingOp, targets: Vec<String>, cursor: usize },
    ConfirmQuit,
    ConfirmNewTab { side: FocusedPane },
    /// Ask before closing the shown tab of a file pane.
    ConfirmCloseTab { side: FocusedPane },
    OpQueue { cursor: usize },
    AiChat {
        input: String,
        log: Vec<ChatMsg>,
        scroll: usize,
        pending: bool,
        sel: Option<(usize, usize)>,
        mode: ChatMode,
        skin: ChatSkin,
    },
    AiHistory { cursor: usize },
    AiShellConfirm { command: String, description: String },
    DupeReview { items: Vec<DupeItem>, cursor: usize, scroll: usize },
    JunkReview { items: Vec<JunkItem>, cursor: usize, scroll: usize },
    Viewer {
        title: String,
        path: String,
        lines: Vec<String>,
        find_input: bool,
        sub_input: bool,
        block_input: bool,
        editing: bool,
        anchor: (usize, usize),
        line: usize,
        col: usize,
        goal: usize,
        visual_lines: bool,
    },
    Palette,
    CommitMessage { buffer: String },
    GrepReplace,
    ThemePicker { cursor: usize, pane_side: Option<usize> },
    Diff { left_path: String, right_path: String },
    DirCompare { entries: Vec<CompareEntry>, cursor: usize },
    ConfirmDiffCopy { src: String, dst: String, is_dir: bool, back: Box<Popup> },
    /// "Copy these over?" for a folder comparison: each `(src, dest_dir,
    /// is_dir)`.
    ConfirmDirSync { ops: Vec<(String, String, bool)>, back: Box<Popup> },
    Shortcuts { cursor: usize, path: Vec<usize> },
    TransferRetry { op: PendingOp, targets: Vec<String>, dest: String, how: RetryHow, why: String },
    ConfirmShortcutDelete { path: Vec<usize>, idx: usize, back: Box<Popup> },
    ConfirmDiscard { targets: Vec<String>, dir: String },
    Archive { path: String, members: Vec<String>, cursor: usize },
    RenameReview { items: Vec<RenameItem>, cursor: usize, scroll: usize },
    /// "Copy (or move) these here?"
    ConfirmTransfer { op: PendingOp, targets: Vec<String>, dest: String },
    /// A list of found files (paths), Enter previewing one.
    FindResults { hits: Vec<String>, cursor: usize, scroll: usize },
}

/// A job for the input-method worker.
#[derive(Clone, Copy, Debug, PartialEq, Eq, Structural)]
pub enum ImeJob {
    /// Going back to commands: remember the source, then switch it off.
    LeaveText,
    /// Taking text: switch back to what was remembered.
    EnterText,
}

/// Where the active pane is asked to go.
#[derive(Debug)]
pub enum NavTarget {
    Back,
    Forward,
    Parent,
    Path(String),
    /// The directory holding this path, with the cursor on it.
    Reveal(String),
    /// Out of a search listing, back to the folder it came from.
    LeaveListing,
}

/// Work for the front end to carry out, in the order queued.
#[derive(Debug)]
pub enum Effect {
    /// Start the shell in this directory if it is not running.
    EnsureShell { cwd: String },
    /// Type into the active shell session.
    WriteShell { text: String },
    /// Put text on the system clipboard.
    SetClipboard { text: String },
    /// Remember a value across runs.
    StateSet { key: String, value: String },
    /// Run the terminal's font command.
    RunFontCommand { cmd: String },
    /// Hand a job to the input-method worker.
    Ime { job: ImeJob },
    /// Write the AI conversation history.
    SaveAiHistory,
    /// Attach the image on the clipboard to the open chat.
    AttachClipboardImage,
    /// Ask the model for a shell command doing what `description` says,
    /// for the system the shell is on.
    AskShellCommand { description: String },
    /// Open the recursive file finder.
    StartFileFinder,
    /// The archive under the cursor: delete, or start a rename, in it.
    ArchiveDelete,
    ArchiveRenameStart,
    /// Cancel the running find.
    CancelFind,
    /// Cancel the running operation.
    CancelOp,
    /// Start an operation on the worker.
    SpawnOp { label: String, work: OpWork, retries: u8 },
    /// Copy `src` over `dst` (the diff views' copy).
    DiffCopy { src: String, dst: String, is_dir: bool },
    /// Reload both listings (archive views included).
    ReloadPanes,
    /// List the remote pane on this side again.
    RemoteRelist { side: FocusedPane },
    /// A long job finished: ring the bell and notify the desktop with
    /// `summary` if it ran for long enough (`elapsed_ms`).
    Notify { summary: String, elapsed_ms: u64 },
    /// Move the active pane: back or forward in its history, up to the
    /// parent, or to a path.
    Navigate { to: NavTarget },
    /// Rename `original` to `name` in its own directory, then report with
    /// `App::after_rename`.
    RenameInPlace { original: String, name: String },
    /// Create the file (or, with `dir`, the directory) `name` in `parent`,
    /// then report with `App::after_create`.
    Create { parent: String, name: String, dir: bool },
    /// Work out where the typed `raw` path leads, then go there with
    /// `App::finish_jump_path`.
    JumpPath { raw: String },
    /// Search below the active pane: names containing `query`, or with
    /// `content` files containing it.
    StartFind { query: String, content: bool },
    /// `svn commit` the paths with this message (`App::svn_commit`).
    SvnCommit { paths: Vec<String>, message: String },
    /// Work out the new names `pattern` gives the targets, then offer them
    /// with `App::offer_bulk_rename`.
    PlanBulkRename { targets: Vec<String>, names: Vec<String>, pattern: String },
    /// Send the model `request` for `purpose`.
    AiRequest { purpose: AiPurpose, request: String },
    /// Survey the tree below `root` and ask the model which files answer
    /// `query`.
    AiSearch { root: String, query: String },
    /// Reload the active pane's listing.
    ReloadActive,
    /// Open the entry under the cursor the way Enter does.
    OpenSelected,
    /// Move the active shell tab's nearest divider across (`across`: a
    /// left|right split) or along by `delta` percent.
    NudgeShellSplit { across: bool, delta: i16 },
    /// Set the divider `node` of shell tab `tab` to `pct` percent.
    SetShellSplit { tab: usize, node: usize, pct: u16 },
    /// Copy or move `src` into `dest_dir` under the name `name`, then
    /// reload both panes and say how it went.
    TransferAs { op: PendingOp, src: String, dest_dir: String, name: String },
    /// Throw away the working-copy changes to `targets` in `dir`.
    GitDiscard { targets: Vec<String>, dir: String },
    /// Leave the program.
    Quit,
    /// Reverse `action` on the disk, then report with `App::finish_undo`.
    Undo { action: UndoAction },
    /// Do `action` again, then report with `App::finish_redo`.
    Redo { action: UndoAction },
    /// A key of normal mode that this library does not bind, for the
    /// front end's own key map.
    NormalKey { key: KeyPress },
    /// A key in the shell pane and what it was read as.
    ShellKey { action: crate::shell_keys::ShellKey, key: KeyPress },
    /// A key for a popup whose keymap belongs to the front end.
    PopupKey { key: KeyPress },
    /// Zoom the focused surface to the whole window (`pane_only`: only the
    /// active split of the shell), or back.
    Zoom { pane_only: bool },
    /// Show the key manual.
    OpenManual,
    /// Open the bookmark `name`: a web address (`url`) with the system's
    /// opener, else its path — a directory in the pane, anything else with
    /// the system's opener — then report with `App::after_shortcut_open`.
    OpenShortcut { name: String, target: String, url: bool },
    /// Put a bookmark's target on the clipboard and say so.
    CopyShortcutTarget { target: String },
    /// List `cwd` and open it as a new tab on `side`, then hand the pane to
    /// `App::add_tab`.
    OpenTab { side: FocusedPane, cwd: String },
    /// Put `text` (the paths, one a line) on the clipboard, then report
    /// with `App::after_clipboard` and `count`.
    CopyPaths { text: String, count: usize },
    /// Put `paths` on the clipboard as files (for a file manager to paste),
    /// then report with `App::after_file_refs`.
    ClipboardFileRefs { paths: Vec<String> },
    /// Read the files on the system clipboard and hand them to
    /// `App::paste_paths`.
    PasteFiles,
    /// A key of a remote pane, carried out over its connection.
    RemoteKey { action: crate::pane_keys::RemoteKey },
    /// Remember `path` for the recent-files finder.
    NoteRecentFile { path: String },
    /// Extract the selection of the archive being browsed into `dest`.
    ArchiveCopyOut { dest: String },
    /// Add `sources` to the zip being browsed in the other pane, at the
    /// place it shows, once the zip is found writable and the user agrees.
    ZipAdd { sources: Vec<String> },
    /// Copy (`moving`: move) across a remote pane's connection.
    RemoteTransfer { moving: bool },
    /// An action of the key map whose work belongs to the front end.
    RunAction { action: crate::keymap::Action },
    /// Run `command` in the shell, `%`, `%f` and `%d` standing for the
    /// selection, the file and the directory (`:!`).
    ShellEscape { command: String },
    /// A `:` command whose work lies outside this library: its verb and
    /// the rest of the line.
    RunCommand { verb: String, rest: String },
    /// Paste `text` into the open file (or the prompt open over it).
    PasteIntoViewer { text: String },
    /// Expand the typed destination `raw` and see whether it is a
    /// directory, then go on with `App::finish_dest_path`.
    CheckDest { op: PendingOp, targets: Vec<String>, raw: String },
    /// Read the model's answer `text` against `purpose` (a rename list or
    /// a list of hits), then offer it with `App::offer_ai_renames` or
    /// `App::show_ai_hits`.
    ParseAiReply { purpose: AiPurpose, text: String },
}

/// The window's layout: the height the file panes get over the shell, and
/// the left pane's width, in percent; neither divider goes closer than
/// `min_pct` to an edge.
#[derive(Clone, Copy, Debug, PartialEq, Eq, Structural)]
pub struct Layout {
    pub main_pct: u16,
    pub panes_pct: u16,
    pub min_pct: u16,
}

/// Which divider a drag moved.
#[derive(Clone, Copy, Debug, PartialEq, Eq, Structural)]
pub enum DividerTarget {
    /// Between the files and the shell.
    Main,
    /// Between the left and right panes.
    Panes,
    /// A split inside shell tab `tab`.
    ShellSplit { tab: usize, node: usize },
}

/// The font-size commands from `cian.font{}`.
#[derive(Debug)]
pub struct FontOptions {
    pub set: Option<String>,
    pub bigger: Option<String>,
    pub smaller: Option<String>,
    pub start: i64,
    pub min: i64,
    pub max: i64,
}

/// The input-method switch from `cian.ime{}`.
#[derive(Debug)]
pub struct ImeOptions {
    /// One program that prints the current source, and switches to the one
    /// given as its argument.
    pub helper: Option<String>,
    /// The command that prints the current source.
    pub query: Option<String>,
    /// The command that switches source (`{}` is the source's id).
    pub set: Option<String>,
    /// The source that means "no input method".
    pub off: Option<String>,
    /// Hand the keyboard back as it was found on the way out.
    pub restore: bool,
}

/// What the last input-method switch did: the command, and what it said
/// if it failed.
#[derive(Debug)]
pub struct SwitchLog {
    pub cmd: String,
    pub error: Option<String>,
    /// Already put on screen.
    pub reported: bool,
}

/// The AI backend from `cian.ai{}`.
#[derive(Debug)]
pub struct AiOptions {
    pub auth_mode: String,
    pub endpoint: String,
    pub api_base_url: String,
}

/// A bookmark: a place (a directory, a file, a URL) with a name, or a
/// folder of them.
#[derive(Debug)]
pub struct Shortcut {
    pub name: String,
    pub target: String,
    /// The bookmarks inside, when this is a folder.
    pub children: Option<Vec<Shortcut>>,
}

/// A named command from `cian.snippets{}`.
#[derive(Debug)]
pub struct Snippet {
    pub name: String,
    pub cmd: String,
    pub enter: bool,
    pub confirm: bool,
}

/// A conversation kept for `:ai history`.
#[derive(Debug)]
pub struct StoredChat {
    pub mode: ChatMode,
    pub skin: Option<ChatSkin>,
    pub log: Vec<ChatMsg>,
}

/// Version control seen in a pane's directory.
#[derive(Clone, Copy, Debug, PartialEq, Eq, Structural)]
pub enum Vcs {
    Git,
    Svn,
}

/// What is known of a pane's repository.
#[derive(Debug)]
pub struct GitInfo {
    /// The directory this was worked out for.
    pub cwd: String,
    pub kind: Option<Vcs>,
}

/// An undoable file operation, with what it takes to reverse it.
#[derive(Debug)]
pub enum UndoAction {
    /// `from` was renamed to `to`.
    Rename { from: String, to: String },
    /// `path` was created.
    Created { path: String },
    /// Each `(now, back)`: a file moved to `now` from `back`.
    Moved { pairs: Vec<(String, String)> },
    /// `srcs` were copied into `dest`, making `paths`.
    Copied { srcs: Vec<String>, dest: String, paths: Vec<String> },
}

/// An undoable operation, its paths taken as character sequences.
pub ghost enum UndoView {
    Rename { from: Seq<char>, to: Seq<char> },
    Created { path: Seq<char> },
    Moved { pairs: Seq<(Seq<char>, Seq<char>)> },
    Copied { srcs: Seq<Seq<char>>, dest: Seq<char>, paths: Seq<Seq<char>> },
}

/// The pairs of `v`, as character sequences.
pub open spec fn pair_views(v: Seq<(String, String)>) -> Seq<(Seq<char>, Seq<char>)> {
    Seq::new(v.len(), |i: int| (v[i].0@, v[i].1@))
}

impl View for UndoAction {
    type V = UndoView;

    open spec fn view(&self) -> UndoView {
        match self {
            UndoAction::Rename { from, to } => UndoView::Rename { from: from@, to: to@ },
            UndoAction::Created { path } => UndoView::Created { path: path@ },
            UndoAction::Moved { pairs } => UndoView::Moved { pairs: pair_views(pairs@) },
            UndoAction::Copied { srcs, dest, paths } => UndoView::Copied {
                srcs: path_views(srcs@),
                dest: dest@,
                paths: path_views(paths@),
            },
        }
    }
}

/// The work of a file operation, carried out by the front end's worker.
#[derive(Debug)]
pub enum OpWork {
    /// Extract `members` (all when empty) of `archive` into `dest`, with
    /// `strip` taken off the front of each member's path.
    Extract { archive: String, members: Vec<String>, dest: String, password: Option<String>, strip: String },
    /// Delete the paths (to the trash unless `permanent`).
    Delete { targets: Vec<String>, permanent: bool },
    /// Zip `sources` into `dest` (AES-encrypted with a password).
    Zip { dest: String, sources: Vec<String>, password: Option<String> },
    /// Tar `sources` into `dest` (gzipped when `gz`).
    Tar { dest: String, sources: Vec<String>, gz: bool },
    /// Copy or move `targets` into `dest`.
    Transfer { op: PendingOp, targets: Vec<String>, dest: String, conflict: Conflict },
    /// Copy each `(src, dest_dir, _)` into its directory, overwriting.
    Sync { ops: Vec<(String, String, bool)> },
}

/// An operation waiting for the runner.
#[derive(Debug)]
pub struct QueuedOp {
    pub label: String,
    pub work: OpWork,
    /// Whole re-runs the worker may make after a failed run.
    pub retries: u8,
}

/// The operation running on the worker. Times are milliseconds on the
/// front end's monotonic clock.
#[derive(Debug)]
pub struct OpJob {
    pub label: String,
    pub started: u64,
    pub cancel: bool,
    pub cancel_requested: Option<u64>,
    pub last_progress: u64,
    /// The last progress seen: bytes and files done.
    pub latest: (u64, u64),
    /// How to reverse the operation, once it has finished cleanly.
    pub undo: Option<UndoAction>,
}

/// How a finished operation went.
#[derive(Debug)]
pub struct OpReport {
    pub ok: usize,
    pub skipped: usize,
    pub errors: Vec<String>,
    pub permission_denied: bool,
    pub note: Option<String>,
}

/// A file queued for the external editor, and what to do when it returns.
#[derive(Debug)]
pub struct PendingEdit {
    pub path: String,
    pub title: String,
    pub reopen_viewer: bool,
}

/// A toolbar button of the desktop-shaped views.
#[derive(Clone, Copy, Debug, PartialEq, Eq, Structural)]
pub enum GridButton {
    Back,
    Forward,
    Up,
    ViewIcons,
    ViewDetails,
}

/// A screen rectangle.
#[derive(Clone, Copy, Debug, PartialEq, Eq, Structural)]
pub struct Rect {
    pub x: u16,
    pub y: u16,
    pub width: u16,
    pub height: u16,
}

/// The `:` command line and its history.
#[derive(Debug)]
pub struct CommandLine {
    pub buffer: String,
    pub cursor: usize,
    pub hist_at: Option<usize>,
    pub history: Vec<String>,
    pub draft: String,
}

/// What is known of the embedded shell.
#[derive(Debug)]
pub struct ShellState {
    /// A session is running and can be typed into.
    pub ready: bool,
    /// Where a new shell would start.
    pub cwd: String,
    /// The shell program.
    pub command: String,
    /// Input waiting for the session to come up.
    pub pending_input: Option<String>,
}

/// The parts of `init.lua` the commands consult.
#[derive(Debug)]
pub struct Config {
    pub snippets: Vec<Snippet>,
    pub font: Option<FontOptions>,
    pub ime: Option<ImeOptions>,
    pub ai: Option<AiOptions>,
    /// Facts about the environment to hand the model (`cian.ai_context{}`).
    pub ai_context: Vec<String>,
    /// The SSH hosts from `ssh.lua`.
    pub ssh_hosts: Vec<SshHost>,
    /// Running on Windows.
    pub on_windows: bool,
}

/// A configured SSH host.
#[derive(Debug)]
pub struct SshHost {
    pub name: String,
    pub host: String,
    /// What is known of the server (OS, middleware, versions).
    pub notes: Option<String>,
}

/// File operations: the queue, the running one, undo, recent destinations.
#[derive(Debug)]
pub struct OpState {
    pub dest_history: Vec<String>,
    pub undo_stack: Vec<UndoAction>,
    pub redo_stack: Vec<UndoAction>,
    pub queue: Vec<QueuedOp>,
    pub job: Option<OpJob>,
    pub bar_hidden: bool,
    pub find_running: bool,
    /// Seconds without progress before the running operation looks stuck.
    pub stall_secs: u64,
    /// Seconds after a stop request before `x` gives up on the worker.
    pub abandon_grace_secs: u64,
    /// How many recent destinations are kept.
    pub dest_history_cap: usize,
    /// A copy or move that may be offered again with more rights, should
    /// the system refuse it.
    pub pending_elevation: Option<ElevationOffer>,
    /// A remote pane to list again when the running upload finishes.
    pub remote_refresh: Option<FocusedPane>,
}

/// A refused copy or move, kept to offer again.
#[derive(Debug)]
pub struct ElevationOffer {
    pub op: PendingOp,
    pub targets: Vec<String>,
    pub dest: String,
    pub conflict: Conflict,
}

/// What a transfer does with a name already at the destination.
#[derive(Clone, Copy, Debug, PartialEq, Eq, Structural)]
pub enum Conflict {
    Skip,
    Overwrite,
}

/// How a refused copy or move is tried again: with the administrator's
/// backup rights, or as a new elevated process.
#[derive(Clone, Copy, Debug, PartialEq, Eq, Structural)]
pub enum RetryHow {
    Backup,
    Elevate,
}

/// The AI features' state.
#[derive(Debug)]
pub struct AiState {
    /// The backend answered the startup probe (`None` until it has).
    pub ready: Option<bool>,
    /// The startup probe is still out.
    pub probe: bool,
    /// A request is out.
    pub job: bool,
    pub history: Vec<StoredChat>,
    /// The chat transcript as drawn, one screen line each.
    pub lines: Vec<String>,
    pub attachments: Vec<String>,
    pub prior: Vec<ChatMsg>,
    /// The duplicate-file scan is running.
    pub dupes_job: bool,
}

/// The desktop-shaped views (icon grid and detail list).
#[derive(Debug)]
pub struct GridState {
    pub type_ahead: String,
    /// When the last letter was typed (milliseconds).
    pub type_ahead_at: u64,
    pub icon_view: bool,
    pub single_pane_view: bool,
    pub icon_cols: usize,
    pub sidebar_rows: Vec<(String, u16)>,
    pub buttons: Vec<(GridButton, Rect)>,
    /// The view asked for from the toolbar: icons (`true`) or details.
    pub view_request: Option<bool>,
    /// Where the grid of tiles is drawn.
    pub area: Option<Rect>,
    /// The size of one tile.
    pub tile_w: u16,
    pub tile_h: u16,
    /// The width of the sidebar.
    pub sidebar_w: u16,
    /// The address bar, and the ancestors drawn in it.
    pub address: Option<Rect>,
    pub crumbs: Vec<(String, Rect)>,
    /// The tab labels: which side, which tab, where.
    pub tab_rects: Vec<(FocusedPane, usize, Rect)>,
    /// The sidebar's "add" row.
    pub sidebar_add: Option<Rect>,
}

/// The whole application state.
#[derive(Debug)]
pub struct App {
    pub lang: Lang,
    pub mode: Mode,
    pub focused: FocusedPane,
    pub last_file_pane: FocusedPane,
    pub left: FileTabs,
    pub right: FileTabs,
    pub popup: Popup,
    pub message: Option<String>,
    /// The message on screen answers the last key (rather than being left
    /// over from an earlier one).
    pub message_fresh: bool,
    pub effects: Vec<Effect>,
    pub visual_anchor: Option<usize>,
    pub filter_buffer: String,
    pub last_search_query: Option<String>,
    pub cmd: CommandLine,
    pub shell: ShellState,
    pub config: Config,
    pub ops: OpState,
    pub font_level: i64,
    pub ime_on: Option<bool>,
    pub ime_warned: bool,
    pub ai: AiState,
    /// What is known of each side's repository (left, right).
    pub git: (Option<GitInfo>, Option<GitInfo>),
    /// Whether each side's free space is known (left, right).
    pub disk_known: (bool, bool),
    pub pending_edit: Option<PendingEdit>,
    pub grid: GridState,
    /// A theme chosen for one side only (left, right).
    pub pane_theme: (Option<String>, Option<String>),
    /// The bookmarks.
    pub shortcuts: Vec<Shortcut>,
    /// A target chosen elsewhere (the history list) for the bookmark being
    /// made.
    pub pending_shortcut_target: Option<String>,
    /// The first `g` of `gg` was pressed.
    pub pending_g: bool,
    pub layout: Layout,
    /// The file pane the viewer sits in, when it is docked rather than
    /// floating over the window.
    pub viewer_dock: Option<FocusedPane>,
    /// The key map, the file clipboard and the key report.
    pub keys: KeyState,
}

/// What the keys of the file panes carry between presses.
#[derive(Debug)]
pub struct KeyState {
    /// The user's key bindings, laid over the default keys.
    pub keymap: Vec<crate::keymap::KeyBinding>,
    /// Files copied or cut with Ctrl+C / Ctrl+X, waiting to be pasted.
    pub file_clip: Option<crate::clipboard::FileClip>,
    /// Every key is reported as it arrives (`:key`).
    pub probe: bool,
    /// The terminal reports keys with the enhanced keyboard protocol.
    pub enhanced: bool,
}

impl FileTabs {
    /// The tab being shown.
    pub open spec fn current(self) -> Option<Pane> {
        if self.active < self.tabs@.len() {
            Some(self.tabs@[self.active as int])
        } else {
            None
        }
    }

    /// `other` differs from `self` at most in the shown tab.
    pub open spec fn same_but_current(self, other: FileTabs) -> bool {
        &&& other.active == self.active
        &&& other.tabs@.len() == self.tabs@.len()
        &&& forall|j: int| 0 <= j < self.tabs@.len() && j != self.active ==> other.tabs@[j] == self.tabs@[j]
    }
}

/// A pane with nothing in it, standing in while the real one is worked on.
pub fn placeholder_pane() -> (p: Pane)
    ensures
        p.cwd@.len() == 0,
        p.entries@.len() == 0,
        p.cursor == 0,
        p.marks@.len() == 0,
        p.filter@.len() == 0,
        p.history@.len() == 0,
        !p.show_hidden,
        !p.remote,
        !p.in_archive,
        !p.flat,
{
    Pane {
        cwd: String::new(),
        entries: Vec::new(),
        cursor: 0,
        marks: Vec::new(),
        filter: String::new(),
        history: Vec::new(),
        show_hidden: false,
        remote: false,
        in_archive: false,
        flat: false,
    }
}

/// Is `m` a message whose text is `s`?
pub open spec fn says(m: Option<String>, s: Seq<char>) -> bool {
    m matches Some(t) && t@ == s
}

impl App {
    /// The pane with the keyboard, when a file pane has it.
    pub open spec fn active(self) -> Option<Pane> {
        match self.focused {
            FocusedPane::Left => self.left.current(),
            FocusedPane::Right => self.right.current(),
            FocusedPane::Shell => None,
        }
    }

    /// The file pane a command aimed at "here" means: the focused one, or the
    /// one last focused while the shell has the keyboard.
    pub open spec fn here(self) -> FocusedPane {
        match self.focused {
            FocusedPane::Shell => self.last_file_pane,
            p => p,
        }
    }

    /// The pane across from the active one.
    pub open spec fn opposite(self) -> Option<Pane> {
        match self.focused {
            FocusedPane::Left => self.right.current(),
            FocusedPane::Right => self.left.current(),
            FocusedPane::Shell => None,
        }
    }

    /// `new` is `self` with, at most, the active pane changed.
    #[verifier::opaque]
    pub open spec fn same_but_active(self, new: App) -> bool {
        match self.focused {
            FocusedPane::Left => new == (App { left: new.left, ..self }) && self.left.same_but_current(
                new.left,
            ),
            FocusedPane::Right => new == (App { right: new.right, ..self })
                && self.right.same_but_current(new.right),
            FocusedPane::Shell => new == self,
        }
    }

    /// `new` is `self` with the active pane replaced by `p`.
    pub open spec fn active_becomes(self, new: App, p: Pane) -> bool {
        self.active() is Some && self.same_but_active(new) && new.active() == Some(p)
    }

    /// The active pane, if a file pane has the keyboard.
    pub fn active_pane(&self) -> (r: Option<&Pane>)
        ensures
            r matches Some(p) ==> self.active() == Some(*p),
            r is None ==> self.active() is None,
    {
        match self.focused {
            FocusedPane::Left => if self.left.active < self.left.tabs.len() {
                Some(&self.left.tabs[self.left.active])
            } else {
                None
            },
            FocusedPane::Right => if self.right.active < self.right.tabs.len() {
                Some(&self.right.tabs[self.right.active])
            } else {
                None
            },
            FocusedPane::Shell => None,
        }
    }

    /// Take the active pane out to work on it (a placeholder stands in).
    pub fn take_active(&mut self) -> (r: Option<Pane>)
        ensures
            r == old(self).active(),
            old(self).same_but_active(*final(self)),
            r is None ==> *final(self) == *old(self),
            final(self).focused == old(self).focused,
            r is Some ==> final(self).active() is Some,
    {
        reveal(App::same_but_active);
        match self.focused {
            FocusedPane::Left => {
                let i = self.left.active;
                if i < self.left.tabs.len() {
                    let mut p = placeholder_pane();
                    std::mem::swap(&mut p, &mut self.left.tabs[i]);
                    Some(p)
                } else {
                    None
                }
            },
            FocusedPane::Right => {
                let i = self.right.active;
                if i < self.right.tabs.len() {
                    let mut p = placeholder_pane();
                    std::mem::swap(&mut p, &mut self.right.tabs[i]);
                    Some(p)
                } else {
                    None
                }
            },
            FocusedPane::Shell => None,
        }
    }

    /// Put a pane back where `take_active` took one from.
    pub fn put_active(&mut self, p: Pane)
        requires
            old(self).active() is Some,
        ensures
            old(self).active_becomes(*final(self), p),
    {
        reveal(App::same_but_active);
        match self.focused {
            FocusedPane::Left => {
                let i = self.left.active;
                self.left.tabs.set(i, p);
            },
            FocusedPane::Right => {
                let i = self.right.active;
                self.right.tabs.set(i, p);
            },
            FocusedPane::Shell => {},
        }
    }

    /// Move the cursor of the active pane to `i`.
    pub fn set_active_cursor(&mut self, i: usize)
        requires
            old(self).active() is Some,
        ensures
            old(self).active_becomes(*final(self), Pane { cursor: i, ..old(self).active().unwrap() }),
    {
        let ghost before = *self;
        let mut p = self.take_active().unwrap();
        let ghost taken = *self;
        p.cursor = i;
        self.put_active(p);
        proof {
            lemma_take_put(before, taken, *self, p);
        }
    }

    /// Set the message line.
    pub fn say(&mut self, text: String)
        ensures
            *final(self) == (App { message: Some(text), ..*old(self) }),
    {
        self.message = Some(text);
    }

    /// Queue work for the front end.
    pub fn effect(&mut self, e: Effect)
        ensures
            *final(self) == (App { effects: final(self).effects, ..*old(self) }),
            final(self).effects@ == old(self).effects@.push(e),
    {
        self.effects.push(e);
    }

    /// Open a popup over the panes.
    pub fn open_popup(&mut self, p: Popup)
        ensures
            *final(self) == (App { popup: p, ..*old(self) }),
    {
        self.popup = p;
    }

    /// Give the keyboard to `p`, remembering the last file pane.
    pub fn focus(&mut self, p: FocusedPane)
        ensures
            p != FocusedPane::Shell ==> *final(self) == (App { focused: p, last_file_pane: p, ..*old(self) }),
            p == FocusedPane::Shell ==> *final(self) == (App { focused: p, ..*old(self) }),
    {
        self.focused = p;
        if p != FocusedPane::Shell {
            self.last_file_pane = p;
        }
    }

    /// The paths the active pane's operations act on (none without one).
    pub open spec fn targets(self) -> Seq<Seq<char>> {
        match self.active() {
            Some(p) => p.targets(),
            None => seq![],
        }
    }

    /// `App::target_paths`.
    pub fn target_paths(&self) -> (out: Vec<String>)
        ensures
            path_views(out@) == self.targets(),
    {
        match self.active_pane() {
            Some(p) => p.target_paths(),
            None => {
                let v: Vec<String> = Vec::new();
                assert(path_views(v@) =~= seq![]);
                v
            },
        }
    }
}

/// Taking the active pane out and putting `p` back replaces it by `p`.
pub proof fn lemma_take_put(a: App, b: App, c: App, p: Pane)
    requires
        a.active() is Some,
        a.same_but_active(b),
        b.active_becomes(c, p),
    ensures
        a.active_becomes(c, p),
{
    reveal(App::same_but_active);
}

/// The least of three lengths.
pub open spec fn min3(a: nat, b: nat, c: nat) -> nat {
    if a <= b && a <= c {
        a
    } else if b <= c {
        b
    } else {
        c
    }
}

} // verus!
