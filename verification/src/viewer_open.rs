//! Opening the viewer on a file that the front end has read: where the
//! cursor starts, how far the view is scrolled, and whether the file shows
//! as Markdown, can be edited and is highlighted.
use vstd::prelude::*;

use crate::prompt::effect_added;
use crate::state::{App, Effect, Popup};
use crate::text::chars_of;

verus! {

/// What the front end found the file to be.
#[derive(Clone, Copy, Debug, PartialEq, Eq, Structural)]
pub enum ViewKind {
    Text,
    Binary,
    /// Anything else the reader shows (extracted or described rather than
    /// the file's own bytes).
    Other,
}

/// How the viewer starts out over a file.
#[derive(Clone, Copy, Debug, PartialEq, Eq, Structural)]
pub struct ViewerLayout {
    /// The line the cursor starts on.
    pub line: usize,
    /// The first line shown.
    pub scroll: usize,
    /// Shown as rendered Markdown.
    pub markdown: bool,
    /// Can be edited in place.
    pub editable: bool,
    /// Code highlighting is looked for.
    pub highlight: bool,
}

/// `c` in lower case, for ASCII letters.
pub open spec fn ascii_lower(c: char) -> char {
    if 'A' <= c <= 'Z' {
        ((c as u32) + 32) as char
    } else {
        c
    }
}

/// `p` has the extension `e` (lower case, compared without regard to the
/// case of ASCII letters): it ends in `.e`, and the dot does not start the
/// file's name.
pub open spec fn has_ext(p: Seq<char>, e: Seq<char>) -> bool {
    let n = p.len();
    let k = e.len();
    &&& n >= k + 2
    &&& p[n - k - 1] == '.'
    &&& p[n - k - 2] != '/'
    &&& forall|i: int| 0 <= i < k ==> ascii_lower(#[trigger] p[n - k + i]) == e[i]
}

/// A Markdown file, by its extension.
pub open spec fn is_markdown(p: Seq<char>) -> bool {
    has_ext(p, "md"@) || has_ext(p, "markdown"@) || has_ext(p, "mkd"@) || has_ext(p, "mdown"@)
}

/// How the viewer starts on `path`, a file of `n_lines` lines of `kind`
/// (`truncated`: only its start could be shown), asked to open at
/// `line0`.
pub open spec fn viewer_layout(path: Seq<char>, line0: usize, n_lines: usize, kind: ViewKind, truncated: bool) -> ViewerLayout {
    let last: usize = if n_lines > 0 {
        (n_lines - 1) as usize
    } else {
        0
    };
    let line = if line0 < last {
        line0
    } else {
        last
    };
    let markdown = is_markdown(path);
    let editable = (kind == ViewKind::Text || kind == ViewKind::Binary) && !truncated;
    ViewerLayout {
        line,
        scroll: if line >= 4 {
            (line - 4) as usize
        } else {
            0
        },
        markdown,
        editable,
        highlight: !markdown && editable,
    }
}

fn ascii_lower_exec(c: char) -> (r: char)
    ensures
        r == ascii_lower(c),
{
    if 'A' <= c && c <= 'Z' {
        (((c as u32) + 32) as u8) as char
    } else {
        c
    }
}

fn has_ext_exec(p: &[char], e: &str) -> (b: bool)
    ensures
        b == has_ext(p@, e@),
{
    let ev = chars_of(e);
    let n = p.len();
    let k = ev.len();
    if k > n || n - k < 2 || p[n - k - 1] != '.' || p[n - k - 2] == '/' {
        return false;
    }
    let mut i: usize = 0;
    while i < k
        invariant
            k == ev@.len(),
            ev@ == e@,
            n == p@.len(),
            n >= k + 2,
            i <= k,
            forall|j: int| 0 <= j < i ==> ascii_lower(#[trigger] p@[n - k + j]) == ev@[j],
        decreases k - i,
    {
        if ascii_lower_exec(p[n - k + i]) != ev[i] {
            return false;
        }
        i += 1;
    }
    true
}

/// `viewer_layout`.
pub fn viewer_layout_of(path: &str, line0: usize, n_lines: usize, kind: ViewKind, truncated: bool) -> (l: ViewerLayout)
    ensures
        l == viewer_layout(path@, line0, n_lines, kind, truncated),
{
    let last = if n_lines > 0 {
        n_lines - 1
    } else {
        0
    };
    let line = if line0 < last {
        line0
    } else {
        last
    };
    let p = chars_of(path);
    let markdown = has_ext_exec(p.as_slice(), "md") || has_ext_exec(p.as_slice(), "markdown") || has_ext_exec(
        p.as_slice(),
        "mkd",
    ) || has_ext_exec(p.as_slice(), "mdown");
    let editable = (kind == ViewKind::Text || kind == ViewKind::Binary) && !truncated;
    ViewerLayout {
        line,
        scroll: if line >= 4 {
            line - 4
        } else {
            0
        },
        markdown,
        editable,
        highlight: !markdown && editable,
    }
}

/// `post` is `pre` with the viewer open on `path` (titled `title`, its
/// lines `lines`) as `l` lays it out, and the file remembered as recently
/// seen.
pub open spec fn viewer_opened(pre: App, post: App, path: String, title: String, lines: Seq<String>, l: ViewerLayout) -> bool {
    &&& post == (App { popup: post.popup, effects: post.effects, ..pre })
    &&& post.effects@ == pre.effects@.push(Effect::NoteRecentFile { path })
    &&& post.popup matches Popup::Viewer {
        title: t,
        path: p,
        lines: ls,
        find_input,
        sub_input,
        block_input,
        editing,
        anchor,
        line,
        col,
        goal,
        visual_lines,
    }
    &&& post.popup->Viewer_title == title && post.popup->Viewer_path == path && post.popup->Viewer_lines@ == lines
    &&& !post.popup->Viewer_find_input && !post.popup->Viewer_sub_input && !post.popup->Viewer_block_input
    &&& !post.popup->Viewer_editing && !post.popup->Viewer_visual_lines
    &&& post.popup->Viewer_anchor == (0usize, 0usize)
    &&& post.popup->Viewer_line == l.line && post.popup->Viewer_col == 0 && post.popup->Viewer_goal == 0
}

impl App {
    /// Open the viewer on `path` (its `lines` read by the front end, of
    /// `kind`, `truncated` when only its start was read), with the cursor
    /// on `line0`. Gives back how the view is laid out.
    pub fn open_viewer_at(
        &mut self,
        path: String,
        title: String,
        lines: Vec<String>,
        line0: usize,
        kind: ViewKind,
        truncated: bool,
    ) -> (l: ViewerLayout)
        ensures
            l == viewer_layout(path@, line0, lines@.len() as usize, kind, truncated),
            viewer_opened(*old(self), *final(self), path, title, lines@, l),
    {
        let l = viewer_layout_of(path.as_str(), line0, lines.len(), kind, truncated);
        let note = path.clone();
        self.effects.push(Effect::NoteRecentFile { path: note });
        self.popup = Popup::Viewer {
            title,
            path,
            lines,
            find_input: false,
            sub_input: false,
            block_input: false,
            editing: false,
            anchor: (0, 0),
            line: l.line,
            col: 0,
            goal: 0,
            visual_lines: false,
        };
        l
    }
}

} // verus!
