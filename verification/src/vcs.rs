//! Version control as the commands see it: which system the active pane's
//! directory is under, what a git/svn command acts on, and the prompts that
//! come before discarding changes or committing.
use vstd::prelude::*;

use crate::actions::{is_prompt, message_only, popup_only, text_input};
use crate::lang::{tr_spec, tr_string};
use crate::state::{path_views, says, App, FocusedPane, GitInfo, InputKind, Popup, Vcs};

verus! {

impl App {
    /// The system the active file pane's directory is under, as last worked
    /// out.
    pub open spec fn vcs_kind_spec(self) -> Option<Vcs> {
        match self.focused {
            FocusedPane::Left => match self.git.0 {
                Some(g) => g.kind,
                None => None,
            },
            FocusedPane::Right => match self.git.1 {
                Some(g) => g.kind,
                None => None,
            },
            FocusedPane::Shell => None,
        }
    }

    /// `App::vcs_kind`.
    pub fn vcs_kind(&self) -> (r: Option<Vcs>)
        ensures
            r == self.vcs_kind_spec(),
    {
        match self.focused {
            FocusedPane::Left => match &self.git.0 {
                Some(g) => g.kind,
                None => None,
            },
            FocusedPane::Right => match &self.git.1 {
                Some(g) => g.kind,
                None => None,
            },
            FocusedPane::Shell => None,
        }
    }

    /// The active pane's directory and its system. When nothing is cached
    /// (right after an action) the caller's direct probe of the directory,
    /// `probe`, answers.
    pub open spec fn vcs_dir_spec(self, probe: Option<Vcs>) -> Option<(Seq<char>, Vcs)> {
        match self.active() {
            None => None,
            Some(p) => match self.vcs_kind_spec() {
                Some(k) => Some((p.cwd@, k)),
                None => match probe {
                    Some(k) => Some((p.cwd@, k)),
                    None => None,
                },
            },
        }
    }

    /// `App::vcs_dir`.
    pub fn vcs_dir(&self, probe: Option<Vcs>) -> (r: Option<(String, Vcs)>)
        ensures
            match r {
                Some((d, k)) => self.vcs_dir_spec(probe) == Some((d@, k)),
                None => self.vcs_dir_spec(probe) is None,
            },
    {
        let cwd = match self.active_pane() {
            Some(p) => p.cwd.clone(),
            None => return None,
        };
        match self.vcs_kind() {
            Some(k) => Some((cwd, k)),
            None => match probe {
                Some(k) => Some((cwd, k)),
                None => None,
            },
        }
    }

    /// Forget what is known of both sides' repositories and free space, so
    /// the next frame works it out again.
    pub fn invalidate_git(&mut self)
        ensures
            *final(self) == (App { git: (None, None), disk_known: (false, false), ..*old(self) }),
    {
        self.git = (None, None);
        self.disk_known = (false, false);
    }

    /// What a git or svn command acts on: the marked entries, else the one
    /// under the cursor (never `..`).
    pub fn git_targets(&self) -> (out: Vec<String>)
        ensures
            path_views(out@) == self.targets(),
    {
        self.target_paths()
    }

    /// Ask before discarding the working-tree changes to the selection.
    pub fn git_discard_prompt(&mut self, probe: Option<Vcs>)
        ensures
            old(self).vcs_dir_spec(probe) is None ==> message_only(*old(self), *final(self)) && says(
                final(self).message,
                tr_spec(
                    old(self).lang,
                    "not a version-controlled directory"@,
                    "バージョン管理下のディレクトリではありません"@,
                ),
            ),
            old(self).vcs_dir_spec(probe) is Some && old(self).targets().len() == 0 ==> message_only(
                *old(self),
                *final(self),
            ) && says(
                final(self).message,
                tr_spec(old(self).lang, "nothing selected"@, "選択されていません"@),
            ),
            old(self).vcs_dir_spec(probe) matches Some((d, _k)) ==> (old(self).targets().len() > 0
                ==> {
                &&& popup_only(*old(self), *final(self))
                &&& final(self).popup matches Popup::ConfirmDiscard { targets, dir } && path_views(
                    targets@,
                ) == old(self).targets() && dir@ == d
            }),
    {
        let dir = match self.vcs_dir(probe) {
            Some((d, _k)) => d,
            None => {
                self.message = Some(
                    tr_string(
                        self.lang,
                        "not a version-controlled directory",
                        "バージョン管理下のディレクトリではありません",
                    ),
                );
                return;
            },
        };
        let paths = self.git_targets();
        if paths.len() == 0 {
            self.message = Some(tr_string(self.lang, "nothing selected", "選択されていません"));
            return;
        }
        self.open_popup(Popup::ConfirmDiscard { targets: paths, dir });
    }

    /// Prompt for a commit message, then `svn commit` (svn only).
    pub fn svn_commit_prompt(&mut self, probe: Option<Vcs>)
        ensures
            old(self).vcs_dir_spec(probe) is None ==> message_only(*old(self), *final(self)) && says(
                final(self).message,
                tr_spec(
                    old(self).lang,
                    "not a version-controlled directory"@,
                    "バージョン管理下のディレクトリではありません"@,
                ),
            ),
            old(self).vcs_dir_spec(probe) matches Some((_d, k)) ==> (k != Vcs::Svn ==> message_only(
                *old(self),
                *final(self),
            ) && says(
                final(self).message,
                tr_spec(old(self).lang, "commit is svn-only here"@, "ここでのコミットは svn 専用です"@),
            )),
            old(self).vcs_dir_spec(probe) matches Some((_d, k)) ==> (k == Vcs::Svn ==> {
                &&& old(self).targets().len() == 0 ==> message_only(*old(self), *final(self)) && says(
                    final(self).message,
                    tr_spec(
                        old(self).lang,
                        "nothing selected to commit"@,
                        "コミットする対象が選択されていません"@,
                    ),
                )
                &&& old(self).targets().len() > 0 ==> {
                    &&& popup_only(*old(self), *final(self))
                    &&& is_prompt(final(self).popup, "svn commit"@, "message:"@, seq![])
                    &&& final(self).popup matches Popup::TextInput { kind, .. } && kind matches InputKind::SvnCommit { paths } && path_views(paths@) == old(self).targets()
                }
            }),
    {
        let kind = match self.vcs_dir(probe) {
            Some((_d, k)) => k,
            None => {
                self.message = Some(
                    tr_string(
                        self.lang,
                        "not a version-controlled directory",
                        "バージョン管理下のディレクトリではありません",
                    ),
                );
                return;
            },
        };
        if kind != Vcs::Svn {
            self.message = Some(
                tr_string(self.lang, "commit is svn-only here", "ここでのコミットは svn 専用です"),
            );
            return;
        }
        let paths = self.git_targets();
        if paths.len() == 0 {
            self.message = Some(
                tr_string(
                    self.lang,
                    "nothing selected to commit",
                    "コミットする対象が選択されていません",
                ),
            );
            return;
        }
        self.open_popup(
            text_input("svn commit", "message:", String::new(), InputKind::SvnCommit { paths }),
        );
    }
}

} // verus!
