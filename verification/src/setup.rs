//! Building a fresh application state: the two panes as the front end read
//! them, the configuration as `init.lua` gave it, and everything else empty.
use vstd::prelude::*;

use crate::lang::Lang;
use crate::state::{
    AiState, App, CommandLine, Config, Entry, FileTabs, FocusedPane, GridState, Layout, Mode, OpState,
    Pane, Popup, ShellState,
};

verus! {

impl Pane {
    /// A listing of `cwd` with the cursor on the first row, nothing marked,
    /// no filter and no history.
    pub fn new(cwd: String, entries: Vec<Entry>) -> (p: Pane)
        ensures
            p.cwd == cwd,
            p.entries == entries,
            p.cursor == 0,
            p.marks@.len() == 0,
            p.filter@.len() == 0,
            p.history@.len() == 0,
            !p.show_hidden,
            !p.remote,
            !p.in_archive,
            !p.flat,
    {
        Pane {
            cwd,
            entries,
            cursor: 0,
            marks: Vec::new(),
            filter: String::new(),
            history: Vec::new(),
            show_hidden: false,
            remote: false,
            in_archive: false,
            flat: false,
        }
    }
}

impl FileTabs {
    /// One side with a single tab, `pane`, shown.
    pub fn single(pane: Pane) -> (t: FileTabs)
        ensures
            t.tabs@ == seq![pane],
            t.active == 0,
            t.current() == Some(pane),
    {
        let tabs = vec![pane];
        FileTabs { tabs, active: 0 }
    }
}

impl Default for Config {
    /// No snippets, no font, input-method or AI settings, no hosts.
    fn default() -> (c: Config)
        ensures
            c.snippets@.len() == 0,
            c.font is None,
            c.ime is None,
            c.ai is None,
            c.ai_context@.len() == 0,
            c.ssh_hosts@.len() == 0,
            !c.on_windows,
    {
        Config {
            snippets: Vec::new(),
            font: None,
            ime: None,
            ai: None,
            ai_context: Vec::new(),
            ssh_hosts: Vec::new(),
            on_windows: false,
        }
    }
}

impl OpState {
    /// Nothing queued, running or remembered, with the given limits.
    pub fn new(stall_secs: u64, abandon_grace_secs: u64, dest_history_cap: usize) -> (o: OpState)
        ensures
            o.dest_history@.len() == 0,
            o.undo_stack@.len() == 0,
            o.redo_stack@.len() == 0,
            o.queue@.len() == 0,
            o.job is None,
            !o.bar_hidden,
            !o.find_running,
            o.stall_secs == stall_secs,
            o.abandon_grace_secs == abandon_grace_secs,
            o.dest_history_cap == dest_history_cap,
            o.pending_elevation is None,
            o.remote_refresh is None,
    {
        OpState {
            dest_history: Vec::new(),
            undo_stack: Vec::new(),
            redo_stack: Vec::new(),
            queue: Vec::new(),
            job: None,
            bar_hidden: false,
            find_running: false,
            stall_secs,
            abandon_grace_secs,
            dest_history_cap,
            pending_elevation: None,
            remote_refresh: None,
        }
    }
}

impl App {
    /// The state at startup: the left pane has the keyboard, nothing is on
    /// screen, nothing is queued, and the shell (`shell_command`, started in
    /// the left pane's directory) is not up yet; the window is laid out as
    /// `layout`.
    pub fn new(
        lang: Lang,
        left: Pane,
        right: Pane,
        config: Config,
        ops: OpState,
        shell_command: String,
        layout: Layout,
    ) -> (a: App)
        ensures
            a.layout == layout,
            a.lang == lang,
            a.mode == Mode::Normal,
            a.focused == FocusedPane::Left,
            a.last_file_pane == FocusedPane::Left,
            a.left.tabs@ == seq![left],
            a.left.active == 0,
            a.right.tabs@ == seq![right],
            a.right.active == 0,
            a.popup == Popup::Closed,
            a.message is None,
            !a.message_fresh,
            a.effects@.len() == 0,
            a.visual_anchor is None,
            a.filter_buffer@.len() == 0,
            a.last_search_query is None,
            a.cmd.buffer@.len() == 0,
            a.cmd.cursor == 0,
            a.cmd.hist_at is None,
            a.cmd.history@.len() == 0,
            !a.shell.ready,
            a.shell.cwd@ == left.cwd@,
            a.shell.command == shell_command,
            a.shell.pending_input is None,
            a.config == config,
            a.ops == ops,
            a.font_level == (match config.font {
                Some(f) => f.start,
                None => 0,
            }),
            a.ime_on is None,
            !a.ime_warned,
            a.ai.ready is None,
            !a.ai.probe,
            !a.ai.job,
            a.ai.history@.len() == 0,
            a.git == (None::<crate::state::GitInfo>, None::<crate::state::GitInfo>),
            a.disk_known == (false, false),
            a.pending_edit is None,
            a.grid.type_ahead@.len() == 0,
            !a.grid.icon_view,
            a.pane_theme == (None::<String>, None::<String>),
            a.shortcuts@.len() == 0,
            a.pending_shortcut_target is None,
            !a.pending_g,
            a.viewer_dock is None,
            a.keys.keymap@.len() == 0,
            a.keys.file_clip is None,
            !a.keys.probe,
            !a.keys.enhanced,
    {
        let shell_cwd = left.cwd.clone();
        let font_level = match &config.font {
            Some(f) => f.start,
            None => 0,
        };
        App {
            lang,
            mode: Mode::Normal,
            focused: FocusedPane::Left,
            last_file_pane: FocusedPane::Left,
            left: FileTabs::single(left),
            right: FileTabs::single(right),
            popup: Popup::Closed,
            message: None,
            message_fresh: false,
            effects: Vec::new(),
            visual_anchor: None,
            filter_buffer: String::new(),
            last_search_query: None,
            cmd: CommandLine {
                buffer: String::new(),
                cursor: 0,
                hist_at: None,
                history: Vec::new(),
                draft: String::new(),
            },
            shell: ShellState { ready: false, cwd: shell_cwd, command: shell_command, pending_input: None },
            config,
            ops,
            font_level,
            ime_on: None,
            ime_warned: false,
            ai: AiState {
                ready: None,
                probe: false,
                job: false,
                history: Vec::new(),
                lines: Vec::new(),
                attachments: Vec::new(),
                prior: Vec::new(),
                dupes_job: false,
            },
            git: (None, None),
            disk_known: (false, false),
            pending_edit: None,
            grid: GridState {
                type_ahead: String::new(),
                type_ahead_at: 0,
                icon_view: false,
                single_pane_view: false,
                icon_cols: 1,
                sidebar_rows: Vec::new(),
                buttons: Vec::new(),
                view_request: None,
                area: None,
                tile_w: 1,
                tile_h: 1,
                sidebar_w: 0,
                address: None,
                crumbs: Vec::new(),
                tab_rects: Vec::new(),
                sidebar_add: None,
            },
            pane_theme: (None, None),
            shortcuts: Vec::new(),
            pending_shortcut_target: None,
            pending_g: false,
            layout,
            viewer_dock: None,
            keys: crate::state::KeyState { keymap: Vec::new(), file_clip: None, probe: false, enhanced: false },
        }
    }
}

} // verus!
