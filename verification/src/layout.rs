//! Moving the window's dividers: with the keyboard, a step at a time, or
//! by dragging a border. A divider never goes closer than the layout's
//! minimum to an edge.
use vstd::prelude::*;

use crate::state::{App, DividerTarget, Effect, FocusedPane, KeyCode, Layout};

verus! {

/// How far one resize key moves a divider, in percent.
pub const RESIZE_STEP: i16 = 4;

impl Layout {
    /// Percentages, with room for both sides of each divider.
    pub open spec fn wf(self) -> bool {
        &&& self.main_pct <= 100
        &&& self.panes_pct <= 100
        &&& self.min_pct <= 50
    }
}

/// `v` held between `min` and `100 - min`.
pub open spec fn clamp_pct(v: int, min: int) -> int {
    if v < min {
        min
    } else if v > 100 - min {
        100 - min
    } else {
        v
    }
}

/// `b` is `a` after the resize key `dir`: over the file panes Left/Right
/// move the panes' divider and Up/Down the files|shell one; in the shell
/// the nearest split along the key's axis moves (`inner_split` says there
/// is one), or else the outer divider along that axis.
pub open spec fn resized(a: App, b: App, dir: KeyCode, inner_split: bool) -> bool {
    let l = a.layout;
    let min = l.min_pct as int;
    let step = RESIZE_STEP as int;
    let main_to = |d: int| b == (App { layout: Layout { main_pct: clamp_pct(l.main_pct + d, min) as u16, ..l }, ..a });
    let panes_to = |d: int| b == (App { layout: Layout { panes_pct: clamp_pct(l.panes_pct + d, min) as u16, ..l }, ..a });
    match a.focused {
        FocusedPane::Left | FocusedPane::Right => match dir {
            KeyCode::Right => panes_to(step),
            KeyCode::Left => panes_to(-step),
            KeyCode::Down => main_to(step),
            KeyCode::Up => main_to(-step),
            _ => b == a,
        },
        FocusedPane::Shell => {
            let delta: int = match dir {
                KeyCode::Right | KeyCode::Down => step,
                KeyCode::Left | KeyCode::Up => -step,
                _ => 0,
            };
            let on_axis = dir == KeyCode::Left || dir == KeyCode::Right || dir == KeyCode::Up || dir
                == KeyCode::Down;
            if on_axis && inner_split {
                &&& b == (App { effects: b.effects, ..a })
                &&& b.effects@ == a.effects@.push(
                    Effect::NudgeShellSplit {
                        across: dir == KeyCode::Left || dir == KeyCode::Right,
                        delta: delta as i16,
                    },
                )
            } else if dir == KeyCode::Up || dir == KeyCode::Down {
                main_to(delta)
            } else {
                panes_to(delta)
            }
        },
    }
}

fn clamp_exec(v: i16, min: u16) -> (r: u16)
    requires
        min <= 50,
    ensures
        r == clamp_pct(v as int, min as int),
{
    let lo = min as i16;
    let hi = 100 - lo;
    if v < lo {
        lo as u16
    } else if v > hi {
        hi as u16
    } else {
        v as u16
    }
}

impl App {
    fn nudge_main(&mut self, delta: i16)
        requires
            old(self).layout.wf(),
            -100 <= delta <= 100,
        ensures
            *final(self) == (App {
                layout: Layout {
                    main_pct: clamp_pct(old(self).layout.main_pct + delta, old(self).layout.min_pct as int) as u16,
                    ..old(self).layout
                },
                ..*old(self)
            }),
    {
        let v = self.layout.main_pct as i16 + delta;
        self.layout.main_pct = clamp_exec(v, self.layout.min_pct);
    }

    fn nudge_panes(&mut self, delta: i16)
        requires
            old(self).layout.wf(),
            -100 <= delta <= 100,
        ensures
            *final(self) == (App {
                layout: Layout {
                    panes_pct: clamp_pct(old(self).layout.panes_pct + delta, old(self).layout.min_pct as int) as u16,
                    ..old(self).layout
                },
                ..*old(self)
            }),
    {
        let v = self.layout.panes_pct as i16 + delta;
        self.layout.panes_pct = clamp_exec(v, self.layout.min_pct);
    }

    /// `Meta+Shift+arrow`: make what is being looked at bigger, a step at a
    /// time.
    pub fn resize_split(&mut self, dir: KeyCode, inner_split: bool)
        requires
            old(self).layout.wf(),
        ensures
            resized(*old(self), *final(self), dir, inner_split),
            final(self).layout.wf(),
    {
        match self.focused {
            FocusedPane::Left | FocusedPane::Right => match dir {
                KeyCode::Right => self.nudge_panes(RESIZE_STEP),
                KeyCode::Left => self.nudge_panes(-RESIZE_STEP),
                KeyCode::Down => self.nudge_main(RESIZE_STEP),
                KeyCode::Up => self.nudge_main(-RESIZE_STEP),
                _ => {},
            },
            FocusedPane::Shell => {
                let on_axis = dir == KeyCode::Left || dir == KeyCode::Right || dir == KeyCode::Up || dir
                    == KeyCode::Down;
                let delta: i16 = match dir {
                    KeyCode::Right | KeyCode::Down => RESIZE_STEP,
                    KeyCode::Left | KeyCode::Up => -RESIZE_STEP,
                    _ => 0,
                };
                if on_axis && inner_split {
                    self.effects.push(
                        Effect::NudgeShellSplit { across: dir == KeyCode::Left || dir == KeyCode::Right, delta },
                    );
                } else if dir == KeyCode::Up || dir == KeyCode::Down {
                    self.nudge_main(delta);
                } else {
                    self.nudge_panes(delta);
                }
            },
        }
    }

    /// A dragged border came to rest at `pct` percent.
    pub fn set_divider_ratio(&mut self, target: DividerTarget, pct: u16)
        requires
            old(self).layout.wf(),
            pct <= 100,
        ensures
            final(self).layout.wf(),
            match target {
                DividerTarget::Main => *final(self) == (App {
                    layout: Layout { main_pct: pct, ..old(self).layout },
                    ..*old(self)
                }),
                DividerTarget::Panes => *final(self) == (App {
                    layout: Layout { panes_pct: pct, ..old(self).layout },
                    ..*old(self)
                }),
                DividerTarget::ShellSplit { tab, node } => *final(self) == (App {
                    effects: final(self).effects,
                    ..*old(self)
                }) && final(self).effects@ == old(self).effects@.push(
                    Effect::SetShellSplit { tab, node, pct },
                ),
            },
    {
        match target {
            DividerTarget::Main => self.layout.main_pct = pct,
            DividerTarget::Panes => self.layout.panes_pct = pct,
            DividerTarget::ShellSplit { tab, node } => {
                self.effects.push(Effect::SetShellSplit { tab, node, pct });
            },
        }
    }
}

/// Over the file panes, a step one way and a step back restore the layout,
/// unless the first step was held at an edge.
pub proof fn law_step_and_back(a: App, m: App, b: App, there: KeyCode, back: KeyCode)
    requires
        a.layout.wf(),
        a.focused != FocusedPane::Shell,
        (there == KeyCode::Right && back == KeyCode::Left && a.layout.min_pct + RESIZE_STEP <= a.layout.panes_pct
            <= 100 - a.layout.min_pct - RESIZE_STEP) || (there == KeyCode::Down && back == KeyCode::Up
            && a.layout.min_pct + RESIZE_STEP <= a.layout.main_pct <= 100 - a.layout.min_pct - RESIZE_STEP),
        resized(a, m, there, false),
        resized(m, b, back, false),
    ensures
        b == a,
{
}

/// Every resize keeps both dividers within the layout's bounds.
pub proof fn law_resize_in_bounds(a: App, b: App, dir: KeyCode, inner: bool)
    requires
        a.layout.wf(),
        resized(a, b, dir, inner),
    ensures
        b.layout.wf(),
        b.layout.min_pct == a.layout.min_pct,
        a.layout.min_pct <= b.layout.main_pct || b.layout.main_pct == a.layout.main_pct,
        a.layout.min_pct <= b.layout.panes_pct || b.layout.panes_pct == a.layout.panes_pct,
{
}

} // verus!
