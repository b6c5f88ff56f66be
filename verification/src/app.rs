//! The dashboard controller: a fixed set of panels, one selected, and a
//! run/quit flag.
//!
//! [`App`] owns the panels and dispatches one input event at a time. The
//! whole dispatch is pinned down by two spec functions, [`step_state`] and
//! [`step_selected`]; [`run_state`] and [`run_selected`] fold them over a
//! sequence of events, and the proof functions at the end of this module
//! state what holds of every such sequence. The surrounding binary drives
//! the loop: draw a frame ([`App::render_frame`]), block for one event, hand
//! it to [`App::handle_event`], until [`App::is_running`] turns false.

use vstd::prelude::*;
use vstd::string::StringExecFns;

use crate::accent::Accent;
use crate::draw;
use crate::event::{advance_requested, quit_requested, retreat_requested, InputEvent, KeyCode, KeyKind};
use crate::geom::{self, Rect};

verus! {

/// Whether the controller keeps running. The only transition ever taken is
/// `Running` to `Quitting`; nothing turns a quitting controller back.
#[derive(Clone, Copy, Debug, PartialEq, Eq, Structural)]
pub enum State {
    Running,
    Quitting,
}

/// What a content panel must offer: a stable title, a stable accent color,
/// and the ability to draw itself into a given region of the surface. A
/// panel must stay inside that region and must not fail; one with nothing
/// meaningful to show draws a placeholder instead.
pub trait Tab {
    /// The title, as the tab bar shows it.
    spec fn spec_title(&self) -> Seq<char>;

    /// The accent color, used for the tab segment and the content border.
    spec fn spec_color(&self) -> Accent;

    /// The panel's drawing, as an effect on the buffer's contents: what
    /// rendering into `area` leaves there, as a function of what was there.
    /// Each panel defines it from the named effects of the widgets it draws
    /// with, so [`Tab::render`]'s contract pins which widgets draw what.
    spec fn render_effect(&self, before: draw::Cells, area: Rect) -> draw::Cells;

    fn title(&self) -> (t: String)
        ensures
            t@ == self.spec_title(),
    ;

    fn color(&self) -> (c: Accent)
        ensures
            c == self.spec_color(),
    ;

    fn render(&self, area: Rect, buf: &mut ratatui::buffer::Buffer)
        requires
            area.wf(),
        ensures
            draw::buffer_cells(*final(buf)) == self.render_effect(
                draw::buffer_cells(*old(buf)),
                area,
            ),
    ;
}

/// The widest the centered content region ever gets, in cells.
pub const MAX_CONTENT_WIDTH: u16 = 100;

/// One segment of the tab bar: the padded label, the panel's accent, and
/// whether the segment belongs to the selected panel. The flag is the
/// contract-level observable; the bar is drawn from the same selection
/// index, and [`App::tab_segments`] proves the two agree.
#[derive(Debug)]
pub struct TabSegment {
    pub label: String,
    pub accent: Accent,
    pub highlighted: bool,
}

/// A tab label as the bar shows it: the title with a two-space margin on
/// either side.
pub open spec fn padded_label(title: Seq<char>) -> Seq<char> {
    "  "@ + title + "  "@
}

/// The selection after one event: an advance moves one panel right, a
/// retreat one panel left, both saturating at the ends; every other event
/// leaves it alone.
pub open spec fn step_selected(sel: int, n: int, ev: InputEvent) -> int {
    if advance_requested(ev) {
        if sel + 1 < n {
            sel + 1
        } else {
            sel
        }
    } else if retreat_requested(ev) {
        if sel > 0 {
            sel - 1
        } else {
            sel
        }
    } else {
        sel
    }
}

/// The run/quit flag after one event: a quit request ends the run whatever
/// the state was; every other event leaves the state alone.
pub open spec fn step_state(st: State, ev: InputEvent) -> State {
    if quit_requested(ev) {
        State::Quitting
    } else {
        st
    }
}

/// [`step_selected`], folded over a sequence of events in order.
pub open spec fn run_selected(sel: int, n: int, evs: Seq<InputEvent>) -> int
    decreases evs.len(),
{
    if evs.len() == 0 {
        sel
    } else {
        run_selected(step_selected(sel, n, evs[0]), n, evs.drop_first())
    }
}

/// [`step_state`], folded over a sequence of events in order.
pub open spec fn run_state(st: State, evs: Seq<InputEvent>) -> State
    decreases evs.len(),
{
    if evs.len() == 0 {
        st
    } else {
        run_state(step_state(st, evs[0]), evs.drop_first())
    }
}

/// The dashboard controller: its run/quit state, the index of the selected
/// panel, and the panels themselves, in tab order.
pub struct App<T> {
    pub state: State,
    pub selected_tab: usize,
    pub tabs: Vec<T>,
}

impl<T> App<T> {
    /// There is at least one panel and the selection points at one of them.
    pub open spec fn wf(&self) -> bool {
        self.tabs.len() >= 1 && self.selected_tab < self.tabs.len()
    }

    /// Builds a controller over the given panels, running and with the first
    /// panel selected. A dashboard without panels is a programming error;
    /// [`App::try_new`] is the checked form.
    pub fn new(tabs: Vec<T>) -> (app: App<T>)
        requires
            tabs.len() >= 1,
        ensures
            app.state == State::Running,
            app.selected_tab == 0,
            app.tabs == tabs,
            app.wf(),
    {
        App { state: State::Running, selected_tab: 0, tabs }
    }

    /// Builds a controller if at least one panel was given, and refuses an
    /// empty panel set: no runnable instance exists without panels.
    pub fn try_new(tabs: Vec<T>) -> (r: Option<App<T>>)
        ensures
            tabs.len() >= 1 ==> (r matches Some(app) && app.state == State::Running
                && app.selected_tab == 0 && app.tabs == tabs && app.wf()),
            tabs.len() == 0 ==> r is None,
    {
        if tabs.len() == 0 {
            None
        } else {
            Some(Self::new(tabs))
        }
    }

    /// Dispatches one input event: exactly the transition that
    /// [`step_state`] and [`step_selected`] give, with the panels untouched.
    pub fn handle_event(&mut self, ev: InputEvent)
        requires
            old(self).wf(),
        ensures
            final(self).wf(),
            final(self).tabs == old(self).tabs,
            final(self).state == step_state(old(self).state, ev),
            final(self).selected_tab as int == step_selected(
                old(self).selected_tab as int,
                old(self).tabs.len() as int,
                ev,
            ),
    {
        match ev {
            InputEvent::Key(code, kind) => {
                match kind {
                    KeyKind::Press => {
                        match code {
                            KeyCode::Char(c) => {
                                if c == 'l' {
                                    self.next_tab();
                                } else if c == 'h' {
                                    self.previous_tab();
                                } else if c == 'q' || c == '/' || c == '?' {
                                    self.quit();
                                }
                            },
                            KeyCode::Right => {
                                self.next_tab();
                            },
                            KeyCode::Left => {
                                self.previous_tab();
                            },
                            KeyCode::Esc => {
                                self.quit();
                            },
                            KeyCode::Other => {},
                        }
                    },
                    _ => {},
                }
            },
            _ => {},
        }
    }

    /// Advances the selection one panel to the right, staying at the last
    /// panel when it is already selected.
    pub fn next_tab(&mut self)
        requires
            old(self).wf(),
        ensures
            final(self).wf(),
            final(self).tabs == old(self).tabs,
            final(self).state == old(self).state,
            final(self).selected_tab as int == (if old(self).selected_tab + 1
                < old(self).tabs.len() {
                old(self).selected_tab + 1
            } else {
                old(self).selected_tab as int
            }),
    {
        if self.selected_tab < self.tabs.len() - 1 {
            self.selected_tab = self.selected_tab + 1;
        }
    }

    /// Retreats the selection one panel to the left, staying at the first
    /// panel when it is already selected.
    pub fn previous_tab(&mut self)
        requires
            old(self).wf(),
        ensures
            final(self).wf(),
            final(self).tabs == old(self).tabs,
            final(self).state == old(self).state,
            final(self).selected_tab as int == (if old(self).selected_tab > 0 {
                old(self).selected_tab - 1
            } else {
                0int
            }),
    {
        if self.selected_tab > 0 {
            self.selected_tab = self.selected_tab - 1;
        }
    }

    /// Ends the run: the state becomes `Quitting`, whatever it was.
    pub fn quit(&mut self)
        ensures
            final(self).state == State::Quitting,
            final(self).tabs == old(self).tabs,
            final(self).selected_tab == old(self).selected_tab,
    {
        self.state = State::Quitting;
    }

    /// Whether the event loop should draw and dispatch once more.
    pub fn is_running(&self) -> (b: bool)
        ensures
            b == (self.state == State::Running),
    {
        self.state == State::Running
    }

    /// The selected panel.
    pub fn current_tab(&self) -> (t: &T)
        requires
            self.wf(),
        ensures
            t == self.tabs[self.selected_tab as int],
    {
        &self.tabs[self.selected_tab]
    }
}

impl<T: Tab> App<T> {
    /// The tab bar's content: one segment per panel in tab order, each label
    /// padded with the fixed margin and carrying its panel's accent; exactly
    /// the selected panel's segment is highlighted.
    pub fn tab_segments(&self) -> (segs: Vec<TabSegment>)
        requires
            self.wf(),
        ensures
            segs.len() == self.tabs.len(),
            forall|i: int|
                0 <= i < segs.len() ==> {
                    &&& (#[trigger] segs[i]).label@ == padded_label(self.tabs[i].spec_title())
                    &&& segs[i].accent == self.tabs[i].spec_color()
                    &&& segs[i].highlighted == (i == self.selected_tab as int)
                },
    {
        let mut segs: Vec<TabSegment> = Vec::new();
        let mut i: usize = 0;
        while i < self.tabs.len()
            invariant
                self.wf(),
                i <= self.tabs.len(),
                segs.len() == i,
                forall|j: int|
                    0 <= j < i ==> {
                        &&& (#[trigger] segs[j]).label@ == padded_label(self.tabs[j].spec_title())
                        &&& segs[j].accent == self.tabs[j].spec_color()
                        &&& segs[j].highlighted == (j == self.selected_tab as int)
                    },
            decreases self.tabs.len() - i,
        {
            let mut label = "  ".to_owned();
            let title = self.tabs[i].title();
            label.append(title.as_str());
            label.append("  ");
            let accent = self.tabs[i].color();
            segs.push(TabSegment { label, accent, highlighted: i == self.selected_tab });
            i = i + 1;
        }
        segs
    }

    /// Composes one frame into the buffer: the area is capped at
    /// [`MAX_CONTENT_WIDTH`] and centered, its first row holds the tab bar,
    /// the rest the content region. The selected panel draws into the
    /// region's interior, and the border — in the selected panel's accent —
    /// is drawn last, on top, so overflowing content never obscures it. The
    /// contract states exactly that, as the composition of the three named
    /// effects over those computed rectangles.
    pub fn render_frame(&self, area: Rect, buf: &mut ratatui::buffer::Buffer)
        requires
            self.wf(),
            area.wf(),
        ensures
            ({
                let outer = geom::spec_centered(area, MAX_CONTENT_WIDTH);
                let split = geom::spec_split_top(outer, 1);
                let inner = geom::spec_block_inner(split.1);
                let accent = self.tabs@[self.selected_tab as int].spec_color();
                draw::buffer_cells(*final(buf)) == draw::border_effect(
                    self.tabs@[self.selected_tab as int].render_effect(
                        draw::tabs_effect(
                            draw::buffer_cells(*old(buf)),
                            self.tabs@.map_values(|t: T| padded_label(t.spec_title())),
                            self.tabs@.map_values(|t: T| t.spec_color()),
                            self.selected_tab as int,
                            accent,
                            split.0,
                        ),
                        inner,
                    ),
                    accent,
                    split.1,
                )
            }),
    {
        let outer = geom::centered(area, MAX_CONTENT_WIDTH);
        let split = geom::split_top(outer, 1);
        let header = split.0;
        let rest = split.1;
        let segs = self.tab_segments();
        let accent = self.current_tab().color();
        proof {
            assert(segs@.map_values(|s: TabSegment| s.label@) =~= self.tabs@.map_values(
                |t: T| padded_label(t.spec_title()),
            ));
            assert(segs@.map_values(|s: TabSegment| s.accent) =~= self.tabs@.map_values(
                |t: T| t.spec_color(),
            ));
        }
        draw::draw_tabs(&segs, self.selected_tab, accent, header, buf);
        let inner = geom::block_inner(rest);
        self.current_tab().render(inner, buf);
        draw::draw_block_border(accent, rest, buf);
    }
}

/// However the selection starts inside the panel range, any sequence of
/// dispatched events leaves it inside the range: it saturates at the ends
/// and never wraps past either one.
pub proof fn lemma_selection_in_bounds(sel: int, n: int, evs: Seq<InputEvent>)
    requires
        n >= 1,
        0 <= sel < n,
    ensures
        0 <= run_selected(sel, n, evs) < n,
    decreases evs.len(),
{
    if evs.len() > 0 {
        lemma_selection_in_bounds(step_selected(sel, n, evs[0]), n, evs.drop_first());
    }
}

/// A run of advance requests moves the selection right one panel per event
/// until it saturates at the last panel.
pub proof fn lemma_advance_saturates(sel: int, n: int, evs: Seq<InputEvent>)
    requires
        n >= 1,
        0 <= sel < n,
        forall|i: int| 0 <= i < evs.len() ==> advance_requested(#[trigger] evs[i]),
    ensures
        run_selected(sel, n, evs) == (if sel + evs.len() < n {
            sel + evs.len()
        } else {
            n - 1
        }),
    decreases evs.len(),
{
    if evs.len() > 0 {
        let rest = evs.drop_first();
        assert forall|i: int| 0 <= i < rest.len() implies advance_requested(#[trigger] rest[i]) by {
            assert(rest[i] == evs[i + 1]);
        }
        lemma_advance_saturates(step_selected(sel, n, evs[0]), n, rest);
    }
}

/// Advance dispatched at least `n - 1` times from the first panel always
/// lands on the last panel; further advances are no-ops.
pub proof fn lemma_advance_reaches_last(n: int, evs: Seq<InputEvent>)
    requires
        n >= 1,
        evs.len() >= n - 1,
        forall|i: int| 0 <= i < evs.len() ==> advance_requested(#[trigger] evs[i]),
    ensures
        run_selected(0, n, evs) == n - 1,
{
    lemma_advance_saturates(0, n, evs);
}

/// A retreat dispatched while the first panel is selected changes nothing:
/// neither the selection nor the state.
pub proof fn lemma_retreat_at_first_is_noop(st: State, n: int, ev: InputEvent)
    requires
        retreat_requested(ev),
    ensures
        step_selected(0, n, ev) == 0,
        step_state(st, ev) == st,
{
}

/// Any quit request ends the run, whatever the state and the selection were.
pub proof fn lemma_quit_request_quits(st: State, ev: InputEvent)
    requires
        quit_requested(ev),
    ensures
        step_state(st, ev) == State::Quitting,
{
}

/// Once the controller is quitting, no sequence of events changes that.
pub proof fn lemma_quitting_is_final(evs: Seq<InputEvent>)
    ensures
        run_state(State::Quitting, evs) == State::Quitting,
    decreases evs.len(),
{
    if evs.len() > 0 {
        lemma_quitting_is_final(evs.drop_first());
    }
}

/// An event that requests neither an advance nor a retreat nor a quit —
/// an unrecognized key, a repeat or release, a pointer event — changes
/// neither the selection nor the state.
pub proof fn lemma_unrecognized_is_noop(st: State, sel: int, n: int, ev: InputEvent)
    requires
        !advance_requested(ev),
        !retreat_requested(ev),
        !quit_requested(ev),
    ensures
        step_selected(sel, n, ev) == sel,
        step_state(st, ev) == st,
{
}

/// Pointer events in particular are dispatched as no-ops.
pub proof fn lemma_pointer_is_noop(st: State, sel: int, n: int)
    ensures
        step_selected(sel, n, InputEvent::Pointer) == sel,
        step_state(st, InputEvent::Pointer) == st,
{
    lemma_unrecognized_is_noop(st, sel, n, InputEvent::Pointer);
}

} // verus!
