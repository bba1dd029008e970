//! The dashboard: the state behind the screen, how events change it, and what
//! each redraw shows.
//!
//! The dashboard's loop redraws, waits for the next event and dispatches it,
//! until the quit key arrives or the channel closes.  [`Dashboard::redraw`]
//! and [`Dashboard::dispatch`] are the two halves of one turn of that loop;
//! [`DashboardView`] is the same state machine over plain sequences, and the
//! laws at the end of this file are stated over it.
use vstd::prelude::*;
use crate::event::{Event, EventView, Input, InputView, Key, QUIT_KEY};
use crate::layout::{partition, rows_in, Region};
use crate::menu::{Menu, MENU_LEN};
use crate::text::with_char;

verus! {

/// The longest log that can still be scrolled to its end: the scroll offset
/// is a 16-bit number.
pub const MAX_SCROLL: usize = 65535;

/// Colour of a log line.
#[derive(Clone, Copy, Debug, PartialEq, Eq, Structural)]
pub enum Tint {
    /// The terminal's own colour.
    Plain,
    /// Red, for the heading.
    Red,
}

/// How the lines of a panel are placed between its borders.
#[derive(Clone, Copy, Debug, PartialEq, Eq, Structural)]
pub enum Alignment {
    Left,
    Center,
    Right,
}

/// How the loop ended.
#[derive(Clone, Copy, Debug, PartialEq, Eq, Structural)]
pub enum Exit {
    /// The quit key was pressed.
    Graceful,
    /// The channel closed before the quit key arrived.
    Abnormal,
}

/// Where the loop stands.
#[derive(Clone, Copy, Debug, PartialEq, Eq, Structural)]
pub enum Status {
    Running,
    Terminated(Exit),
}

/// One line of the log panel.
#[derive(Debug, PartialEq, Eq)]
pub struct LogLine {
    pub text: String,
    pub tint: Tint,
}

/// A [`LogLine`] with its text as a sequence of characters.
pub struct LogLineView {
    pub text: Seq<char>,
    pub tint: Tint,
}

impl View for LogLine {
    type V = LogLineView;

    open spec fn view(&self) -> LogLineView {
        LogLineView { text: self.text@, tint: self.tint }
    }
}

/// The views of a list of log lines, in order.
pub open spec fn line_views(lines: Seq<LogLine>) -> Seq<LogLineView> {
    lines.map_values(|line: LogLine| line@)
}

/// What the loop has to do after an event was dispatched.
#[derive(Debug, PartialEq, Eq)]
pub enum Effect {
    /// Nothing besides the next redraw.
    Nothing,
    /// Write the line to the diagnostic sink; it is no part of the log panel.
    Diagnostic(String),
    /// Leave the loop and restore the terminal.
    Quit,
}

/// An [`Effect`] with its text as a sequence of characters.
pub enum EffectView {
    Nothing,
    Diagnostic(Seq<char>),
    Quit,
}

impl View for Effect {
    type V = EffectView;

    open spec fn view(&self) -> EffectView {
        match *self {
            Effect::Nothing => EffectView::Nothing,
            Effect::Diagnostic(line) => EffectView::Diagnostic(line@),
            Effect::Quit => EffectView::Quit,
        }
    }
}

/// The line the log starts with.
pub open spec fn heading() -> LogLineView {
    LogLineView { text: "Logs"@, tint: Tint::Red }
}

/// The decimal digit of an entry's position.
pub open spec fn index_digit(selection: Menu) -> char {
    match selection {
        Menu::Home => '0',
        Menu::Commands => '1',
        Menu::About => '2',
    }
}

/// The line each redraw adds to the log: it records the selected position.
pub open spec fn index_line(selection: Menu) -> LogLineView {
    LogLineView { text: "menuIdx: "@.push(index_digit(selection)), tint: Tint::Plain }
}

/// The dashboard's state over plain sequences.
pub struct DashboardView {
    /// The selected tab.
    pub selection: Menu,
    /// The log panel's lines, oldest first.
    pub log: Seq<LogLineView>,
    /// Whether the loop still runs.
    pub status: Status,
}

impl DashboardView {
    /// The state a dashboard starts in.
    pub open spec fn initial() -> DashboardView {
        DashboardView { selection: Menu::Home, log: seq![heading()], status: Status::Running }
    }

    pub open spec fn running(self) -> bool {
        self.status == Status::Running
    }

    /// The state after a redraw: a running dashboard logs the selected
    /// position, a terminated one is not drawn any more.
    pub open spec fn drawn(self) -> DashboardView {
        if self.running() {
            DashboardView { log: self.log.push(index_line(self.selection)), ..self }
        } else {
            self
        }
    }

    /// The state after an event: the quit key terminates, the right arrow
    /// moves the selection, everything else leaves the state as it is.
    pub open spec fn dispatched(self, event: EventView) -> DashboardView {
        if !self.running() {
            self
        } else {
            match event {
                EventView::Input(InputView::Key(Key::Char(c))) => if c == QUIT_KEY {
                    DashboardView { status: Status::Terminated(Exit::Graceful), ..self }
                } else {
                    self
                },
                EventView::Input(InputView::Key(Key::Right)) => DashboardView {
                    selection: self.selection.next(),
                    ..self
                },
                _ => self,
            }
        }
    }

    /// What the loop has to do after an event: quit on the quit key, echo
    /// any other character key and any pasted text to the diagnostic sink.
    pub open spec fn effect(self, event: EventView) -> EffectView {
        if !self.running() {
            EffectView::Nothing
        } else {
            match event {
                EventView::Input(InputView::Key(Key::Char(c))) => if c == QUIT_KEY {
                    EffectView::Quit
                } else {
                    EffectView::Diagnostic("K: "@.push(c))
                },
                EventView::Input(InputView::Paste(text)) => EffectView::Diagnostic(text),
                _ => EffectView::Nothing,
            }
        }
    }

    /// The state after the channel closed.
    pub open spec fn disconnected(self) -> DashboardView {
        if self.running() {
            DashboardView { status: Status::Terminated(Exit::Abnormal), ..self }
        } else {
            self
        }
    }

    /// One turn of the loop: redraw, then dispatch the event that arrived.
    pub open spec fn iterated(self, event: EventView) -> DashboardView {
        self.drawn().dispatched(event)
    }

    /// The state after one turn of the loop for each of `events`, in order.
    pub open spec fn run(self, events: Seq<EventView>) -> DashboardView
        decreases events.len(),
    {
        if events.len() == 0 {
            self
        } else {
            self.run(events.drop_last()).iterated(events.last())
        }
    }
}

/// What one redraw puts on the screen.
#[derive(Debug, PartialEq, Eq)]
pub struct Screen {
    /// Where the tab bar goes.
    pub tabs: Region,
    /// The tab bar's captions, left to right.
    pub titles: Vec<&'static str>,
    /// Position of the highlighted caption.
    pub selected: usize,
    /// Where the body panel goes.
    pub body: Region,
    /// Title of the body panel, which is otherwise empty.
    pub body_title: &'static str,
    /// Where the log panel goes.
    pub logs: Region,
    /// Title of the log panel.
    pub logs_title: &'static str,
    /// The log panel's lines, oldest first.
    pub lines: Vec<LogLine>,
    /// How the log panel places its lines.
    pub alignment: Alignment,
    /// Number of lines the log panel is scrolled down by.
    pub scroll: u16,
}

impl Screen {
    /// The three panels' places, top to bottom.
    pub open spec fn rows(self) -> Seq<Region> {
        seq![self.tabs, self.body, self.logs]
    }

    /// Whether the panels take the first three of `rows`, top to bottom.
    pub open spec fn framed_by(self, rows: Seq<Region>) -> bool {
        &&& self.tabs == rows[0]
        &&& self.body == rows[1]
        &&& self.logs == rows[2]
    }

    /// Whether the screen shows `state`: every caption with the selected one
    /// highlighted, the body's title, and the whole log, centred and scrolled
    /// down by its own length.
    pub open spec fn shows(self, state: DashboardView) -> bool {
        &&& self.titles@.len() == MENU_LEN
        &&& forall|i: int| 0 <= i < MENU_LEN ==> (#[trigger] self.titles@[i])@ == Menu::at(i).label_spec()
        &&& self.selected == state.selection.index()
        &&& self.body_title@ == "Body"@
        &&& self.logs_title@ == "Logs"@
        &&& line_views(self.lines@) == state.log
        &&& self.alignment == Alignment::Center
        &&& self.scroll == state.log.len()
    }
}

/// The dashboard's state: the selected tab, the log, and whether the loop
/// still runs.  The selection changes only when an event is dispatched, and
/// the log only grows.
#[derive(Debug, PartialEq, Eq)]
pub struct Dashboard {
    selection: Menu,
    log: Vec<LogLine>,
    status: Status,
}

impl View for Dashboard {
    type V = DashboardView;

    closed spec fn view(&self) -> DashboardView {
        DashboardView {
            selection: self.selection,
            log: line_views(self.log@),
            status: self.status,
        }
    }
}

/// A copy of the lines.
fn copy_lines(lines: &Vec<LogLine>) -> (copy: Vec<LogLine>)
    ensures
        line_views(copy@) == line_views(lines@),
{
    let mut copy: Vec<LogLine> = Vec::new();
    let mut i: usize = 0;
    while i < lines.len()
        invariant
            i <= lines.len(),
            copy.len() == i,
            forall|k: int| 0 <= k < i ==> copy[k]@ == lines[k]@,
        decreases lines.len() - i,
    {
        let line = &lines[i];
        copy.push(LogLine { text: line.text.clone(), tint: line.tint });
        i += 1;
    }
    assert(line_views(copy@) =~= line_views(lines@));
    copy
}

/// The tab bar's captions, left to right.
pub fn captions() -> (titles: Vec<&'static str>)
    ensures
        titles@.len() == MENU_LEN,
        forall|i: int| 0 <= i < MENU_LEN ==> (#[trigger] titles@[i])@ == Menu::at(i).label_spec(),
{
    let mut titles: Vec<&'static str> = Vec::new();
    let mut i: usize = 0;
    while i < MENU_LEN
        invariant
            i <= MENU_LEN,
            titles@.len() == i,
            forall|k: int| 0 <= k < i ==> (#[trigger] titles@[k])@ == Menu::at(k).label_spec(),
        decreases MENU_LEN - i,
    {
        titles.push(Menu::from(i).label());
        i += 1;
    }
    titles
}

/// The line a redraw adds to the log while `selection` is selected.
pub fn position_line(selection: Menu) -> (line: LogLine)
    ensures
        line@ == index_line(selection),
{
    let digit: char = match selection {
        Menu::Home => '0',
        Menu::Commands => '1',
        Menu::About => '2',
    };
    LogLine { text: with_char("menuIdx: ", digit), tint: Tint::Plain }
}

impl Dashboard {
    /// A running dashboard with the first tab selected and a log that holds
    /// its heading.
    pub fn new() -> (dashboard: Dashboard)
        ensures
            dashboard@ == DashboardView::initial(),
    {
        let mut log: Vec<LogLine> = Vec::new();
        log.push(LogLine { text: "Logs".to_owned(), tint: Tint::Red });
        assert(line_views(log@) =~= seq![heading()]);
        Dashboard { selection: Menu::Home, log, status: Status::Running }
    }

    /// The selected tab.
    pub fn selection(&self) -> (selection: Menu)
        ensures
            selection == self@.selection,
    {
        self.selection
    }

    /// Where the loop stands.
    pub fn status(&self) -> (status: Status)
        ensures
            status == self@.status,
    {
        self.status
    }

    /// Whether the loop still runs.
    pub fn is_running(&self) -> (running: bool)
        ensures
            running == self@.running(),
    {
        match self.status {
            Status::Running => true,
            Status::Terminated(_) => false,
        }
    }

    /// The log panel's lines, oldest first.
    pub fn log(&self) -> (lines: &Vec<LogLine>)
        ensures
            line_views(lines@) == self@.log,
    {
        &self.log
    }

    /// Whether the log is short enough for one more redraw.
    pub fn can_scroll(&self) -> (fits: bool)
        ensures
            fits == (self@.log.len() < MAX_SCROLL),
    {
        self.log.len() < MAX_SCROLL
    }

    /// Redraws into rows that are already laid out: `rows` holds, top to
    /// bottom, the places of the tab bar, the body and the log.
    ///
    /// A running dashboard adds the line that records the selected position
    /// to its log and returns the screen that shows the state it is then in.
    /// A terminated dashboard is left alone and returns nothing.
    pub fn compose(&mut self, rows: &Vec<Region>) -> (screen: Option<Screen>)
        requires
            rows.len() >= 3,
            old(self)@.running() ==> old(self)@.log.len() < MAX_SCROLL,
        ensures
            final(self)@ == old(self)@.drawn(),
            screen is Some <==> old(self)@.running(),
            screen matches Some(shown) ==> shown.framed_by(rows@) && shown.shows(final(self)@),
    {
        if !self.is_running() {
            return None;
        }
        self.log.push(position_line(self.selection));
        assert(line_views(self.log@) =~= line_views(old(self).log@).push(index_line(self.selection)));
        let lines = copy_lines(&self.log);
        let scroll: u16 = self.log.len() as u16;
        Some(
            Screen {
                tabs: rows[0],
                titles: captions(),
                selected: usize::from(self.selection),
                body: rows[1],
                body_title: "Body",
                logs: rows[2],
                logs_title: "Logs",
                lines,
                alignment: Alignment::Center,
                scroll,
            },
        )
    }

    /// One redraw of a screen that takes up `area`.
    ///
    /// A running dashboard splits the area into its three rows, adds the line
    /// that records the selected position to its log and returns the screen
    /// that shows the state it is then in.  A terminated dashboard is left
    /// alone and returns nothing.
    ///
    /// The panels take the rows in the order in which the layout solver hands
    /// them out: the tab bar the first, the body the second, the log the
    /// third.  Of their places it is proved that each stays within the
    /// screen's right edge and bottom and that the log panel starts inside
    /// the screen and ends exactly at its bottom; that the tab bar lies above
    /// the body, and how tall each panel is, rests on the solver and is not
    /// proved.
    pub fn redraw(&mut self, area: Region) -> (screen: Option<Screen>)
        requires
            old(self)@.running() ==> area.splittable() && old(self)@.log.len() < MAX_SCROLL,
        ensures
            final(self)@ == old(self)@.drawn(),
            screen is Some <==> old(self)@.running(),
            screen matches Some(shown) ==> shown.shows(final(self)@) && rows_in(
                area,
                3,
                shown.rows(),
            ),
    {
        if !self.is_running() {
            return None;
        }
        let rows = partition(area);
        let screen = self.compose(&rows);
        assert(screen->Some_0.rows() =~= rows@);
        screen
    }

    /// Takes one event off the channel.
    ///
    /// On a running dashboard the quit key terminates the loop, the right
    /// arrow moves the selection one tab to the right, where the last tab
    /// stops it, and a tick changes nothing.  Any other character key and any
    /// pasted text come back as a diagnostic line.  A terminated dashboard
    /// ignores every event.
    pub fn dispatch(&mut self, event: Event) -> (effect: Effect)
        ensures
            final(self)@ == old(self)@.dispatched(event@),
            effect@ == old(self)@.effect(event@),
    {
        if !self.is_running() {
            return Effect::Nothing;
        }
        match event {
            Event::Input(Input::Key(Key::Char(c))) => {
                if c == QUIT_KEY {
                    self.status = Status::Terminated(Exit::Graceful);
                    Effect::Quit
                } else {
                    Effect::Diagnostic(with_char("K: ", c))
                }
            },
            Event::Input(Input::Key(Key::Right)) => {
                self.selection = self.selection.advance();
                Effect::Nothing
            },
            Event::Input(Input::Paste(text)) => Effect::Diagnostic(text),
            _ => Effect::Nothing,
        }
    }

    /// Records that the channel closed: a running dashboard terminates
    /// abnormally, a terminated one stays as it is.
    pub fn channel_closed(&mut self)
        ensures
            final(self)@ == old(self)@.disconnected(),
    {
        if self.is_running() {
            self.status = Status::Terminated(Exit::Abnormal);
        }
    }
}

/// No step shortens or rewrites the log: a redraw adds to its end, an event
/// and a closed channel leave it as it is.
pub proof fn lemma_step_keeps_log(state: DashboardView, event: EventView)
    ensures
        state.log.is_prefix_of(state.drawn().log),
        state.dispatched(event).log == state.log,
        state.disconnected().log == state.log,
        state.log.is_prefix_of(state.iterated(event).log),
{
}

/// As long as no event is a press of the quit key, the loop keeps running,
/// and every turn adds one line to the log.
pub proof fn law_runs_without_quit(state: DashboardView, events: Seq<EventView>)
    requires
        state.running(),
        forall|i: int| 0 <= i < events.len() ==> !(#[trigger] events[i]).is_quit(),
    ensures
        state.run(events).running(),
        state.run(events).log.len() == state.log.len() + events.len(),
    decreases events.len(),
{
    if events.len() > 0 {
        let earlier = events.drop_last();
        assert forall|i: int| 0 <= i < earlier.len() implies !(#[trigger] earlier[i]).is_quit() by {
            assert(earlier[i] == events[i]);
        }
        law_runs_without_quit(state, earlier);
        assert(!events[events.len() - 1].is_quit());
    }
}

/// A press of the quit key terminates the loop at the dispatch that takes
/// it, whatever the state before: a running dashboard terminates gracefully
/// and tells the loop to quit, a terminated one stays terminated.
pub proof fn law_quit_terminates(state: DashboardView, event: EventView)
    requires
        event.is_quit(),
    ensures
        !state.dispatched(event).running(),
        !state.iterated(event).running(),
        state.running() ==> state.dispatched(event).status == Status::Terminated(Exit::Graceful),
        state.running() ==> state.effect(event) == EffectView::Quit,
{
}

/// A terminated dashboard never changes again: no event restarts it, and no
/// redraw adds to its log.
pub proof fn law_terminated_stays(state: DashboardView, events: Seq<EventView>)
    requires
        !state.running(),
    ensures
        state.run(events) == state,
    decreases events.len(),
{
    if events.len() > 0 {
        law_terminated_stays(state, events.drop_last());
    }
}

/// The log is append-only: what it held after the first `k` turns of a run
/// is still there, in the same places, after all of them, so its length
/// never goes down from one turn to the next.
pub proof fn law_log_append_only(state: DashboardView, events: Seq<EventView>, k: int)
    requires
        0 <= k <= events.len(),
    ensures
        state.run(events.take(k)).log.is_prefix_of(state.run(events).log),
        state.run(events.take(k)).log.len() <= state.run(events).log.len(),
        state.log.is_prefix_of(state.run(events).log),
    decreases events.len(),
{
    if events.len() == 0 {
        assert(events.take(k) =~= events);
    } else {
        let earlier = events.drop_last();
        let before = state.run(earlier);
        lemma_step_keeps_log(before, events.last());
        if k == events.len() {
            assert(events.take(k) =~= events);
            law_log_append_only(state, earlier, 0);
        } else {
            assert(earlier.take(k) =~= events.take(k));
            law_log_append_only(state, earlier, k);
        }
    }
}

/// The selection never leaves the tab bar: after any run, from any state, its
/// position is that of one of the entries, and so never above their number.
pub proof fn law_selection_in_bar(state: DashboardView, events: Seq<EventView>)
    ensures
        0 <= state.run(events).selection.index() < MENU_LEN,
        0 <= state.run(events).selection.index() <= MENU_LEN,
{
}

/// The right arrow moves the selection by one tab and stops at the last.
pub proof fn law_right_arrow_advances(state: DashboardView)
    requires
        state.running(),
    ensures
        state.selection.index() + 1 < MENU_LEN ==> state.dispatched(
            EventView::Input(InputView::Key(Key::Right)),
        ).selection.index() == state.selection.index() + 1,
        state.selection.index() + 1 >= MENU_LEN ==> state.dispatched(
            EventView::Input(InputView::Key(Key::Right)),
        ).selection == state.selection,
{
}

/// The highlighted position on a screen is that of one of its captions.
pub proof fn law_highlight_in_bar(screen: Screen, state: DashboardView)
    requires
        screen.shows(state),
    ensures
        screen.selected < screen.titles@.len(),
        screen.titles@[screen.selected as int]@ == state.selection.label_spec(),
{
    assert(Menu::at(state.selection.index()) == state.selection);
}

} // verus!
