use vstd::prelude::*;

use crate::config::{Config, WidgetConfig};
use crate::creature::{gained, level_after, points_for_gain, points_through, Creature};
use crate::feeds::FeedMessage;
use crate::menu::{
    menu_after_next_tab, menu_after_prev_tab, menu_after_scroll_down, menu_after_scroll_up,
    select_effect, CreatureMenu,
};
use crate::widgets::{
    after_next_tab, after_prev_tab, after_scroll_down, after_scroll_up, applied, widget_id_text,
    Widget, WidgetData,
};

verus! {

/// The slot after `s` among `n` widgets, wrapping to the first.
pub open spec fn next_index(s: int, n: int) -> int {
    (s + 1) % n
}

/// The slot before `s` among `n` widgets, wrapping to the last.
pub open spec fn prev_index(s: int, n: int) -> int {
    if s == 0 {
        n - 1
    } else {
        s - 1
    }
}

/// The state owned by the control loop: the widget registry, the selection, the
/// companion and its overlay.
pub struct App {
    pub widgets: Vec<Widget>,
    pub selected: usize,
    pub should_quit: bool,
    pub creature: Creature,
    pub creature_index: Option<usize>,
    pub menu: CreatureMenu,
    pub last_xp_tick_ms: u64,
}

/// Index of the first widget whose identity is `id`, if any.
pub open spec fn find_widget(ws: Seq<Widget>, id: Seq<char>) -> Option<int> {
    if exists|i: int| 0 <= i < ws.len() && widget_id_text(ws[i].config) == id {
        Some(
            choose|i: int|
                0 <= i < ws.len() && widget_id_text(ws[i].config) == id && forall|j: int|
                    0 <= j < i ==> widget_id_text(ws[j].config) != id,
        )
    } else {
        None
    }
}

impl App {
    /// Every widget well formed; when there are widgets, exactly the one at
    /// `selected` is marked selected; the companion slot holds the companion widget.
    pub open spec fn wf(&self) -> bool {
        &&& self.widgets@.len() == 0 ==> self.selected == 0
        &&& self.widgets@.len() > 0 ==> self.selected < self.widgets@.len()
        &&& forall|i: int|
            0 <= i < self.widgets@.len() ==> (#[trigger] self.widgets@[i]).wf()
                && self.widgets@[i].selected == (i == self.selected)
        &&& match self.creature_index {
            Some(c) => c < self.widgets@.len() && self.widgets@[c as int].data is Creature,
            None => true,
        }
    }

    /// The registry built from the configured widgets, in order, with the first one
    /// selected and the companion hosted by the last companion widget.
    pub fn new(config: Config, creature: Creature, now_ms: u64) -> (r: App)
        ensures
            r.wf(),
            r.widgets@.len() == config.widgets@.len(),
            forall|i: int|
                0 <= i < r.widgets@.len() ==> (#[trigger] r.widgets@[i]).config
                    == config.widgets@[i],
            r.selected == 0,
            !r.should_quit,
            r.creature == creature,
            r.creature_index.is_some() <==> exists|i: int|
                0 <= i < config.widgets@.len() && (#[trigger] config.widgets@[i]) is Creature,
            r.creature_index matches Some(c) ==> forall|j: int|
                c < j < config.widgets@.len() ==> !((#[trigger] config.widgets@[j]) is Creature),
            !r.menu.visible,
            r.last_xp_tick_ms == now_ms,
    {
        let mut configs = config.widgets;
        let ghost all = configs@;
        let mut widgets: Vec<Widget> = Vec::new();
        let mut creature_index: Option<usize> = None;
        while configs.len() > 0
            invariant
                widgets@.len() + configs@.len() == all.len(),
                configs@ == all.subrange(widgets@.len() as int, all.len() as int),
                forall|i: int|
                    0 <= i < widgets@.len() ==> (#[trigger] widgets@[i]).config == all[i]
                        && widgets@[i].wf() && (widgets@[i].selected == (i == 0)),
                match creature_index {
                    Some(c) => c < widgets@.len() && widgets@[c as int].data is Creature && all[c as int] is Creature
                        && forall|j: int| c < j < widgets@.len() ==> !((#[trigger] all[j]) is Creature),
                    None => forall|j: int| 0 <= j < widgets@.len() ==> !((#[trigger] all[j]) is Creature),
                },
            decreases configs@.len(),
        {
            let c = configs.remove(0);
            let is_creature = match &c {
                WidgetConfig::Creature(_) => true,
                _ => false,
            };
            let mut w = Widget::new(c, now_ms);
            if widgets.len() == 0 {
                w.set_selected(true);
            }
            if is_creature {
                creature_index = Some(widgets.len());
            }
            widgets.push(w);
            assert(configs@ =~= all.subrange(widgets@.len() as int, all.len() as int));
        }
        assert(widgets@.len() == all.len());
        App {
            widgets,
            selected: 0,
            should_quit: false,
            creature,
            creature_index,
            menu: CreatureMenu::default(),
            last_xp_tick_ms: now_ms,
        }
    }

    /// Routes a fetch result to the first widget with the message's identity and
    /// applies it there. A message whose identity no widget has is dropped and
    /// nothing changes. Returns whether the message was routed.
    pub fn handle_feed_message(&mut self, msg: FeedMessage) -> (routed: bool)
        requires
            old(self).wf(),
        ensures
            final(self).wf(),
            routed == find_widget(old(self).widgets@, msg.widget_id@).is_some(),
            !routed ==> *final(self) == *old(self),
            routed ==> {
                let i = find_widget(old(self).widgets@, msg.widget_id@).unwrap();
                &&& final(self).widgets@.len() == old(self).widgets@.len()
                &&& applied(old(self).widgets@[i], msg.data, final(self).widgets@[i])
                &&& forall|j: int|
                    0 <= j < old(self).widgets@.len() && j != i ==> final(self).widgets@[j]
                        == old(self).widgets@[j]
                &&& final(self).selected == old(self).selected
                &&& final(self).creature == old(self).creature
                &&& final(self).creature_index == old(self).creature_index
                &&& final(self).menu == old(self).menu
                &&& final(self).should_quit == old(self).should_quit
            },
    {
        let mut i: usize = 0;
        while i < self.widgets.len()
            invariant
                *self == *old(self),
                self.wf(),
                0 <= i <= self.widgets@.len(),
                forall|j: int|
                    0 <= j < i ==> widget_id_text(self.widgets@[j].config) != msg.widget_id@,
            decreases self.widgets.len() - i,
        {
            if self.widgets[i].id() == msg.widget_id {
                let ghost ws = self.widgets@;
                proof {
                    let k = find_widget(ws, msg.widget_id@).unwrap();
                    assert(0 <= k < ws.len() && widget_id_text(ws[k].config) == msg.widget_id@);
                    if k < i {
                    } else if k > i {
                    }
                    assert(k == i);
                }
                assert(self.widgets@[i as int].wf());
                self.widgets[i].update_data(msg.data);
                proof {
                    assert forall|j: int| 0 <= j < self.widgets@.len() implies (
                    #[trigger] self.widgets@[j]).wf() && self.widgets@[j].selected == (j
                        == self.selected) by {
                        if j != i {
                            assert(self.widgets@[j] == ws[j]);
                        }
                    }
                }
                return true;
            }
            i += 1;
        }
        false
    }
}

/// `after` is `before` with only the selection marks possibly changed.
pub open spec fn same_but_marks(before: Widget, after: Widget) -> bool {
    after == Widget { selected: after.selected, ..before }
}

/// What operation `op` does to the selected widget: 0 scrolls up, 1 down, 2 moves
/// to the previous tab, 3 to the next.
pub open spec fn selected_op(w: Widget, op: u8) -> Widget {
    if op == 0 {
        after_scroll_up(w)
    } else if op == 1 {
        after_scroll_down(w)
    } else if op == 2 {
        after_prev_tab(w)
    } else {
        after_next_tab(w)
    }
}

impl App {
    /// Moves the selection mark from `from` to `to`.
    fn move_selection(&mut self, to: usize)
        requires
            old(self).wf(),
            old(self).widgets@.len() > 0,
            to < old(self).widgets@.len(),
        ensures
            final(self).wf(),
            final(self).selected == to,
            final(self).widgets@.len() == old(self).widgets@.len(),
            forall|j: int|
                0 <= j < old(self).widgets@.len() ==> same_but_marks(
                    old(self).widgets@[j],
                    #[trigger] final(self).widgets@[j],
                ),
            final(self).creature == old(self).creature,
            final(self).creature_index == old(self).creature_index,
            final(self).menu == old(self).menu,
            final(self).should_quit == old(self).should_quit,
            final(self).last_xp_tick_ms == old(self).last_xp_tick_ms,
    {
        let from = self.selected;
        let ghost ws = self.widgets@;
        assert(self.widgets@[from as int].wf());
        self.widgets[from].set_selected(false);
        assert(self.widgets@[to as int].wf());
        self.widgets[to].set_selected(true);
        self.selected = to;
        proof {
            assert forall|j: int| 0 <= j < self.widgets@.len() implies (
            #[trigger] self.widgets@[j]).wf() && self.widgets@[j].selected == (j
                == self.selected) by {
                assert(ws[j].wf());
            }
            assert forall|j: int| 0 <= j < ws.len() implies same_but_marks(
                ws[j],
                #[trigger] self.widgets@[j],
            ) by {}
        }
    }

    /// Selects the next widget, wrapping from the last to the first. No-op
    /// without widgets.
    pub fn next_widget(&mut self)
        requires
            old(self).wf(),
        ensures
            final(self).wf(),
            old(self).widgets@.len() == 0 ==> *final(self) == *old(self),
            old(self).widgets@.len() > 0 ==> final(self).selected == next_index(
                old(self).selected as int,
                old(self).widgets@.len() as int,
            ),
            final(self).widgets@.len() == old(self).widgets@.len(),
            forall|j: int|
                0 <= j < old(self).widgets@.len() ==> same_but_marks(
                    old(self).widgets@[j],
                    #[trigger] final(self).widgets@[j],
                ),
            final(self).should_quit == old(self).should_quit,
            final(self).creature_index == old(self).creature_index,
            final(self).creature == old(self).creature,
            final(self).menu == old(self).menu,
            final(self).last_xp_tick_ms == old(self).last_xp_tick_ms,
    {
        if self.widgets.len() > 0 {
            let to = (self.selected + 1) % self.widgets.len();
            self.move_selection(to);
        }
    }

    /// Selects the previous widget, wrapping from the first to the last. No-op
    /// without widgets.
    pub fn prev_widget(&mut self)
        requires
            old(self).wf(),
        ensures
            final(self).wf(),
            old(self).widgets@.len() == 0 ==> *final(self) == *old(self),
            old(self).widgets@.len() > 0 ==> final(self).selected == prev_index(
                old(self).selected as int,
                old(self).widgets@.len() as int,
            ),
            final(self).widgets@.len() == old(self).widgets@.len(),
            forall|j: int|
                0 <= j < old(self).widgets@.len() ==> same_but_marks(
                    old(self).widgets@[j],
                    #[trigger] final(self).widgets@[j],
                ),
            final(self).should_quit == old(self).should_quit,
            final(self).creature_index == old(self).creature_index,
            final(self).creature == old(self).creature,
            final(self).menu == old(self).menu,
            final(self).last_xp_tick_ms == old(self).last_xp_tick_ms,
    {
        if self.widgets.len() > 0 {
            let to = if self.selected == 0 {
                self.widgets.len() - 1
            } else {
                self.selected - 1
            };
            self.move_selection(to);
        }
    }

    /// Applies `op` to the selected widget: 0 scrolls up, 1 down, 2 the previous
    /// tab, 3 the next tab.
    fn on_selected(&mut self, op: u8)
        requires
            old(self).wf(),
            op < 4,
        ensures
            old(self).widgets@.len() == 0 ==> *final(self) == *old(self),
            final(self).wf(),
            final(self).selected == old(self).selected,
            final(self).widgets@.len() == old(self).widgets@.len(),
            forall|j: int|
                0 <= j < old(self).widgets@.len() && j != old(self).selected ==> #[trigger] final(self).widgets@[j] == old(self).widgets@[j],
            old(self).widgets@.len() > 0 ==> final(self).widgets@[old(self).selected as int]
                == selected_op(old(self).widgets@[old(self).selected as int], op),
            final(self).creature == old(self).creature,
            final(self).creature_index == old(self).creature_index,
            final(self).menu == old(self).menu,
            final(self).should_quit == old(self).should_quit,
            final(self).last_xp_tick_ms == old(self).last_xp_tick_ms,
    {
        if self.widgets.len() == 0 {
            return;
        }
        let i = self.selected;
        let ghost ws = self.widgets@;
        assert(self.widgets@[i as int].wf());
        if op == 0 {
            self.widgets[i].scroll_up();
        } else if op == 1 {
            self.widgets[i].scroll_down();
        } else if op == 2 {
            self.widgets[i].prev_tab();
        } else {
            self.widgets[i].next_tab();
        }
        proof {
            assert forall|j: int| 0 <= j < self.widgets@.len() implies (
            #[trigger] self.widgets@[j]).wf() && self.widgets@[j].selected == (j
                == self.selected) by {
                assert(ws[j].wf());
            }
        }
    }

    /// Scrolls the selected widget up.
    pub fn scroll_up(&mut self)
        requires
            old(self).wf(),
        ensures
            old(self).widgets@.len() == 0 ==> *final(self) == *old(self),
            final(self).wf(),
            final(self).selected == old(self).selected,
            final(self).widgets@.len() == old(self).widgets@.len(),
            old(self).widgets@.len() > 0 ==> final(self).widgets@[old(self).selected as int]
                == after_scroll_up(old(self).widgets@[old(self).selected as int]),
            forall|j: int|
                0 <= j < old(self).widgets@.len() && j != old(self).selected ==> #[trigger] final(self).widgets@[j] == old(self).widgets@[j],
            final(self).should_quit == old(self).should_quit,
            final(self).creature_index == old(self).creature_index,
            final(self).creature == old(self).creature,
            final(self).menu == old(self).menu,
            final(self).last_xp_tick_ms == old(self).last_xp_tick_ms,
    {
        self.on_selected(0);
    }

    /// Scrolls the selected widget down.
    pub fn scroll_down(&mut self)
        requires
            old(self).wf(),
        ensures
            old(self).widgets@.len() == 0 ==> *final(self) == *old(self),
            final(self).wf(),
            final(self).selected == old(self).selected,
            final(self).widgets@.len() == old(self).widgets@.len(),
            old(self).widgets@.len() > 0 ==> final(self).widgets@[old(self).selected as int]
                == after_scroll_down(old(self).widgets@[old(self).selected as int]),
            forall|j: int|
                0 <= j < old(self).widgets@.len() && j != old(self).selected ==> #[trigger] final(self).widgets@[j] == old(self).widgets@[j],
            final(self).should_quit == old(self).should_quit,
            final(self).creature_index == old(self).creature_index,
            final(self).creature == old(self).creature,
            final(self).menu == old(self).menu,
            final(self).last_xp_tick_ms == old(self).last_xp_tick_ms,
    {
        self.on_selected(1);
    }

    /// Switches the selected widget to its previous tab, where it has tabs.
    pub fn switch_tab_prev(&mut self)
        requires
            old(self).wf(),
        ensures
            old(self).widgets@.len() == 0 ==> *final(self) == *old(self),
            final(self).wf(),
            final(self).selected == old(self).selected,
            final(self).widgets@.len() == old(self).widgets@.len(),
            old(self).widgets@.len() > 0 ==> final(self).widgets@[old(self).selected as int]
                == after_prev_tab(old(self).widgets@[old(self).selected as int]),
            forall|j: int|
                0 <= j < old(self).widgets@.len() && j != old(self).selected ==> #[trigger] final(self).widgets@[j] == old(self).widgets@[j],
            final(self).should_quit == old(self).should_quit,
            final(self).creature_index == old(self).creature_index,
            final(self).creature == old(self).creature,
            final(self).menu == old(self).menu,
            final(self).last_xp_tick_ms == old(self).last_xp_tick_ms,
    {
        self.on_selected(2);
    }

    /// Switches the selected widget to its next tab, where it has tabs.
    pub fn switch_tab_next(&mut self)
        requires
            old(self).wf(),
        ensures
            old(self).widgets@.len() == 0 ==> *final(self) == *old(self),
            final(self).wf(),
            final(self).selected == old(self).selected,
            final(self).widgets@.len() == old(self).widgets@.len(),
            old(self).widgets@.len() > 0 ==> final(self).widgets@[old(self).selected as int]
                == after_next_tab(old(self).widgets@[old(self).selected as int]),
            forall|j: int|
                0 <= j < old(self).widgets@.len() && j != old(self).selected ==> #[trigger] final(self).widgets@[j] == old(self).widgets@[j],
            final(self).should_quit == old(self).should_quit,
            final(self).creature_index == old(self).creature_index,
            final(self).creature == old(self).creature,
            final(self).menu == old(self).menu,
            final(self).last_xp_tick_ms == old(self).last_xp_tick_ms,
    {
        self.on_selected(3);
    }

    /// The URL of the selected widget's entry under its cursor, if any.
    pub fn selected_url(&self) -> (r: Option<String>)
        requires
            self.wf(),
        ensures
            self.widgets@.len() == 0 ==> r.is_none(),
            self.widgets@.len() > 0 ==> crate::creature::opt_text(r)
                == crate::widgets::selected_url_text(self.widgets@[self.selected as int]),
    {
        if self.widgets.len() == 0 {
            return None;
        }
        self.widgets[self.selected].get_selected_url()
    }
}

/// Cycling forward then back, or back then forward, returns to the same widget,
/// and either step stays among the `n` widgets.
pub proof fn lemma_cycle_round_trip(s: int, n: int)
    requires
        0 <= s < n,
    ensures
        0 <= next_index(s, n) < n,
        0 <= prev_index(s, n) < n,
        prev_index(next_index(s, n), n) == s,
        next_index(prev_index(s, n), n) == s,
{
    if s + 1 < n {
        assert((s + 1) % n == s + 1) by (nonlinear_arith)
            requires 0 <= s + 1 < n;
    } else {
        assert((s + 1) % n == 0) by (nonlinear_arith)
            requires s + 1 == n, n > 0;
    }
    if s == 0 {
        assert((n - 1 + 1) % n == 0) by (nonlinear_arith)
            requires n > 0;
    } else {
        assert((s - 1 + 1) % n == s) by (nonlinear_arith)
            requires 0 <= s < n;
    }
}

/// Cycling forward `k` times moves `k` places modulo the widget count, so `n`
/// steps from any widget come back to it.
pub proof fn lemma_cycle_full_turn(s: int, n: int, k: nat)
    requires
        0 <= s < n,
        k <= n,
    ensures
        cycle_forward(s, n, k) == (s + k) % n,
        k == n ==> cycle_forward(s, n, k) == s,
    decreases k,
{
    if k == n {
        assert((s + n) % n == s) by (nonlinear_arith)
            requires 0 <= s < n;
    }
    if k > 0 {
        lemma_cycle_full_turn(s, n, (k - 1) as nat);
        let p = cycle_forward(s, n, (k - 1) as nat);
        assert((((s + k - 1) % n) + 1) % n == (s + k) % n) by (nonlinear_arith)
            requires n > 0;
    } else {
        assert(s % n == s) by (nonlinear_arith)
            requires 0 <= s < n;
    }
}

/// The slot reached from `s` after `k` forward steps among `n` widgets.
pub open spec fn cycle_forward(s: int, n: int, k: nat) -> int
    decreases k,
{
    if k == 0 {
        s
    } else {
        next_index(cycle_forward(s, n, (k - 1) as nat), n)
    }
}

/// A key press, as the terminal backend reports it.
#[derive(Clone, Copy, Debug, PartialEq, Eq, Structural)]
pub enum Key {
    Char(char),
    Ctrl(char),
    Tab,
    BackTab,
    Up,
    Down,
    Left,
    Right,
    Enter,
    Esc,
    Other,
}

/// An abstract control command.
#[derive(Clone, Copy, Debug, PartialEq, Eq, Structural)]
pub enum Command {
    Quit,
    Refresh,
    ToggleOverlay,
    NextWidget,
    PrevWidget,
    ScrollUp,
    ScrollDown,
    TabPrev,
    TabNext,
    Activate,
    Nothing,
}

/// What the control loop must do outside the dashboard after a command.
pub enum Effect {
    Continue,
    Quit,
    OpenUrl(String),
}

/// The key bindings. With the overlay open, Tab and Shift-Tab cycle its tabs, the
/// toggle key or Esc closes it, and Enter acts on its selection.
pub open spec fn key_command(overlay_open: bool, key: Key) -> Command {
    if overlay_open {
        match key {
            Key::Char('t') | Key::Esc => Command::ToggleOverlay,
            Key::Tab => Command::TabNext,
            Key::BackTab => Command::TabPrev,
            Key::Down | Key::Char('j') => Command::ScrollDown,
            Key::Up | Key::Char('k') => Command::ScrollUp,
            Key::Enter => Command::Activate,
            Key::Char('q') => Command::Quit,
            _ => Command::Nothing,
        }
    } else {
        match key {
            Key::Char('q') | Key::Ctrl('c') => Command::Quit,
            Key::Char('r') => Command::Refresh,
            Key::Char('t') => Command::ToggleOverlay,
            Key::Tab => Command::NextWidget,
            Key::BackTab => Command::PrevWidget,
            Key::Down | Key::Char('j') => Command::ScrollDown,
            Key::Up | Key::Char('k') => Command::ScrollUp,
            Key::Left | Key::Char('h') => Command::TabPrev,
            Key::Right | Key::Char('l') => Command::TabNext,
            Key::Enter => Command::Activate,
            _ => Command::Nothing,
        }
    }
}

/// The command a key gives in the current mode.
pub fn command_for_key(overlay_open: bool, key: Key) -> (r: Command)
    ensures
        r == key_command(overlay_open, key),
{
    if overlay_open {
        match key {
            Key::Char('t') | Key::Esc => Command::ToggleOverlay,
            Key::Tab => Command::TabNext,
            Key::BackTab => Command::TabPrev,
            Key::Down | Key::Char('j') => Command::ScrollDown,
            Key::Up | Key::Char('k') => Command::ScrollUp,
            Key::Enter => Command::Activate,
            Key::Char('q') => Command::Quit,
            _ => Command::Nothing,
        }
    } else {
        match key {
            Key::Char('q') | Key::Ctrl('c') => Command::Quit,
            Key::Char('r') => Command::Refresh,
            Key::Char('t') => Command::ToggleOverlay,
            Key::Tab => Command::NextWidget,
            Key::BackTab => Command::PrevWidget,
            Key::Down | Key::Char('j') => Command::ScrollDown,
            Key::Up | Key::Char('k') => Command::ScrollUp,
            Key::Left | Key::Char('h') => Command::TabPrev,
            Key::Right | Key::Char('l') => Command::TabNext,
            Key::Enter => Command::Activate,
            _ => Command::Nothing,
        }
    }
}


/// A command with the overlay open: it acts on the overlay and, for Enter, on the
/// companion; the grid, the selection and everything else stay as they were.
pub open spec fn overlay_applied(before: App, cmd: Command, after: App) -> bool {
    &&& after.widgets == before.widgets
    &&& after.selected == before.selected
    &&& after.should_quit == before.should_quit
    &&& after.creature_index == before.creature_index
    &&& after.last_xp_tick_ms == before.last_xp_tick_ms
    &&& match cmd {
        Command::ToggleOverlay => after.menu == (CreatureMenu {
            visible: !before.menu.visible,
            ..before.menu
        }) && after.creature == before.creature,
        Command::TabNext => after.menu == menu_after_next_tab(before.menu) && after.creature
            == before.creature,
        Command::TabPrev => after.menu == menu_after_prev_tab(before.menu) && after.creature
            == before.creature,
        Command::ScrollUp => after.menu == menu_after_scroll_up(before.menu) && after.creature
            == before.creature,
        Command::ScrollDown => after.creature == before.creature && if before.creature_index.is_some() {
            after.menu == menu_after_scroll_down(before.menu, before.creature)
        } else {
            after.menu == before.menu
        },
        Command::Activate => after.menu == before.menu && if before.creature_index.is_some() {
            exists|r: bool| select_effect(before.menu, before.creature, after.creature, r)
        } else {
            after.creature == before.creature
        },
        _ => after == before,
    }
}

/// A command with the overlay closed: it acts on the widget grid (or opens the
/// overlay); the companion and the overlay's state stay as they were.
pub open spec fn grid_applied(before: App, cmd: Command, after: App, e: Effect) -> bool {
    let n = before.widgets@.len();
    let s = before.selected as int;
    &&& after.should_quit == before.should_quit
    &&& after.creature == before.creature
    &&& after.creature_index == before.creature_index
    &&& after.last_xp_tick_ms == before.last_xp_tick_ms
    &&& after.widgets@.len() == n
    &&& match cmd {
        Command::ToggleOverlay => after == App {
            menu: CreatureMenu { visible: !before.menu.visible, ..before.menu },
            ..before
        },
        Command::NextWidget | Command::PrevWidget => {
            &&& after.menu == before.menu
            &&& n == 0 ==> after == before
            &&& n > 0 ==> after.selected == if cmd == Command::NextWidget {
                next_index(s, n as int)
            } else {
                prev_index(s, n as int)
            }
            &&& forall|j: int| 0 <= j < n ==> same_but_marks(before.widgets@[j], #[trigger] after.widgets@[j])
        },
        Command::ScrollUp | Command::ScrollDown | Command::TabPrev | Command::TabNext => {
            &&& after.menu == before.menu
            &&& after.selected == before.selected
            &&& n == 0 ==> after == before
            &&& n > 0 ==> after.widgets@[s] == selected_op(
                before.widgets@[s],
                if cmd == Command::ScrollUp {
                    0u8
                } else if cmd == Command::ScrollDown {
                    1u8
                } else if cmd == Command::TabPrev {
                    2u8
                } else {
                    3u8
                },
            )
            &&& forall|j: int| 0 <= j < n && j != s ==> #[trigger] after.widgets@[j] == before.widgets@[j]
        },
        Command::Activate => after == before && match e {
            Effect::OpenUrl(u) => n > 0 && crate::widgets::selected_url_text(before.widgets@[s])
                == Some(u@),
            Effect::Continue => n == 0 || crate::widgets::selected_url_text(
                before.widgets@[s],
            ).is_none(),
            Effect::Quit => false,
        },
        _ => after == before,
    }
}

/// What running `cmd` on `before` guarantees of `after` and of the effect `e`. Quit
/// is obeyed in either mode and changes nothing else.
pub open spec fn command_applied(before: App, cmd: Command, after: App, e: Effect) -> bool {
    &&& after.wf()
    &&& if cmd == Command::Quit {
        after == (App { should_quit: true, ..before }) && e is Quit
    } else if before.menu.visible {
        overlay_applied(before, cmd, after) && e is Continue
    } else {
        grid_applied(before, cmd, after, e) && (cmd != Command::Activate ==> e is Continue)
    }
}

impl App {
    /// Runs one command. Quit is obeyed in either mode. With the overlay open the
    /// command goes to the overlay (its scrolling and selection act on the companion
    /// only when a companion widget exists); otherwise to the widget grid. Refresh
    /// is a documented no-op: the feeds re-poll on their own schedule.
    pub fn apply_command(&mut self, cmd: Command) -> (e: Effect)
        requires
            old(self).wf(),
        ensures
            command_applied(*old(self), cmd, *final(self), e),
    {
        if let Command::Quit = cmd {
            self.should_quit = true;
            return Effect::Quit;
        }
        if self.menu.visible {
            match cmd {
                Command::ToggleOverlay => self.menu.toggle(),
                Command::TabNext => self.menu.next_tab(),
                Command::TabPrev => self.menu.prev_tab(),
                Command::ScrollDown => {
                    if self.creature_index.is_some() {
                        self.menu.scroll_down(&self.creature);
                    }
                },
                Command::ScrollUp => self.menu.scroll_up(),
                Command::Activate => {
                    if self.creature_index.is_some() {
                        let ghost before = self.creature;
                        let done = self.menu.select(&mut self.creature);
                        assert(select_effect(self.menu, before, self.creature, done));
                    }
                },
                _ => {},
            }
            Effect::Continue
        } else {
            match cmd {
                Command::ToggleOverlay => {
                    self.menu.toggle();
                    Effect::Continue
                },
                Command::NextWidget => {
                    self.next_widget();
                    Effect::Continue
                },
                Command::PrevWidget => {
                    self.prev_widget();
                    Effect::Continue
                },
                Command::ScrollDown => {
                    self.scroll_down();
                    Effect::Continue
                },
                Command::ScrollUp => {
                    self.scroll_up();
                    Effect::Continue
                },
                Command::TabPrev => {
                    self.switch_tab_prev();
                    Effect::Continue
                },
                Command::TabNext => {
                    self.switch_tab_next();
                    Effect::Continue
                },
                Command::Activate => match self.selected_url() {
                    Some(u) => Effect::OpenUrl(u),
                    None => Effect::Continue,
                },
                _ => Effect::Continue,
            }
        }
    }

    /// Handles one key press: the command it gives in the current mode, run.
    pub fn handle_key(&mut self, key: Key) -> (e: Effect)
        requires
            old(self).wf(),
        ensures
            final(self).wf(),
            command_applied(*old(self), key_command(old(self).menu.visible, key), *final(self), e),
    {
        let cmd = command_for_key(self.menu.visible, key);
        self.apply_command(cmd)
    }
}

/// Ten seconds passed since the last grant, and granting one more unit of
/// experience for them overflows no counter.
pub open spec fn grant_due(a: App, now_ms: u64) -> bool {
    &&& now_ms >= a.last_xp_tick_ms + 10000
    &&& a.creature.total_time_seconds + 10 <= u64::MAX
    &&& a.creature.experience + 1 <= u64::MAX
    &&& a.creature.points + points_through(
        a.creature.level as nat,
        level_after((a.creature.experience + 1) as nat, a.creature.level as nat),
    ) <= u32::MAX
}

impl App {
    /// One tick of the control loop at `now_ms`: advances the companion widget's
    /// animation, and once ten seconds passed since the last grant, counts ten
    /// seconds of session time and adds the experience they earn. A grant that
    /// would overflow a counter is skipped. Only the companion widget changes.
    pub fn tick_creature(&mut self, now_ms: u64)
        requires
            old(self).wf(),
        ensures
            final(self).wf(),
            old(self).creature_index.is_none() ==> *final(self) == *old(self),
            final(self).selected == old(self).selected,
            final(self).menu == old(self).menu,
            final(self).should_quit == old(self).should_quit,
            final(self).creature_index == old(self).creature_index,
            final(self).widgets@.len() == old(self).widgets@.len(),
            forall|j: int|
                0 <= j < old(self).widgets@.len() && match old(self).creature_index {
                    Some(c) => j != c,
                    None => true,
                } ==> #[trigger] final(self).widgets@[j] == old(self).widgets@[j],
            old(self).creature_index.is_some() ==> if grant_due(*old(self), now_ms) {
                &&& gained(
                    Creature {
                        total_time_seconds: (old(self).creature.total_time_seconds + 10) as u64,
                        ..old(self).creature
                    },
                    final(self).creature,
                    1,
                )
                &&& final(self).last_xp_tick_ms == now_ms
            } else {
                &&& final(self).creature == old(self).creature
                &&& final(self).last_xp_tick_ms == old(self).last_xp_tick_ms
            },
    {
        let idx = match self.creature_index {
            Some(i) => i,
            None => return,
        };
        let ghost ws = self.widgets@;
        assert(self.widgets@[idx as int].wf());
        match &mut self.widgets[idx].data {
            WidgetData::Creature(view) => view.tick(now_ms),
            _ => {},
        }
        proof {
            assert forall|j: int| 0 <= j < self.widgets@.len() implies (
            #[trigger] self.widgets@[j]).wf() && self.widgets@[j].selected == (j
                == self.selected) by {
                assert(ws[j].wf());
            }
        }
        if now_ms >= self.last_xp_tick_ms && now_ms - self.last_xp_tick_ms >= 10000
            && self.creature.total_time_seconds <= u64::MAX - 10 && self.creature.experience
            < u64::MAX {
            let gain = points_for_gain(self.creature.experience + 1, self.creature.level);
            if self.creature.points as u64 + gain <= u32::MAX as u64 {
                let xp = self.creature.tick_session(10);
                self.creature.add_experience(xp);
                self.last_xp_tick_ms = now_ms;
            }
        }
    }
}

/// The largest row and column any widget occupies, (0, 0) without widgets.
pub open spec fn grid_extent(ws: Seq<Widget>) -> (usize, usize)
    decreases ws.len(),
{
    if ws.len() == 0 {
        (0, 0)
    } else {
        let (r, c) = grid_extent(ws.drop_last());
        let p = crate::config::config_position(ws.last().config);
        (
            if p.row > r { p.row } else { r },
            if p.col > c { p.col } else { c },
        )
    }
}

impl App {
    /// The largest row and column in use; the grid has one more of each.
    pub fn calculate_grid_dimensions(&self) -> (r: (usize, usize))
        ensures
            r == grid_extent(self.widgets@),
    {
        let mut max_row: usize = 0;
        let mut max_col: usize = 0;
        let mut i: usize = 0;
        while i < self.widgets.len()
            invariant
                0 <= i <= self.widgets@.len(),
                (max_row, max_col) == grid_extent(self.widgets@.take(i as int)),
            decreases self.widgets.len() - i,
        {
            assert(self.widgets@.take(i as int + 1).drop_last() =~= self.widgets@.take(i as int));
            let (row, col) = self.widgets[i].position();
            if row > max_row {
                max_row = row;
            }
            if col > max_col {
                max_col = col;
            }
            i += 1;
        }
        assert(self.widgets@.take(i as int) =~= self.widgets@);
        (max_row, max_col)
    }
}

} // verus!
