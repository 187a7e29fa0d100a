use vstd::prelude::*;
use crate::messages::MsgType;

verus! {

/// Which records a tab shows.
#[derive(Clone, Copy, Debug, PartialEq, Eq, Structural)]
pub enum TabKind {
    All,
    Danmu,
    SuperChat,
    Gift,
    Captain,
    Enter,
}

/// Number of tabs in a tab set.
pub const TAB_COUNT: usize = 6;

/// Rows of a tab's area taken by its border.
pub const BORDER_ROWS: u16 = 2;

/// The kind of the tab at position `i` of a tab set.
pub open spec fn kind_at(i: int) -> TabKind {
    if i == 0 {
        TabKind::All
    } else if i == 1 {
        TabKind::Danmu
    } else if i == 2 {
        TabKind::SuperChat
    } else if i == 3 {
        TabKind::Gift
    } else if i == 4 {
        TabKind::Captain
    } else {
        TabKind::Enter
    }
}

/// Whether a tab of kind `kind` shows records of category `t`; the mixed feed
/// leaves viewer actions out.
pub open spec fn shows(kind: TabKind, t: MsgType) -> bool {
    match kind {
        TabKind::All => t != MsgType::UserAction,
        TabKind::Danmu => t == MsgType::Danmu,
        TabKind::SuperChat => t == MsgType::SuperChat,
        TabKind::Gift => t == MsgType::Gift,
        TabKind::Captain => t == MsgType::GuardBuy,
        TabKind::Enter => t == MsgType::UserAction,
    }
}

/// The records of `log` that a tab of kind `kind` shows, in log order.
pub open spec fn filtered(log: Seq<(MsgType, String)>, kind: TabKind) -> Seq<(MsgType, String)> {
    log.filter(|r: (MsgType, String)| shows(kind, r.0))
}

/// Rows of content that fit in an area `height` rows tall.
pub open spec fn visible_rows(height: int) -> int {
    if height >= BORDER_ROWS {
        height - BORDER_ROWS
    } else {
        0
    }
}

/// How far `rows` rows of content can be scrolled in an area `height` rows tall.
pub open spec fn content_len(rows: int, height: int) -> int {
    if rows > visible_rows(height) {
        rows - visible_rows(height)
    } else {
        0
    }
}

/// The offset that shows the last row of content at the bottom of the viewport.
pub open spec fn bottom_offset(rows: int, height: int) -> int {
    if content_len(rows, height) <= u16::MAX {
        content_len(rows, height)
    } else {
        u16::MAX as int
    }
}

pub open spec fn title_text(kind: TabKind) -> Seq<char> {
    match kind {
        TabKind::All => "全部"@,
        TabKind::Danmu => "弹幕"@,
        TabKind::SuperChat => " SC "@,
        TabKind::Gift => "礼物"@,
        TabKind::Captain => "上舰"@,
        TabKind::Enter => "入场"@,
    }
}

/// One category view over the event log, with its own scroll position.
/// `rows` is the row count seen by the last `follow`, which tells growth apart.
#[derive(Clone, Copy, Debug)]
pub struct Tab {
    pub kind: TabKind,
    pub scroll: u16,
    pub content_length: usize,
    pub viewport_content_length: usize,
    pub rows: usize,
}

impl Tab {
    /// The scroll offset never passes the end of the content.
    pub open spec fn wf(&self) -> bool {
        self.scroll <= self.content_length
    }

    pub open spec fn fresh(kind: TabKind) -> Tab {
        Tab { kind, scroll: 0, content_length: 0, viewport_content_length: 0, rows: 0 }
    }

    pub open spec fn scrolled_up(self) -> Tab {
        Tab { scroll: if self.scroll > 0 { (self.scroll - 1) as u16 } else { 0 }, ..self }
    }

    pub open spec fn scrolled_down(self) -> Tab {
        Tab {
            scroll: if self.scroll < self.content_length && self.scroll < u16::MAX {
                (self.scroll + 1) as u16
            } else {
                self.scroll
            },
            ..self
        }
    }

    pub open spec fn with_content_length(self, n: int) -> Tab {
        Tab {
            content_length: n as usize,
            scroll: if self.scroll <= n { self.scroll } else { n as u16 },
            ..self
        }
    }

    /// The tab after a render pass over `rows` rows in an area `height` rows
    /// tall: it snaps to the bottom when the content grew, and otherwise keeps
    /// its offset, clamped to the content.
    pub open spec fn followed(self, rows: int, height: int) -> Tab {
        let cl = content_len(rows, height);
        Tab {
            scroll: if rows > self.rows {
                bottom_offset(rows, height) as u16
            } else if self.scroll <= cl {
                self.scroll
            } else {
                cl as u16
            },
            content_length: cl as usize,
            viewport_content_length: visible_rows(height) as usize,
            rows: rows as usize,
            ..self
        }
    }

    pub fn new(kind: TabKind) -> (r: Tab)
        ensures
            r == Tab::fresh(kind),
            r.wf(),
    {
        Tab { kind, scroll: 0, content_length: 0, viewport_content_length: 0, rows: 0 }
    }

    pub fn title(&self) -> (r: String)
        ensures
            r@ == title_text(self.kind),
    {
        match self.kind {
            TabKind::All => String::from_str("全部"),
            TabKind::Danmu => String::from_str("弹幕"),
            TabKind::SuperChat => String::from_str(" SC "),
            TabKind::Gift => String::from_str("礼物"),
            TabKind::Captain => String::from_str("上舰"),
            TabKind::Enter => String::from_str("入场"),
        }
    }

    /// Whether this tab shows records of category `t`.
    pub fn shows(&self, t: MsgType) -> (r: bool)
        ensures
            r == shows(self.kind, t),
    {
        match self.kind {
            TabKind::All => t != MsgType::UserAction,
            TabKind::Danmu => t == MsgType::Danmu,
            TabKind::SuperChat => t == MsgType::SuperChat,
            TabKind::Gift => t == MsgType::Gift,
            TabKind::Captain => t == MsgType::GuardBuy,
            TabKind::Enter => t == MsgType::UserAction,
        }
    }

    /// Moves one row up, stopping at the top.
    pub fn scroll_up(&mut self)
        requires
            old(self).wf(),
        ensures
            *final(self) == old(self).scrolled_up(),
            final(self).wf(),
            old(self).scroll == 0 ==> *final(self) == *old(self),
    {
        if self.scroll > 0 {
            self.scroll = self.scroll - 1;
        }
    }

    /// Moves one row down, stopping at the end of the content.
    pub fn scroll_down(&mut self)
        requires
            old(self).wf(),
        ensures
            *final(self) == old(self).scrolled_down(),
            final(self).wf(),
            old(self).scroll == old(self).content_length ==> *final(self) == *old(self),
    {
        if (self.scroll as usize) < self.content_length && self.scroll < u16::MAX {
            self.scroll = self.scroll + 1;
        }
    }

    pub fn scroll(&self) -> (r: u16)
        ensures
            r == self.scroll,
    {
        self.scroll
    }

    /// Sets how far the content can be scrolled, pulling the offset back within it.
    pub fn set_state_content_length(&mut self, content_length: usize)
        ensures
            *final(self) == old(self).with_content_length(content_length as int),
            final(self).wf(),
    {
        self.content_length = content_length;
        if (self.scroll as usize) > content_length {
            self.scroll = content_length as u16;
        }
    }

    pub fn set_state_viewport_content_length(&mut self, viewport_content_length: usize)
        ensures
            *final(self) == (Tab { viewport_content_length, ..*old(self) }),
    {
        self.viewport_content_length = viewport_content_length;
    }

    /// Whether `rows` rows of content reach below the viewport of an area `height` rows tall.
    pub fn should_scroll_down(&self, rows: usize, height: u16) -> (r: bool)
        ensures
            r == (self.scroll + visible_rows(height as int) < rows),
    {
        let visible: usize = if height >= BORDER_ROWS {
            (height - BORDER_ROWS) as usize
        } else {
            0
        };
        (self.scroll as usize) < rows && visible < rows - self.scroll as usize
    }

    /// Whether the tab is scrolled although an area `height` rows tall holds all
    /// `content_length` rows.
    pub fn should_scroll_up(&self, height: u16, content_length: usize) -> (r: bool)
        ensures
            r == (self.scroll > 0 && height > content_length),
    {
        self.scroll > 0 && (height as usize) > content_length
    }

    /// The render pass's scroll bookkeeping for `rows` rows of content in an
    /// area `height` rows tall: when the content grew, advance row by row until
    /// the last row sits at the bottom of the viewport.
    pub fn follow(&mut self, rows: usize, height: u16)
        requires
            old(self).wf(),
        ensures
            *final(self) == old(self).followed(rows as int, height as int),
            final(self).wf(),
    {
        let visible: usize = if height >= BORDER_ROWS {
            (height - BORDER_ROWS) as usize
        } else {
            0
        };
        let cl: usize = if rows > visible {
            rows - visible
        } else {
            0
        };
        let grew = rows > self.rows;
        self.set_state_content_length(cl);
        self.set_state_viewport_content_length(visible);
        self.rows = rows;
        if grew {
            while self.should_scroll_down(rows, height) && self.scroll < u16::MAX
                invariant
                    self.wf(),
                    self.content_length == cl,
                    self.kind == old(self).kind,
                    self.viewport_content_length == visible,
                    self.rows == rows,
                    cl == content_len(rows as int, height as int),
                    visible == visible_rows(height as int),
                decreases cl - self.scroll,
            {
                self.scroll_down();
            }
        }
    }
}

/// A record-for-record copy of the records of `log` that a tab of kind `kind` shows.
pub fn filter_log(log: &Vec<(MsgType, String)>, kind: TabKind) -> (r: Vec<(MsgType, String)>)
    ensures
        r@ == filtered(log@, kind),
{
    let tab = Tab::new(kind);
    let mut r: Vec<(MsgType, String)> = Vec::new();
    let n = log.len();
    let mut i: usize = 0;
    while i < n
        invariant
            n == log@.len(),
            i <= n,
            tab.kind == kind,
            r@ == filtered(log@.take(i as int), kind),
        decreases n - i,
    {
        let ghost pred = |x: (MsgType, String)| shows(kind, x.0);
        proof {
            assert(log@.take(i + 1) =~= log@.take(i as int).push(log@[i as int]));
            log@.take(i as int).lemma_filter_push(log@[i as int], pred);
        }
        let t = log[i].0;
        if tab.shows(t) {
            let payload = log[i].1.clone();
            r.push((t, payload));
        }
        i = i + 1;
    }
    assert(log@.take(n as int) =~= log@);
    r
}

/// The six category views, exactly one of them selected.
#[derive(Clone, Debug)]
pub struct Tabs {
    pub tabs: Vec<Tab>,
    pub selected: usize,
}

impl Tabs {
    pub open spec fn wf(&self) -> bool {
        &&& self.tabs@.len() == TAB_COUNT
        &&& self.selected < TAB_COUNT
        &&& forall|i: int|
            0 <= i < TAB_COUNT ==> (#[trigger] self.tabs@[i]).kind == kind_at(i)
                && self.tabs@[i].wf()
    }

    /// The selected tab.
    pub open spec fn current(&self) -> Tab {
        self.tabs@[self.selected as int]
    }

    pub fn new() -> (r: Tabs)
        ensures
            r.wf(),
            r.selected == 0,
            forall|i: int| 0 <= i < TAB_COUNT ==> #[trigger] r.tabs@[i] == Tab::fresh(kind_at(i)),
    {
        let tabs = vec![
            Tab::new(TabKind::All),
            Tab::new(TabKind::Danmu),
            Tab::new(TabKind::SuperChat),
            Tab::new(TabKind::Gift),
            Tab::new(TabKind::Captain),
            Tab::new(TabKind::Enter),
        ];
        Tabs { tabs, selected: 0 }
    }
    /// Selects the next tab, wrapping from the last to the first.
    pub fn next_tab(&mut self)
        requires
            old(self).wf(),
        ensures
            final(self).wf(),
            final(self).tabs == old(self).tabs,
            final(self).selected == (old(self).selected + 1) % (TAB_COUNT as int),
    {
        if self.selected + 1 < self.tabs.len() {
            self.selected = self.selected + 1;
        } else {
            self.selected = 0;
        }
    }

    /// Selects the previous tab, wrapping from the first to the last.
    pub fn previous_tab(&mut self)
        requires
            old(self).wf(),
        ensures
            final(self).wf(),
            final(self).tabs == old(self).tabs,
            final(self).selected == (old(self).selected + TAB_COUNT - 1) % (TAB_COUNT as int),
    {
        if self.selected > 0 {
            self.selected = self.selected - 1;
        } else {
            self.selected = self.tabs.len() - 1;
        }
    }

    /// The selected tab.
    pub fn selected_tab(&self) -> (r: Tab)
        requires
            self.wf(),
        ensures
            r == self.current(),
    {
        self.tabs[self.selected]
    }

    fn replace_current(&mut self, t: Tab)
        requires
            old(self).wf(),
            t.kind == old(self).current().kind,
            t.wf(),
        ensures
            final(self).wf(),
            final(self).selected == old(self).selected,
            final(self).tabs@ == old(self).tabs@.update(old(self).selected as int, t),
    {
        let i = self.selected;
        self.tabs.set(i, t);
    }

    /// Scrolls the selected tab one row up.
    pub fn scroll_up(&mut self)
        requires
            old(self).wf(),
        ensures
            final(self).wf(),
            final(self).selected == old(self).selected,
            final(self).tabs@ == old(self).tabs@.update(
                old(self).selected as int,
                old(self).current().scrolled_up(),
            ),
    {
        let mut t = self.selected_tab();
        t.scroll_up();
        self.replace_current(t);
    }

    /// Scrolls the selected tab one row down.
    pub fn scroll_down(&mut self)
        requires
            old(self).wf(),
        ensures
            final(self).wf(),
            final(self).selected == old(self).selected,
            final(self).tabs@ == old(self).tabs@.update(
                old(self).selected as int,
                old(self).current().scrolled_down(),
            ),
    {
        let mut t = self.selected_tab();
        t.scroll_down();
        self.replace_current(t);
    }

    /// A render pass over the selected tab: returns the records of `log` it
    /// shows and brings its scroll bookkeeping up to date for an area
    /// `height` rows tall.
    pub fn show_selected(&mut self, log: &Vec<(MsgType, String)>, height: u16) -> (shown: Vec<
        (MsgType, String),
    >)
        requires
            old(self).wf(),
        ensures
            final(self).wf(),
            shown@ == filtered(log@, old(self).current().kind),
            final(self).selected == old(self).selected,
            final(self).tabs@ == old(self).tabs@.update(
                old(self).selected as int,
                old(self).current().followed(shown@.len() as int, height as int),
            ),
    {
        let mut t = self.selected_tab();
        let shown = filter_log(log, t.kind);
        t.follow(shown.len(), height);
        self.replace_current(t);
        shown
    }
}

impl Default for Tabs {
    fn default() -> (r: Tabs)
        ensures
            r.wf(),
            r.selected == 0,
            forall|i: int| 0 <= i < TAB_COUNT ==> #[trigger] r.tabs@[i] == Tab::fresh(kind_at(i)),
    {
        Tabs::new()
    }
}

/// Appending a record to the log appends it to a tab's content exactly when
/// the tab shows its category, and the content of a log built in two parts is
/// the content of the first part followed by that of the second; the mixed
/// feed holds no viewer action.
pub proof fn lemma_filtered_appends(
    log: Seq<(MsgType, String)>,
    more: Seq<(MsgType, String)>,
    r: (MsgType, String),
    kind: TabKind,
)
    ensures
        filtered(log.push(r), kind) == if shows(kind, r.0) {
            filtered(log, kind).push(r)
        } else {
            filtered(log, kind)
        },
        filtered(log + more, kind) == filtered(log, kind) + filtered(more, kind),
        forall|i: int|
            0 <= i < filtered(log, TabKind::All).len() ==> (#[trigger] filtered(
                log,
                TabKind::All,
            )[i]).0 != MsgType::UserAction,
{
    let pred = |x: (MsgType, String)| shows(kind, x.0);
    log.lemma_filter_push(r, pred);
    Seq::filter_distributes_over_add(log, more, pred);
    let all = |x: (MsgType, String)| shows(TabKind::All, x.0);
    assert forall|i: int| 0 <= i < filtered(log, TabKind::All).len() implies (#[trigger] filtered(
        log,
        TabKind::All,
    )[i]).0 != MsgType::UserAction by {
        log.lemma_filter_pred(all, i);
    }
}

/// Auto-follow: after records that a tab shows are appended to the log the
/// tab was last rendered from, the next render pass puts the last row at the
/// bottom of the viewport, and a further pass with nothing new changes nothing.
pub proof fn lemma_follow_catches_up(
    tab: Tab,
    log: Seq<(MsgType, String)>,
    more: Seq<(MsgType, String)>,
    height: int,
)
    requires
        tab.wf(),
        tab.rows == filtered(log, tab.kind).len(),
        exists|i: int| 0 <= i < more.len() && shows(tab.kind, #[trigger] more[i].0),
        filtered(log + more, tab.kind).len() <= usize::MAX,
        0 <= height <= u16::MAX,
    ensures
        ({
            let rows = filtered(log + more, tab.kind).len() as int;
            let t = tab.followed(rows, height);
            &&& rows > tab.rows
            &&& t.scroll == bottom_offset(rows, height)
            &&& rows > visible_rows(height) && content_len(rows, height) <= u16::MAX ==> t.scroll
                + visible_rows(height) == rows
            &&& t.wf()
            &&& t.followed(rows, height) == t
        }),
{
    let pred = |x: (MsgType, String)| shows(tab.kind, x.0);
    Seq::filter_distributes_over_add(log, more, pred);
    let i = choose|i: int| 0 <= i < more.len() && shows(tab.kind, #[trigger] more[i].0);
    more.lemma_filter_contains(pred, i);
}

} // verus!
