use vstd::prelude::*;

use crate::config::{
    GithubConfig, HackernewsConfig, RssConfig, SportsConfig, SpotifyConfig, StocksConfig,
    WidgetConfig, YoutubeConfig,
};
use crate::creature::{ids, opt_text};
use crate::feeds::{
    is_idle_playback,
    FeedData, GithubDashboard, HnStory, RssItem, SpotifyPlayback, SportsEvent, StockQuote,
    YoutubeVideo,
};
use crate::reader::SelectedItem;
use crate::text::{decimal_text, push_decimal};

verus! {

/// The closed set of widget kinds.
#[derive(Clone, Copy, Debug, PartialEq, Eq, Structural)]
pub enum WidgetKind {
    Hackernews,
    Stocks,
    Rss,
    Sports,
    Github,
    Youtube,
    Spotify,
    Creature,
}

/// The lists a repository-activity widget can show.
#[derive(Clone, Copy, Debug, PartialEq, Eq, Structural)]
pub enum GithubTab {
    Notifications,
    PullRequests,
    Commits,
}

/// The animation state of the companion widget; the companion itself is owned by
/// the dashboard. Times are milliseconds on the control loop's clock.
pub struct CompanionAnimation {
    pub animation_frame: usize,
    pub last_frame_ms: u64,
    pub show_greeting: bool,
    pub greeting_since_ms: Option<u64>,
}

/// Per-kind display state.
pub enum WidgetData {
    Hackernews(Vec<HnStory>),
    Stocks(Vec<StockQuote>),
    Rss(Vec<RssItem>),
    Sports(Vec<SportsEvent>),
    Github(GithubDashboard),
    Youtube(Vec<YoutubeVideo>),
    Spotify(SpotifyPlayback),
    Creature(CompanionAnimation),
}

/// What a widget's background fetcher polls, one variant per kind.
#[derive(Clone, Debug)]
pub enum FeedSource {
    Hackernews(HackernewsConfig),
    Stocks(StocksConfig),
    Rss(RssConfig),
    Sports(SportsConfig),
    Github(GithubConfig),
    Youtube(YoutubeConfig),
    Spotify(SpotifyConfig),
    Creature,
}

/// One unit of the dashboard grid.
pub struct Widget {
    pub config: WidgetConfig,
    pub data: WidgetData,
    pub loading: bool,
    pub error: Option<String>,
    pub cursor: usize,
    pub github_tab: GithubTab,
    pub selected: bool,
}

pub open spec fn config_kind(c: WidgetConfig) -> WidgetKind {
    match c {
        WidgetConfig::Stocks(_) => WidgetKind::Stocks,
        WidgetConfig::Hackernews(_) => WidgetKind::Hackernews,
        WidgetConfig::Sports(_) => WidgetKind::Sports,
        WidgetConfig::Rss(_) => WidgetKind::Rss,
        WidgetConfig::Github(_) => WidgetKind::Github,
        WidgetConfig::Youtube(_) => WidgetKind::Youtube,
        WidgetConfig::Spotify(_) => WidgetKind::Spotify,
        WidgetConfig::Creature(_) => WidgetKind::Creature,
    }
}

pub open spec fn data_kind(d: WidgetData) -> WidgetKind {
    match d {
        WidgetData::Hackernews(_) => WidgetKind::Hackernews,
        WidgetData::Stocks(_) => WidgetKind::Stocks,
        WidgetData::Rss(_) => WidgetKind::Rss,
        WidgetData::Sports(_) => WidgetKind::Sports,
        WidgetData::Github(_) => WidgetKind::Github,
        WidgetData::Youtube(_) => WidgetKind::Youtube,
        WidgetData::Spotify(_) => WidgetKind::Spotify,
        WidgetData::Creature(_) => WidgetKind::Creature,
    }
}

/// The kind a payload is tagged with; none for the loading and error payloads.
pub open spec fn payload_kind(d: FeedData) -> Option<WidgetKind> {
    match d {
        FeedData::HackerNews(_) => Some(WidgetKind::Hackernews),
        FeedData::Stocks(_) => Some(WidgetKind::Stocks),
        FeedData::Rss(_) => Some(WidgetKind::Rss),
        FeedData::Sports(_) => Some(WidgetKind::Sports),
        FeedData::Github(_) => Some(WidgetKind::Github),
        FeedData::Youtube(_) => Some(WidgetKind::Youtube),
        FeedData::Spotify(_) => Some(WidgetKind::Spotify),
        FeedData::Loading => None,
        FeedData::Error(_) => None,
    }
}

pub open spec fn kind_prefix(k: WidgetKind) -> Seq<char> {
    match k {
        WidgetKind::Hackernews => "hackernews"@,
        WidgetKind::Stocks => "stocks"@,
        WidgetKind::Rss => "rss"@,
        WidgetKind::Sports => "sports"@,
        WidgetKind::Github => "github"@,
        WidgetKind::Youtube => "youtube"@,
        WidgetKind::Spotify => "spotify"@,
        WidgetKind::Creature => "creature"@,
    }
}

pub open spec fn config_row(c: WidgetConfig) -> usize {
    crate::config::config_position(c).row
}

pub open spec fn config_col(c: WidgetConfig) -> usize {
    crate::config::config_position(c).col
}

pub open spec fn config_title(c: WidgetConfig) -> Seq<char> {
    match c {
        WidgetConfig::Stocks(x) => x.title@,
        WidgetConfig::Hackernews(x) => x.title@,
        WidgetConfig::Sports(x) => x.title@,
        WidgetConfig::Rss(x) => x.title@,
        WidgetConfig::Github(x) => x.title@,
        WidgetConfig::Youtube(x) => x.title@,
        WidgetConfig::Spotify(x) => x.title@,
        WidgetConfig::Creature(x) => x.title@,
    }
}

/// A widget's identity: its kind and grid position ("rss-1-2").
pub open spec fn widget_id_text(c: WidgetConfig) -> Seq<char> {
    kind_prefix(config_kind(c)) + "-"@ + decimal_text(config_row(c) as nat) + "-"@
        + decimal_text(config_col(c) as nat)
}

proof fn lemma_decimal_shape(n: nat)
    ensures
        decimal_text(n).len() >= 1,
        n < 10 <==> decimal_text(n).len() == 1,
        forall|i: int| 0 <= i < decimal_text(n).len() ==> '0' <= #[trigger] decimal_text(n)[i] <= '9',
    decreases n,
{
    reveal_strlit("0");
    reveal_strlit("1");
    reveal_strlit("2");
    reveal_strlit("3");
    reveal_strlit("4");
    reveal_strlit("5");
    reveal_strlit("6");
    reveal_strlit("7");
    reveal_strlit("8");
    reveal_strlit("9");
    if n >= 10 {
        lemma_decimal_shape(n / 10);
        let a = decimal_text(n / 10);
        let b = crate::text::digit_text(n % 10);
        assert(decimal_text(n) == a + b);
        assert forall|i: int| 0 <= i < decimal_text(n).len() implies '0' <= #[trigger] decimal_text(
            n,
        )[i] <= '9' by {
            if i >= a.len() {
                assert(decimal_text(n)[i] == b[i - a.len()]);
            } else {
                assert(decimal_text(n)[i] == a[i]);
            }
        }
    }
}

proof fn lemma_digit_injective(d: nat, e: nat)
    requires
        d < 10,
        e < 10,
        crate::text::digit_text(d)[0] == crate::text::digit_text(e)[0],
    ensures
        d == e,
{
    reveal_strlit("0");
    reveal_strlit("1");
    reveal_strlit("2");
    reveal_strlit("3");
    reveal_strlit("4");
    reveal_strlit("5");
    reveal_strlit("6");
    reveal_strlit("7");
    reveal_strlit("8");
    reveal_strlit("9");
}

proof fn lemma_decimal_injective(n: nat, m: nat)
    requires
        decimal_text(n) == decimal_text(m),
    ensures
        n == m,
    decreases n,
{
    reveal_strlit("0");
    reveal_strlit("1");
    reveal_strlit("2");
    reveal_strlit("3");
    reveal_strlit("4");
    reveal_strlit("5");
    reveal_strlit("6");
    reveal_strlit("7");
    reveal_strlit("8");
    reveal_strlit("9");
    lemma_decimal_shape(n);
    lemma_decimal_shape(m);
    if n >= 10 {
        let a = decimal_text(n / 10);
        let b = decimal_text(m / 10);
        lemma_decimal_shape(n / 10);
        lemma_decimal_shape(m / 10);
        assert(decimal_text(n) == a + crate::text::digit_text(n % 10));
        assert(decimal_text(m) == b + crate::text::digit_text(m % 10));
        assert(a =~= decimal_text(n).drop_last());
        assert(b =~= decimal_text(m).drop_last());
        assert(decimal_text(n).last() == crate::text::digit_text(n % 10)[0]);
        assert(decimal_text(m).last() == crate::text::digit_text(m % 10)[0]);
        lemma_digit_injective(n % 10, m % 10);
        lemma_decimal_injective(n / 10, m / 10);
    } else {
        assert(decimal_text(n)[0] == decimal_text(m)[0]);
        lemma_digit_injective(n, m);
    }
}

/// Without '-' characters.
pub open spec fn no_dash(s: Seq<char>) -> bool {
    forall|i: int| 0 <= i < s.len() ==> #[trigger] s[i] != '-'
}

proof fn lemma_split_at_dash(x1: Seq<char>, y1: Seq<char>, x2: Seq<char>, y2: Seq<char>)
    requires
        no_dash(x1),
        no_dash(x2),
        x1 + "-"@ + y1 == x2 + "-"@ + y2,
    ensures
        x1 == x2,
        y1 == y2,
{
    reveal_strlit("-");
    let s = x1 + "-"@ + y1;
    if x1.len() < x2.len() {
        assert(s[x1.len() as int] == '-');
        assert((x2 + "-"@ + y2)[x1.len() as int] == x2[x1.len() as int]);
    } else if x2.len() < x1.len() {
        assert(s[x2.len() as int] == x1[x2.len() as int]);
        assert((x2 + "-"@ + y2)[x2.len() as int] == '-');
    } else {
        assert(x1 =~= s.subrange(0, x1.len() as int));
        assert(x2 =~= (x2 + "-"@ + y2).subrange(0, x2.len() as int));
        assert(y1 =~= s.subrange(x1.len() as int + 1, s.len() as int));
        assert(y2 =~= (x2 + "-"@ + y2).subrange(x2.len() as int + 1, s.len() as int));
    }
}

proof fn lemma_prefixes(k: WidgetKind, l: WidgetKind)
    ensures
        no_dash(kind_prefix(k)),
        kind_prefix(k) == kind_prefix(l) ==> k == l,
{
    reveal_strlit("hackernews");
    reveal_strlit("stocks");
    reveal_strlit("rss");
    reveal_strlit("sports");
    reveal_strlit("github");
    reveal_strlit("youtube");
    reveal_strlit("spotify");
    reveal_strlit("creature");
    if kind_prefix(k) == kind_prefix(l) && k != l {
        assert(kind_prefix(k).len() == kind_prefix(l).len());
        assert(kind_prefix(k)[1] == kind_prefix(l)[1]);
        assert(kind_prefix(k)[2] == kind_prefix(l)[2]);
    }
}

/// Widgets of different kinds, or at different grid cells, have different
/// identities.
pub proof fn lemma_identity_unique(a: WidgetConfig, b: WidgetConfig)
    requires
        config_kind(a) != config_kind(b) || config_row(a) != config_row(b) || config_col(a)
            != config_col(b),
    ensures
        widget_id_text(a) != widget_id_text(b),
{
    if widget_id_text(a) == widget_id_text(b) {
        let ra = decimal_text(config_row(a) as nat);
        let rb = decimal_text(config_row(b) as nat);
        let ca = decimal_text(config_col(a) as nat);
        let cb = decimal_text(config_col(b) as nat);
        lemma_prefixes(config_kind(a), config_kind(b));
        lemma_prefixes(config_kind(b), config_kind(a));
        lemma_decimal_shape(config_row(a) as nat);
        lemma_decimal_shape(config_row(b) as nat);
        assert(no_dash(ra));
        assert(no_dash(rb));
        assert(widget_id_text(a) == kind_prefix(config_kind(a)) + "-"@ + (ra + "-"@ + ca));
        assert(widget_id_text(b) == kind_prefix(config_kind(b)) + "-"@ + (rb + "-"@ + cb));
        lemma_split_at_dash(kind_prefix(config_kind(a)), ra + "-"@ + ca, kind_prefix(config_kind(b)), rb + "-"@ + cb);
        lemma_split_at_dash(ra, ca, rb, cb);
        lemma_decimal_injective(config_row(a) as nat, config_row(b) as nat);
        lemma_decimal_injective(config_col(a) as nat, config_col(b) as nat);
    }
}

/// The tabs a repository-activity widget shows, in order.
pub open spec fn github_tabs(c: GithubConfig) -> Seq<GithubTab> {
    let a = if c.show_notifications {
        seq![GithubTab::Notifications]
    } else {
        seq![]
    };
    let b = if c.show_pull_requests {
        a.push(GithubTab::PullRequests)
    } else {
        a
    };
    if c.show_commits {
        b.push(GithubTab::Commits)
    } else {
        b
    }
}

/// Number of entries in the list a widget currently shows.
pub open spec fn item_count(w: Widget) -> nat {
    match w.data {
        WidgetData::Hackernews(v) => v@.len(),
        WidgetData::Stocks(v) => v@.len(),
        WidgetData::Rss(v) => v@.len(),
        WidgetData::Sports(v) => v@.len(),
        WidgetData::Youtube(v) => v@.len(),
        WidgetData::Github(d) => match w.github_tab {
            GithubTab::Notifications => d.notifications@.len(),
            GithubTab::PullRequests => d.pull_requests@.len(),
            GithubTab::Commits => d.commits@.len(),
        },
        WidgetData::Spotify(_) => 0,
        WidgetData::Creature(_) => 0,
    }
}

impl Widget {
    /// The display state matches the configured kind.
    pub open spec fn wf(&self) -> bool {
        data_kind(self.data) == config_kind(self.config)
    }

    pub open spec fn kind(&self) -> WidgetKind {
        config_kind(self.config)
    }

    /// A widget built from its configuration: empty, loading, cursor on the first
    /// entry, not selected.
    pub fn new(config: WidgetConfig, now_ms: u64) -> (r: Widget)
        ensures
            r.wf(),
            r.config == config,
            r.loading == !(config is Creature),
            r.error.is_none(),
            r.cursor == 0,
            !r.selected,
            item_count(r) == 0,
            config matches WidgetConfig::Github(c) ==> r.github_tab == if github_tabs(c).len() > 0 {
                github_tabs(c)[0]
            } else {
                GithubTab::Notifications
            },
            config is Spotify ==> (r.data matches WidgetData::Spotify(p) && is_idle_playback(p)),
            config is Creature ==> r.data == WidgetData::Creature(
                CompanionAnimation {
                    animation_frame: 0,
                    last_frame_ms: now_ms,
                    show_greeting: true,
                    greeting_since_ms: Some(now_ms),
                },
            ),
    {
        let mut tab = GithubTab::Notifications;
        let data = match &config {
            WidgetConfig::Stocks(_) => WidgetData::Stocks(Vec::new()),
            WidgetConfig::Hackernews(_) => WidgetData::Hackernews(Vec::new()),
            WidgetConfig::Sports(_) => WidgetData::Sports(Vec::new()),
            WidgetConfig::Rss(_) => WidgetData::Rss(Vec::new()),
            WidgetConfig::Github(c) => {
                tab = if c.show_notifications {
                    GithubTab::Notifications
                } else if c.show_pull_requests {
                    GithubTab::PullRequests
                } else if c.show_commits {
                    GithubTab::Commits
                } else {
                    GithubTab::Notifications
                };
                WidgetData::Github(GithubDashboard::empty())
            },
            WidgetConfig::Youtube(_) => WidgetData::Youtube(Vec::new()),
            WidgetConfig::Spotify(_) => WidgetData::Spotify(SpotifyPlayback::idle()),
            WidgetConfig::Creature(_) => WidgetData::Creature(
                CompanionAnimation {
                    animation_frame: 0,
                    last_frame_ms: now_ms,
                    show_greeting: true,
                    greeting_since_ms: Some(now_ms),
                },
            ),
        };
        let loading = match &config {
            WidgetConfig::Creature(_) => false,
            _ => true,
        };
        Widget { config, data, loading, error: None, cursor: 0, github_tab: tab, selected: false }
    }

    /// The widget's identity, derived from kind and grid position.
    pub fn id(&self) -> (r: String)
        ensures
            r@ == widget_id_text(self.config),
    {
        let (prefix, pos) = match &self.config {
            WidgetConfig::Spotify(c) => ("spotify-", c.position),
            WidgetConfig::Stocks(c) => ("stocks-", c.position),
            WidgetConfig::Hackernews(c) => ("hackernews-", c.position),
            WidgetConfig::Sports(c) => ("sports-", c.position),
            WidgetConfig::Rss(c) => ("rss-", c.position),
            WidgetConfig::Github(c) => ("github-", c.position),
            WidgetConfig::Youtube(c) => ("youtube-", c.position),
            WidgetConfig::Creature(c) => ("creature-", c.position),
        };
        proof {
            reveal_strlit("stocks-");
            reveal_strlit("stocks");
            reveal_strlit("hackernews-");
            reveal_strlit("hackernews");
            reveal_strlit("sports-");
            reveal_strlit("sports");
            reveal_strlit("rss-");
            reveal_strlit("rss");
            reveal_strlit("github-");
            reveal_strlit("github");
            reveal_strlit("youtube-");
            reveal_strlit("youtube");
            reveal_strlit("spotify-");
            reveal_strlit("spotify");
            reveal_strlit("creature-");
            reveal_strlit("creature");
            reveal_strlit("-");
        }
        let mut s = prefix.to_owned();
        push_decimal(&mut s, pos.row as u64);
        s.append("-");
        push_decimal(&mut s, pos.col as u64);
        assert(s@ =~= widget_id_text(self.config));
        s
    }

    /// Grid position as (row, column).
    pub fn position(&self) -> (r: (usize, usize))
        ensures
            r == (config_row(self.config), config_col(self.config)),
    {
        match &self.config {
            WidgetConfig::Stocks(c) => (c.position.row, c.position.col),
            WidgetConfig::Hackernews(c) => (c.position.row, c.position.col),
            WidgetConfig::Sports(c) => (c.position.row, c.position.col),
            WidgetConfig::Rss(c) => (c.position.row, c.position.col),
            WidgetConfig::Github(c) => (c.position.row, c.position.col),
            WidgetConfig::Youtube(c) => (c.position.row, c.position.col),
            WidgetConfig::Spotify(c) => (c.position.row, c.position.col),
            WidgetConfig::Creature(c) => (c.position.row, c.position.col),
        }
    }

    pub fn title(&self) -> (r: &String)
        ensures
            r@ == config_title(self.config),
    {
        match &self.config {
            WidgetConfig::Stocks(c) => &c.title,
            WidgetConfig::Hackernews(c) => &c.title,
            WidgetConfig::Sports(c) => &c.title,
            WidgetConfig::Rss(c) => &c.title,
            WidgetConfig::Github(c) => &c.title,
            WidgetConfig::Youtube(c) => &c.title,
            WidgetConfig::Spotify(c) => &c.title,
            WidgetConfig::Creature(c) => &c.title,
        }
    }

    /// Sets the highlight used by rendering; the data is untouched.
    pub fn set_selected(&mut self, selected: bool)
        ensures
            final(self).selected == selected,
            final(self).config == old(self).config,
            final(self).data == old(self).data,
            final(self).loading == old(self).loading,
            final(self).error == old(self).error,
            final(self).cursor == old(self).cursor,
            final(self).github_tab == old(self).github_tab,
    {
        self.selected = selected;
    }
}

pub open spec fn source_kind(s: FeedSource) -> WidgetKind {
    match s {
        FeedSource::Stocks(_) => WidgetKind::Stocks,
        FeedSource::Hackernews(_) => WidgetKind::Hackernews,
        FeedSource::Sports(_) => WidgetKind::Sports,
        FeedSource::Rss(_) => WidgetKind::Rss,
        FeedSource::Github(_) => WidgetKind::Github,
        FeedSource::Youtube(_) => WidgetKind::Youtube,
        FeedSource::Spotify(_) => WidgetKind::Spotify,
        FeedSource::Creature => WidgetKind::Creature,
    }
}

/// Source `s` carries the settings of configuration `c`, field by field.
pub open spec fn source_settings(s: FeedSource, c: WidgetConfig) -> bool {
    match (s, c) {
        (FeedSource::Stocks(d), WidgetConfig::Stocks(c)) => d.title@ == c.title@ && ids(d.symbols@)
            == ids(c.symbols@) && d.position == c.position,
        (FeedSource::Hackernews(d), WidgetConfig::Hackernews(c)) => d.title@ == c.title@
            && d.story_count == c.story_count && d.story_type@ == c.story_type@ && d.position
            == c.position,
        (FeedSource::Sports(d), WidgetConfig::Sports(c)) => d.title@ == c.title@ && ids(d.leagues@)
            == ids(c.leagues@) && d.position == c.position,
        (FeedSource::Rss(d), WidgetConfig::Rss(c)) => d.title@ == c.title@ && ids(d.feeds@) == ids(
            c.feeds@,
        ) && d.max_items == c.max_items && d.position == c.position,
        (FeedSource::Github(d), WidgetConfig::Github(c)) => {
            &&& d.title@ == c.title@
            &&& d.token@ == c.token@
            &&& d.username@ == c.username@
            &&& d.show_notifications == c.show_notifications
            &&& d.show_pull_requests == c.show_pull_requests
            &&& d.show_commits == c.show_commits
            &&& d.max_notifications == c.max_notifications
            &&& d.max_pull_requests == c.max_pull_requests
            &&& d.max_commits == c.max_commits
            &&& d.position == c.position
        },
        (FeedSource::Youtube(d), WidgetConfig::Youtube(c)) => {
            &&& d.title@ == c.title@
            &&& d.api_key@ == c.api_key@
            &&& ids(d.channels@) == ids(c.channels@)
            &&& opt_text(d.search_query) == opt_text(c.search_query)
            &&& d.max_videos == c.max_videos
            &&& d.position == c.position
        },
        (FeedSource::Spotify(d), WidgetConfig::Spotify(c)) => {
            &&& d.title@ == c.title@
            &&& d.client_id@ == c.client_id@
            &&& d.client_secret@ == c.client_secret@
            &&& d.refresh_token@ == c.refresh_token@
            &&& d.position == c.position
        },
        (FeedSource::Creature, WidgetConfig::Creature(_)) => true,
        _ => false,
    }
}

fn copy_strings(v: &Vec<String>) -> (r: Vec<String>)
    ensures
        ids(r@) == ids(v@),
{
    let mut r: Vec<String> = Vec::new();
    let mut i: usize = 0;
    while i < v.len()
        invariant
            0 <= i <= v@.len(),
            r@.len() == i,
            forall|j: int| 0 <= j < i ==> (#[trigger] r@[j])@ == v@[j]@,
        decreases v.len() - i,
    {
        r.push(v[i].clone());
        i += 1;
    }
    assert(ids(r@) =~= ids(v@));
    r
}

/// The display state a tagged payload carries.
pub open spec fn payload_data(d: FeedData) -> WidgetData
    recommends
        payload_kind(d).is_some(),
{
    match d {
        FeedData::HackerNews(v) => WidgetData::Hackernews(v),
        FeedData::Stocks(v) => WidgetData::Stocks(v),
        FeedData::Rss(v) => WidgetData::Rss(v),
        FeedData::Sports(v) => WidgetData::Sports(v),
        FeedData::Github(v) => WidgetData::Github(v),
        FeedData::Youtube(v) => WidgetData::Youtube(v),
        FeedData::Spotify(v) => WidgetData::Spotify(v),
        _ => arbitrary(),
    }
}

/// Whether applying payload `d` to `before` gives `after`. The companion widget
/// takes no payloads. A payload tagged with another kind is a no-op. Loading
/// marks the widget loading; an error is recorded and ends loading; a payload of
/// the widget's own kind replaces the data and clears loading and error.
pub open spec fn applied(before: Widget, d: FeedData, after: Widget) -> bool {
    if before.kind() == WidgetKind::Creature {
        after == before
    } else {
        match d {
            FeedData::Loading => after == Widget { loading: true, ..before },
            FeedData::Error(e) => after == Widget { loading: false, error: Some(e), ..before },
            _ => if payload_kind(d) == Some(before.kind()) {
                after == Widget { loading: false, error: None, data: payload_data(d), ..before }
            } else {
                after == before
            },
        }
    }
}

impl Widget {
    /// Applies a fetch payload; see `applied`.
    pub fn update_data(&mut self, d: FeedData)
        requires
            old(self).wf(),
        ensures
            applied(*old(self), d, *final(self)),
            final(self).wf(),
    {
        if let WidgetConfig::Creature(_) = &self.config {
            return;
        }
        match d {
            FeedData::Loading => {
                self.loading = true;
            },
            FeedData::Error(e) => {
                self.loading = false;
                self.error = Some(e);
            },
            FeedData::HackerNews(v) => {
                if let WidgetData::Hackernews(_) = &self.data {
                    self.data = WidgetData::Hackernews(v);
                    self.loading = false;
                    self.error = None;
                }
            },
            FeedData::Stocks(v) => {
                if let WidgetData::Stocks(_) = &self.data {
                    self.data = WidgetData::Stocks(v);
                    self.loading = false;
                    self.error = None;
                }
            },
            FeedData::Rss(v) => {
                if let WidgetData::Rss(_) = &self.data {
                    self.data = WidgetData::Rss(v);
                    self.loading = false;
                    self.error = None;
                }
            },
            FeedData::Sports(v) => {
                if let WidgetData::Sports(_) = &self.data {
                    self.data = WidgetData::Sports(v);
                    self.loading = false;
                    self.error = None;
                }
            },
            FeedData::Github(v) => {
                if let WidgetData::Github(_) = &self.data {
                    self.data = WidgetData::Github(v);
                    self.loading = false;
                    self.error = None;
                }
            },
            FeedData::Youtube(v) => {
                if let WidgetData::Youtube(_) = &self.data {
                    self.data = WidgetData::Youtube(v);
                    self.loading = false;
                    self.error = None;
                }
            },
            FeedData::Spotify(v) => {
                if let WidgetData::Spotify(_) = &self.data {
                    self.data = WidgetData::Spotify(v);
                    self.loading = false;
                    self.error = None;
                }
            },
        }
    }

    /// Number of entries in the list currently shown.
    pub fn item_count(&self) -> (r: usize)
        ensures
            r == item_count(*self),
    {
        match &self.data {
            WidgetData::Hackernews(v) => v.len(),
            WidgetData::Stocks(v) => v.len(),
            WidgetData::Rss(v) => v.len(),
            WidgetData::Sports(v) => v.len(),
            WidgetData::Youtube(v) => v.len(),
            WidgetData::Github(d) => match self.github_tab {
                GithubTab::Notifications => d.notifications.len(),
                GithubTab::PullRequests => d.pull_requests.len(),
                GithubTab::Commits => d.commits.len(),
            },
            WidgetData::Spotify(_) => 0,
            WidgetData::Creature(_) => 0,
        }
    }

    /// Moves the cursor one entry up; no-op on the first entry.
    pub fn scroll_up(&mut self)
        ensures
            *final(self) == after_scroll_up(*old(self)),
    {
        if self.cursor > 0 {
            self.cursor = self.cursor - 1;
        }
    }

    /// Moves the cursor one entry down; no-op on the last entry or an empty list.
    pub fn scroll_down(&mut self)
        ensures
            *final(self) == after_scroll_down(*old(self)),
    {
        let count = self.item_count();
        if count > 0 && self.cursor < count - 1 {
            self.cursor = self.cursor + 1;
        }
    }

    /// What the widget's background fetcher polls: the source of the widget's own
    /// kind, with a copy of its settings. No side effects.
    pub fn create_fetcher(&self) -> (r: FeedSource)
        ensures
            source_kind(r) == self.kind(),
            source_settings(r, self.config),
    {
        match &self.config {
            WidgetConfig::Stocks(c) => FeedSource::Stocks(
                StocksConfig { title: c.title.clone(), symbols: copy_strings(&c.symbols), position: c.position },
            ),
            WidgetConfig::Hackernews(c) => FeedSource::Hackernews(
                HackernewsConfig {
                    title: c.title.clone(),
                    story_count: c.story_count,
                    story_type: c.story_type.clone(),
                    position: c.position,
                },
            ),
            WidgetConfig::Sports(c) => FeedSource::Sports(
                SportsConfig { title: c.title.clone(), leagues: copy_strings(&c.leagues), position: c.position },
            ),
            WidgetConfig::Rss(c) => FeedSource::Rss(
                RssConfig {
                    title: c.title.clone(),
                    feeds: copy_strings(&c.feeds),
                    max_items: c.max_items,
                    position: c.position,
                },
            ),
            WidgetConfig::Github(c) => FeedSource::Github(
                GithubConfig {
                    title: c.title.clone(),
                    token: c.token.clone(),
                    username: c.username.clone(),
                    show_notifications: c.show_notifications,
                    show_pull_requests: c.show_pull_requests,
                    show_commits: c.show_commits,
                    max_notifications: c.max_notifications,
                    max_pull_requests: c.max_pull_requests,
                    max_commits: c.max_commits,
                    position: c.position,
                },
            ),
            WidgetConfig::Youtube(c) => FeedSource::Youtube(
                YoutubeConfig {
                    title: c.title.clone(),
                    api_key: c.api_key.clone(),
                    channels: copy_strings(&c.channels),
                    search_query: copy_opt(&c.search_query),
                    max_videos: c.max_videos,
                    position: c.position,
                },
            ),
            WidgetConfig::Spotify(c) => FeedSource::Spotify(
                SpotifyConfig {
                    title: c.title.clone(),
                    client_id: c.client_id.clone(),
                    client_secret: c.client_secret.clone(),
                    refresh_token: c.refresh_token.clone(),
                    position: c.position,
                },
            ),
            WidgetConfig::Creature(_) => FeedSource::Creature,
        }
    }
}

/// Index of `t` among at most three tabs, zero when absent.
pub open spec fn tab_index(tabs: Seq<GithubTab>, t: GithubTab) -> int {
    if tabs.len() > 0 && tabs[0] == t {
        0
    } else if tabs.len() > 1 && tabs[1] == t {
        1
    } else if tabs.len() > 2 && tabs[2] == t {
        2
    } else {
        0
    }
}

/// The URL of the entry under the cursor, when the list has one there.
pub open spec fn selected_url_text(w: Widget) -> Option<Seq<char>> {
    let i = w.cursor as int;
    match w.data {
        WidgetData::Hackernews(v) => if i < v@.len() {
            opt_text(v@[i].url)
        } else {
            None
        },
        WidgetData::Rss(v) => if i < v@.len() {
            opt_text(v@[i].link)
        } else {
            None
        },
        WidgetData::Youtube(v) => if i < v@.len() {
            Some("https://www.youtube.com/watch?v="@ + v@[i].id@)
        } else {
            None
        },
        WidgetData::Github(d) => match w.github_tab {
            GithubTab::Notifications => if i < d.notifications@.len() {
                Some(d.notifications@[i].url@)
            } else {
                None
            },
            GithubTab::PullRequests => if i < d.pull_requests@.len() {
                Some(
                    "https://github.com/"@ + d.pull_requests@[i].repository@ + "/pull/"@
                        + decimal_text(d.pull_requests@[i].number as nat),
                )
            } else {
                None
            },
            GithubTab::Commits => if i < d.commits@.len() {
                Some(d.commits@[i].url@)
            } else {
                None
            },
        },
        _ => None,
    }
}

/// `w` after moving to the next shown tab (wrapping) with the cursor on the first
/// entry; unchanged for a widget without tabs.
pub open spec fn after_next_tab(w: Widget) -> Widget {
    match w.config {
        WidgetConfig::Github(c) => if github_tabs(c).len() > 0 {
            Widget {
                github_tab: github_tabs(c)[(tab_index(github_tabs(c), w.github_tab) + 1)
                    % github_tabs(c).len() as int],
                cursor: 0,
                ..w
            }
        } else {
            w
        },
        _ => w,
    }
}

/// `w` after moving to the previous shown tab (wrapping) with the cursor on the
/// first entry; unchanged for a widget without tabs.
pub open spec fn after_prev_tab(w: Widget) -> Widget {
    match w.config {
        WidgetConfig::Github(c) => if github_tabs(c).len() > 0 {
            Widget {
                github_tab: github_tabs(c)[if tab_index(github_tabs(c), w.github_tab) == 0 {
                    github_tabs(c).len() - 1
                } else {
                    tab_index(github_tabs(c), w.github_tab) - 1
                }],
                cursor: 0,
                ..w
            }
        } else {
            w
        },
        _ => w,
    }
}

/// `w` with its cursor one entry up, stopping at the first.
pub open spec fn after_scroll_up(w: Widget) -> Widget {
    Widget { cursor: if w.cursor > 0 { (w.cursor - 1) as usize } else { w.cursor }, ..w }
}

/// `w` with its cursor one entry down, stopping at the last.
pub open spec fn after_scroll_down(w: Widget) -> Widget {
    Widget {
        cursor: if w.cursor + 1 < item_count(w) { (w.cursor + 1) as usize } else { w.cursor },
        ..w
    }
}

fn copy_opt(o: &Option<String>) -> (r: Option<String>)
    ensures
        opt_text(r) == opt_text(*o),
{
    match o {
        Some(s) => Some(s.clone()),
        None => None,
    }
}

fn available_tabs(c: &GithubConfig) -> (r: Vec<GithubTab>)
    ensures
        r@ == github_tabs(*c),
{
    let mut tabs: Vec<GithubTab> = Vec::new();
    if c.show_notifications {
        tabs.push(GithubTab::Notifications);
    }
    if c.show_pull_requests {
        tabs.push(GithubTab::PullRequests);
    }
    if c.show_commits {
        tabs.push(GithubTab::Commits);
    }
    assert(tabs@ =~= github_tabs(*c));
    tabs
}

fn find_tab(tabs: &Vec<GithubTab>, t: GithubTab) -> (r: usize)
    requires
        tabs@.len() <= 3,
    ensures
        r == tab_index(tabs@, t),
{
    if tabs.len() > 0 && tabs[0] == t {
        0
    } else if tabs.len() > 1 && tabs[1] == t {
        1
    } else if tabs.len() > 2 && tabs[2] == t {
        2
    } else {
        0
    }
}

impl Widget {
    /// On a repository-activity widget with at least one tab, moves to the next
    /// shown tab, wrapping around, and puts the cursor back on the first entry.
    /// Otherwise nothing changes.
    pub fn next_tab(&mut self)
        ensures
            *final(self) == after_next_tab(*old(self)),
    {
        if let WidgetConfig::Github(c) = &self.config {
            let tabs = available_tabs(c);
            if tabs.len() == 0 {
                return;
            }
            let i = find_tab(&tabs, self.github_tab);
            self.github_tab = tabs[(i + 1) % tabs.len()];
            self.cursor = 0;
        }
    }

    /// On a repository-activity widget with at least one tab, moves to the
    /// previous shown tab, wrapping around, and puts the cursor back on the first
    /// entry. Otherwise nothing changes.
    pub fn prev_tab(&mut self)
        ensures
            *final(self) == after_prev_tab(*old(self)),
    {
        if let WidgetConfig::Github(c) = &self.config {
            let tabs = available_tabs(c);
            if tabs.len() == 0 {
                return;
            }
            let i = find_tab(&tabs, self.github_tab);
            let j = if i == 0 {
                tabs.len() - 1
            } else {
                i - 1
            };
            self.github_tab = tabs[j];
            self.cursor = 0;
        }
    }

    /// The URL of the entry under the cursor, if any.
    pub fn get_selected_url(&self) -> (r: Option<String>)
        ensures
            opt_text(r) == selected_url_text(*self),
    {
        let i = self.cursor;
        match &self.data {
            WidgetData::Hackernews(v) => if i < v.len() {
                copy_opt(&v[i].url)
            } else {
                None
            },
            WidgetData::Rss(v) => if i < v.len() {
                copy_opt(&v[i].link)
            } else {
                None
            },
            WidgetData::Youtube(v) => if i < v.len() {
                let mut s = "https://www.youtube.com/watch?v=".to_owned();
                s.append(v[i].id.as_str());
                Some(s)
            } else {
                None
            },
            WidgetData::Github(d) => match self.github_tab {
                GithubTab::Notifications => if i < d.notifications.len() {
                    Some(d.notifications[i].url.clone())
                } else {
                    None
                },
                GithubTab::PullRequests => if i < d.pull_requests.len() {
                    let mut s = "https://github.com/".to_owned();
                    s.append(d.pull_requests[i].repository.as_str());
                    s.append("/pull/");
                    push_decimal(&mut s, d.pull_requests[i].number as u64);
                    assert(s@ =~= "https://github.com/"@ + d.pull_requests@[i as int].repository@
                        + "/pull/"@ + decimal_text(d.pull_requests@[i as int].number as nat));
                    Some(s)
                } else {
                    None
                },
                GithubTab::Commits => if i < d.commits.len() {
                    Some(d.commits[i].url.clone())
                } else {
                    None
                },
            },
            _ => None,
        }
    }
}

impl Widget {
    /// The feed entry under the cursor as a readable item, on a news-feed widget
    /// whose list has an entry there.
    pub fn get_selected_item(&self) -> (r: Option<SelectedItem>)
        ensures
            match self.data {
                WidgetData::Rss(v) => if self.cursor < v@.len() {
                    r matches Some(item) && {
                        let e = v@[self.cursor as int];
                        &&& item.title@ == e.title@
                        &&& opt_text(item.url) == opt_text(e.link)
                        &&& opt_text(item.description) == opt_text(e.description)
                        &&& item.source@ == e.source@
                        &&& opt_text(item.metadata) == opt_text(e.published)
                    }
                } else {
                    r.is_none()
                },
                _ => r.is_none(),
            },
    {
        match &self.data {
            WidgetData::Rss(v) => if self.cursor < v.len() {
                let e = &v[self.cursor];
                Some(
                    SelectedItem {
                        title: e.title.clone(),
                        url: copy_opt(&e.link),
                        description: copy_opt(&e.description),
                        source: e.source.clone(),
                        metadata: copy_opt(&e.published),
                    },
                )
            } else {
                None
            },
            _ => None,
        }
    }
}

impl CompanionAnimation {
    /// Advances the animation, wrapping at the top of `usize`, when more than 500 ms
    /// passed since the last frame,
    /// and hides the greeting once it has shown for six whole seconds.
    pub fn tick(&mut self, now_ms: u64)
        ensures
            now_ms > old(self).last_frame_ms + 500 ==> final(self).animation_frame == (if old(
                self,
            ).animation_frame == usize::MAX {
                0
            } else {
                old(self).animation_frame + 1
            }) && final(self).last_frame_ms == now_ms,
            !(now_ms > old(self).last_frame_ms + 500) ==> final(self).animation_frame == old(
                self,
            ).animation_frame && final(self).last_frame_ms == old(self).last_frame_ms,
            match old(self).greeting_since_ms {
                Some(t) => if now_ms >= t + 6000 {
                    !final(self).show_greeting && final(self).greeting_since_ms.is_none()
                } else {
                    final(self).show_greeting == old(self).show_greeting
                        && final(self).greeting_since_ms == old(self).greeting_since_ms
                },
                None => final(self).show_greeting == old(self).show_greeting
                    && final(self).greeting_since_ms.is_none(),
            },
    {
        if now_ms > self.last_frame_ms && now_ms - self.last_frame_ms > 500 {
            self.animation_frame = if self.animation_frame == usize::MAX {
                0
            } else {
                self.animation_frame + 1
            };
            self.last_frame_ms = now_ms;
        }
        if let Some(t) = self.greeting_since_ms {
            if now_ms >= t && now_ms - t >= 6000 {
                self.show_greeting = false;
                self.greeting_since_ms = None;
            }
        }
    }
}

} // verus!
