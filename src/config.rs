use vstd::prelude::*;

verus! {

/// The dashboard configuration: general settings and the ordered widget list.
#[derive(Clone, Debug)]
pub struct Config {
    pub general: GeneralConfig,
    pub widgets: Vec<WidgetConfig>,
}

#[derive(Clone, Debug)]
pub struct GeneralConfig {
    pub refresh_interval_secs: u64,
    pub theme: String,
}

/// One widget specification: its kind, with the kind's settings and grid position.
#[derive(Clone, Debug)]
pub enum WidgetConfig {
    Stocks(StocksConfig),
    Hackernews(HackernewsConfig),
    Sports(SportsConfig),
    Rss(RssConfig),
    Github(GithubConfig),
    Youtube(YoutubeConfig),
    Spotify(SpotifyConfig),
    Creature(CreatureConfig),
}

#[derive(Clone, Debug)]
pub struct CreatureConfig {
    pub title: String,
    pub show_on_startup: bool,
    pub position: Position,
}

/// A zero-based grid cell.
#[derive(Clone, Copy, Debug, PartialEq, Eq, Structural)]
pub struct Position {
    pub row: usize,
    pub col: usize,
}

#[derive(Clone, Debug)]
pub struct StocksConfig {
    pub title: String,
    pub symbols: Vec<String>,
    pub position: Position,
}

#[derive(Clone, Debug)]
pub struct HackernewsConfig {
    pub title: String,
    pub story_count: usize,
    pub story_type: String,
    pub position: Position,
}

#[derive(Clone, Debug)]
pub struct SportsConfig {
    pub title: String,
    pub leagues: Vec<String>,
    pub position: Position,
}

#[derive(Clone, Debug)]
pub struct RssConfig {
    pub title: String,
    pub feeds: Vec<String>,
    pub max_items: usize,
    pub position: Position,
}

#[derive(Clone, Debug)]
pub struct GithubConfig {
    pub title: String,
    pub token: String,
    pub username: String,
    pub show_notifications: bool,
    pub show_pull_requests: bool,
    pub show_commits: bool,
    pub max_notifications: usize,
    pub max_pull_requests: usize,
    pub max_commits: usize,
    pub position: Position,
}

#[derive(Clone, Debug)]
pub struct YoutubeConfig {
    pub title: String,
    pub api_key: String,
    pub channels: Vec<String>,
    pub search_query: Option<String>,
    pub max_videos: usize,
    pub position: Position,
}

#[derive(Clone, Debug)]
pub struct SpotifyConfig {
    pub title: String,
    pub client_id: String,
    pub client_secret: String,
    pub refresh_token: String,
    pub position: Position,
}

pub fn default_refresh_interval() -> (r: u64)
    ensures
        r == 60,
{
    60
}

pub fn default_theme() -> (r: String)
    ensures
        r@ == "dark"@,
{
    "dark".to_owned()
}

pub fn default_creature_title() -> (r: String)
    ensures
        r@ == "Tui"@,
{
    "Tui".to_owned()
}

pub fn default_stocks_title() -> (r: String)
    ensures
        r@ == "Stocks"@,
{
    "Stocks".to_owned()
}

pub fn default_hn_title() -> (r: String)
    ensures
        r@ == "Hacker News"@,
{
    "Hacker News".to_owned()
}

pub fn default_story_count() -> (r: usize)
    ensures
        r == 10,
{
    10
}

pub fn default_story_type() -> (r: String)
    ensures
        r@ == "top"@,
{
    "top".to_owned()
}

pub fn default_sports_title() -> (r: String)
    ensures
        r@ == "Sports"@,
{
    "Sports".to_owned()
}

pub fn default_rss_title() -> (r: String)
    ensures
        r@ == "RSS Feed"@,
{
    "RSS Feed".to_owned()
}

pub fn default_max_items() -> (r: usize)
    ensures
        r == 15,
{
    15
}

impl Default for GeneralConfig {
    fn default() -> (r: GeneralConfig)
        ensures
            r.refresh_interval_secs == 60,
            r.theme@ == "dark"@,
    {
        GeneralConfig { refresh_interval_secs: default_refresh_interval(), theme: default_theme() }
    }
}

/// The grid position of a widget specification.
pub open spec fn config_position(w: WidgetConfig) -> Position {
    match w {
        WidgetConfig::Stocks(c) => c.position,
        WidgetConfig::Hackernews(c) => c.position,
        WidgetConfig::Sports(c) => c.position,
        WidgetConfig::Rss(c) => c.position,
        WidgetConfig::Github(c) => c.position,
        WidgetConfig::Youtube(c) => c.position,
        WidgetConfig::Spotify(c) => c.position,
        WidgetConfig::Creature(c) => c.position,
    }
}

impl Default for Config {
    /// The companion at (0, 0), Hacker News at (0, 1), stocks at (1, 0), a tech RSS
    /// feed at (1, 1) and sports at (2, 0), refreshed every 60 seconds.
    fn default() -> (r: Config)
        ensures
            r.general.refresh_interval_secs == 60,
            r.widgets@.len() == 5,
            r.widgets@[0] is Creature,
            r.widgets@[1] is Hackernews,
            r.widgets@[2] is Stocks,
            r.widgets@[3] is Rss,
            r.widgets@[4] is Sports,
            config_position(r.widgets@[0]) == (Position { row: 0, col: 0 }),
            config_position(r.widgets@[1]) == (Position { row: 0, col: 1 }),
            config_position(r.widgets@[2]) == (Position { row: 1, col: 0 }),
            config_position(r.widgets@[3]) == (Position { row: 1, col: 1 }),
            config_position(r.widgets@[4]) == (Position { row: 2, col: 0 }),
    {
        let widgets = vec![
            WidgetConfig::Creature(
                CreatureConfig {
                    title: "Tui".to_owned(),
                    show_on_startup: true,
                    position: Position { row: 0, col: 0 },
                },
            ),
            WidgetConfig::Hackernews(
                HackernewsConfig {
                    title: "Hacker News".to_owned(),
                    story_count: 10,
                    story_type: "top".to_owned(),
                    position: Position { row: 0, col: 1 },
                },
            ),
            WidgetConfig::Stocks(
                StocksConfig {
                    title: "Stocks".to_owned(),
                    symbols: vec![
                        "AAPL".to_owned(),
                        "GOOGL".to_owned(),
                        "MSFT".to_owned(),
                        "NVDA".to_owned(),
                    ],
                    position: Position { row: 1, col: 0 },
                },
            ),
            WidgetConfig::Rss(
                RssConfig {
                    title: "Tech News".to_owned(),
                    feeds: vec![
                        "https://feeds.arstechnica.com/arstechnica/technology-lab".to_owned(),
                    ],
                    max_items: 10,
                    position: Position { row: 1, col: 1 },
                },
            ),
            WidgetConfig::Sports(
                SportsConfig {
                    title: "Sports".to_owned(),
                    leagues: vec!["nba".to_owned(), "nfl".to_owned()],
                    position: Position { row: 2, col: 0 },
                },
            ),
        ];
        Config { general: GeneralConfig::default(), widgets }
    }
}

} // verus!
