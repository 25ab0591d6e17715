use vstd::prelude::*;

verus! {

/// A fetch result routed to the widget with identity `widget_id`.
#[derive(Clone, Debug)]
pub struct FeedMessage {
    pub widget_id: String,
    pub data: FeedData,
}

/// The tagged payload of one fetch: a kind-specific value, a loading placeholder,
/// or an error text.
#[derive(Clone, Debug)]
pub enum FeedData {
    HackerNews(Vec<HnStory>),
    Stocks(Vec<StockQuote>),
    Rss(Vec<RssItem>),
    Sports(Vec<SportsEvent>),
    Github(GithubDashboard),
    Youtube(Vec<YoutubeVideo>),
    Spotify(SpotifyPlayback),
    Loading,
    Error(String),
}

#[derive(Clone, Debug)]
pub struct HnStory {
    pub id: u64,
    pub title: String,
    pub url: Option<String>,
    pub score: u32,
    pub by: String,
    pub descendants: u32,
}

/// A quote with prices in hundredths of the currency unit and the change in
/// hundredths of a percent.
#[derive(Clone, Debug)]
pub struct StockQuote {
    pub symbol: String,
    pub price_cents: i64,
    pub change_cents: i64,
    pub change_basis_points: i64,
    pub name: String,
}

#[derive(Clone, Debug)]
pub struct RssItem {
    pub title: String,
    pub link: Option<String>,
    pub description: Option<String>,
    pub published: Option<String>,
    pub source: String,
}

#[derive(Clone, Debug)]
pub struct SportsEvent {
    pub league: String,
    pub home_team: String,
    pub away_team: String,
    pub home_score: Option<u32>,
    pub away_score: Option<u32>,
    pub status: String,
    pub start_time: Option<String>,
}

#[derive(Clone, Debug)]
pub struct GithubNotification {
    pub id: String,
    pub title: String,
    pub notification_type: String,
    pub repository: String,
    pub url: String,
    pub unread: bool,
    pub updated_at: String,
    pub reason: String,
}

#[derive(Clone, Debug)]
pub struct GithubPullRequest {
    pub id: u64,
    pub number: u32,
    pub title: String,
    pub repository: String,
    pub state: String,
    pub author: String,
    pub created_at: String,
    pub updated_at: String,
    pub draft: bool,
    pub mergeable: Option<bool>,
    pub comments: u32,
    pub review_comments: u32,
    pub additions: u32,
    pub deletions: u32,
}

#[derive(Clone, Debug)]
pub struct GithubCommit {
    pub sha: String,
    pub message: String,
    pub author: String,
    pub repository: String,
    pub branch: String,
    pub timestamp: String,
    pub additions: u32,
    pub deletions: u32,
    pub url: String,
}

#[derive(Clone, Debug)]
pub struct GithubDashboard {
    pub notifications: Vec<GithubNotification>,
    pub pull_requests: Vec<GithubPullRequest>,
    pub commits: Vec<GithubCommit>,
}

impl GithubDashboard {
    pub fn empty() -> (r: GithubDashboard)
        ensures
            r.notifications@.len() == 0,
            r.pull_requests@.len() == 0,
            r.commits@.len() == 0,
    {
        GithubDashboard { notifications: Vec::new(), pull_requests: Vec::new(), commits: Vec::new() }
    }
}

#[derive(Clone, Debug)]
pub struct YoutubeVideo {
    pub id: String,
    pub title: String,
    pub channel: String,
    pub published: String,
    pub description: String,
    pub view_count: Option<String>,
    pub duration: Option<String>,
}

#[derive(Clone, Debug)]
pub struct SpotifyPlayback {
    pub is_playing: bool,
    pub track_name: Option<String>,
    pub artist_name: Option<String>,
    pub album_name: Option<String>,
    pub progress_ms: Option<u32>,
    pub duration_ms: Option<u32>,
    pub shuffle_state: bool,
    pub repeat_state: String,
}

/// Nothing playing: no track, no times, shuffle off, no repeat mode.
pub open spec fn is_idle_playback(p: SpotifyPlayback) -> bool {
    &&& !p.is_playing
    &&& p.track_name.is_none()
    &&& p.artist_name.is_none()
    &&& p.album_name.is_none()
    &&& p.progress_ms.is_none()
    &&& p.duration_ms.is_none()
    &&& !p.shuffle_state
    &&& p.repeat_state@.len() == 0
}

impl SpotifyPlayback {
    /// Nothing playing.
    pub fn idle() -> (r: SpotifyPlayback)
        ensures
            is_idle_playback(r),
    {
        SpotifyPlayback {
            is_playing: false,
            track_name: None,
            artist_name: None,
            album_name: None,
            progress_ms: None,
            duration_ms: None,
            shuffle_state: false,
            repeat_state: String::new(),
        }
    }
}

/// `s` in lower case, as Unicode defines it.
pub uninterp spec fn lower_of(s: Seq<char>) -> Seq<char>;

/// Relies on str::to_lowercase: the result depends on the characters alone.
#[verifier::external_body]
pub(crate) fn lowercase(s: &str) -> (r: String)
    ensures
        r@ == lower_of(s@),
{
    s.to_lowercase()
}

/// The score service's path for a league name already in lower case.
pub open spec fn espn_endpoint(l: Seq<char>) -> Option<Seq<char>> {
    if l == "nba"@ {
        Some("basketball/nba"@)
    } else if l == "nfl"@ {
        Some("football/nfl"@)
    } else if l == "mlb"@ {
        Some("baseball/mlb"@)
    } else if l == "nhl"@ {
        Some("hockey/nhl"@)
    } else if l == "mls"@ {
        Some("soccer/usa.1"@)
    } else if l == "epl"@ || l == "premier-league"@ {
        Some("soccer/eng.1"@)
    } else if l == "ncaaf"@ || l == "college-football"@ {
        Some("football/college-football"@)
    } else if l == "ncaab"@ || l == "college-basketball"@ {
        Some("basketball/mens-college-basketball"@)
    } else {
        None
    }
}

pub open spec fn opt_str_text(o: Option<&str>) -> Option<Seq<char>> {
    match o {
        Some(s) => Some(s@),
        None => None,
    }
}

fn same_text(a: &str, b: &str) -> (r: bool)
    ensures
        r == (a@ == b@),
{
    a.to_owned() == b.to_owned()
}

/// The score service's path for a league name given in lower case.
pub fn endpoint_for_folded(league: &str) -> (r: Option<&'static str>)
    ensures
        opt_str_text(r) == espn_endpoint(league@),
{
    if same_text(league, "nba") {
        Some("basketball/nba")
    } else if same_text(league, "nfl") {
        Some("football/nfl")
    } else if same_text(league, "mlb") {
        Some("baseball/mlb")
    } else if same_text(league, "nhl") {
        Some("hockey/nhl")
    } else if same_text(league, "mls") {
        Some("soccer/usa.1")
    } else if same_text(league, "epl") || same_text(league, "premier-league") {
        Some("soccer/eng.1")
    } else if same_text(league, "ncaaf") || same_text(league, "college-football") {
        Some("football/college-football")
    } else if same_text(league, "ncaab") || same_text(league, "college-basketball") {
        Some("basketball/mens-college-basketball")
    } else {
        None
    }
}

/// The score service's path for a league name in any case.
pub fn league_to_espn_endpoint(league: &str) -> (r: Option<&'static str>)
    ensures
        opt_str_text(r) == espn_endpoint(lower_of(league@)),
{
    let folded = lowercase(league);
    endpoint_for_folded(folded.as_str())
}

} // verus!
