use feedtui::creature::{load_or_create_from, CreatureMood};
use feedtui::feeds::{endpoint_for_folded, league_to_espn_endpoint};
use feedtui::config::{
    Config, GeneralConfig, GithubConfig, HackernewsConfig, Position, RssConfig, WidgetConfig,
};
use feedtui::control::{command_for_key, Command, App, Effect, Key};
use feedtui::creature::{Creature, CreatureSpecies};
use feedtui::feeds::{FeedData, FeedMessage, GithubDashboard, GithubPullRequest, HnStory, RssItem};
use feedtui::menu::MenuTab;
use feedtui::scheduler::{PollAction, PollEvent, PollPhase, Scheduler};
use feedtui::widgets::{GithubTab, Widget, WidgetData, WidgetKind};

fn story(id: u64, url: Option<&str>) -> HnStory {
    HnStory {
        id,
        title: format!("story {}", id),
        url: url.map(|u| u.to_string()),
        score: 1,
        by: "someone".to_string(),
        descendants: 0,
    }
}

fn three_widget_config() -> Config {
    Config {
        general: GeneralConfig::default(),
        widgets: vec![
            WidgetConfig::Hackernews(HackernewsConfig {
                title: "HN".to_string(),
                story_count: 5,
                story_type: "top".to_string(),
                position: Position { row: 0, col: 0 },
            }),
            WidgetConfig::Rss(RssConfig {
                title: "News".to_string(),
                feeds: vec![],
                max_items: 10,
                position: Position { row: 0, col: 1 },
            }),
            WidgetConfig::Creature(feedtui::config::CreatureConfig {
                title: "Tui".to_string(),
                show_on_startup: true,
                position: Position { row: 1, col: 12 },
            }),
        ],
    }
}

fn dashboard() -> App {
    let creature = Creature::new_at("Tui".to_string(), CreatureSpecies::Cat, 0);
    App::new(three_widget_config(), creature, 0)
}

fn selected_marks(d: &App) -> Vec<bool> {
    d.widgets.iter().map(|w| w.selected).collect()
}

#[test]
fn widget_ids_come_from_kind_and_position() {
    let d = dashboard();
    assert_eq!(d.widgets[0].id(), "hackernews-0-0");
    assert_eq!(d.widgets[1].id(), "rss-0-1");
    assert_eq!(d.widgets[2].id(), "creature-1-12");
    assert_eq!(d.widgets[2].position(), (1, 12));
    assert_eq!(d.widgets[1].title(), "News");
    assert_eq!(d.creature_index, Some(2));
}

#[test]
fn message_reaches_matching_widget() {
    let mut d = dashboard();
    let routed = d.handle_feed_message(FeedMessage {
        widget_id: "hackernews-0-0".to_string(),
        data: FeedData::HackerNews(vec![story(1, Some("https://a.example")), story(2, None)]),
    });
    assert!(routed);
    assert!(!d.widgets[0].loading);
    assert_eq!(d.widgets[0].item_count(), 2);
    assert_eq!(d.widgets[1].item_count(), 0);
}

#[test]
fn unknown_identity_is_dropped() {
    let mut d = dashboard();
    let routed = d.handle_feed_message(FeedMessage {
        widget_id: "stocks-9-9".to_string(),
        data: FeedData::Error("boom".to_string()),
    });
    assert!(!routed);
    for w in &d.widgets {
        assert!(w.error.is_none());
    }
    assert!(d.widgets[0].loading);
}

#[test]
fn mismatched_payload_is_ignored() {
    let mut d = dashboard();
    d.handle_feed_message(FeedMessage {
        widget_id: "rss-0-1".to_string(),
        data: FeedData::HackerNews(vec![story(1, None)]),
    });
    assert!(d.widgets[1].loading);
    assert_eq!(d.widgets[1].item_count(), 0);
}

#[test]
fn error_payload_is_recorded() {
    let mut d = dashboard();
    d.handle_feed_message(FeedMessage {
        widget_id: "rss-0-1".to_string(),
        data: FeedData::Error("timeout".to_string()),
    });
    assert_eq!(d.widgets[1].error, Some("timeout".to_string()));
    assert!(!d.widgets[1].loading);
}

#[test]
fn cycling_wraps_both_ways() {
    let mut d = dashboard();
    assert_eq!(selected_marks(&d), vec![true, false, false]);
    d.next_widget();
    d.next_widget();
    assert_eq!(d.selected, 2);
    d.next_widget();
    assert_eq!(d.selected, 0);
    assert_eq!(selected_marks(&d), vec![true, false, false]);
    d.prev_widget();
    assert_eq!(d.selected, 2);
    assert_eq!(selected_marks(&d), vec![false, false, true]);
}

#[test]
fn cycling_without_widgets_is_noop() {
    let creature = Creature::new_at("Tui".to_string(), CreatureSpecies::Cat, 0);
    let mut d = App::new(
        Config { general: GeneralConfig::default(), widgets: vec![] },
        creature,
        0,
    );
    d.next_widget();
    d.prev_widget();
    assert_eq!(d.selected, 0);
}

#[test]
fn scrolling_stays_in_bounds() {
    let mut d = dashboard();
    d.handle_feed_message(FeedMessage {
        widget_id: "hackernews-0-0".to_string(),
        data: FeedData::HackerNews(vec![story(1, None), story(2, Some("https://b.example"))]),
    });
    d.scroll_up();
    assert_eq!(d.widgets[0].cursor, 0);
    d.scroll_down();
    d.scroll_down();
    assert_eq!(d.widgets[0].cursor, 1);
    assert_eq!(d.selected_url(), Some("https://b.example".to_string()));
    match d.apply_command(Command::Activate) {
        Effect::OpenUrl(u) => assert_eq!(u, "https://b.example"),
        _ => panic!("expected a URL"),
    }
}

#[test]
fn keys_map_to_commands_by_mode() {
    assert_eq!(command_for_key(false, Key::Tab), Command::NextWidget);
    assert_eq!(command_for_key(true, Key::Tab), Command::TabNext);
    assert_eq!(command_for_key(false, Key::Ctrl('c')), Command::Quit);
    assert_eq!(command_for_key(true, Key::Ctrl('c')), Command::Nothing);
    assert_eq!(command_for_key(true, Key::Esc), Command::ToggleOverlay);
}

#[test]
fn overlay_routes_keys_and_quit_works_anywhere() {
    let mut d = dashboard();
    d.handle_key(Key::Char('t'));
    assert!(d.menu.visible);
    d.handle_key(Key::Tab);
    assert_eq!(d.menu.current_tab, MenuTab::Skills);
    d.handle_key(Key::BackTab);
    d.handle_key(Key::BackTab);
    assert_eq!(d.menu.current_tab, MenuTab::Customize);
    d.handle_key(Key::Down);
    d.handle_key(Key::Enter);
    assert_eq!(d.creature.species, CreatureSpecies::Bird);
    assert_eq!(d.selected, 0);
    assert!(matches!(d.handle_key(Key::Char('q')), Effect::Quit));
    assert!(d.should_quit);
}

#[test]
fn overlay_buys_skill_from_catalog() {
    let mut d = dashboard();
    d.creature.points = 10;
    d.handle_key(Key::Char('t'));
    d.handle_key(Key::Tab);
    d.handle_key(Key::Down);
    d.handle_key(Key::Enter);
    assert_eq!(d.creature.points, 0);
    assert!(d.creature.unlocked_skills.contains(&"news_digest".to_string()));
}

#[test]
fn companion_ticks_grant_experience() {
    let mut d = dashboard();
    d.tick_creature(9_999);
    assert_eq!(d.creature.experience, 0);
    d.tick_creature(10_000);
    assert_eq!(d.creature.experience, 1);
    assert_eq!(d.creature.total_time_seconds, 10);
    assert_eq!(d.last_xp_tick_ms, 10_000);
    match &d.widgets[2].data {
        WidgetData::Creature(v) => {
            assert_eq!(v.animation_frame, 1);
            assert!(!v.show_greeting);
        }
        _ => panic!("companion widget expected"),
    }
}

#[test]
fn github_tabs_cycle_over_shown_tabs() {
    let cfg = GithubConfig {
        title: "GH".to_string(),
        token: "SECRET-REDACTED".to_string(),
        username: "me".to_string(),
        show_notifications: false,
        show_pull_requests: true,
        show_commits: true,
        max_notifications: 5,
        max_pull_requests: 5,
        max_commits: 5,
        position: Position { row: 0, col: 0 },
    };
    let mut w = Widget::new(WidgetConfig::Github(cfg), 0);
    assert_eq!(w.github_tab, GithubTab::PullRequests);
    w.update_data(FeedData::Github(GithubDashboard {
        notifications: vec![],
        pull_requests: vec![GithubPullRequest {
            id: 1,
            number: 42,
            title: "t".to_string(),
            repository: "o/r".to_string(),
            state: "open".to_string(),
            author: "a".to_string(),
            created_at: String::new(),
            updated_at: String::new(),
            draft: false,
            mergeable: None,
            comments: 0,
            review_comments: 0,
            additions: 0,
            deletions: 0,
        }],
        commits: vec![],
    }));
    assert_eq!(w.get_selected_url(), Some("https://github.com/o/r/pull/42".to_string()));
    w.next_tab();
    assert_eq!(w.github_tab, GithubTab::Commits);
    w.next_tab();
    assert_eq!(w.github_tab, GithubTab::PullRequests);
    w.prev_tab();
    assert_eq!(w.github_tab, GithubTab::Commits);
}

#[test]
fn rss_link_is_selected_url() {
    let mut d = dashboard();
    d.handle_feed_message(FeedMessage {
        widget_id: "rss-0-1".to_string(),
        data: FeedData::Rss(vec![RssItem {
            title: "t".to_string(),
            link: Some("https://r.example".to_string()),
            description: None,
            published: None,
            source: "s".to_string(),
        }]),
    });
    d.next_widget();
    assert_eq!(d.selected_url(), Some("https://r.example".to_string()));
}

#[test]
fn failed_fetch_keeps_polling_at_interval() {
    let d = dashboard();
    let mut s = Scheduler::new(&d.widgets, 60);
    assert_eq!(s.tasks.len(), 3);
    assert_eq!(s.tasks[1].widget_id, "rss-0-1");
    match s.step(1, PollEvent::Fetched(Err("network down".to_string()))) {
        PollAction::Publish(m, secs) => {
            assert_eq!(m.widget_id, "rss-0-1");
            assert!(matches!(m.data, FeedData::Error(ref e) if e == "network down"));
            assert_eq!(secs, 60);
        }
        PollAction::Fetch => panic!("expected a publish"),
    }
    assert_eq!(s.tasks[1].phase, PollPhase::Sleeping);
    assert_eq!(s.tasks[0].phase, PollPhase::Fetching);
    assert!(matches!(s.step(1, PollEvent::Woke), PollAction::Fetch));
    assert_eq!(s.tasks[1].phase, PollPhase::Fetching);
    assert!(matches!(
        s.step(0, PollEvent::Fetched(Ok(FeedData::Loading))),
        PollAction::Publish(_, 60)
    ));
}

#[test]
fn widget_kinds_follow_config() {
    let d = dashboard();
    assert!(matches!(d.widgets[2].data, WidgetData::Creature(_)));
    let _ = WidgetKind::Creature;
}

#[test]
fn default_config_has_five_widgets() {
    let c = Config::default();
    assert_eq!(c.widgets.len(), 5);
    assert_eq!(c.general.refresh_interval_secs, 60);
    assert_eq!(feedtui::config::default_max_items(), 15);
    assert_eq!(feedtui::config::default_theme(), "dark");
}

#[test]
fn league_names_fold_case() {
    assert_eq!(league_to_espn_endpoint("NBA"), Some("basketball/nba"));
    assert_eq!(league_to_espn_endpoint("Premier-League"), Some("soccer/eng.1"));
    assert_eq!(league_to_espn_endpoint("curling"), None);
    assert_eq!(endpoint_for_folded("NBA"), None);
    assert_eq!(endpoint_for_folded("ncaab"), Some("basketball/mens-college-basketball"));
}

#[test]
fn startup_resumes_or_creates() {
    let (fresh, save) = load_or_create_from(None, 500);
    assert!(save);
    assert_eq!(fresh.name, "Tui");
    assert_eq!(fresh.created_at, 500);
    let (resumed, save) = load_or_create_from(Some(fresh), 500 + 200 * 3600);
    assert!(!save);
    assert_eq!(resumed.total_sessions, 1);
    assert_eq!(resumed.mood, CreatureMood::Lonely);
}

#[test]
fn grid_dimensions_cover_all_widgets() {
    let d = dashboard();
    assert_eq!(d.calculate_grid_dimensions(), (1, 12));
}

#[test]
fn music_widgets_are_keyed_by_position() {
    let cfg = |col: usize| {
        WidgetConfig::Spotify(feedtui::config::SpotifyConfig {
            title: "Now Playing".to_string(),
            client_id: "id".to_string(),
            client_secret: "SECRET-REDACTED".to_string(),
            refresh_token: "SECRET-REDACTED".to_string(),
            position: Position { row: 0, col },
        })
    };
    let a = Widget::new(cfg(1), 0);
    let b = Widget::new(cfg(3), 0);
    assert_eq!(a.id(), "spotify-0-1");
    assert_eq!(b.id(), "spotify-0-3");
    assert_ne!(a.id(), b.id());
}

#[test]
fn grant_is_skipped_only_on_overflow() {
    let mut d = dashboard();
    d.creature.points = u32::MAX - 10;
    d.tick_creature(10_000);
    assert_eq!(d.creature.experience, 1);
    assert_eq!(d.creature.points, u32::MAX - 10);
    d.creature.experience = 149;
    d.tick_creature(20_000);
    assert_eq!(d.creature.level, 2);
    assert_eq!(d.creature.points, u32::MAX - 5);
    d.creature.points = u32::MAX;
    d.creature.experience = 224;
    d.tick_creature(30_000);
    assert_eq!(d.creature.experience, 224);
    assert_eq!(d.last_xp_tick_ms, 20_000);
}
