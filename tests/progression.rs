use feedtui::catalog::{get_all_emotes, get_all_outfits, get_skill_tree};
use feedtui::creature::{Creature, CreatureMood, CreatureSpecies, Skill, SkillCategory};

fn fresh() -> Creature {
    Creature::new_at("Tui".to_string(), CreatureSpecies::Blob, 1_000_000)
}

fn skill(id: &str, cost: u32, prereqs: &[&str]) -> Skill {
    Skill {
        id: id.to_string(),
        name: id.to_string(),
        description: String::new(),
        category: SkillCategory::Passive,
        cost,
        prerequisites: prereqs.iter().map(|p| p.to_string()).collect(),
        effects: Vec::new(),
    }
}

#[test]
fn xp_thresholds_match_formula() {
    assert_eq!(Creature::xp_for_level(1), 100);
    assert_eq!(Creature::xp_for_level(2), 150);
    assert_eq!(Creature::xp_for_level(3), 225);
    assert_eq!(Creature::xp_for_level(4), 337);
    assert_eq!(Creature::xp_for_level(5), 506);
    assert_eq!(Creature::xp_for_level(0), 66);
    assert_eq!(Creature::xp_for_level(99), 18069385668231788328);
    assert_eq!(Creature::xp_for_level(100), u64::MAX);
    assert_eq!(Creature::xp_for_level(u32::MAX), u64::MAX);
}

#[test]
fn xp_thresholds_strictly_increase() {
    for level in 1..99u32 {
        assert!(Creature::xp_for_level(level) < Creature::xp_for_level(level + 1));
    }
}

#[test]
fn four_hundred_xp_reaches_level_four() {
    let mut c = fresh();
    let rewards = c.add_experience(400);
    assert_eq!(c.level, 4);
    assert_eq!(c.experience, 400);
    assert_eq!(rewards.len(), 3);
    assert_eq!(rewards[0].level, 2);
    assert_eq!(rewards[1].level, 3);
    assert_eq!(rewards[2].level, 4);
    assert_eq!(c.points, 15);
    assert!(c.unlocked_emotes.contains(&"excited".to_string()));
    assert!(c.unlocked_skills.contains(&"news_digest".to_string()));
    assert_eq!(rewards[1].unlocked_skills, vec!["news_digest".to_string()]);
}

#[test]
fn just_below_threshold_stays() {
    let mut c = fresh();
    assert!(c.add_experience(149).is_empty());
    assert_eq!(c.level, 1);
    let r = c.add_experience(1);
    assert_eq!(r.len(), 1);
    assert_eq!(c.level, 2);
}

#[test]
fn experience_and_level_never_decrease() {
    let mut c = fresh();
    let mut last_xp = 0;
    let mut last_level = 1;
    for gain in [0u64, 5, 170, 1, 3000, 0, 12_345, 99_999] {
        c.add_experience(gain);
        assert!(c.experience >= last_xp);
        assert!(c.level >= last_level);
        last_xp = c.experience;
        last_level = c.level;
    }
    let mut d = fresh();
    d.add_experience(0 + 5 + 170 + 1 + 3000 + 0 + 12_345 + 99_999);
    assert_eq!(d.level, c.level);
}

#[test]
fn level_five_reward_unlocks_outfit_and_emote_once() {
    let mut c = fresh();
    c.unlocked_outfits.push("hacker".to_string());
    let rewards = c.add_experience(506);
    assert_eq!(c.level, 5);
    assert_eq!(rewards.len(), 4);
    assert_eq!(rewards[3].points, 7);
    assert_eq!(c.points, 5 + 5 + 5 + 7);
    assert_eq!(c.unlocked_outfits.iter().filter(|o| *o == "hacker").count(), 1);
    assert!(c.unlocked_emotes.contains(&"cool".to_string()));
}

#[test]
fn purchase_requires_points() {
    let mut c = fresh();
    c.points = 9;
    let s = skill("news_digest", 10, &["greeting"]);
    assert!(!c.can_purchase_skill(&s));
    assert!(!c.purchase_skill(&s));
    assert_eq!(c.points, 9);
    assert!(!c.unlocked_skills.contains(&"news_digest".to_string()));
}

#[test]
fn purchase_rejects_unlocked_skill() {
    let mut c = fresh();
    c.points = 50;
    let s = skill("greeting", 0, &[]);
    assert!(!c.purchase_skill(&s));
    assert_eq!(c.points, 50);
    assert_eq!(c.unlocked_skills.len(), 1);
}

#[test]
fn purchase_rejects_missing_prerequisite() {
    let mut c = fresh();
    c.points = 100;
    let s = skill("speed_read", 20, &["news_digest"]);
    assert!(!c.purchase_skill(&s));
    assert_eq!(c.points, 100);
}

#[test]
fn purchase_deducts_exact_cost() {
    let mut c = fresh();
    c.points = 12;
    let s = skill("news_digest", 10, &["greeting"]);
    assert!(c.purchase_skill(&s));
    assert_eq!(c.points, 2);
    assert_eq!(c.unlocked_skills, vec!["greeting".to_string(), "news_digest".to_string()]);
}

#[test]
fn equip_unknown_outfit_fails() {
    let mut c = fresh();
    assert!(!c.equip_outfit("wizard"));
    assert_eq!(c.equipped_outfit, Some("default".to_string()));
    c.unlocked_outfits.push("wizard".to_string());
    assert!(c.equip_outfit("wizard"));
    assert_eq!(c.equipped_outfit, Some("wizard".to_string()));
}

#[test]
fn toggle_skill_flips_membership() {
    let mut c = fresh();
    assert!(!c.toggle_skill("fire_breath"));
    assert!(c.toggle_skill("greeting"));
    assert!(c.active_skills.is_empty());
    assert!(c.toggle_skill("greeting"));
    assert_eq!(c.active_skills, vec!["greeting".to_string()]);
}

#[test]
fn tick_session_grants_one_per_ten_seconds() {
    let mut c = fresh();
    assert_eq!(c.tick_session(25), 2);
    assert_eq!(c.tick_session(9), 0);
    assert_eq!(c.total_time_seconds, 34);
}

#[test]
fn session_mood_follows_absence() {
    let mut c = fresh();
    c.start_session_at(1_000_000 + 3600);
    assert_eq!(c.mood, CreatureMood::Happy);
    assert_eq!(c.total_sessions, 1);
    c.start_session_at(1_003_600 + 24 * 3600);
    assert_eq!(c.mood, CreatureMood::Sleepy);
    c.start_session_at(1_003_600 + 24 * 3600 + 168 * 3600);
    assert_eq!(c.mood, CreatureMood::Lonely);
    assert_eq!(c.last_seen, 1_003_600 + 24 * 3600 + 168 * 3600);
    assert_eq!(c.total_sessions, 3);
}

#[test]
fn clock_backed_constructor_stamps_now() {
    let c = Creature::new("Pip".to_string(), CreatureSpecies::Fox);
    assert!(c.created_at > 1_600_000_000);
    assert_eq!(c.created_at, c.last_seen);
    let d = Creature::default();
    assert_eq!(d.name, "Tui");
    assert_eq!(d.level, 1);
}

#[test]
fn xp_to_next_level_saturates() {
    let mut c = fresh();
    assert_eq!(c.xp_to_next_level(), 150);
    assert_eq!(c.xp_for_current_level(), 0);
    c.add_experience(200);
    assert_eq!(c.xp_to_next_level(), 25);
    assert_eq!(c.xp_for_current_level(), 150);
}

#[test]
fn catalogs_list_their_entries() {
    let skills = get_skill_tree();
    assert_eq!(skills.len(), 9);
    assert_eq!(skills[8].id, "omniscience");
    assert_eq!(skills[8].cost, 100);
    assert_eq!(get_all_outfits().len(), 8);
    assert_eq!(get_all_emotes()[4].frames.len(), 4);
    assert_eq!(get_all_emotes()[0].duration_ms, 500);
}

#[test]
fn species_and_moods_have_labels() {
    assert_eq!(CreatureSpecies::all().len(), 10);
    assert_eq!(CreatureSpecies::Octopus.name(), "Octopus");
    assert_eq!(CreatureSpecies::Owl.description(), "A wise owl for late-night browsing");
    assert_eq!(CreatureMood::Lonely.emoji(), ":'(");
    assert_eq!(feedtui::creature::CreatureColor::all().len(), 10);
}
