use vstd::prelude::*;

use crate::creature::{ids, Skill, SkillCategory, SkillEffect};

verus! {

/// An outfit that changes the creature's appearance.
#[derive(Clone, Debug)]
pub struct Outfit {
    pub id: String,
    pub name: String,
    pub description: String,
    pub unlock_level: Option<u32>,
    pub unlock_cost: Option<u32>,
    pub art_modifier: String,
}

/// An emote the creature can perform.
#[derive(Clone, Debug)]
pub struct Emote {
    pub id: String,
    pub name: String,
    pub frames: Vec<String>,
    pub duration_ms: u64,
}

/// Ids of the skill catalog, in catalog order.
pub open spec fn skill_ids() -> Seq<Seq<char>> {
    seq![
        "greeting"@,
        "news_digest"@,
        "stock_alert"@,
        "speed_read"@,
        "xp_boost_1"@,
        "xp_boost_2"@,
        "cosmic_insight"@,
        "fire_breath"@,
        "omniscience"@,
    ]
}

/// Point cost of each catalog skill, in catalog order.
pub open spec fn skill_costs() -> Seq<u32> {
    seq![0, 10, 15, 20, 15, 30, 50, 40, 100]
}

/// Prerequisites of each catalog skill, in catalog order.
pub open spec fn skill_prerequisites() -> Seq<Seq<Seq<char>>> {
    seq![
        seq![],
        seq!["greeting"@],
        seq!["greeting"@],
        seq!["news_digest"@],
        seq!["greeting"@],
        seq!["xp_boost_1"@],
        seq!["news_digest"@, "stock_alert"@],
        seq![],
        seq!["cosmic_insight"@, "xp_boost_2"@],
    ]
}

/// Ids of the outfit catalog, in catalog order.
pub open spec fn outfit_ids() -> Seq<Seq<char>> {
    seq![
        "default"@,
        "hacker"@,
        "wizard"@,
        "ninja"@,
        "astronaut"@,
        "robot"@,
        "dragon"@,
        "legendary"@,
    ]
}

/// Level at which each catalog outfit unlocks, in catalog order.
pub open spec fn outfit_levels() -> Seq<u32> {
    seq![1, 5, 10, 15, 20, 25, 30, 50]
}

/// Ids of the emote catalog, in catalog order.
pub open spec fn emote_ids() -> Seq<Seq<char>> {
    seq!["wave"@, "happy"@, "excited"@, "cool"@, "stealth"@]
}

/// Duration in milliseconds of each catalog emote, in catalog order.
pub open spec fn emote_durations() -> Seq<u64> {
    seq![500, 300, 200, 400, 200]
}

/// Frame count of each catalog emote, in catalog order.
pub open spec fn emote_frame_counts() -> Seq<nat> {
    seq![3, 2, 3, 2, 4]
}

fn owned_list(items: &[&str]) -> (r: Vec<String>)
    ensures
        r@.len() == items@.len(),
        forall|i: int| 0 <= i < items@.len() ==> (#[trigger] r@[i])@ == items@[i]@,
{
    let mut r: Vec<String> = Vec::new();
    let mut i: usize = 0;
    while i < items.len()
        invariant
            0 <= i <= items@.len(),
            r@.len() == i,
            forall|j: int| 0 <= j < i ==> (#[trigger] r@[j])@ == items@[j]@,
        decreases items.len() - i,
    {
        r.push(items[i].to_owned());
        i += 1;
    }
    r
}

fn skill(
    id: &str,
    name: &str,
    description: &str,
    category: SkillCategory,
    cost: u32,
    prerequisites: &[&str],
    effects: Vec<SkillEffect>,
) -> (r: Skill)
    ensures
        r.id@ == id@,
        r.cost == cost,
        r.category == category,
        ids(r.prerequisites@) == prerequisites@.map_values(|p: &str| p@),
{
    let prereqs = owned_list(prerequisites);
    assert(ids(prereqs@) =~= prerequisites@.map_values(|p: &str| p@));
    Skill {
        id: id.to_owned(),
        name: name.to_owned(),
        description: description.to_owned(),
        category,
        cost,
        prerequisites: prereqs,
        effects,
    }
}

/// The skill catalog, one entry per id.
pub fn get_skill_tree() -> (r: Vec<Skill>)
    ensures
        r@.len() == skill_ids().len(),
        forall|i: int|
            0 <= i < r@.len() ==> {
                &&& (#[trigger] r@[i]).id@ == skill_ids()[i]
                &&& r@[i].cost == skill_costs()[i]
                &&& ids(r@[i].prerequisites@) == skill_prerequisites()[i]
            },
{
    let mut r: Vec<Skill> = Vec::new();
    r.push(
        skill(
            "greeting",
            "Greeting",
            "Tui greets you when you start a session",
            SkillCategory::Passive,
            0,
            &[],
            vec![],
        ),
    );
    r.push(
        skill(
            "news_digest",
            "News Digest",
            "Tui highlights the most important news",
            SkillCategory::Passive,
            10,
            &["greeting"],
            vec![SkillEffect::NewsDigest],
        ),
    );
    r.push(
        skill(
            "stock_alert",
            "Stock Alert",
            "Tui alerts you on significant stock movements",
            SkillCategory::Passive,
            15,
            &["greeting"],
            vec![SkillEffect::StockAlert],
        ),
    );
    r.push(
        skill(
            "speed_read",
            "Speed Read",
            "Faster feed refresh rates",
            SkillCategory::Passive,
            20,
            &["news_digest"],
            vec![SkillEffect::RefreshBoost],
        ),
    );
    r.push(
        skill(
            "xp_boost_1",
            "Quick Learner",
            "Gain 10% more XP",
            SkillCategory::Passive,
            15,
            &["greeting"],
            vec![SkillEffect::XpBoost(110)],
        ),
    );
    r.push(
        skill(
            "xp_boost_2",
            "Fast Learner",
            "Gain 25% more XP",
            SkillCategory::Passive,
            30,
            &["xp_boost_1"],
            vec![SkillEffect::XpBoost(125)],
        ),
    );
    r.push(
        skill(
            "cosmic_insight",
            "Cosmic Insight",
            "Tui gains cosmic wisdom about trending topics",
            SkillCategory::Passive,
            50,
            &["news_digest", "stock_alert"],
            vec![],
        ),
    );
    r.push(
        skill(
            "fire_breath",
            "Fire Breath",
            "Tui breathes fire when excited (cosmetic)",
            SkillCategory::Cosmetic,
            40,
            &[],
            vec![SkillEffect::Animation("fire".to_owned())],
        ),
    );
    r.push(
        skill(
            "omniscience",
            "Omniscience",
            "Tui knows all. Maximum XP boost and insights.",
            SkillCategory::Passive,
            100,
            &["cosmic_insight", "xp_boost_2"],
            vec![SkillEffect::XpBoost(150)],
        ),
    );
    proof {
        assert forall|i: int| 0 <= i < r@.len() implies {
            &&& (#[trigger] r@[i]).id@ == skill_ids()[i]
            &&& r@[i].cost == skill_costs()[i]
            &&& ids(r@[i].prerequisites@) == skill_prerequisites()[i]
        } by {
            assert(seq!["greeting"].map_values(|p: &str| p@) =~= seq!["greeting"@]);
            assert(seq!["news_digest"].map_values(|p: &str| p@) =~= seq!["news_digest"@]);
            assert(seq!["xp_boost_1"].map_values(|p: &str| p@) =~= seq!["xp_boost_1"@]);
            assert(seq!["news_digest", "stock_alert"].map_values(|p: &str| p@) =~= seq![
                "news_digest"@,
                "stock_alert"@,
            ]);
            assert(seq!["cosmic_insight", "xp_boost_2"].map_values(|p: &str| p@) =~= seq![
                "cosmic_insight"@,
                "xp_boost_2"@,
            ]);
            assert(Seq::<&str>::empty().map_values(|p: &str| p@) =~= Seq::<Seq<char>>::empty());
        }
    }
    r
}

fn outfit(id: &str, name: &str, description: &str, level: u32) -> (r: Outfit)
    ensures
        r.id@ == id@,
        r.art_modifier@ == id@,
        r.unlock_level == Some(level),
        r.unlock_cost.is_none(),
{
    Outfit {
        id: id.to_owned(),
        name: name.to_owned(),
        description: description.to_owned(),
        unlock_level: Some(level),
        unlock_cost: None,
        art_modifier: id.to_owned(),
    }
}

/// The outfit catalog, one entry per id.
pub fn get_all_outfits() -> (r: Vec<Outfit>)
    ensures
        r@.len() == outfit_ids().len(),
        forall|i: int|
            0 <= i < r@.len() ==> {
                &&& (#[trigger] r@[i]).id@ == outfit_ids()[i]
                &&& r@[i].art_modifier@ == outfit_ids()[i]
                &&& r@[i].unlock_level == Some(outfit_levels()[i])
                &&& r@[i].unlock_cost.is_none()
            },
{
    let mut r: Vec<Outfit> = Vec::new();
    r.push(outfit("default", "Default", "The classic look", 1));
    r.push(outfit("hacker", "Hacker", "Hoodie and sunglasses for the l33t", 5));
    r.push(outfit("wizard", "Wizard", "Mystical robes and a pointy hat", 10));
    r.push(outfit("ninja", "Ninja", "Stealthy and swift", 15));
    r.push(outfit("astronaut", "Astronaut", "Ready for space exploration", 20));
    r.push(outfit("robot", "Robot", "Mechanical enhancement suit", 25));
    r.push(outfit("dragon", "Dragon", "Scales and wings of legend", 30));
    r.push(outfit("legendary", "Legendary", "The ultimate form. Pure energy.", 50));
    r
}

fn emote(id: &str, name: &str, frames: &[&str], duration_ms: u64) -> (r: Emote)
    ensures
        r.id@ == id@,
        r.frames@.len() == frames@.len(),
        r.duration_ms == duration_ms,
{
    Emote { id: id.to_owned(), name: name.to_owned(), frames: owned_list(frames), duration_ms }
}

/// The emote catalog, one entry per id.
pub fn get_all_emotes() -> (r: Vec<Emote>)
    ensures
        r@.len() == emote_ids().len(),
        forall|i: int|
            0 <= i < r@.len() ==> {
                &&& (#[trigger] r@[i]).id@ == emote_ids()[i]
                &&& r@[i].frames@.len() == emote_frame_counts()[i]
                &&& r@[i].duration_ms == emote_durations()[i]
            },
{
    let mut r: Vec<Emote> = Vec::new();
    r.push(emote("wave", "Wave", &["o/", "o-", "o\\"], 500));
    r.push(emote("happy", "Happy", &["^_^", "^-^"], 300));
    r.push(emote("excited", "Excited", &["\\o/", "|o|", "/o\\"], 200));
    r.push(emote("cool", "Cool", &["B)", "B-)"], 400));
    r.push(emote("stealth", "Stealth", &["...", "..", ".", ""], 200));
    r
}

} // verus!
