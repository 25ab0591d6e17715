use vstd::prelude::*;
use vstd::arithmetic::div_mod::lemma_fundamental_div_mod_converse;

verus! {

/// The companion that accompanies the user across sessions.
/// Timestamps are whole seconds since the Unix epoch.
pub struct Creature {
    pub name: String,
    pub species: CreatureSpecies,
    pub level: u32,
    pub experience: u64,
    pub points: u32,
    pub stats: CreatureStats,
    pub appearance: CreatureAppearance,
    pub unlocked_skills: Vec<String>,
    pub active_skills: Vec<String>,
    pub unlocked_outfits: Vec<String>,
    pub equipped_outfit: Option<String>,
    pub unlocked_emotes: Vec<String>,
    pub mood: CreatureMood,
    pub created_at: i64,
    pub last_seen: i64,
    pub total_sessions: u64,
    pub total_time_seconds: u64,
}

/// Available creature species to choose from.
#[derive(Clone, Copy, Debug, PartialEq, Eq, Structural)]
pub enum CreatureSpecies {
    Blob,
    Bird,
    Cat,
    Dragon,
    Fox,
    Owl,
    Penguin,
    Robot,
    Spirit,
    Octopus,
}

/// Cosmetic stats, each meant to lie in 0..=100.
#[derive(Clone, Copy, Debug, PartialEq, Eq, Structural)]
pub struct CreatureStats {
    pub happiness: u8,
    pub energy: u8,
    pub knowledge: u8,
    pub charisma: u8,
}

/// Appearance customization: two colors and optional accessory slots.
#[derive(Clone, Debug)]
pub struct CreatureAppearance {
    pub primary_color: CreatureColor,
    pub secondary_color: CreatureColor,
    pub accessory: Option<String>,
    pub hat: Option<String>,
    pub background: Option<String>,
}

#[derive(Clone, Copy, Debug, PartialEq, Eq, Structural)]
pub enum CreatureColor {
    Red,
    Green,
    Blue,
    Yellow,
    Magenta,
    Cyan,
    White,
    Orange,
    Pink,
    Purple,
}

/// Mood affects the companion's face and greeting.
#[derive(Clone, Copy, Debug, PartialEq, Eq, Structural)]
pub enum CreatureMood {
    Happy,
    Excited,
    Sleepy,
    Thinking,
    Proud,
    Lonely,
    Curious,
}

#[derive(Clone, Copy, Debug, PartialEq, Eq, Structural)]
pub enum SkillCategory {
    Passive,
    Active,
    Cosmetic,
    Social,
}

/// What a skill does. An experience boost is a multiplier in percent (110 is x1.1).
#[derive(Clone, Debug)]
pub enum SkillEffect {
    XpBoost(u32),
    RefreshBoost,
    NewsDigest,
    StockAlert,
    CustomEmote(String),
    ColorUnlock(CreatureColor),
    Animation(String),
}

/// A skill of the static catalog.
#[derive(Clone, Debug)]
pub struct Skill {
    pub id: String,
    pub name: String,
    pub description: String,
    pub category: SkillCategory,
    pub cost: u32,
    pub prerequisites: Vec<String>,
    pub effects: Vec<SkillEffect>,
}

/// What one level crossed by an experience gain grants.
#[derive(Clone, Debug)]
pub struct LevelUpReward {
    pub level: u32,
    pub points: u32,
    pub unlocked_skills: Vec<String>,
    pub unlocked_outfits: Vec<String>,
    pub unlocked_emotes: Vec<String>,
}

/// The text of each string of a sequence.
pub open spec fn ids(v: Seq<String>) -> Seq<Seq<char>> {
    v.map_values(|s: String| s@)
}

/// `s` with `x` appended unless it is already there.
pub open spec fn add_unique(s: Seq<Seq<char>>, x: Seq<char>) -> Seq<Seq<char>> {
    if s.contains(x) {
        s
    } else {
        s.push(x)
    }
}

/// `s` with each of `items` added in order, skipping those already present.
pub open spec fn merge_ids(s: Seq<Seq<char>>, items: Seq<Seq<char>>) -> Seq<Seq<char>>
    decreases items.len(),
{
    if items.len() == 0 {
        s
    } else {
        add_unique(merge_ids(s, items.drop_last()), items.last())
    }
}

/// `s` after merging the unlocks that `table` gives for each level in `from + 1 ..= to`.
pub open spec fn unlocks_through(
    s: Seq<Seq<char>>,
    table: spec_fn(nat) -> Seq<Seq<char>>,
    from: nat,
    to: nat,
) -> Seq<Seq<char>>
    decreases to,
{
    if to <= from {
        s
    } else {
        merge_ids(unlocks_through(s, table, from, (to - 1) as nat), table(to))
    }
}

/// Points granted on reaching `level`.
pub open spec fn reward_points(level: nat) -> nat {
    5 + (level / 5) * 2
}

/// Total points granted for the levels `from + 1 ..= to`.
pub open spec fn points_through(from: nat, to: nat) -> nat
    decreases to,
{
    if to <= from {
        0
    } else {
        points_through(from, (to - 1) as nat) + reward_points(to)
    }
}

/// Skills unlocked on reaching `level`.
pub open spec fn skill_unlocks(level: nat) -> Seq<Seq<char>> {
    if level == 3 {
        seq!["news_digest"@]
    } else if level == 7 {
        seq!["stock_alert"@]
    } else if level == 10 {
        seq!["speed_read"@]
    } else if level == 20 {
        seq!["cosmic_insight"@]
    } else if level == 30 {
        seq!["fire_breath"@]
    } else if level == 50 {
        seq!["omniscience"@]
    } else {
        seq![]
    }
}

/// Outfits unlocked on reaching `level`.
pub open spec fn outfit_unlocks(level: nat) -> Seq<Seq<char>> {
    if level == 5 {
        seq!["hacker"@]
    } else if level == 10 {
        seq!["wizard"@]
    } else if level == 15 {
        seq!["ninja"@]
    } else if level == 20 {
        seq!["astronaut"@]
    } else if level == 25 {
        seq!["robot"@]
    } else if level == 30 {
        seq!["dragon"@]
    } else if level == 50 {
        seq!["legendary"@]
    } else {
        seq![]
    }
}

/// Emotes unlocked on reaching `level`.
pub open spec fn emote_unlocks(level: nat) -> Seq<Seq<char>> {
    if level == 2 {
        seq!["excited"@]
    } else if level == 5 {
        seq!["cool"@]
    } else if level == 15 {
        seq!["stealth"@]
    } else {
        seq![]
    }
}

/// `r` is the reward for reaching `level`.
pub open spec fn is_reward_for(r: LevelUpReward, level: nat) -> bool {
    &&& r.level == level
    &&& r.points == reward_points(level)
    &&& ids(r.unlocked_skills@) == skill_unlocks(level)
    &&& ids(r.unlocked_outfits@) == outfit_unlocks(level)
    &&& ids(r.unlocked_emotes@) == emote_unlocks(level)
}

/// The level reached from `level` with `exp` experience: promote while the next
/// threshold is met. No threshold past level 99 fits in a `u64`.
pub open spec fn level_after(exp: nat, level: nat) -> nat
    decreases 99 - level,
{
    if level < 99 && exp >= xp_threshold(level + 1) {
        level_after(exp, level + 1)
    } else {
        level
    }
}

/// The level that `exp` experience earns from the start: the greatest level whose
/// threshold is met, counting level 1 as always met.
pub open spec fn level_for_experience(exp: nat) -> nat {
    level_after(exp, 1)
}

/// Mood on returning after `elapsed` seconds away.
pub open spec fn mood_for_absence(elapsed: int) -> CreatureMood {
    if elapsed >= 168 * 3600 {
        CreatureMood::Lonely
    } else if elapsed >= 24 * 3600 {
        CreatureMood::Sleepy
    } else {
        CreatureMood::Happy
    }
}

impl Creature {
    /// The progression invariants: level 1 or more and consistent with experience,
    /// active skills among the unlocked ones, the equipped outfit among the unlocked ones.
    pub open spec fn wf(&self) -> bool {
        &&& self.level >= 1
        &&& self.level == level_for_experience(self.experience as nat)
        &&& forall|i: int|
            0 <= i < self.active_skills@.len() ==> ids(self.unlocked_skills@).contains(
                #[trigger] self.active_skills@[i]@,
            )
        &&& match self.equipped_outfit {
            Some(o) => ids(self.unlocked_outfits@).contains(o@),
            None => true,
        }
    }
}

/// 3 to the power `n`.
pub open spec fn pow3(n: nat) -> nat
    decreases n,
{
    if n == 0 {
        1
    } else {
        3 * pow3((n - 1) as nat)
    }
}

/// 2 to the power `n`.
pub open spec fn pow2(n: nat) -> nat
    decreases n,
{
    if n == 0 {
        1
    } else {
        2 * pow2((n - 1) as nat)
    }
}

/// The experience needed to reach `level`: floor(100 * 1.5^(level - 1)).
/// For level 0 the same formula gives floor(100 / 1.5) = 66.
pub open spec fn xp_threshold(level: nat) -> nat {
    if level == 0 {
        66
    } else {
        (100 * pow3((level - 1) as nat) / pow2((level - 1) as nat)) as nat
    }
}

proof fn lemma_pow_positive(n: nat)
    ensures
        pow2(n) >= 1,
        pow3(n) >= pow2(n),
        pow3(n) <= pow2(n) * pow2(n),
    decreases n,
{
    if n > 0 {
        let m = (n - 1) as nat;
        lemma_pow_positive(m);
        assert(pow3(n) == 3 * pow3(m));
        assert(pow2(n) == 2 * pow2(m));
        assert(3 * pow3(m) <= 4 * (pow2(m) * pow2(m))) by (nonlinear_arith)
            requires pow3(m) <= pow2(m) * pow2(m);
        assert((2 * pow2(m)) * (2 * pow2(m)) == 4 * (pow2(m) * pow2(m))) by (nonlinear_arith);
    }
}

/// Every threshold from level 1 on is at least 100.
proof fn lemma_threshold_at_least_100(level: nat)
    requires
        level >= 1,
    ensures
        xp_threshold(level) >= 100,
{
    let k = (level - 1) as nat;
    lemma_pow_positive(k);
    let d = pow2(k);
    let x = 100 * pow3(k);
    assert(x >= 100 * d) by (nonlinear_arith)
        requires x == 100 * pow3(k), pow3(k) >= d;
    assert(x / d >= 100) by (nonlinear_arith)
        requires x >= 100 * d, d >= 1;
}

/// Each threshold is strictly above the one before it.
pub proof fn lemma_threshold_step(level: nat)
    ensures
        xp_threshold(level) < xp_threshold(level + 1),
{
    if level >= 1 {
        let k = (level - 1) as nat;
        lemma_pow_positive(k);
        lemma_threshold_at_least_100(level);
        let d = pow2(k);
        let x = 100 * pow3(k);
        let q = x / d;
        assert(pow3(k + 1) == 3 * pow3(k));
        assert(pow2(k + 1) == 2 * pow2(k));
        let t = (3 * x) / (2 * d);
        assert(xp_threshold(level) == q);
        assert(xp_threshold(level + 1) == t) by {
            assert(100 * pow3(k + 1) == 3 * x);
        }
        assert(q * d <= x) by (nonlinear_arith)
            requires d >= 1, q == x / d;
        assert(3 * x < (t + 1) * (2 * d)) by (nonlinear_arith)
            requires d >= 1, t == (3 * x) / (2 * d);
        assert(t > q) by (nonlinear_arith)
            requires q * d <= x, 3 * x < (t + 1) * (2 * d), q >= 100, d >= 1;
    } else {
        assert(pow3(0) == 1 && pow2(0) == 1);
        assert(pow3((1 - 1) as nat) == 1);
        assert(pow2((1 - 1) as nat) == 1);
        assert(xp_threshold(1) == 100);
    }
}

/// Thresholds never decrease as the level grows.
pub proof fn lemma_threshold_monotonic(a: nat, b: nat)
    requires
        a <= b,
    ensures
        xp_threshold(a) <= xp_threshold(b),
    decreases b - a,
{
    if a < b {
        lemma_threshold_step(a);
        lemma_threshold_monotonic(a + 1, b);
    }
}

/// The threshold of level 100 is beyond what a `u64` can count.
proof fn lemma_threshold_100_exceeds_u64()
    ensures
        xp_threshold(100) > u64::MAX,
{
    lemma_pow_values();
    assert(xp_threshold(100) == 100 * pow3(99) / pow2(99));
    let x: int = 17179250691067044367882037658854042423403584066700int;
    let d: int = 633825300114114700748351602688int;
    assert(x / d > 18446744073709551615int) by (nonlinear_arith)
        requires x == 17179250691067044367882037658854042423403584066700int,
            d == 633825300114114700748351602688int,
    {
        assert(18446744073709551616int * d <= x);
    }
}

proof fn lemma_pow_values()
    ensures
        pow3(98) == 57264168970223481226273458862846808078011946889nat,
        pow2(98) == 316912650057057350374175801344nat,
        pow3(99) == 171792506910670443678820376588540424234035840667nat,
        pow2(99) == 633825300114114700748351602688nat,
{
    reveal_with_fuel(pow3, 10);
    reveal_with_fuel(pow2, 10);
    assert(pow3(9) == 19683);
    assert(pow2(9) == 512);
    assert(pow3(8) == 6561);
    assert(pow2(8) == 256);
    lemma_pow_add(9, 9);
    assert(pow3(18) == 387420489);
    assert(pow2(18) == 262144);
    lemma_pow_add(18, 18);
    assert(pow3(36) == 150094635296999121nat);
    assert(pow2(36) == 68719476736nat);
    lemma_pow_add(36, 36);
    assert(pow3(72) == 22528399544939174411840147874772641nat);
    assert(pow2(72) == 4722366482869645213696nat);
    lemma_pow_add(72, 18);
    assert(pow3(90) == 8727963568087712425891397479476727340041449nat);
    assert(pow2(90) == 1237940039285380274899124224nat);
    lemma_pow_add(90, 9);
    lemma_pow_add(90, 8);
}

proof fn lemma_pow_add(a: nat, b: nat)
    ensures
        pow3(a + b) == pow3(a) * pow3(b),
        pow2(a + b) == pow2(a) * pow2(b),
    decreases b,
{
    if b > 0 {
        let c = (b - 1) as nat;
        lemma_pow_add(a, c);
        let s = a + c;
        assert(s + 1 == a + b);
        assert(pow3(s + 1) == 3 * pow3(s));
        assert(pow2(s + 1) == 2 * pow2(s));
        assert(pow3(b) == 3 * pow3(c));
        assert(pow2(b) == 2 * pow2(c));
        assert(pow3(a) * (3 * pow3(c)) == 3 * (pow3(a) * pow3(c))) by (nonlinear_arith);
        assert(pow2(a) * (2 * pow2(c)) == 2 * (pow2(a) * pow2(c))) by (nonlinear_arith);
        assert(pow3(a + b) == pow3(s + 1));
        assert(pow2(a + b) == pow2(s + 1));
    } else {
        assert(a + b == a);
        assert(pow3(b) == 1 && pow2(b) == 1);
    }
}

/// The threshold of level 99 is the last one a `u64` can count.
proof fn lemma_threshold_99_fits()
    ensures
        xp_threshold(99) == 18069385668231788328nat,
{
    lemma_pow_values();
    assert(pow3(98) == 57264168970223481226273458862846808078011946889nat);
    assert(pow2(98) == 316912650057057350374175801344nat);
    let x: int = 5726416897022348122627345886284680807801194688900int;
    let d: int = 316912650057057350374175801344int;
    let q: int = 18069385668231788328int;
    let r: int = x - q * d;
    assert(0 <= r < d) by (nonlinear_arith)
        requires x == 5726416897022348122627345886284680807801194688900int,
            d == 316912650057057350374175801344int, q == 18069385668231788328int, r == x - q * d,
    ;
    lemma_fundamental_div_mod_converse(x, d, q, r);
}

proof fn lemma_pow2_le(k: nat, m: nat)
    requires
        k <= m,
    ensures
        pow2(k) <= pow2(m),
    decreases m - k,
{
    if k < m {
        lemma_pow2_le(k + 1, m);
        assert(pow2(k + 1) == 2 * pow2(k));
    }
}

/// A threshold fits in a `u64` exactly up to level 99.
pub proof fn lemma_threshold_fits_u64(level: nat)
    ensures
        xp_threshold(level) <= u64::MAX <==> level <= 99,
{
    lemma_threshold_99_fits();
    lemma_threshold_100_exceeds_u64();
    if level <= 99 {
        lemma_threshold_monotonic(level, 99);
    } else {
        lemma_threshold_monotonic(100, level);
    }
}

proof fn lemma_level_after_ge(exp: nat, level: nat)
    ensures
        level_after(exp, level) >= level,
    decreases 99 - level,
{
    if level < 99 && exp >= xp_threshold(level + 1) {
        lemma_level_after_ge(exp, level + 1);
    }
}

proof fn lemma_points_through_monotonic(from: nat, a: nat, b: nat)
    requires
        a <= b,
    ensures
        points_through(from, a) <= points_through(from, b),
    decreases b - a,
{
    if a < b {
        lemma_points_through_monotonic(from, a, (b - 1) as nat);
    }
}

proof fn lemma_ids_push(v: Seq<String>, x: String)
    ensures
        ids(v.push(x)) == ids(v).push(x@),
{
    assert(ids(v.push(x)) =~= ids(v).push(x@));
}

/// Whether `v` holds a string equal to `id`.
pub(crate) fn contains_id(v: &Vec<String>, id: &String) -> (r: bool)
    ensures
        r == ids(v@).contains(id@),
{
    let mut i: usize = 0;
    while i < v.len()
        invariant
            0 <= i <= v@.len(),
            forall|j: int| 0 <= j < i ==> v@[j]@ != id@,
        decreases v.len() - i,
    {
        if v[i] == *id {
            assert(ids(v@)[i as int] == id@);
            return true;
        }
        i += 1;
    }
    assert forall|j: int| 0 <= j < ids(v@).len() implies ids(v@)[j] != id@ by {
        assert(ids(v@)[j] == v@[j]@);
    }
    false
}

/// Adds each of `items` to `v` in order, skipping those already present.
pub(crate) fn merge_into(v: &mut Vec<String>, items: &Vec<String>)
    ensures
        ids(final(v)@) == merge_ids(ids(old(v)@), ids(items@)),
{
    let ghost start = ids(v@);
    let mut j: usize = 0;
    while j < items.len()
        invariant
            0 <= j <= items@.len(),
            ids(v@) == merge_ids(start, ids(items@).take(j as int)),
        decreases items.len() - j,
    {
        let ghost before = ids(v@);
        let ghost taken = ids(items@).take(j as int + 1);
        assert(taken.drop_last() =~= ids(items@).take(j as int));
        assert(taken.last() == items@[j as int]@);
        if !contains_id(v, &items[j]) {
            proof {
                lemma_ids_push(v@, items@[j as int]);
            }
            v.push(items[j].clone());
        }
        j += 1;
    }
    assert(ids(items@).take(items@.len() as int) =~= ids(items@));
}

/// A vector of owned strings holding the given texts.
fn id_list(a: &str) -> (r: Vec<String>)
    ensures
        ids(r@) == seq![a@],
{
    let mut v: Vec<String> = Vec::new();
    v.push(a.to_owned());
    proof {
        lemma_ids_push(Seq::empty(), v@[0]);
        assert(Seq::<String>::empty().push(v@[0]) =~= v@);
        assert(ids(Seq::<String>::empty()) =~= Seq::<Seq<char>>::empty());
    }
    v
}

fn empty_ids() -> (r: Vec<String>)
    ensures
        ids(r@) == Seq::<Seq<char>>::empty(),
{
    let v: Vec<String> = Vec::new();
    assert(ids(v@) =~= Seq::<Seq<char>>::empty());
    v
}

impl Creature {
    /// The reward for reaching the creature's current level, from the fixed
    /// level-to-reward table.
    fn calculate_level_reward(&self) -> (r: LevelUpReward)
        ensures
            is_reward_for(r, self.level as nat),
    {
        let level = self.level;
        let points: u32 = 5 + (level / 5) * 2;
        let skills = if level == 3 {
            id_list("news_digest")
        } else if level == 7 {
            id_list("stock_alert")
        } else if level == 10 {
            id_list("speed_read")
        } else if level == 20 {
            id_list("cosmic_insight")
        } else if level == 30 {
            id_list("fire_breath")
        } else if level == 50 {
            id_list("omniscience")
        } else {
            empty_ids()
        };
        let outfits = if level == 5 {
            id_list("hacker")
        } else if level == 10 {
            id_list("wizard")
        } else if level == 15 {
            id_list("ninja")
        } else if level == 20 {
            id_list("astronaut")
        } else if level == 25 {
            id_list("robot")
        } else if level == 30 {
            id_list("dragon")
        } else if level == 50 {
            id_list("legendary")
        } else {
            empty_ids()
        };
        let emotes = if level == 2 {
            id_list("excited")
        } else if level == 5 {
            id_list("cool")
        } else if level == 15 {
            id_list("stealth")
        } else {
            empty_ids()
        };
        LevelUpReward {
            level,
            points,
            unlocked_skills: skills,
            unlocked_outfits: outfits,
            unlocked_emotes: emotes,
        }
    }

    /// Experience needed to reach `level`, floor(100 * 1.5^(level - 1)).
    /// Beyond level 99 the threshold exceeds `u64::MAX` and the result saturates there.
    pub fn xp_for_level(level: u32) -> (r: u64)
        ensures
            level <= 99 ==> r == xp_threshold(level as nat),
            level > 99 ==> r == u64::MAX,
    {
        if level == 0 {
            return 66;
        }
        if level > 99 {
            return u64::MAX;
        }
        let n: u32 = level - 1;
        let mut a: u128 = 100;
        let mut r: u128 = 0;
        let mut p: u128 = 1;
        let mut k: u32 = 0;
        proof {
            lemma_pow2_le(n as nat, 98);
            lemma_pow_values();
            assert(pow2(98) == 316912650057057350374175801344nat);
        }
        while k < n
            invariant
                k <= n <= 98,
                p == pow2(k as nat),
                pow2(n as nat) <= 316912650057057350374175801344nat,
                a * p + r == 100 * pow3(k as nat),
                r < p,
                a <= 100 * p,
            decreases n - k,
        {
            proof {
                lemma_pow2_le((k + 1) as nat, n as nat);
                lemma_pow2_le(k as nat, n as nat);
                lemma_pow_positive((k + 1) as nat);
                assert(pow2((k + 1) as nat) == 2 * pow2(k as nat));
                assert(pow3((k + 1) as nat) == 3 * pow3(k as nat));
            }
            let a3: u128 = 3 * a;
            let p2: u128 = 2 * p;
            let t: u128 = if a3 % 2 == 1 { p + 3 * r } else { 3 * r };
            assert(t == (a3 % 2) * p + 3 * r) by {
                if a3 % 2 == 1 {
                    assert((a3 % 2) * p == p);
                } else {
                    assert(a3 % 2 == 0);
                    assert((a3 % 2) * p == 0);
                }
            }
            let na: u128 = a3 / 2 + t / p2;
            let nr: u128 = t % p2;
            proof {
                let x = 100 * pow3(k as nat);
                assert(3 * x == na * p2 + nr) by (nonlinear_arith)
                    requires
                        x == a * p + r,
                        a3 == 3 * a,
                        p2 == 2 * p,
                        p >= 1,
                        t == (a3 % 2) * p + 3 * r,
                        na == a3 / 2 + t / p2,
                        nr == t % p2,
                ;
                let np = pow2((k + 1) as nat);
                let x3 = 100 * pow3((k + 1) as nat);
                assert(x3 <= 100 * (np * np));
                assert(na <= 100 * np) by (nonlinear_arith)
                    requires na * np + nr == x3, x3 <= 100 * (np * np), np >= 1, nr >= 0,
                ;
            }
            a = na;
            r = nr;
            p = p2;
            k = k + 1;
        }
        proof {
            lemma_pow_positive(n as nat);
            lemma_fundamental_div_mod_converse((100 * pow3(n as nat)) as int, p as int, a as int, r as int);
            assert(a == xp_threshold(level as nat));
            lemma_threshold_fits_u64(level as nat);
        }
        a as u64
    }
}

impl Creature {
    /// Adds `xp` experience, then promotes level by level while the next threshold
    /// is met. Each level crossed grants its reward: points, and unlocks merged into
    /// the unlocked lists without duplicates. Returns the rewards in level order.
    pub fn add_experience(&mut self, xp: u64) -> (rewards: Vec<LevelUpReward>)
        requires
            old(self).experience + xp <= u64::MAX,
            old(self).points + points_through(
                old(self).level as nat,
                level_after((old(self).experience + xp) as nat, old(self).level as nat),
            ) <= u32::MAX,
        ensures
            final(self).experience == old(self).experience + xp,
            final(self).level == level_after(final(self).experience as nat, old(self).level as nat),
            final(self).level >= old(self).level,
            final(self).points == old(self).points + points_through(
                old(self).level as nat,
                final(self).level as nat,
            ),
            ids(final(self).unlocked_skills@) == unlocks_through(
                ids(old(self).unlocked_skills@),
                |l: nat| skill_unlocks(l),
                old(self).level as nat,
                final(self).level as nat,
            ),
            ids(final(self).unlocked_outfits@) == unlocks_through(
                ids(old(self).unlocked_outfits@),
                |l: nat| outfit_unlocks(l),
                old(self).level as nat,
                final(self).level as nat,
            ),
            ids(final(self).unlocked_emotes@) == unlocks_through(
                ids(old(self).unlocked_emotes@),
                |l: nat| emote_unlocks(l),
                old(self).level as nat,
                final(self).level as nat,
            ),
            rewards@.len() == final(self).level - old(self).level,
            forall|i: int|
                0 <= i < rewards@.len() ==> is_reward_for(
                    #[trigger] rewards@[i],
                    (old(self).level + 1 + i) as nat,
                ),
            final(self).name == old(self).name,
            final(self).species == old(self).species,
            final(self).stats == old(self).stats,
            final(self).appearance == old(self).appearance,
            final(self).active_skills == old(self).active_skills,
            final(self).equipped_outfit == old(self).equipped_outfit,
            final(self).mood == old(self).mood,
            final(self).created_at == old(self).created_at,
            final(self).last_seen == old(self).last_seen,
            final(self).total_sessions == old(self).total_sessions,
            final(self).total_time_seconds == old(self).total_time_seconds,
            old(self).wf() ==> final(self).wf(),
            gained(*old(self), *final(self), xp as nat),
    {
        let ghost before = *self;
        self.experience = self.experience + xp;
        let ghost exp = self.experience as nat;
        let ghost start = self.level as nat;
        let ghost target = level_after(exp, start);
        let ghost skills0 = ids(self.unlocked_skills@);
        let ghost outfits0 = ids(self.unlocked_outfits@);
        let ghost emotes0 = ids(self.unlocked_emotes@);
        let ghost old_points = self.points as nat;
        let mut rewards: Vec<LevelUpReward> = Vec::new();
        proof {
            lemma_level_after_ge(exp, start);
        }
        while self.level < 99 && self.experience >= Self::xp_for_level(self.level + 1)
            invariant
                self.experience == exp,
                start <= self.level <= target,
                level_after(exp, self.level as nat) == target,
                self.points == old_points + points_through(start, self.level as nat),
                old_points + points_through(start, target) <= u32::MAX,
                ids(self.unlocked_skills@) == unlocks_through(
                    skills0,
                    |l: nat| skill_unlocks(l),
                    start,
                    self.level as nat,
                ),
                ids(self.unlocked_outfits@) == unlocks_through(
                    outfits0,
                    |l: nat| outfit_unlocks(l),
                    start,
                    self.level as nat,
                ),
                ids(self.unlocked_emotes@) == unlocks_through(
                    emotes0,
                    |l: nat| emote_unlocks(l),
                    start,
                    self.level as nat,
                ),
                rewards@.len() == self.level - start,
                forall|i: int|
                    0 <= i < rewards@.len() ==> is_reward_for(
                        #[trigger] rewards@[i],
                        (start + 1 + i) as nat,
                    ),
                self.name == old(self).name,
                self.species == old(self).species,
                self.stats == old(self).stats,
                self.appearance == old(self).appearance,
                self.active_skills == old(self).active_skills,
                self.equipped_outfit == old(self).equipped_outfit,
                self.mood == old(self).mood,
                self.created_at == old(self).created_at,
                self.last_seen == old(self).last_seen,
                self.total_sessions == old(self).total_sessions,
                self.total_time_seconds == old(self).total_time_seconds,
            decreases 99 - self.level,
        {
            proof {
                lemma_level_after_ge(exp, self.level as nat + 1);
                lemma_points_through_monotonic(start, self.level as nat + 1, target);
            }
            self.level = self.level + 1;
            let reward = self.calculate_level_reward();
            self.points = self.points + reward.points;
            merge_into(&mut self.unlocked_skills, &reward.unlocked_skills);
            merge_into(&mut self.unlocked_outfits, &reward.unlocked_outfits);
            merge_into(&mut self.unlocked_emotes, &reward.unlocked_emotes);
            rewards.push(reward);
        }
        proof {
            if before.wf() {
                Self::lemma_add_experience_keeps_wf(&before, self, xp as nat);
            }
        }
        rewards
    }
}

/// `after` is `before` once `xp` experience is added and every level it reaches is
/// rewarded, as `add_experience` does.
pub open spec fn gained(before: Creature, after: Creature, xp: nat) -> bool {
    &&& after.experience == before.experience + xp
    &&& after.level == level_after(after.experience as nat, before.level as nat)
    &&& after.points == before.points + points_through(before.level as nat, after.level as nat)
    &&& ids(after.unlocked_skills@) == unlocks_through(
        ids(before.unlocked_skills@),
        |l: nat| skill_unlocks(l),
        before.level as nat,
        after.level as nat,
    )
    &&& ids(after.unlocked_outfits@) == unlocks_through(
        ids(before.unlocked_outfits@),
        |l: nat| outfit_unlocks(l),
        before.level as nat,
        after.level as nat,
    )
    &&& ids(after.unlocked_emotes@) == unlocks_through(
        ids(before.unlocked_emotes@),
        |l: nat| emote_unlocks(l),
        before.level as nat,
        after.level as nat,
    )
    &&& after.name == before.name
    &&& after.species == before.species
    &&& after.stats == before.stats
    &&& after.appearance == before.appearance
    &&& after.active_skills == before.active_skills
    &&& after.equipped_outfit == before.equipped_outfit
    &&& after.mood == before.mood
    &&& after.created_at == before.created_at
    &&& after.last_seen == before.last_seen
    &&& after.total_sessions == before.total_sessions
    &&& after.total_time_seconds == before.total_time_seconds
}

/// The fields that progression leaves alone.
pub open spec fn same_profile(a: &Creature, b: &Creature) -> bool {
    &&& a.name == b.name
    &&& a.species == b.species
    &&& a.stats == b.stats
    &&& a.appearance == b.appearance
    &&& a.mood == b.mood
    &&& a.created_at == b.created_at
    &&& a.last_seen == b.last_seen
    &&& a.total_sessions == b.total_sessions
    &&& a.total_time_seconds == b.total_time_seconds
    &&& a.level == b.level
    &&& a.experience == b.experience
}

/// `skill` can be bought: enough points, not yet unlocked, every prerequisite unlocked.
pub open spec fn can_purchase(c: &Creature, skill: &Skill) -> bool {
    &&& c.points >= skill.cost
    &&& !ids(c.unlocked_skills@).contains(skill.id@)
    &&& forall|i: int|
        0 <= i < skill.prerequisites@.len() ==> ids(c.unlocked_skills@).contains(
            #[trigger] skill.prerequisites@[i]@,
        )
}

/// The text of an optional string.
pub open spec fn opt_text(o: Option<String>) -> Option<Seq<char>> {
    match o {
        Some(s) => Some(s@),
        None => None,
    }
}

impl Creature {
    /// Accumulates `seconds` of active time and returns the experience it earns,
    /// one unit per whole ten seconds. Adding that experience is left to the caller.
    pub fn tick_session(&mut self, seconds: u64) -> (xp: u64)
        requires
            old(self).total_time_seconds + seconds <= u64::MAX,
        ensures
            xp == seconds / 10,
            *final(self) == (Creature {
                total_time_seconds: (old(self).total_time_seconds + seconds) as u64,
                ..*old(self)
            }),
    {
        self.total_time_seconds = self.total_time_seconds + seconds;
        seconds / 10
    }

    /// Records a session starting at `now`: counts it, sets the mood from the time
    /// since the previous session, then moves `last_seen` to `now`.
    pub fn start_session_at(&mut self, now: i64)
        requires
            old(self).total_sessions < u64::MAX,
        ensures
            *final(self) == (Creature {
                total_sessions: (old(self).total_sessions + 1) as u64,
                mood: mood_for_absence(now - old(self).last_seen),
                last_seen: now,
                ..*old(self)
            }),
    {
        self.total_sessions = self.total_sessions + 1;
        let elapsed: i128 = now as i128 - self.last_seen as i128;
        self.mood = if elapsed >= 168 * 3600 {
            CreatureMood::Lonely
        } else if elapsed >= 24 * 3600 {
            CreatureMood::Sleepy
        } else {
            CreatureMood::Happy
        };
        self.last_seen = now;
    }

    /// Records a session starting now, by the system clock.
    pub fn start_session(&mut self)
        requires
            old(self).total_sessions < u64::MAX,
        ensures
            *final(self) == (Creature {
                total_sessions: (old(self).total_sessions + 1) as u64,
                mood: mood_for_absence(final(self).last_seen - old(self).last_seen),
                last_seen: final(self).last_seen,
                ..*old(self)
            }),
    {
        let now = now_timestamp();
        self.start_session_at(now);
    }

    /// Whether `skill` can be bought now.
    pub fn can_purchase_skill(&self, skill: &Skill) -> (r: bool)
        ensures
            r == can_purchase(self, skill),
    {
        if self.points < skill.cost {
            return false;
        }
        if contains_id(&self.unlocked_skills, &skill.id) {
            return false;
        }
        let mut i: usize = 0;
        while i < skill.prerequisites.len()
            invariant
                0 <= i <= skill.prerequisites@.len(),
                forall|j: int|
                    0 <= j < i ==> ids(self.unlocked_skills@).contains(
                        #[trigger] skill.prerequisites@[j]@,
                    ),
            decreases skill.prerequisites.len() - i,
        {
            if !contains_id(&self.unlocked_skills, &skill.prerequisites[i]) {
                return false;
            }
            i += 1;
        }
        true
    }

    /// Buys `skill` when it can be bought: the cost is deducted and the id unlocked.
    /// Otherwise nothing changes. Returns whether the purchase happened.
    pub fn purchase_skill(&mut self, skill: &Skill) -> (r: bool)
        ensures
            r == can_purchase(old(self), skill),
            r ==> final(self).points == old(self).points - skill.cost,
            r ==> ids(final(self).unlocked_skills@) == ids(old(self).unlocked_skills@).push(skill.id@),
            r ==> same_profile(final(self), old(self)),
            r ==> final(self).active_skills == old(self).active_skills,
            r ==> final(self).unlocked_outfits == old(self).unlocked_outfits,
            r ==> final(self).equipped_outfit == old(self).equipped_outfit,
            r ==> final(self).unlocked_emotes == old(self).unlocked_emotes,
            !r ==> *final(self) == *old(self),
    {
        if self.can_purchase_skill(skill) {
            self.points = self.points - skill.cost;
            proof {
                lemma_ids_push(self.unlocked_skills@, skill.id);
            }
            self.unlocked_skills.push(skill.id.clone());
            true
        } else {
            false
        }
    }

    /// Equips an unlocked outfit. An outfit that is not unlocked leaves everything
    /// unchanged. Returns whether it was equipped.
    pub fn equip_outfit(&mut self, outfit_id: &str) -> (r: bool)
        ensures
            r == ids(old(self).unlocked_outfits@).contains(outfit_id@),
            r ==> opt_text(final(self).equipped_outfit) == Some(outfit_id@),
            r ==> same_profile(final(self), old(self)),
            r ==> final(self).points == old(self).points,
            r ==> final(self).unlocked_skills == old(self).unlocked_skills,
            r ==> final(self).active_skills == old(self).active_skills,
            r ==> final(self).unlocked_outfits == old(self).unlocked_outfits,
            r ==> final(self).unlocked_emotes == old(self).unlocked_emotes,
            !r ==> *final(self) == *old(self),
    {
        let id = outfit_id.to_owned();
        if contains_id(&self.unlocked_outfits, &id) {
            self.equipped_outfit = Some(id);
            true
        } else {
            false
        }
    }

    /// Flips whether an unlocked skill is active: an active one is removed from the
    /// active list (every copy), an inactive one appended. A skill that is not unlocked
    /// leaves everything unchanged. Returns whether the skill was unlocked.
    pub fn toggle_skill(&mut self, skill_id: &str) -> (r: bool)
        ensures
            r == ids(old(self).unlocked_skills@).contains(skill_id@),
            r && ids(old(self).active_skills@).contains(skill_id@) ==> ids(
                final(self).active_skills@,
            ) == ids(old(self).active_skills@).filter(|x: Seq<char>| x != skill_id@),
            r && !ids(old(self).active_skills@).contains(skill_id@) ==> ids(
                final(self).active_skills@,
            ) == ids(old(self).active_skills@).push(skill_id@),
            r ==> same_profile(final(self), old(self)),
            r ==> final(self).points == old(self).points,
            r ==> final(self).unlocked_skills == old(self).unlocked_skills,
            r ==> final(self).unlocked_outfits == old(self).unlocked_outfits,
            r ==> final(self).equipped_outfit == old(self).equipped_outfit,
            r ==> final(self).unlocked_emotes == old(self).unlocked_emotes,
            !r ==> *final(self) == *old(self),
    {
        let id = skill_id.to_owned();
        if !contains_id(&self.unlocked_skills, &id) {
            return false;
        }
        if contains_id(&self.active_skills, &id) {
            let ghost pred = |x: Seq<char>| x != skill_id@;
            let mut kept: Vec<String> = Vec::new();
            let mut i: usize = 0;
            while i < self.active_skills.len()
                invariant
                    0 <= i <= self.active_skills@.len(),
                    id@ == skill_id@,
                    pred == (|x: Seq<char>| x != skill_id@),
                    ids(kept@) == ids(self.active_skills@).take(i as int).filter(pred),
                decreases self.active_skills.len() - i,
            {
                let ghost prefix = ids(self.active_skills@).take(i as int + 1);
                assert(prefix.drop_last() =~= ids(self.active_skills@).take(i as int));
                assert(prefix.last() == self.active_skills@[i as int]@);
                proof {
                    reveal(Seq::filter);
                }
                if self.active_skills[i] != id {
                    proof {
                        lemma_ids_push(kept@, self.active_skills@[i as int]);
                    }
                    kept.push(self.active_skills[i].clone());
                }
                i += 1;
            }
            assert(ids(self.active_skills@).take(i as int) =~= ids(self.active_skills@));
            self.active_skills = kept;
        } else {
            proof {
                lemma_ids_push(self.active_skills@, id);
            }
            self.active_skills.push(id);
        }
        true
    }
}

/// Promotion only moves up, and more experience never reaches a lower level.
pub proof fn lemma_level_after_monotonic(e1: nat, e2: nat, level: nat)
    requires
        e1 <= e2,
    ensures
        level <= level_after(e1, level),
        level_after(e1, level) <= level_after(e2, level),
    decreases 99 - level,
{
    lemma_level_after_ge(e1, level);
    lemma_level_after_ge(e2, level);
    if level < 99 && e1 >= xp_threshold(level + 1) {
        lemma_level_after_monotonic(e1, e2, level + 1);
    }
}

/// Gaining experience in two steps reaches the same level as gaining it at once,
/// and the level after the first step lies between the start and the end.
pub proof fn lemma_experience_in_two_steps(e: nat, a: nat, b: nat, level: nat)
    ensures
        level_after(e + a + b, level_after(e + a, level)) == level_after(e + a + b, level),
        level <= level_after(e + a, level) <= level_after(e + a + b, level),
    decreases 99 - level,
{
    lemma_level_after_monotonic(e + a, e + a + b, level);
    if level < 99 && e + a >= xp_threshold(level + 1) {
        lemma_experience_in_two_steps(e, a, b, level + 1);
    }
}

/// Experience and level after the gains of `gains` are added in turn, starting
/// from `exp` and `level`, each as `add_experience` states it.
pub open spec fn after_gains(exp: nat, level: nat, gains: Seq<nat>) -> (nat, nat)
    decreases gains.len(),
{
    if gains.len() == 0 {
        (exp, level)
    } else {
        let (e, l) = after_gains(exp, level, gains.drop_last());
        (e + gains.last(), level_after(e + gains.last(), l))
    }
}

/// Across any sequence of experience gains, neither experience nor level ever
/// decreases: the state after a longer prefix is at least the state after a
/// shorter one.
pub proof fn lemma_gains_monotonic(exp: nat, level: nat, gains: Seq<nat>, i: int, j: int)
    requires
        0 <= i <= j <= gains.len(),
    ensures
        after_gains(exp, level, gains.take(i)).0 <= after_gains(exp, level, gains.take(j)).0,
        after_gains(exp, level, gains.take(i)).1 <= after_gains(exp, level, gains.take(j)).1,
    decreases j - i,
{
    if i < j {
        lemma_gains_monotonic(exp, level, gains, i, j - 1);
        let t = gains.take(j);
        assert(t.drop_last() =~= gains.take(j - 1));
        let (e, l) = after_gains(exp, level, gains.take(j - 1));
        lemma_level_after_ge(e + t.last(), l);
    }
}

proof fn lemma_merge_keeps(s: Seq<Seq<char>>, items: Seq<Seq<char>>, x: Seq<char>)
    requires
        s.contains(x),
    ensures
        merge_ids(s, items).contains(x),
    decreases items.len(),
{
    if items.len() > 0 {
        lemma_merge_keeps(s, items.drop_last(), x);
        let m = merge_ids(s, items.drop_last());
        if !m.contains(items.last()) {
            let i = choose|i: int| 0 <= i < m.len() && m[i] == x;
            assert(m.push(items.last())[i] == x);
        }
    }
}

proof fn lemma_unlocks_keep(
    s: Seq<Seq<char>>,
    table: spec_fn(nat) -> Seq<Seq<char>>,
    from: nat,
    to: nat,
    x: Seq<char>,
)
    requires
        s.contains(x),
    ensures
        unlocks_through(s, table, from, to).contains(x),
    decreases to,
{
    if to > from {
        lemma_unlocks_keep(s, table, from, (to - 1) as nat, x);
        lemma_merge_keeps(unlocks_through(s, table, from, (to - 1) as nat), table(to), x);
    }
}

/// The points that reaching the level `exp` experience earns from `level` grants.
pub fn points_for_gain(exp: u64, level: u32) -> (r: u64)
    ensures
        r == points_through(level as nat, level_after(exp as nat, level as nat)),
        r <= 4400,
{
    let ghost target = level_after(exp as nat, level as nat);
    let mut l = level;
    let mut total: u64 = 0;
    proof {
        lemma_level_after_ge(exp as nat, level as nat);
        lemma_gain_points_bound(exp as nat, level as nat);
    }
    while l < 99 && exp >= Creature::xp_for_level(l + 1)
        invariant
            level <= l <= target,
            level_after(exp as nat, l as nat) == target,
            total == points_through(level as nat, l as nat),
            points_through(level as nat, target) <= 4400,
        decreases 99 - l,
    {
        proof {
            lemma_level_after_ge(exp as nat, l as nat + 1);
            lemma_points_through_monotonic(level as nat, l as nat + 1, target);
        }
        l = l + 1;
        total = total + 5 + (l as u64 / 5) * 2;
    }
    total
}

proof fn lemma_level_after_at_most_99(exp: nat, level: nat)
    requires
        level <= 99,
    ensures
        level_after(exp, level) <= 99,
    decreases 99 - level,
{
    if level < 99 && exp >= xp_threshold(level + 1) {
        lemma_level_after_at_most_99(exp, level + 1);
    }
}

proof fn lemma_points_through_bound(from: nat, to: nat)
    requires
        to <= 99,
    ensures
        points_through(from, to) <= 44 * (if to > from { to - from } else { 0 }),
    decreases to,
{
    if to > from {
        lemma_points_through_bound(from, (to - 1) as nat);
        assert(to / 5 <= 19);
    }
}

/// Points that any single experience gain can grant.
proof fn lemma_gain_points_bound(exp: nat, level: nat)
    ensures
        points_through(level, level_after(exp, level)) <= 4400,
{
    if level < 99 {
        lemma_level_after_at_most_99(exp, level);
        lemma_level_after_ge(exp, level);
        lemma_points_through_bound(level, level_after(exp, level));
    } else {
        assert(level_after(exp, level) == level);
    }
}

impl Creature {
    /// Experience still needed for the next level, zero when already met.
    pub fn xp_to_next_level(&self) -> (r: u64)
        requires
            self.level < u32::MAX,
        ensures
            self.level < 99 ==> r == if xp_threshold(self.level as nat + 1) >= self.experience {
                xp_threshold(self.level as nat + 1) - self.experience
            } else {
                0
            },
            self.level >= 99 ==> r == u64::MAX - self.experience,
    {
        Self::xp_for_level(self.level + 1).saturating_sub(self.experience)
    }

    /// The threshold of the current level, zero at level 1.
    pub fn xp_for_current_level(&self) -> (r: u64)
        ensures
            self.level == 1 ==> r == 0,
            self.level != 1 && self.level <= 99 ==> r == xp_threshold(self.level as nat),
            self.level > 99 ==> r == u64::MAX,
    {
        if self.level == 1 {
            0
        } else {
            Self::xp_for_level(self.level)
        }
    }

    /// A gain of experience as `add_experience` makes it keeps the progression invariants.
    proof fn lemma_add_experience_keeps_wf(before: &Creature, after: &Creature, xp: nat)
        requires
            before.wf(),
            after.experience == before.experience + xp,
            after.level == level_after(after.experience as nat, before.level as nat),
            ids(after.unlocked_skills@) == unlocks_through(
                ids(before.unlocked_skills@),
                |l: nat| skill_unlocks(l),
                before.level as nat,
                after.level as nat,
            ),
            ids(after.unlocked_outfits@) == unlocks_through(
                ids(before.unlocked_outfits@),
                |l: nat| outfit_unlocks(l),
                before.level as nat,
                after.level as nat,
            ),
            after.active_skills == before.active_skills,
            after.equipped_outfit == before.equipped_outfit,
        ensures
            after.wf(),
    {
        lemma_experience_in_two_steps(0, before.experience as nat, xp, 1);
        assert forall|i: int| 0 <= i < after.active_skills@.len() implies ids(
            after.unlocked_skills@,
        ).contains(#[trigger] after.active_skills@[i]@) by {
            lemma_unlocks_keep(
                ids(before.unlocked_skills@),
                |l: nat| skill_unlocks(l),
                before.level as nat,
                after.level as nat,
                after.active_skills@[i]@,
            );
        }
        if let Some(o) = after.equipped_outfit {
            lemma_unlocks_keep(
                ids(before.unlocked_outfits@),
                |l: nat| outfit_unlocks(l),
                before.level as nat,
                after.level as nat,
                o@,
            );
        }
    }
}

/// The species in menu order.
pub open spec fn all_species() -> Seq<CreatureSpecies> {
    seq![
        CreatureSpecies::Blob,
        CreatureSpecies::Bird,
        CreatureSpecies::Cat,
        CreatureSpecies::Dragon,
        CreatureSpecies::Fox,
        CreatureSpecies::Owl,
        CreatureSpecies::Penguin,
        CreatureSpecies::Robot,
        CreatureSpecies::Spirit,
        CreatureSpecies::Octopus,
    ]
}

pub open spec fn species_name(s: CreatureSpecies) -> Seq<char> {
    match s {
        CreatureSpecies::Blob => "Blob"@,
        CreatureSpecies::Bird => "Bird"@,
        CreatureSpecies::Cat => "Cat"@,
        CreatureSpecies::Dragon => "Dragon"@,
        CreatureSpecies::Fox => "Fox"@,
        CreatureSpecies::Owl => "Owl"@,
        CreatureSpecies::Penguin => "Penguin"@,
        CreatureSpecies::Robot => "Robot"@,
        CreatureSpecies::Spirit => "Spirit"@,
        CreatureSpecies::Octopus => "Octopus"@,
    }
}

pub open spec fn species_description(s: CreatureSpecies) -> Seq<char> {
    match s {
        CreatureSpecies::Blob => "A friendly blob that bounces with joy"@,
        CreatureSpecies::Bird => "A chirpy companion that loves news"@,
        CreatureSpecies::Cat => "A curious cat always watching the feeds"@,
        CreatureSpecies::Dragon => "A mini dragon with fiery enthusiasm"@,
        CreatureSpecies::Fox => "A clever fox with sharp insights"@,
        CreatureSpecies::Owl => "A wise owl for late-night browsing"@,
        CreatureSpecies::Penguin => "A cool penguin that slides through data"@,
        CreatureSpecies::Robot => "A helpful bot that never sleeps"@,
        CreatureSpecies::Spirit => "A mystical spirit from the terminal realm"@,
        CreatureSpecies::Octopus => "Multi-tasking master of many feeds"@,
    }
}

/// The colors in menu order.
pub open spec fn all_colors() -> Seq<CreatureColor> {
    seq![
        CreatureColor::Red,
        CreatureColor::Green,
        CreatureColor::Blue,
        CreatureColor::Yellow,
        CreatureColor::Magenta,
        CreatureColor::Cyan,
        CreatureColor::White,
        CreatureColor::Orange,
        CreatureColor::Pink,
        CreatureColor::Purple,
    ]
}

pub open spec fn mood_emoji(m: CreatureMood) -> Seq<char> {
    match m {
        CreatureMood::Happy => ":)"@,
        CreatureMood::Excited => ":D"@,
        CreatureMood::Sleepy => "-.-"@,
        CreatureMood::Thinking => "o.O"@,
        CreatureMood::Proud => "^_^"@,
        CreatureMood::Lonely => ":'("@,
        CreatureMood::Curious => "?.?"@,
    }
}

impl CreatureSpecies {
    pub fn all() -> (r: Vec<CreatureSpecies>)
        ensures
            r@ == all_species(),
    {
        let r = vec![
            CreatureSpecies::Blob,
            CreatureSpecies::Bird,
            CreatureSpecies::Cat,
            CreatureSpecies::Dragon,
            CreatureSpecies::Fox,
            CreatureSpecies::Owl,
            CreatureSpecies::Penguin,
            CreatureSpecies::Robot,
            CreatureSpecies::Spirit,
            CreatureSpecies::Octopus,
        ];
        assert(r@ =~= all_species());
        r
    }

    pub fn name(&self) -> (r: &'static str)
        ensures
            r@ == species_name(*self),
    {
        match self {
            CreatureSpecies::Blob => "Blob",
            CreatureSpecies::Bird => "Bird",
            CreatureSpecies::Cat => "Cat",
            CreatureSpecies::Dragon => "Dragon",
            CreatureSpecies::Fox => "Fox",
            CreatureSpecies::Owl => "Owl",
            CreatureSpecies::Penguin => "Penguin",
            CreatureSpecies::Robot => "Robot",
            CreatureSpecies::Spirit => "Spirit",
            CreatureSpecies::Octopus => "Octopus",
        }
    }

    pub fn description(&self) -> (r: &'static str)
        ensures
            r@ == species_description(*self),
    {
        match self {
            CreatureSpecies::Blob => "A friendly blob that bounces with joy",
            CreatureSpecies::Bird => "A chirpy companion that loves news",
            CreatureSpecies::Cat => "A curious cat always watching the feeds",
            CreatureSpecies::Dragon => "A mini dragon with fiery enthusiasm",
            CreatureSpecies::Fox => "A clever fox with sharp insights",
            CreatureSpecies::Owl => "A wise owl for late-night browsing",
            CreatureSpecies::Penguin => "A cool penguin that slides through data",
            CreatureSpecies::Robot => "A helpful bot that never sleeps",
            CreatureSpecies::Spirit => "A mystical spirit from the terminal realm",
            CreatureSpecies::Octopus => "Multi-tasking master of many feeds",
        }
    }
}

impl Default for CreatureSpecies {
    fn default() -> (r: CreatureSpecies)
        ensures
            r == CreatureSpecies::Blob,
    {
        CreatureSpecies::Blob
    }
}

impl CreatureColor {
    pub fn all() -> (r: Vec<CreatureColor>)
        ensures
            r@ == all_colors(),
    {
        let r = vec![
            CreatureColor::Red,
            CreatureColor::Green,
            CreatureColor::Blue,
            CreatureColor::Yellow,
            CreatureColor::Magenta,
            CreatureColor::Cyan,
            CreatureColor::White,
            CreatureColor::Orange,
            CreatureColor::Pink,
            CreatureColor::Purple,
        ];
        assert(r@ =~= all_colors());
        r
    }
}

impl CreatureMood {
    pub fn emoji(&self) -> (r: &'static str)
        ensures
            r@ == mood_emoji(*self),
    {
        match self {
            CreatureMood::Happy => ":)",
            CreatureMood::Excited => ":D",
            CreatureMood::Sleepy => "-.-",
            CreatureMood::Thinking => "o.O",
            CreatureMood::Proud => "^_^",
            CreatureMood::Lonely => ":'(",
            CreatureMood::Curious => "?.?",
        }
    }
}

impl Default for CreatureStats {
    fn default() -> (r: CreatureStats)
        ensures
            r == (CreatureStats { happiness: 80, energy: 100, knowledge: 10, charisma: 10 }),
    {
        CreatureStats { happiness: 80, energy: 100, knowledge: 10, charisma: 10 }
    }
}

impl Default for CreatureAppearance {
    fn default() -> (r: CreatureAppearance)
        ensures
            r.primary_color == CreatureColor::Cyan,
            r.secondary_color == CreatureColor::White,
            r.accessory.is_none(),
            r.hat.is_none(),
            r.background.is_none(),
    {
        CreatureAppearance {
            primary_color: CreatureColor::Cyan,
            secondary_color: CreatureColor::White,
            accessory: None,
            hat: None,
            background: None,
        }
    }
}

impl Creature {
    /// A fresh companion created at `now`: level 1, no experience or points, the
    /// greeting skill unlocked and active, the default outfit equipped, and the
    /// wave and happy emotes.
    pub fn new_at(name: String, species: CreatureSpecies, now: i64) -> (r: Creature)
        ensures
            r.wf(),
            r.name == name,
            r.species == species,
            r.level == 1,
            r.experience == 0,
            r.points == 0,
            ids(r.unlocked_skills@) == seq!["greeting"@],
            ids(r.active_skills@) == seq!["greeting"@],
            ids(r.unlocked_outfits@) == seq!["default"@],
            opt_text(r.equipped_outfit) == Some("default"@),
            ids(r.unlocked_emotes@) == seq!["wave"@, "happy"@],
            r.mood == CreatureMood::Happy,
            r.created_at == now,
            r.last_seen == now,
            r.total_sessions == 0,
            r.total_time_seconds == 0,
    {
        let mut emotes = id_list("wave");
        let happy = "happy".to_owned();
        proof {
            lemma_ids_push(emotes@, happy);
        }
        emotes.push(happy);
        let r = Creature {
            name,
            species,
            level: 1,
            experience: 0,
            points: 0,
            stats: CreatureStats::default(),
            appearance: CreatureAppearance::default(),
            unlocked_skills: id_list("greeting"),
            active_skills: id_list("greeting"),
            unlocked_outfits: id_list("default"),
            equipped_outfit: Some("default".to_owned()),
            unlocked_emotes: emotes,
            mood: CreatureMood::Happy,
            created_at: now,
            last_seen: now,
            total_sessions: 0,
            total_time_seconds: 0,
        };
        proof {
            lemma_threshold_step(1);
            assert(xp_threshold(2) > 0);
            assert(level_for_experience(0) == 1);
            assert(ids(r.unlocked_skills@)[0] == "greeting"@);
            assert(ids(r.unlocked_outfits@)[0] == "default"@);
            assert forall|i: int| 0 <= i < r.active_skills@.len() implies ids(
                r.unlocked_skills@,
            ).contains(#[trigger] r.active_skills@[i]@) by {
                assert(ids(r.active_skills@).len() == 1);
                assert(ids(r.active_skills@)[i] == r.active_skills@[i]@);
                assert(ids(r.active_skills@)[0] == "greeting"@);
                assert(ids(r.unlocked_skills@)[0] == r.active_skills@[i]@);
            }
        }
        r
    }

    /// A fresh companion created now, by the system clock.
    pub fn new(name: String, species: CreatureSpecies) -> (r: Creature)
        ensures
            r.wf(),
            r.name == name,
            r.species == species,
            r.level == 1,
            r.experience == 0,
            r.points == 0,
            ids(r.unlocked_skills@) == seq!["greeting"@],
            ids(r.unlocked_outfits@) == seq!["default"@],
            r.created_at == r.last_seen,
            r.total_sessions == 0,
    {
        Self::new_at(name, species, now_timestamp())
    }
}

impl Default for Creature {
    /// A fresh companion named Tui, a blob.
    fn default() -> (r: Creature)
        ensures
            r.wf(),
            r.name@ == "Tui"@,
            r.species == CreatureSpecies::Blob,
            r.level == 1,
            r.experience == 0,
            r.points == 0,
    {
        Creature::new("Tui".to_owned(), CreatureSpecies::Blob)
    }
}

/// Startup: a stored companion resumes with a new session at `now`; without one a
/// fresh companion named Tui is created at `now`. The flag says whether the result
/// must be saved at once, which is the case for a fresh one. A stored companion
/// whose session counter is at its maximum is returned as it was.
pub fn load_or_create_from(stored: Option<Creature>, now: i64) -> (r: (Creature, bool))
    ensures
        match stored {
            Some(c) => !r.1 && if c.total_sessions < u64::MAX {
                &&& r.0.total_sessions == c.total_sessions + 1
                &&& r.0.last_seen == now
                &&& r.0.mood == mood_for_absence(now - c.last_seen)
                &&& r.0.level == c.level
                &&& r.0.experience == c.experience
                &&& r.0.points == c.points
                &&& r.0.unlocked_skills == c.unlocked_skills
                &&& r.0.unlocked_outfits == c.unlocked_outfits
            } else {
                r.0 == c
            },
            None => {
                &&& r.1
                &&& r.0.wf()
                &&& r.0.name@ == "Tui"@
                &&& r.0.level == 1
                &&& r.0.experience == 0
                &&& r.0.created_at == now
                &&& r.0.total_sessions == 0
            },
        },
{
    match stored {
        Some(mut c) => {
            if c.total_sessions < u64::MAX {
                c.start_session_at(now);
            }
            (c, false)
        },
        None => (Creature::new_at("Tui".to_owned(), CreatureSpecies::Blob, now), true),
    }
}

/// Relies on chrono::Utc::now and DateTime::timestamp: the current time in whole
/// seconds since the Unix epoch. Nothing is known of the value.
#[verifier::external_body]
fn now_timestamp() -> (r: i64) {
    chrono::Utc::now().timestamp()
}

} // verus!
