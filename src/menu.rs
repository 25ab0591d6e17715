use vstd::prelude::*;

use crate::catalog::{get_skill_tree, skill_costs, skill_ids, skill_prerequisites};
use crate::creature::{
    all_species, can_purchase, ids, opt_text, same_profile, Creature, CreatureSpecies,
};

verus! {

/// The overlay's tabs, cycled in this order.
#[derive(Clone, Copy, Debug, PartialEq, Eq, Structural)]
pub enum MenuTab {
    Stats,
    Skills,
    Outfits,
    Customize,
}

pub open spec fn all_tabs() -> Seq<MenuTab> {
    seq![MenuTab::Stats, MenuTab::Skills, MenuTab::Outfits, MenuTab::Customize]
}

pub open spec fn tab_position(t: MenuTab) -> int {
    match t {
        MenuTab::Stats => 0,
        MenuTab::Skills => 1,
        MenuTab::Outfits => 2,
        MenuTab::Customize => 3,
    }
}

pub open spec fn tab_name(t: MenuTab) -> Seq<char> {
    match t {
        MenuTab::Stats => "Stats"@,
        MenuTab::Skills => "Skills"@,
        MenuTab::Outfits => "Outfits"@,
        MenuTab::Customize => "Customize"@,
    }
}

impl MenuTab {
    pub fn all() -> (r: Vec<MenuTab>)
        ensures
            r@ == all_tabs(),
    {
        let r = vec![MenuTab::Stats, MenuTab::Skills, MenuTab::Outfits, MenuTab::Customize];
        assert(r@ =~= all_tabs());
        r
    }

    pub fn name(&self) -> (r: &'static str)
        ensures
            r@ == tab_name(*self),
    {
        match self {
            MenuTab::Stats => "Stats",
            MenuTab::Skills => "Skills",
            MenuTab::Outfits => "Outfits",
            MenuTab::Customize => "Customize",
        }
    }

    fn position(&self) -> (r: usize)
        ensures
            r == tab_position(*self),
    {
        match self {
            MenuTab::Stats => 0,
            MenuTab::Skills => 1,
            MenuTab::Outfits => 2,
            MenuTab::Customize => 3,
        }
    }
}

/// The companion overlay: whether it is open, its tab, and a cursor per list.
pub struct CreatureMenu {
    pub visible: bool,
    pub current_tab: MenuTab,
    pub skill_cursor: Option<usize>,
    pub outfit_cursor: Option<usize>,
    pub species_cursor: Option<usize>,
    pub color_cursor: Option<usize>,
}

impl Default for CreatureMenu {
    /// Closed, on the stats tab, every cursor on the first entry.
    fn default() -> (r: CreatureMenu)
        ensures
            !r.visible,
            r.current_tab == MenuTab::Stats,
            r.skill_cursor == Some(0usize),
            r.outfit_cursor == Some(0usize),
            r.species_cursor == Some(0usize),
            r.color_cursor == Some(0usize),
    {
        CreatureMenu {
            visible: false,
            current_tab: MenuTab::Stats,
            skill_cursor: Some(0),
            outfit_cursor: Some(0),
            species_cursor: Some(0),
            color_cursor: Some(0),
        }
    }
}

/// A cursor moved one entry up, stopping at the first.
pub open spec fn cursor_up(c: Option<usize>) -> Option<usize> {
    match c {
        Some(i) => if i > 0 {
            Some((i - 1) as usize)
        } else {
            c
        },
        None => c,
    }
}

/// A cursor moved one entry down in a list of `count`, stopping at the last.
pub open spec fn cursor_down(c: Option<usize>, count: nat) -> Option<usize> {
    match c {
        Some(i) => if i + 1 < count {
            Some((i + 1) as usize)
        } else {
            c
        },
        None => c,
    }
}

fn move_up(c: Option<usize>) -> (r: Option<usize>)
    ensures
        r == cursor_up(c),
{
    match c {
        Some(i) => if i > 0 {
            Some(i - 1)
        } else {
            c
        },
        None => c,
    }
}

fn move_down(c: Option<usize>, count: usize) -> (r: Option<usize>)
    ensures
        r == cursor_down(c, count as nat),
{
    match c {
        Some(i) => if count > 0 && i < count - 1 {
            Some(i + 1)
        } else {
            c
        },
        None => c,
    }
}

/// The catalog skill at `i` can be bought by `c`.
pub open spec fn catalog_purchasable(c: &Creature, i: int) -> bool {
    &&& c.points >= skill_costs()[i]
    &&& !ids(c.unlocked_skills@).contains(skill_ids()[i])
    &&& forall|j: int|
        0 <= j < skill_prerequisites()[i].len() ==> ids(c.unlocked_skills@).contains(
            #[trigger] skill_prerequisites()[i][j],
        )
}

/// `after` is `before` with skill `id` flipped in the active list.
pub open spec fn toggled(before: &Creature, after: &Creature, id: Seq<char>) -> bool {
    &&& same_profile(after, before)
    &&& after.points == before.points
    &&& after.unlocked_skills == before.unlocked_skills
    &&& after.unlocked_outfits == before.unlocked_outfits
    &&& after.equipped_outfit == before.equipped_outfit
    &&& after.unlocked_emotes == before.unlocked_emotes
    &&& ids(before.active_skills@).contains(id) ==> ids(after.active_skills@) == ids(
        before.active_skills@,
    ).filter(|x: Seq<char>| x != id)
    &&& !ids(before.active_skills@).contains(id) ==> ids(after.active_skills@) == ids(
        before.active_skills@,
    ).push(id)
}

/// `after` is `before` having bought skill `id` for `cost` points.
pub open spec fn purchased(before: &Creature, after: &Creature, id: Seq<char>, cost: u32) -> bool {
    &&& after.points == before.points - cost
    &&& ids(after.unlocked_skills@) == ids(before.unlocked_skills@).push(id)
    &&& same_profile(after, before)
    &&& after.active_skills == before.active_skills
    &&& after.unlocked_outfits == before.unlocked_outfits
    &&& after.equipped_outfit == before.equipped_outfit
    &&& after.unlocked_emotes == before.unlocked_emotes
}

/// `after` is `before` wearing outfit `id`.
pub open spec fn wearing(before: &Creature, after: &Creature, id: Seq<char>) -> bool {
    &&& opt_text(after.equipped_outfit) == Some(id)
    &&& same_profile(after, before)
    &&& after.points == before.points
    &&& after.unlocked_skills == before.unlocked_skills
    &&& after.active_skills == before.active_skills
    &&& after.unlocked_outfits == before.unlocked_outfits
    &&& after.unlocked_emotes == before.unlocked_emotes
}

/// `m` after moving to the next tab, wrapping from the last to the first.
pub open spec fn menu_after_next_tab(m: CreatureMenu) -> CreatureMenu {
    CreatureMenu { current_tab: all_tabs()[(tab_position(m.current_tab) + 1) % 4], ..m }
}

/// `m` after moving to the previous tab, wrapping from the first to the last.
pub open spec fn menu_after_prev_tab(m: CreatureMenu) -> CreatureMenu {
    CreatureMenu { current_tab: all_tabs()[(tab_position(m.current_tab) + 3) % 4], ..m }
}

/// `m` after moving the current tab's cursor up.
pub open spec fn menu_after_scroll_up(m: CreatureMenu) -> CreatureMenu {
    match m.current_tab {
        MenuTab::Skills => CreatureMenu { skill_cursor: cursor_up(m.skill_cursor), ..m },
        MenuTab::Outfits => CreatureMenu { outfit_cursor: cursor_up(m.outfit_cursor), ..m },
        MenuTab::Customize => CreatureMenu { species_cursor: cursor_up(m.species_cursor), ..m },
        MenuTab::Stats => m,
    }
}

/// `m` after moving the current tab's cursor down, over the lists of companion `c`.
pub open spec fn menu_after_scroll_down(m: CreatureMenu, c: Creature) -> CreatureMenu {
    match m.current_tab {
        MenuTab::Skills => CreatureMenu {
            skill_cursor: cursor_down(m.skill_cursor, skill_ids().len()),
            ..m
        },
        MenuTab::Outfits => CreatureMenu {
            outfit_cursor: cursor_down(m.outfit_cursor, c.unlocked_outfits@.len()),
            ..m
        },
        MenuTab::Customize => CreatureMenu {
            species_cursor: cursor_down(m.species_cursor, all_species().len()),
            ..m
        },
        MenuTab::Stats => m,
    }
}

/// What acting on the entry under menu `m`'s cursor does to the companion, with
/// `r` telling whether anything was done. On the skills tab the catalog skill there
/// is bought when it can be, else toggled when unlocked; on the outfits tab the
/// unlocked outfit there is worn; on the customize tab the species there is taken.
pub open spec fn select_effect(m: CreatureMenu, before: Creature, after: Creature, r: bool) -> bool {
    &&& !r ==> after == before
    &&& match m.current_tab {
        MenuTab::Skills => match m.skill_cursor {
            Some(i) => if i < skill_ids().len() {
                if catalog_purchasable(&before, i as int) {
                    r && purchased(&before, &after, skill_ids()[i as int], skill_costs()[i as int])
                } else if ids(before.unlocked_skills@).contains(skill_ids()[i as int]) {
                    r && toggled(&before, &after, skill_ids()[i as int])
                } else {
                    !r
                }
            } else {
                !r
            },
            None => !r,
        },
        MenuTab::Outfits => match m.outfit_cursor {
            Some(i) => if i < before.unlocked_outfits@.len() {
                r && wearing(&before, &after, before.unlocked_outfits@[i as int]@)
            } else {
                !r
            },
            None => !r,
        },
        MenuTab::Customize => match m.species_cursor {
            Some(i) => if i < all_species().len() {
                r && after == (Creature { species: all_species()[i as int], ..before })
            } else {
                !r
            },
            None => !r,
        },
        MenuTab::Stats => !r,
    }
}

impl CreatureMenu {
    pub fn toggle(&mut self)
        ensures
            *final(self) == (CreatureMenu { visible: !old(self).visible, ..*old(self) }),
    {
        self.visible = !self.visible;
    }

    /// The next tab, wrapping from the last to the first.
    pub fn next_tab(&mut self)
        ensures
            *final(self) == menu_after_next_tab(*old(self)),
    {
        let tabs = MenuTab::all();
        let i = self.current_tab.position();
        self.current_tab = tabs[(i + 1) % tabs.len()];
    }

    /// The previous tab, wrapping from the first to the last.
    pub fn prev_tab(&mut self)
        ensures
            *final(self) == menu_after_prev_tab(*old(self)),
    {
        let tabs = MenuTab::all();
        let i = self.current_tab.position();
        let j = if i == 0 {
            tabs.len() - 1
        } else {
            i - 1
        };
        self.current_tab = tabs[j];
    }

    /// Moves the cursor of the current tab's list one entry up.
    pub fn scroll_up(&mut self)
        ensures
            *final(self) == menu_after_scroll_up(*old(self)),
    {
        match self.current_tab {
            MenuTab::Skills => self.skill_cursor = move_up(self.skill_cursor),
            MenuTab::Outfits => self.outfit_cursor = move_up(self.outfit_cursor),
            MenuTab::Customize => self.species_cursor = move_up(self.species_cursor),
            MenuTab::Stats => {},
        }
    }

    /// Moves the cursor of the current tab's list one entry down: the skill
    /// catalog, the companion's unlocked outfits, or the species.
    pub fn scroll_down(&mut self, creature: &Creature)
        ensures
            *final(self) == menu_after_scroll_down(*old(self), *creature),
    {
        match self.current_tab {
            MenuTab::Skills => {
                let count = get_skill_tree().len();
                self.skill_cursor = move_down(self.skill_cursor, count);
            },
            MenuTab::Outfits => {
                self.outfit_cursor = move_down(self.outfit_cursor, creature.unlocked_outfits.len());
            },
            MenuTab::Customize => {
                let count = CreatureSpecies::all().len();
                self.species_cursor = move_down(self.species_cursor, count);
            },
            MenuTab::Stats => {},
        }
    }

    /// Acts on the entry under the cursor. On the skills tab: buys the skill when it
    /// can be bought, else toggles it when unlocked. On the outfits tab: equips the
    /// unlocked outfit. On the customize tab: switches species. Returns whether
    /// anything was done; when nothing was, the companion is unchanged.
    pub fn select(&mut self, creature: &mut Creature) -> (r: bool)
        ensures
            *final(self) == *old(self),
            select_effect(*old(self), *old(creature), *final(creature), r),
    {
        match self.current_tab {
            MenuTab::Skills => {
                let skills = get_skill_tree();
                if let Some(i) = self.skill_cursor {
                    if i < skills.len() {
                        let skill = &skills[i];
                        proof {
                            assert forall|j: int|
                                0 <= j < skill.prerequisites@.len() implies #[trigger] skill.prerequisites@[j]@
                                == skill_prerequisites()[i as int][j] by {
                                assert(ids(skill.prerequisites@)[j] == skill.prerequisites@[j]@);
                            }
                            assert(can_purchase(creature, skill) == catalog_purchasable(
                                creature,
                                i as int,
                            ));
                        }
                        if creature.can_purchase_skill(skill) {
                            creature.purchase_skill(skill);
                            return true;
                        } else if crate::creature::contains_id(&creature.unlocked_skills, &skill.id) {
                            creature.toggle_skill(skill.id.as_str());
                            return true;
                        }
                    }
                }
                false
            },
            MenuTab::Outfits => {
                if let Some(i) = self.outfit_cursor {
                    if i < creature.unlocked_outfits.len() {
                        let id = creature.unlocked_outfits[i].clone();
                        proof {
                            assert(ids(creature.unlocked_outfits@)[i as int] == id@);
                        }
                        creature.equip_outfit(id.as_str());
                        return true;
                    }
                }
                false
            },
            MenuTab::Customize => {
                let species = CreatureSpecies::all();
                if let Some(i) = self.species_cursor {
                    if i < species.len() {
                        creature.species = species[i];
                        return true;
                    }
                }
                false
            },
            MenuTab::Stats => false,
        }
    }
}

} // verus!
