use vstd::prelude::*;

use crate::creature::{ids, CreatureMood, CreatureSpecies};
use crate::text::{str_views, text_lines};

verus! {

/// The face drawn for each mood.
pub open spec fn mood_face(m: CreatureMood) -> Seq<char> {
    match m {
        CreatureMood::Happy => "^_^"@,
        CreatureMood::Excited => "^o^"@,
        CreatureMood::Sleepy => "-_-"@,
        CreatureMood::Thinking => "o.o"@,
        CreatureMood::Proud => "^v^"@,
        CreatureMood::Lonely => ";_;"@,
        CreatureMood::Curious => "?.?"@,
    }
}

/// Lines above, a line with the face between `prefix` and `suffix`, lines below.
pub open spec fn with_face(
    top: Seq<Seq<char>>,
    prefix: Seq<char>,
    face: Seq<char>,
    suffix: Seq<char>,
    bottom: Seq<Seq<char>>,
) -> Seq<Seq<char>> {
    top + seq![prefix + face + suffix] + bottom
}

fn face_art(top: &[&str], prefix: &str, face: &str, suffix: &str, bottom: &[&str]) -> (r: Vec<String>)
    ensures
        ids(r@) == with_face(str_views(top@), prefix@, face@, suffix@, str_views(bottom@)),
{
    let mut r = text_lines(top);
    let mut line = prefix.to_owned();
    line.append(face);
    line.append(suffix);
    let ghost a = r@;
    r.push(line);
    let b = text_lines(bottom);
    let ghost c = r@;
    let mut i: usize = 0;
    while i < b.len()
        invariant
            0 <= i <= b@.len(),
            r@ == c + b@.take(i as int),
        decreases b.len() - i,
    {
        r.push(b[i].clone());
        assert(r@ =~= c + b@.take(i as int + 1));
        i += 1;
    }
    assert(b@.take(b@.len() as int) =~= b@);
    assert(ids(r@) =~= with_face(str_views(top@), prefix@, face@, suffix@, str_views(bottom@))) by {
        assert(ids(a) == str_views(top@));
        assert(ids(b@) == str_views(bottom@));
        assert(ids(c) =~= ids(a).push(line@));
    }
    r
}

/// The face for a mood.
pub fn mood_to_face(mood: &CreatureMood) -> (r: &'static str)
    ensures
        r@ == mood_face(*mood),
{
    match mood {
        CreatureMood::Happy => "^_^",
        CreatureMood::Excited => "^o^",
        CreatureMood::Sleepy => "-_-",
        CreatureMood::Thinking => "o.o",
        CreatureMood::Proud => "^v^",
        CreatureMood::Lonely => ";_;",
        CreatureMood::Curious => "?.?",
    }
}
/// The blob's drawing for a face and an animation frame.
pub open spec fn blob_art(face: Seq<char>, frame: nat) -> Seq<Seq<char>> {
    if frame % 2 == 0 {
        with_face(seq!["  .-~~~-."@, " /       \\"@], "|   "@, face, "   |"@, seq![" \\       /"@, "  '~---~'"@])
    } else {
        with_face(seq!["  .~~~~~."@, " /       \\"@], "|   "@, face, "   |"@, seq![" \\       /"@, "  '-----'"@])
    }
}
fn get_blob_art(mood: &CreatureMood, frame: usize) -> (r: Vec<String>)
    ensures
        ids(r@) == blob_art(mood_face(*mood), frame as nat),
{
    let face = mood_to_face(mood);
    let r = if frame % 2 == 0 {
        face_art(&["  .-~~~-.", " /       \\"], "|   ", face, "   |", &[" \\       /", "  '~---~'"])
    } else {
        face_art(&["  .~~~~~.", " /       \\"], "|   ", face, "   |", &[" \\       /", "  '-----'"])
    };
    proof {
        assert(str_views(seq!["  .-~~~-.", " /       \\"]) =~= seq!["  .-~~~-."@, " /       \\"@]);
        assert(str_views(seq![" \\       /", "  '~---~'"]) =~= seq![" \\       /"@, "  '~---~'"@]);
        assert(str_views(seq!["  .~~~~~.", " /       \\"]) =~= seq!["  .~~~~~."@, " /       \\"@]);
        assert(str_views(seq![" \\       /", "  '-----'"]) =~= seq![" \\       /"@, "  '-----'"@]);
    }
    r
}
/// The bird's drawing for a face and an animation frame.
pub open spec fn bird_art(face: Seq<char>, frame: nat) -> Seq<Seq<char>> {
    if frame % 2 == 0 {
        with_face(seq!["   __"@], "  ("@, face, ")"@, seq![" >(  )>"@, "   ^^"@])
    } else {
        with_face(seq!["   __"@], "  ("@, face, ")"@, seq![" <(  )<"@, "   ^^"@])
    }
}
fn get_bird_art(mood: &CreatureMood, frame: usize) -> (r: Vec<String>)
    ensures
        ids(r@) == bird_art(mood_face(*mood), frame as nat),
{
    let face = mood_to_face(mood);
    let r = if frame % 2 == 0 {
        face_art(&["   __"], "  (", face, ")", &[" >(  )>", "   ^^"])
    } else {
        face_art(&["   __"], "  (", face, ")", &[" <(  )<", "   ^^"])
    };
    proof {
        assert(str_views(seq!["   __"]) =~= seq!["   __"@]);
        assert(str_views(seq![" >(  )>", "   ^^"]) =~= seq![" >(  )>"@, "   ^^"@]);
        assert(str_views(seq![" <(  )<", "   ^^"]) =~= seq![" <(  )<"@, "   ^^"@]);
    }
    r
}
/// The cat's drawing for a face and an animation frame.
pub open spec fn cat_art(face: Seq<char>, frame: nat) -> Seq<Seq<char>> {
    if frame % 2 == 0 {
        with_face(seq!["  /\\_/\\"@], " ( "@, face, " )"@, seq!["  > ^ <"@, " /|   |\\"@, "(_|   |_)"@])
    } else {
        with_face(seq!["  /\\_/\\"@], " ( "@, face, " )"@, seq!["  > ^ <"@, "  |   |"@, " (_   _)"@])
    }
}
fn get_cat_art(mood: &CreatureMood, frame: usize) -> (r: Vec<String>)
    ensures
        ids(r@) == cat_art(mood_face(*mood), frame as nat),
{
    let face = mood_to_face(mood);
    let r = if frame % 2 == 0 {
        face_art(&["  /\\_/\\"], " ( ", face, " )", &["  > ^ <", " /|   |\\", "(_|   |_)"])
    } else {
        face_art(&["  /\\_/\\"], " ( ", face, " )", &["  > ^ <", "  |   |", " (_   _)"])
    };
    proof {
        assert(str_views(seq!["  /\\_/\\"]) =~= seq!["  /\\_/\\"@]);
        assert(str_views(seq!["  > ^ <", " /|   |\\", "(_|   |_)"]) =~= seq!["  > ^ <"@, " /|   |\\"@, "(_|   |_)"@]);
        assert(str_views(seq!["  > ^ <", "  |   |", " (_   _)"]) =~= seq!["  > ^ <"@, "  |   |"@, " (_   _)"@]);
    }
    r
}
/// The dragon's drawing for a face and an animation frame.
pub open spec fn dragon_art(face: Seq<char>, frame: nat) -> Seq<Seq<char>> {
    if frame % 2 == 0 {
        with_face(seq!["    ____ "@], "   ( "@, face, " )"@, seq![" /\\/    \\/\\"@, "<<  ~~~~  >>"@, "   \\    /"@, "    ^^^^"@])
    } else {
        with_face(seq!["    ____"@], "   ( "@, face, " )~"@, seq![" /\\/    \\/\\"@, "<<  ~~~~  >>"@, "   \\    /"@, "    ^^^^"@])
    }
}
fn get_dragon_art(mood: &CreatureMood, frame: usize) -> (r: Vec<String>)
    ensures
        ids(r@) == dragon_art(mood_face(*mood), frame as nat),
{
    let face = mood_to_face(mood);
    let r = if frame % 2 == 0 {
        face_art(&["    ____ "], "   ( ", face, " )", &[" /\\/    \\/\\", "<<  ~~~~  >>", "   \\    /", "    ^^^^"])
    } else {
        face_art(&["    ____"], "   ( ", face, " )~", &[" /\\/    \\/\\", "<<  ~~~~  >>", "   \\    /", "    ^^^^"])
    };
    proof {
        assert(str_views(seq!["    ____ "]) =~= seq!["    ____ "@]);
        assert(str_views(seq![" /\\/    \\/\\", "<<  ~~~~  >>", "   \\    /", "    ^^^^"]) =~= seq![" /\\/    \\/\\"@, "<<  ~~~~  >>"@, "   \\    /"@, "    ^^^^"@]);
        assert(str_views(seq!["    ____"]) =~= seq!["    ____"@]);
    }
    r
}
/// The fox's drawing for a face and an animation frame.
pub open spec fn fox_art(face: Seq<char>, frame: nat) -> Seq<Seq<char>> {
    if frame % 2 == 0 {
        with_face(seq!["  /\\   /\\"@, " /  \\ /  \\"@], "|   "@, face, "   |"@, seq![" \\  w  /"@, "  \\___/"@, "   | |"@])
    } else {
        with_face(seq!["  /\\   /\\"@, " /  \\ /  \\"@], "|   "@, face, "   |"@, seq![" \\  w  /"@, "  \\___/"@, "  |   |"@])
    }
}
fn get_fox_art(mood: &CreatureMood, frame: usize) -> (r: Vec<String>)
    ensures
        ids(r@) == fox_art(mood_face(*mood), frame as nat),
{
    let face = mood_to_face(mood);
    let r = if frame % 2 == 0 {
        face_art(&["  /\\   /\\", " /  \\ /  \\"], "|   ", face, "   |", &[" \\  w  /", "  \\___/", "   | |"])
    } else {
        face_art(&["  /\\   /\\", " /  \\ /  \\"], "|   ", face, "   |", &[" \\  w  /", "  \\___/", "  |   |"])
    };
    proof {
        assert(str_views(seq!["  /\\   /\\", " /  \\ /  \\"]) =~= seq!["  /\\   /\\"@, " /  \\ /  \\"@]);
        assert(str_views(seq![" \\  w  /", "  \\___/", "   | |"]) =~= seq![" \\  w  /"@, "  \\___/"@, "   | |"@]);
        assert(str_views(seq![" \\  w  /", "  \\___/", "  |   |"]) =~= seq![" \\  w  /"@, "  \\___/"@, "  |   |"@]);
    }
    r
}
/// The owl's drawing for a face and an animation frame.
pub open spec fn owl_art(face: Seq<char>, frame: nat) -> Seq<Seq<char>> {
    if frame % 2 == 0 {
        with_face(seq!["  ,___,"@, " (o   o)"@], "  ( "@, face, " )"@, seq!["  /| |\\"@, " (_| |_)"@])
    } else {
        with_face(seq!["  ,___,"@, " (O   O)"@], "  ( "@, face, " )"@, seq!["  /| |\\"@, " (_| |_)"@])
    }
}
fn get_owl_art(mood: &CreatureMood, frame: usize) -> (r: Vec<String>)
    ensures
        ids(r@) == owl_art(mood_face(*mood), frame as nat),
{
    let face = mood_to_face(mood);
    let r = if frame % 2 == 0 {
        face_art(&["  ,___,", " (o   o)"], "  ( ", face, " )", &["  /| |\\", " (_| |_)"])
    } else {
        face_art(&["  ,___,", " (O   O)"], "  ( ", face, " )", &["  /| |\\", " (_| |_)"])
    };
    proof {
        assert(str_views(seq!["  ,___,", " (o   o)"]) =~= seq!["  ,___,"@, " (o   o)"@]);
        assert(str_views(seq!["  /| |\\", " (_| |_)"]) =~= seq!["  /| |\\"@, " (_| |_)"@]);
        assert(str_views(seq!["  ,___,", " (O   O)"]) =~= seq!["  ,___,"@, " (O   O)"@]);
    }
    r
}
/// The penguin's drawing for a face and an animation frame.
pub open spec fn penguin_art(face: Seq<char>, frame: nat) -> Seq<Seq<char>> {
    if frame % 2 == 0 {
        with_face(seq!["   __"@, "  /  \\"@], " | "@, face, " |"@, seq![" /|  |\\"@, "(_|  |_)"@, "   \\/"@])
    } else {
        with_face(seq!["   __"@, "  /  \\"@], " | "@, face, " |"@, seq!["  |  |"@, " /|  |\\"@, "(_|__|_)"@])
    }
}
fn get_penguin_art(mood: &CreatureMood, frame: usize) -> (r: Vec<String>)
    ensures
        ids(r@) == penguin_art(mood_face(*mood), frame as nat),
{
    let face = mood_to_face(mood);
    let r = if frame % 2 == 0 {
        face_art(&["   __", "  /  \\"], " | ", face, " |", &[" /|  |\\", "(_|  |_)", "   \\/"])
    } else {
        face_art(&["   __", "  /  \\"], " | ", face, " |", &["  |  |", " /|  |\\", "(_|__|_)"])
    };
    proof {
        assert(str_views(seq!["   __", "  /  \\"]) =~= seq!["   __"@, "  /  \\"@]);
        assert(str_views(seq![" /|  |\\", "(_|  |_)", "   \\/"]) =~= seq![" /|  |\\"@, "(_|  |_)"@, "   \\/"@]);
        assert(str_views(seq!["  |  |", " /|  |\\", "(_|__|_)"]) =~= seq!["  |  |"@, " /|  |\\"@, "(_|__|_)"@]);
    }
    r
}
/// The robot's drawing for a face and an animation frame.
pub open spec fn robot_art(face: Seq<char>, frame: nat) -> Seq<Seq<char>> {
    if frame % 2 == 0 {
        with_face(seq!["  ___"@, " [___]"@], " |"@, face, "|"@, seq![" |___|"@, " /| |\\"@, "/_| |_\\"@])
    } else {
        with_face(seq!["  _*_"@, " [___]"@], " |"@, face, "|"@, seq![" |___|"@, " /| |\\"@, "/_| |_\\"@])
    }
}
fn get_robot_art(mood: &CreatureMood, frame: usize) -> (r: Vec<String>)
    ensures
        ids(r@) == robot_art(mood_face(*mood), frame as nat),
{
    let face = mood_to_face(mood);
    let r = if frame % 2 == 0 {
        face_art(&["  ___", " [___]"], " |", face, "|", &[" |___|", " /| |\\", "/_| |_\\"])
    } else {
        face_art(&["  _*_", " [___]"], " |", face, "|", &[" |___|", " /| |\\", "/_| |_\\"])
    };
    proof {
        assert(str_views(seq!["  ___", " [___]"]) =~= seq!["  ___"@, " [___]"@]);
        assert(str_views(seq![" |___|", " /| |\\", "/_| |_\\"]) =~= seq![" |___|"@, " /| |\\"@, "/_| |_\\"@]);
        assert(str_views(seq!["  _*_", " [___]"]) =~= seq!["  _*_"@, " [___]"@]);
    }
    r
}
/// The spirit's drawing for a face and an animation frame.
pub open spec fn spirit_art(face: Seq<char>, frame: nat) -> Seq<Seq<char>> {
    if frame % 3 == 0 {
        with_face(seq!["    *"@, "  .oOo."@], " ( "@, face, " )"@, seq!["  '~'~'"@, "   ~~~"@])
    } else if frame % 3 == 1 {
        with_face(seq!["   *"@, "  .oOo."@], " ( "@, face, " )"@, seq!["  '~~~'"@, "   ~~~"@])
    } else {
        with_face(seq!["  *"@, "  .oOo."@], " ( "@, face, " )"@, seq!["  '~~~'"@, "    ~~"@])
    }
}
fn get_spirit_art(mood: &CreatureMood, frame: usize) -> (r: Vec<String>)
    ensures
        ids(r@) == spirit_art(mood_face(*mood), frame as nat),
{
    let face = mood_to_face(mood);
    let r = if frame % 3 == 0 {
        face_art(&["    *", "  .oOo."], " ( ", face, " )", &["  '~'~'", "   ~~~"])
    } else if frame % 3 == 1 {
        face_art(&["   *", "  .oOo."], " ( ", face, " )", &["  '~~~'", "   ~~~"])
    } else {
        face_art(&["  *", "  .oOo."], " ( ", face, " )", &["  '~~~'", "    ~~"])
    };
    proof {
        assert(str_views(seq!["    *", "  .oOo."]) =~= seq!["    *"@, "  .oOo."@]);
        assert(str_views(seq!["  '~'~'", "   ~~~"]) =~= seq!["  '~'~'"@, "   ~~~"@]);
        assert(str_views(seq!["   *", "  .oOo."]) =~= seq!["   *"@, "  .oOo."@]);
        assert(str_views(seq!["  '~~~'", "   ~~~"]) =~= seq!["  '~~~'"@, "   ~~~"@]);
        assert(str_views(seq!["  *", "  .oOo."]) =~= seq!["  *"@, "  .oOo."@]);
        assert(str_views(seq!["  '~~~'", "    ~~"]) =~= seq!["  '~~~'"@, "    ~~"@]);
    }
    r
}
/// The octopus's drawing for a face and an animation frame.
pub open spec fn octopus_art(face: Seq<char>, frame: nat) -> Seq<Seq<char>> {
    if frame % 2 == 0 {
        with_face(seq!["   ___"@, "  /   \\"@], " ( "@, face, " )"@, seq!["  /|\\|\\"@, " / | | \\"@])
    } else {
        with_face(seq!["   ___"@, "  /   \\"@], " ( "@, face, " )"@, seq!["  \\|/|/"@, "   | |"@])
    }
}
fn get_octopus_art(mood: &CreatureMood, frame: usize) -> (r: Vec<String>)
    ensures
        ids(r@) == octopus_art(mood_face(*mood), frame as nat),
{
    let face = mood_to_face(mood);
    let r = if frame % 2 == 0 {
        face_art(&["   ___", "  /   \\"], " ( ", face, " )", &["  /|\\|\\", " / | | \\"])
    } else {
        face_art(&["   ___", "  /   \\"], " ( ", face, " )", &["  \\|/|/", "   | |"])
    };
    proof {
        assert(str_views(seq!["   ___", "  /   \\"]) =~= seq!["   ___"@, "  /   \\"@]);
        assert(str_views(seq!["  /|\\|\\", " / | | \\"]) =~= seq!["  /|\\|\\"@, " / | | \\"@]);
        assert(str_views(seq!["  \\|/|/", "   | |"]) =~= seq!["  \\|/|/"@, "   | |"@]);
    }
    r
}
/// The drawing of a species for a face and an animation frame.
pub open spec fn species_art(s: CreatureSpecies, face: Seq<char>, frame: nat) -> Seq<Seq<char>> {
    match s {
        CreatureSpecies::Blob => blob_art(face, frame),
        CreatureSpecies::Bird => bird_art(face, frame),
        CreatureSpecies::Cat => cat_art(face, frame),
        CreatureSpecies::Dragon => dragon_art(face, frame),
        CreatureSpecies::Fox => fox_art(face, frame),
        CreatureSpecies::Owl => owl_art(face, frame),
        CreatureSpecies::Penguin => penguin_art(face, frame),
        CreatureSpecies::Robot => robot_art(face, frame),
        CreatureSpecies::Spirit => spirit_art(face, frame),
        CreatureSpecies::Octopus => octopus_art(face, frame),
    }
}

fn get_species_art(species: &CreatureSpecies, mood: &CreatureMood, frame: usize) -> (r: Vec<String>)
    ensures
        ids(r@) == species_art(*species, mood_face(*mood), frame as nat),
{
    match species {
        CreatureSpecies::Blob => get_blob_art(mood, frame),
        CreatureSpecies::Bird => get_bird_art(mood, frame),
        CreatureSpecies::Cat => get_cat_art(mood, frame),
        CreatureSpecies::Dragon => get_dragon_art(mood, frame),
        CreatureSpecies::Fox => get_fox_art(mood, frame),
        CreatureSpecies::Owl => get_owl_art(mood, frame),
        CreatureSpecies::Penguin => get_penguin_art(mood, frame),
        CreatureSpecies::Robot => get_robot_art(mood, frame),
        CreatureSpecies::Spirit => get_spirit_art(mood, frame),
        CreatureSpecies::Octopus => get_octopus_art(mood, frame),
    }
}

/// Lines an outfit adds above the drawing; none for an unknown outfit.
pub open spec fn outfit_header(id: Seq<char>) -> Seq<Seq<char>> {
    if id == "hacker"@ {
        seq!["  [===]  "@]
    } else if id == "wizard"@ {
        seq!["   /\\"@, "  /  \\"@, "  ----"@]
    } else if id == "ninja"@ {
        seq!["  ~~~~~"@]
    } else if id == "astronaut"@ {
        seq!["  /===\\"@, " |     |"@]
    } else if id == "robot"@ {
        seq!["  [|||]"@]
    } else if id == "dragon"@ {
        seq!["  ^^^"@]
    } else if id == "legendary"@ {
        seq!["  *****"@, "  *   *"@]
    } else {
        seq![]
    }
}

fn str_is(a: &str, b: &str) -> (r: bool)
    ensures
        r == (a@ == b@),
{
    a.to_owned() == b.to_owned()
}

/// The drawing with the outfit's lines added on top.
fn apply_outfit(outfit_id: &str, base_art: Vec<String>) -> (r: Vec<String>)
    ensures
        ids(r@) == outfit_header(outfit_id@) + ids(base_art@),
{
    let mut art = if str_is(outfit_id, "hacker") {
        text_lines(&["  [===]  "])
    } else if str_is(outfit_id, "wizard") {
        text_lines(&["   /\\", "  /  \\", "  ----"])
    } else if str_is(outfit_id, "ninja") {
        text_lines(&["  ~~~~~"])
    } else if str_is(outfit_id, "astronaut") {
        text_lines(&["  /===\\", " |     |"])
    } else if str_is(outfit_id, "robot") {
        text_lines(&["  [|||]"])
    } else if str_is(outfit_id, "dragon") {
        text_lines(&["  ^^^"])
    } else if str_is(outfit_id, "legendary") {
        text_lines(&["  *****", "  *   *"])
    } else {
        Vec::new()
    };
    proof {
        assert(str_views(seq!["  [===]  "]) =~= seq!["  [===]  "@]);
        assert(str_views(seq!["   /\\", "  /  \\", "  ----"]) =~= seq!["   /\\"@, "  /  \\"@, "  ----"@]);
        assert(str_views(seq!["  ~~~~~"]) =~= seq!["  ~~~~~"@]);
        assert(str_views(seq!["  /===\\", " |     |"]) =~= seq!["  /===\\"@, " |     |"@]);
        assert(str_views(seq!["  [|||]"]) =~= seq!["  [|||]"@]);
        assert(str_views(seq!["  ^^^"]) =~= seq!["  ^^^"@]);
        assert(str_views(seq!["  *****", "  *   *"]) =~= seq!["  *****"@, "  *   *"@]);
        assert(ids(Seq::<String>::empty()) =~= Seq::<Seq<char>>::empty());
    }
    let ghost head = art@;
    let mut i: usize = 0;
    while i < base_art.len()
        invariant
            0 <= i <= base_art@.len(),
            art@ == head + base_art@.take(i as int),
        decreases base_art.len() - i,
    {
        art.push(base_art[i].clone());
        assert(art@ =~= head + base_art@.take(i as int + 1));
        i += 1;
    }
    assert(base_art@.take(i as int) =~= base_art@);
    assert(ids(art@) =~= ids(head) + ids(base_art@));
    art
}

/// The drawing of the companion: its species' art for the mood's face and the
/// animation frame, under the equipped outfit's lines.
pub open spec fn creature_art(
    species: CreatureSpecies,
    mood: CreatureMood,
    outfit: Option<Seq<char>>,
    frame: nat,
) -> Seq<Seq<char>> {
    match outfit {
        Some(o) => outfit_header(o) + species_art(species, mood_face(mood), frame),
        None => species_art(species, mood_face(mood), frame),
    }
}

pub fn get_creature_art(
    species: &CreatureSpecies,
    mood: &CreatureMood,
    outfit: Option<&str>,
    frame: usize,
) -> (r: Vec<String>)
    ensures
        ids(r@) == creature_art(
            *species,
            *mood,
            match outfit {
                Some(o) => Some(o@),
                None => None,
            },
            frame as nat,
        ),
{
    let base_art = get_species_art(species, mood, frame);
    match outfit {
        Some(outfit_id) => apply_outfit(outfit_id, base_art),
        None => base_art,
    }
}

/// What the companion says on greeting, after its name, for each mood.
pub open spec fn greeting_tail(m: CreatureMood) -> Seq<char> {
    match m {
        CreatureMood::Happy => ": Hi there! Ready to browse?"@,
        CreatureMood::Excited => ": Woohoo! Let's see what's new!"@,
        CreatureMood::Sleepy => ": *yawn* Good to see you..."@,
        CreatureMood::Thinking => ": Hmm, interesting times..."@,
        CreatureMood::Proud => ": Look how much we've grown!"@,
        CreatureMood::Lonely => ": I missed you! Where were you?"@,
        CreatureMood::Curious => ": What shall we discover today?"@,
    }
}

/// The greeting: the name, then the mood's line.
pub fn get_greeting(mood: &CreatureMood, name: &str) -> (r: String)
    ensures
        r@ == name@ + greeting_tail(*mood),
{
    let tail = match mood {
        CreatureMood::Happy => ": Hi there! Ready to browse?",
        CreatureMood::Excited => ": Woohoo! Let's see what's new!",
        CreatureMood::Sleepy => ": *yawn* Good to see you...",
        CreatureMood::Thinking => ": Hmm, interesting times...",
        CreatureMood::Proud => ": Look how much we've grown!",
        CreatureMood::Lonely => ": I missed you! Where were you?",
        CreatureMood::Curious => ": What shall we discover today?",
    };
    let mut s = name.to_owned();
    s.append(tail);
    s
}

/// The idle animation's text for each of its eight frames.
pub open spec fn idle_text(k: nat) -> Seq<char> {
    if k == 0 {
        "..."@
    } else if k == 1 {
        " .."@
    } else if k == 2 {
        "  ."@
    } else if k == 3 {
        "   "@
    } else if k == 4 {
        ".  "@
    } else if k == 5 {
        ".. "@
    } else if k == 6 {
        "..."@
    } else {
        " . "@
    }
}

/// The idle animation's text for an animation frame, cycling every eight frames.
pub fn get_idle_message(frame: usize) -> (r: &'static str)
    ensures
        r@ == idle_text((frame % 8) as nat),
{
    let k = frame % 8;
    if k == 0 {
        "..."
    } else if k == 1 {
        " .."
    } else if k == 2 {
        "  ."
    } else if k == 3 {
        "   "
    } else if k == 4 {
        ".  "
    } else if k == 5 {
        ".. "
    } else if k == 6 {
        "..."
    } else {
        " . "
    }
}

/// The level-up celebration banner.
pub open spec fn level_up_art() -> Seq<Seq<char>> {
    seq![
        "  *  LEVEL UP!  *"@,
        " *** ******** ***"@,
        "*******************"@,
        " *** ******** ***"@,
        "  *            *"@,
    ]
}

pub fn get_level_up_art() -> (r: Vec<&'static str>)
    ensures
        str_views(r@) == level_up_art(),
{
    let r = vec![
        "  *  LEVEL UP!  *",
        " *** ******** ***",
        "*******************",
        " *** ******** ***",
        "  *            *",
    ];
    assert(str_views(r@) =~= level_up_art());
    r
}

} // verus!
