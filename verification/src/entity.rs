//! World-building records: a character sheet, a location, and an encounter
//! tying the two together, each with its stock default. A record can
//! phrase a generation prompt about itself (`SelfDescribe`); the prompt
//! assembly itself serializes through the runtime layer.

use vstd::prelude::*;

verus! {

/// A thing that can phrase a generation prompt about itself, specialized
/// by an input of its choosing.
pub trait SelfDescribe {
    type Input;

    /// A prompt asking for a value shaped like this one.
    fn describe(&self, input: &Self::Input) -> String;
}

/// A game character sheet.
#[derive(Clone, PartialEq, Eq, Debug)]
pub struct Character {
    pub name: String,
    pub description: String,
    pub gender: String,
    pub race: String,
}

/// The stock character: the elf queen.
pub open spec fn is_default_character(c: Character) -> bool {
    &&& c.name@ == "Analia"@
    &&& c.description@
        == "The elf queen of Eldulia is a regal and graceful leader, revered by her people for her wisdom and kindness. With long, flowing silver hair and sparkling emerald eyes, she exudes an ethereal beauty that belies her immense power and strength. Clad in ornate, intricately woven robes that shimmer with the colors of the forest, she is a symbol of the natural world and its enduring magic. Her presence commands respect, and her words hold great weight among her subjects and allies. Despite her elegance, the elf queen is a formidable warrior, skilled in both magic and swordplay, and fiercely protective of her homeland and its inhabitants. She is a beacon of hope and guidance for the elves of Eldulia, guiding them with compassion and unwavering resolve in the face of adversity."@
    &&& c.gender@ == "Female"@
    &&& c.race@ == "Elf"@
}

impl Default for Character {
    fn default() -> (c: Character)
        ensures
            is_default_character(c),
    {
        Character {
            name: "Analia".to_owned(),
            description:
                "The elf queen of Eldulia is a regal and graceful leader, revered by her people for her wisdom and kindness. With long, flowing silver hair and sparkling emerald eyes, she exudes an ethereal beauty that belies her immense power and strength. Clad in ornate, intricately woven robes that shimmer with the colors of the forest, she is a symbol of the natural world and its enduring magic. Her presence commands respect, and her words hold great weight among her subjects and allies. Despite her elegance, the elf queen is a formidable warrior, skilled in both magic and swordplay, and fiercely protective of her homeland and its inhabitants. She is a beacon of hope and guidance for the elves of Eldulia, guiding them with compassion and unwavering resolve in the face of adversity.".to_owned(),
            gender: "Female".to_owned(),
            race: "Elf".to_owned(),
        }
    }
}

/// A place in the world.
#[derive(Clone, PartialEq, Eq, Debug)]
pub struct Location {
    pub name: String,
    pub description: String,
}

/// The stock location: the Forest of Eldulia.
pub open spec fn is_default_location(l: Location) -> bool {
    &&& l.name@ == "The Forest of Eldulia"@
    &&& l.description@
        == "The Forest of Eldulia is a sprawling and ancient woodland, teeming with life and mystery. Towering trees loom overhead, their branches interlocking to create a canopy that filters the sunlight into a dappled, ethereal glow. The forest floor is carpeted with lush mosses and ferns, concealing hidden glades and meandering streams that wind their way through the landscape.The air is alive with the rustle of leaves and the melodic calls of birds and woodland creatures. But beyond the tranquil facade, there is an undercurrent of magic and danger. Ancient ruins and forgotten relics lie buried beneath the forest's undergrowth, hinting at a forgotten civilization that once thrived in these woods.Adventurers and explorers are drawn to The Forest of Eldulia, eager to uncover its secrets and uncover the truth of its mystical inhabitants. But they must tread carefully, for the forest is shrouded in enchantments and guarded by creatures both wondrous and fearsome. The Forest of Eldulia is a place of beauty, enchantment, and peril, where the line between reality and myth begins to blur."@
}

impl Default for Location {
    fn default() -> (l: Location)
        ensures
            is_default_location(l),
    {
        Location {
            name: "The Forest of Eldulia".to_owned(),
            description:
                "The Forest of Eldulia is a sprawling and ancient woodland, teeming with life and mystery. Towering trees loom overhead, their branches interlocking to create a canopy that filters the sunlight into a dappled, ethereal glow. The forest floor is carpeted with lush mosses and ferns, concealing hidden glades and meandering streams that wind their way through the landscape.The air is alive with the rustle of leaves and the melodic calls of birds and woodland creatures. But beyond the tranquil facade, there is an undercurrent of magic and danger. Ancient ruins and forgotten relics lie buried beneath the forest's undergrowth, hinting at a forgotten civilization that once thrived in these woods.Adventurers and explorers are drawn to The Forest of Eldulia, eager to uncover its secrets and uncover the truth of its mystical inhabitants. But they must tread carefully, for the forest is shrouded in enchantments and guarded by creatures both wondrous and fearsome. The Forest of Eldulia is a place of beauty, enchantment, and peril, where the line between reality and myth begins to blur.".to_owned(),
        }
    }
}

/// A staged meeting: where it happens and who takes part.
#[derive(Clone, PartialEq, Eq, Debug)]
pub struct Encounter {
    pub name: String,
    pub description: String,
    pub location: String,
    pub characters: Vec<Character>,
}

/// The stock encounter: meeting the elf queen.
pub open spec fn is_default_encounter(e: Encounter) -> bool {
    &&& e.name@ == "The Elf Queen"@
    &&& e.description@
        == "The elf queen of Eldulia is a regal and graceful leader, revered by her people for her wisdom and kindness. With long, flowing silver hair and sparkling emerald eyes, she exudes an ethereal beauty that belies her immense power and strength. Clad in ornate, intricately woven robes that shimmer with the colors of the forest, she is a symbol of the natural world and its enduring magic. Her presence commands respect, and her words hold great weight among her subjects and allies. Despite her elegance, the elf queen is a formidable warrior, skilled in both magic and swordplay, and fiercely protective of her homeland and its inhabitants. She is a beacon of hope and guidance for the elves of Eldulia, guiding them with compassion and unwavering resolve in the face of adversity."@
    &&& e.location@ == "Eldulia"@
    &&& e.characters@.len() == 1
    &&& is_default_character(e.characters@[0])
}

impl Default for Encounter {
    fn default() -> (e: Encounter)
        ensures
            is_default_encounter(e),
    {
        let mut characters: Vec<Character> = Vec::new();
        characters.push(Character::default());
        Encounter {
            name: "The Elf Queen".to_owned(),
            description:
                "The elf queen of Eldulia is a regal and graceful leader, revered by her people for her wisdom and kindness. With long, flowing silver hair and sparkling emerald eyes, she exudes an ethereal beauty that belies her immense power and strength. Clad in ornate, intricately woven robes that shimmer with the colors of the forest, she is a symbol of the natural world and its enduring magic. Her presence commands respect, and her words hold great weight among her subjects and allies. Despite her elegance, the elf queen is a formidable warrior, skilled in both magic and swordplay, and fiercely protective of her homeland and its inhabitants. She is a beacon of hope and guidance for the elves of Eldulia, guiding them with compassion and unwavering resolve in the face of adversity.".to_owned(),
            location: "Eldulia".to_owned(),
            characters,
        }
    }
}

} // verus!
