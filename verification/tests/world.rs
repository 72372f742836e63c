use npc_mind::agent::{
    advance_frame, keyboard_to_direction, skeleton_animation_set, Action, AnimationIndices,
    AnimationSet, CharacterState, Direction,
};
use npc_mind::entity::{Character, Encounter, Location};
use npc_mind::spell::{
    create_spell, next_blob_frame, Spell, SpellCommand, SpellEffect, SpellStep, SpellTarget,
};
use npc_mind::terrain::{tile_translation, TerrainGenerator};

#[test]
fn stock_spell_lifts_then_burns_then_finishes() {
    let mut spell = create_spell();
    assert_eq!(spell.update(), SpellStep::Apply(SpellEffect::Lift));
    assert_eq!(spell.command_index, 1);
    assert_eq!(spell.update(), SpellStep::Apply(SpellEffect::Burn));
    assert_eq!(spell.command_index, 2);
    assert_eq!(spell.update(), SpellStep::Finished);
    assert_eq!(spell.command_index, 2);
}

#[test]
fn spell_take_target_aims_the_active_command() {
    let mut spell = Spell {
        command_index: 0,
        spell_commands: vec![SpellCommand { effect: SpellEffect::Lift, target: None }],
    };
    spell.take_target(SpellTarget {});
    assert_eq!(spell.spell_commands[0].target, Some(SpellTarget {}));
    assert_eq!(spell.spell_commands[0].effect, SpellEffect::Lift);
}

#[test]
fn spell_take_target_past_the_end_is_a_no_op() {
    let mut spell = Spell {
        command_index: 3,
        spell_commands: vec![SpellCommand { effect: SpellEffect::Burn, target: None }],
    };
    spell.take_target(SpellTarget {});
    assert_eq!(spell.spell_commands[0].target, None);
    assert_eq!(spell.command_index, 3);
}

#[test]
fn spell_command_takes_a_target() {
    let mut command = SpellCommand { effect: SpellEffect::Burn, target: None };
    command.take_target(SpellTarget {});
    assert_eq!(command.target, Some(SpellTarget {}));
    assert_eq!(command.effect, SpellEffect::Burn);
}

#[test]
fn blob_frames_cycle_through_three() {
    assert_eq!(next_blob_frame(0), 1);
    assert_eq!(next_blob_frame(1), 2);
    assert_eq!(next_blob_frame(2), 0);
    assert_eq!(next_blob_frame(9), 0);
}

#[test]
fn skeleton_rows_match_the_sprite_sheet() {
    let set = skeleton_animation_set();
    assert_eq!(set.running, AnimationIndices { first: 4, last: 11 });
    assert_eq!(set.idle, AnimationIndices { first: 0, last: 3 });
    assert_eq!(set.hit, AnimationIndices { first: 12, last: 15 });
}

#[test]
fn frames_step_within_the_selected_row() {
    let set = skeleton_animation_set();
    let running_west = CharacterState { action: Action::Running, direction: Direction::W };
    assert_eq!(advance_frame(&set, &running_west, 5), 6);
    assert_eq!(advance_frame(&set, &running_west, 11), 4);
    assert_eq!(advance_frame(&set, &running_west, 3), 4);
}

#[test]
fn frames_offset_by_the_facing_row() {
    let set = skeleton_animation_set();
    // East is row 4; each row holds 24 frames, so idle east spans 96..=99.
    let idle_east = CharacterState { action: Action::Idle, direction: Direction::E };
    assert_eq!(advance_frame(&set, &idle_east, 0), 96);
    assert_eq!(advance_frame(&set, &idle_east, 96), 97);
    assert_eq!(advance_frame(&set, &idle_east, 99), 96);
}

#[test]
fn sprite_rows_follow_declaration_order() {
    assert_eq!(Direction::W.sprite_row(), 0);
    assert_eq!(Direction::N.sprite_row(), 2);
    assert_eq!(Direction::E.sprite_row(), 4);
    assert_eq!(Direction::SW.sprite_row(), 7);
}

#[test]
fn keyboard_masks_resolve_to_facings() {
    assert_eq!(keyboard_to_direction(0x01), Some(Direction::W));
    assert_eq!(keyboard_to_direction(0x02), Some(Direction::E));
    assert_eq!(keyboard_to_direction(0x04), Some(Direction::N));
    assert_eq!(keyboard_to_direction(0x08), Some(Direction::S));
    assert_eq!(keyboard_to_direction(0x05), Some(Direction::NW));
    assert_eq!(keyboard_to_direction(0x06), Some(Direction::NE));
    assert_eq!(keyboard_to_direction(0x09), Some(Direction::SW));
    assert_eq!(keyboard_to_direction(0x0a), Some(Direction::SE));
    assert_eq!(keyboard_to_direction(0x00), None);
    assert_eq!(keyboard_to_direction(0x03), None);
    assert_eq!(keyboard_to_direction(0x0f), None);
}

#[test]
fn default_direction_and_action() {
    assert_eq!(Direction::default(), Direction::W);
    assert_eq!(Action::default(), Action::Running);
}

#[test]
fn terrain_enumerates_the_grid_row_major() {
    let mut generator = TerrainGenerator::new(1, 2);
    let mut cells = Vec::new();
    while let Some(tile) = generator.next_tile() {
        assert!(tile.tile_index < 16);
        cells.push((tile.x, tile.y));
    }
    assert_eq!(cells, vec![(0, 0), (1, 0), (0, 1), (1, 1)]);
    assert_eq!(generator.next_tile(), None);
}

#[test]
fn terrain_with_no_rows_is_empty() {
    let mut generator = TerrainGenerator::new(3, 0);
    assert_eq!(generator.next_tile(), None);
}

#[test]
fn terrain_tiles_stay_under_the_sprite_count() {
    let mut generator = TerrainGenerator::new(0, 200);
    while let Some(tile) = generator.next_tile() {
        assert!(tile.tile_index < 16);
    }
}

#[test]
fn tiles_land_on_the_isometric_lattice() {
    assert_eq!(tile_translation(0, 0), (0, 0));
    assert_eq!(tile_translation(1, 2), (96, 144));
    assert_eq!(tile_translation(2, 1), (-96, 144));
}

#[test]
fn stock_character_is_the_elf_queen() {
    let character = Character::default();
    assert_eq!(character.name, "Analia");
    assert_eq!(character.gender, "Female");
    assert_eq!(character.race, "Elf");
    assert!(character.description.starts_with("The elf queen of Eldulia"));
}

#[test]
fn stock_location_is_the_forest() {
    let location = Location::default();
    assert_eq!(location.name, "The Forest of Eldulia");
    assert!(location.description.contains("ancient woodland"));
}

#[test]
fn stock_encounter_stages_the_queen_in_eldulia() {
    let encounter = Encounter::default();
    assert_eq!(encounter.name, "The Elf Queen");
    assert_eq!(encounter.location, "Eldulia");
    assert_eq!(encounter.characters.len(), 1);
    assert_eq!(encounter.characters[0], Character::default());
}

#[test]
fn animation_sets_compare_by_fields() {
    let a: AnimationSet = skeleton_animation_set();
    let b: AnimationSet = skeleton_animation_set();
    assert_eq!(a, b);
}
