//! Spells: an ordered program of commands, each an effect plus an optional
//! target, stepped once per tick. Deciding which effect to apply next is
//! pure and lives here; spawning the effect's entity is the runtime's job.

use vstd::prelude::*;

verus! {

/// The lifecycle of a conjured matter blob.
#[derive(Clone, Copy, PartialEq, Eq, Structural, Debug)]
pub enum BlobState {
    Floating,
}

/// What a spell command conjures.
#[derive(Clone, Copy, PartialEq, Eq, Structural, Debug)]
pub enum SpellEffect {
    Lift,
    Burn,
}

/// Where a spell command lands.
#[derive(Clone, Copy, PartialEq, Eq, Structural, Debug)]
pub struct SpellTarget {}

/// One step of a spell's program.
#[derive(Clone, Copy, PartialEq, Eq, Structural, Debug)]
pub struct SpellCommand {
    pub effect: SpellEffect,
    pub target: Option<SpellTarget>,
}

impl SpellCommand {
    /// Aims this command at the given target.
    pub fn take_target(&mut self, target: SpellTarget)
        ensures
            final(self).effect == old(self).effect,
            final(self).target == Some(target),
    {
        self.target = Some(target);
    }
}

/// What one spell step asks of the runtime: spawn the given effect, or
/// nothing because the program has run out.
#[derive(Clone, Copy, PartialEq, Eq, Structural, Debug)]
pub enum SpellStep {
    Finished,
    Apply(SpellEffect),
}

/// A spell: its program of commands and the index of the one to run next.
#[derive(Clone, PartialEq, Eq, Debug)]
pub struct Spell {
    pub command_index: usize,
    pub spell_commands: Vec<SpellCommand>,
}

impl Spell {
    /// Aims the active command, if any, at the given target; a spell whose
    /// program has run out is left untouched.
    pub fn take_target(&mut self, target: SpellTarget)
        ensures
            final(self).command_index == old(self).command_index,
            old(self).command_index < old(self).spell_commands@.len()
                ==> final(self).spell_commands@ == old(self).spell_commands@.update(
                old(self).command_index as int,
                (SpellCommand {
                    effect: old(self).spell_commands@[old(self).command_index as int].effect,
                    target: Some(target),
                }),
            ),
            old(self).command_index >= old(self).spell_commands@.len()
                ==> final(self).spell_commands == old(self).spell_commands,
    {
        let index = self.command_index;
        if index < self.spell_commands.len() {
            let active_command = &mut self.spell_commands[index];
            active_command.take_target(target);
            proof {
                assert(self.spell_commands@ =~= old(self).spell_commands@.update(
                    index as int,
                    (SpellCommand {
                        effect: old(self).spell_commands@[index as int].effect,
                        target: Some(target),
                    }),
                ));
            }
        }
    }

    /// Steps the spell once: hands back the active command's effect and
    /// advances past it, or reports the program finished.
    pub fn update(&mut self) -> (step: SpellStep)
        ensures
            final(self).spell_commands == old(self).spell_commands,
            old(self).command_index >= old(self).spell_commands@.len() ==> step
                == SpellStep::Finished && final(self).command_index == old(self).command_index,
            old(self).command_index < old(self).spell_commands@.len() ==> step
                == SpellStep::Apply(
                old(self).spell_commands@[old(self).command_index as int].effect,
            ) && final(self).command_index == old(self).command_index + 1,
    {
        let len = self.spell_commands.len();
        if len <= self.command_index {
            return SpellStep::Finished;
        }

        let effect = self.spell_commands[self.command_index].effect;
        self.command_index += 1;
        SpellStep::Apply(effect)
    }
}

/// The stock two-step spell: lift, then burn, both pre-targeted.
pub fn create_spell() -> (s: Spell)
    ensures
        s.command_index == 0,
        s.spell_commands@.len() == 2,
        s.spell_commands@[0] == (SpellCommand {
            effect: SpellEffect::Lift,
            target: Some(SpellTarget {}),
        }),
        s.spell_commands@[1] == (SpellCommand {
            effect: SpellEffect::Burn,
            target: Some(SpellTarget {}),
        }),
{
    let mut spell_commands: Vec<SpellCommand> = Vec::new();
    spell_commands.push(SpellCommand { effect: SpellEffect::Lift, target: Some(SpellTarget {}) });
    spell_commands.push(SpellCommand { effect: SpellEffect::Burn, target: Some(SpellTarget {}) });
    Spell { command_index: 0, spell_commands }
}

/// Advances a blob sprite one animation frame through its three-frame
/// cycle, wrapping back to the first frame.
pub fn next_blob_frame(current: usize) -> (r: usize)
    ensures
        r == if current >= 2 {
            0int
        } else {
            current + 1
        },
{
    if current >= 2 {
        0
    } else {
        current + 1
    }
}

} // verus!
