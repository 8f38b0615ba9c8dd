//! The about screen.
use vstd::prelude::*;
use crate::ui::{Effect, Sound, InputState, Screen};

verus! {

/// Back returns to the main menu.
pub fn update(input: &InputState, screen: &mut Screen) -> (effects: Vec<Effect>)
    ensures
        input.back ==> *final(screen) == Screen::MainMenu && effects@ == seq![Effect::Play(Sound::Back)],
        !input.back ==> *final(screen) == *old(screen) && effects@.len() == 0,
{
    let mut effects: Vec<Effect> = Vec::new();
    if input.back {
        *screen = Screen::MainMenu;
        effects.push(Effect::Play(Sound::Back));
        assert(effects@ =~= seq![Effect::Play(Sound::Back)]);
    }
    effects
}

} // verus!
