//! The interaction rules: how one decoded key press (or none) changes the
//! session flags and the palette selection.

use vstd::prelude::*;
use crate::grid::Color;
use crate::grid::GameData;

verus! {

/// One decoded key press the session reacts to. Anything the session does
/// not recognize arrives as `Other` and has no effect.
#[derive(Clone, Copy, Debug, PartialEq, Eq, Structural)]
pub enum KeyInput {
    /// The quit key: ends the session.
    Quit,
    /// The reload key: asks for a fresh random grid.
    Reload,
    /// The palette key: advances to the next display color.
    CycleColor,
    /// Any other key.
    Other,
}

/// The palette entry after `c`, wrapping back to the first after the last.
pub open spec fn spec_next_color(c: Color) -> Color {
    match c {
        Color::Cyan => Color::Pink,
        Color::Pink => Color::Green,
        Color::Green => Color::White,
        Color::White => Color::Cyan,
    }
}

/// Advances the palette selection by one entry, wrapping around.
pub fn next_color(c: Color) -> (n: Color)
    ensures
        n == spec_next_color(c),
{
    match c {
        Color::Cyan => Color::Pink,
        Color::Pink => Color::Green,
        Color::Green => Color::White,
        Color::White => Color::Cyan,
    }
}

/// Applies one polled key press to the session: the quit key clears
/// `game_running`, the reload key sets `reload`, the palette key advances
/// the color, and every other key (or no key at all) changes nothing. The
/// board and its dimensions are never touched.
pub fn handle_keys(gd: &mut GameData, key: Option<KeyInput>)
    ensures
        final(gd).width == old(gd).width,
        final(gd).height == old(gd).height,
        final(gd).board == old(gd).board,
        final(gd).game_running == (if key == Option::Some(KeyInput::Quit) {
            false
        } else {
            old(gd).game_running
        }),
        final(gd).reload == (if key == Option::Some(KeyInput::Reload) {
            true
        } else {
            old(gd).reload
        }),
        final(gd).color == (if key == Option::Some(KeyInput::CycleColor) {
            spec_next_color(old(gd).color)
        } else {
            old(gd).color
        }),
{
    match key {
        Option::Some(KeyInput::Quit) => {
            gd.game_running = false;
        },
        Option::Some(KeyInput::Reload) => {
            gd.reload = true;
        },
        Option::Some(KeyInput::CycleColor) => {
            gd.color = next_color(gd.color);
        },
        _ => {
        },
    }
}

} // verus!
