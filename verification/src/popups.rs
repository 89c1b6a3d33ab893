//! The popup side-channel. The core asks the popup collaborator to show
//! one of six two-button prompts at one of nine screen anchors; whichever
//! button the user presses may send back one of three commands, which the
//! world applies. Prompt wording and styling are the collaborator's
//! concern; the core decides only which prompt, where, and what each
//! prompt's loaded button does.

use vstd::prelude::*;
use crate::rng::gen_range_i64;

verus! {

/// Number of prompts the popup collaborator can show.
pub const POPUP_PROMPTS: u32 = 6;

/// Number of screen anchors a popup can appear at.
pub const POPUP_LOCATIONS: u32 = 9;

/// A command sent back by a popup choice.
#[derive(Clone, Copy, PartialEq, Eq, Structural, Debug)]
pub enum PopupCommand {
    /// Spawn one more police officer.
    AddCop,
    /// Point every live officer at the player's current position once.
    CopsTargetPlayer,
    /// Raise the shared officer speed by one unit per second.
    IncreaseCopSpeed,
}

/// A request to the popup collaborator: show prompt `prompt` at anchor
/// `location`; its confirm button (if `on_confirm`) or its dismiss button
/// (otherwise) sends back `command`, the other button only closes the
/// popup.
#[derive(Clone, Copy, PartialEq, Eq, Structural, Debug)]
pub struct PopupRequest {
    pub prompt: u32,
    pub location: u32,
    pub command: PopupCommand,
    pub on_confirm: bool,
}

/// Which command each of the six prompts carries, and on which button: the
/// prompts come in pairs, one arming the confirm button and one the
/// dismiss button, over the three commands in order.
pub open spec fn popup_effect(prompt: int) -> (PopupCommand, bool) {
    if prompt == 0 {
        (PopupCommand::AddCop, true)
    } else if prompt == 1 {
        (PopupCommand::AddCop, false)
    } else if prompt == 2 {
        (PopupCommand::CopsTargetPlayer, true)
    } else if prompt == 3 {
        (PopupCommand::CopsTargetPlayer, false)
    } else if prompt == 4 {
        (PopupCommand::IncreaseCopSpeed, true)
    } else {
        (PopupCommand::IncreaseCopSpeed, false)
    }
}

/// A request the collaborator can honor: prompt and anchor in range, and
/// the armed button carrying exactly the prompt's command.
pub open spec fn popup_request_wf(r: PopupRequest) -> bool {
    &&& r.prompt < POPUP_PROMPTS
    &&& r.location < POPUP_LOCATIONS
    &&& (r.command, r.on_confirm) == popup_effect(r.prompt as int)
}

/// Looks up which command a prompt carries and on which button.
pub fn popup_by_prompt(prompt: u32) -> (e: (PopupCommand, bool))
    requires
        prompt < POPUP_PROMPTS,
    ensures
        e == popup_effect(prompt as int),
{
    if prompt == 0 {
        (PopupCommand::AddCop, true)
    } else if prompt == 1 {
        (PopupCommand::AddCop, false)
    } else if prompt == 2 {
        (PopupCommand::CopsTargetPlayer, true)
    } else if prompt == 3 {
        (PopupCommand::CopsTargetPlayer, false)
    } else if prompt == 4 {
        (PopupCommand::IncreaseCopSpeed, true)
    } else {
        (PopupCommand::IncreaseCopSpeed, false)
    }
}

/// Queues one popup request, drawn at random: a random prompt of the six,
/// at a random anchor of the nine, armed as the prompt table says. The
/// requests already queued stay as they are.
pub fn insert_random_popup(queue: &mut Vec<PopupRequest>) -> (r: PopupRequest)
    ensures
        final(queue)@ == old(queue)@.push(r),
        popup_request_wf(r),
{
    let prompt: u32 = gen_range_i64(0, POPUP_PROMPTS as i64) as u32;
    let location: u32 = gen_range_i64(0, POPUP_LOCATIONS as i64) as u32;
    let (command, on_confirm) = popup_by_prompt(prompt);
    let r = PopupRequest { prompt, location, command, on_confirm };
    queue.push(r);
    r
}

} // verus!
