//! What the bot does when a participant's voice state changes: greet those
//! who enter the greeting channel, and leave a guild where it is alone.
use vstd::prelude::*;

verus! {

/// The channel whose newcomers the bot greets with a short clip.
pub const GREETING_CHANNEL: u64 = 723740962802630686;

/// What a voice state change asks of the bot.
#[derive(Debug, Clone, Copy, PartialEq, Eq, Structural)]
pub enum PresenceAction {
    /// Nothing to do.
    Ignore,
    /// Join `channel_id` in `guild_id` and play the greeting there; where the
    /// clip cannot be opened, go on as for `CheckAlone`.
    JoinAndGreet { guild_id: u64, channel_id: u64 },
    /// Leave `guild_id` if the bot is the only one left in voice there.
    CheckAlone { guild_id: u64 },
}

/// The handler of the gateway events that concern voice presence.
pub struct Handler;

impl Handler {
    /// The action for a voice state change in `guild_id` that puts a member
    /// (a bot where `is_bot`) into `channel_id`, or out of voice where it is
    /// `None`. Other bots are ignored.
    pub fn voice_state_update(
        &self,
        is_bot: bool,
        guild_id: Option<u64>,
        channel_id: Option<u64>,
    ) -> (r: PresenceAction)
        ensures
            r == (if is_bot || guild_id is None {
                PresenceAction::Ignore
            } else if channel_id == Some(GREETING_CHANNEL) {
                PresenceAction::JoinAndGreet {
                    guild_id: guild_id->Some_0,
                    channel_id: GREETING_CHANNEL,
                }
            } else {
                PresenceAction::CheckAlone { guild_id: guild_id->Some_0 }
            }),
    {
        if is_bot {
            return PresenceAction::Ignore;
        }
        match guild_id {
            None => PresenceAction::Ignore,
            Some(g) => {
                if channel_id == Some(GREETING_CHANNEL) {
                    PresenceAction::JoinAndGreet { guild_id: g, channel_id: GREETING_CHANNEL }
                } else {
                    PresenceAction::CheckAlone { guild_id: g }
                }
            },
        }
    }

    /// Whether the bot leaves a guild where `voice_states` members, itself
    /// included, are in voice: it does when it is the only one.
    pub fn leaves_when(&self, voice_states: usize) -> (r: bool)
        ensures
            r == (voice_states == 1),
    {
        voice_states == 1
    }
}

} // verus!
