use crate::text::{replace, replace_all};
use vstd::prelude::*;
use vstd::string::StringExecFns;

verus! {

/// The placeholder in a message format that stands for the guild's name.
pub const GUILD_NAME_PLACEHOLDER: &'static str = "{guild_name}";

/// The guild name used for a direct message, which has no guild.
pub const DIRECT_MESSAGE_NAME: &'static str = "DM";

/// The guild name used when the guild's name could not be fetched.
pub const UNKNOWN_GUILD_NAME: &'static str = "N/A";

/// What became of looking up the name of the guild a message was sent in.
#[derive(Clone, Debug)]
pub enum GuildLookup {
    /// The message came without a guild: a direct message.
    Direct,
    /// The guild's name was fetched.
    Resolved(String),
    /// The message names a guild, but its name could not be fetched.
    Failed,
}

/// Why no notification text could be built.
#[derive(Clone, Copy, Debug, PartialEq, Eq, Structural)]
pub enum MessageError {
    /// No message format is configured.
    FormatNotSet,
}

/// The name that stands in the notification for the guild of `guild`.
pub open spec fn guild_display_name(guild: GuildLookup) -> Seq<char> {
    match guild {
        GuildLookup::Direct => DIRECT_MESSAGE_NAME@,
        GuildLookup::Resolved(name) => name@,
        GuildLookup::Failed => UNKNOWN_GUILD_NAME@,
    }
}

/// The notification text: `format` with every placeholder replaced by the
/// guild's name.
pub open spec fn message_text(guild: GuildLookup, format: Seq<char>) -> Seq<char> {
    replace_all(format, GUILD_NAME_PLACEHOLDER@, guild_display_name(guild))
}

/// What building a message from `guild` and `format` gives: the error when no
/// format is set, and the notification text otherwise.
pub open spec fn built_message(
    guild: GuildLookup,
    format: Option<Seq<char>>,
    r: Result<Seq<char>, MessageError>,
) -> bool {
    match format {
        None => r == Err::<Seq<char>, MessageError>(MessageError::FormatNotSet),
        Some(f) => r == Ok::<Seq<char>, MessageError>(message_text(guild, f)),
    }
}

/// The text of a result, as a sequence of characters.
pub open spec fn result_view(r: Result<String, MessageError>) -> Result<Seq<char>, MessageError> {
    match r {
        Ok(s) => Ok(s@),
        Err(e) => Err(e),
    }
}

/// The text of an optional string, as a sequence of characters.
pub open spec fn option_view(s: Option<&str>) -> Option<Seq<char>> {
    match s {
        Some(s) => Some(s@),
        None => None,
    }
}

/// Builds notification texts from chat messages.
pub struct MessageProvider;

impl MessageProvider {
    /// The name that stands in the notification for the guild: its fetched
    /// name, `DM` for a direct message, `N/A` when the name could not be
    /// fetched.
    pub fn guild_name(guild: &GuildLookup) -> (r: String)
        ensures
            r@ == guild_display_name(*guild),
    {
        match guild {
            GuildLookup::Direct => String::from_str(DIRECT_MESSAGE_NAME),
            GuildLookup::Resolved(name) => name.clone(),
            GuildLookup::Failed => String::from_str(UNKNOWN_GUILD_NAME),
        }
    }

    /// Builds the notification text: `message_format` with every
    /// `{guild_name}` replaced by the guild's name. Fails when no format is
    /// set; a failed lookup of the guild's name is no failure.
    pub fn build_message(guild: &GuildLookup, message_format: Option<&str>) -> (r: Result<
        String,
        MessageError,
    >)
        ensures
            built_message(*guild, option_view(message_format), result_view(r)),
    {
        let guild_name = Self::guild_name(guild);
        match message_format {
            Some(format) => {
                proof {
                    reveal_strlit("{guild_name}");
                }
                Ok(replace(format, GUILD_NAME_PLACEHOLDER, guild_name.as_str()))
            },
            None => Err(MessageError::FormatNotSet),
        }
    }
}

/// Building a message is deterministic: two builds from the same lookup
/// result and the same format give the same outcome.
pub proof fn lemma_build_message_deterministic(
    guild: GuildLookup,
    format: Option<Seq<char>>,
    first: Result<Seq<char>, MessageError>,
    second: Result<Seq<char>, MessageError>,
)
    requires
        built_message(guild, format, first),
        built_message(guild, format, second),
    ensures
        first == second,
{
}

} // verus!
