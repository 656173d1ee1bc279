//! Rendering a finished scan for the user: the one-line summary with the
//! counts and a link to the last processed message, and the newline-joined
//! link list handed over as a downloadable file.

use vstd::prelude::*;

use crate::scan::ScanResult;
use crate::text::{dec_str, join_strings, joined, string_views, u64_to_string};

verus! {

/// The address of one message of a channel.
pub open spec fn message_link_text(guild: int, channel: int, message: int) -> Seq<char> {
    "https://discord.com/channels/"@ + dec_str(guild) + "/"@ + dec_str(channel) + "/"@ + dec_str(
        message,
    ) + "/"@
}

/// The summary of a finished scan: what was found and where the scan ended,
/// or — for an empty result — that nothing was found.
pub open spec fn scan_summary_text(
    links: int,
    processed: int,
    guild: int,
    channel: int,
    last: int,
) -> Seq<char> {
    if links > 0 {
        "Found **"@ + dec_str(links) + "** images in processed **"@ + dec_str(processed)
            + "** messages! \nThe last message processed was [this one]("@ + message_link_text(
            guild,
            channel,
            last,
        ) + ")."@
    } else {
        "Processed **"@ + dec_str(processed)
            + "** messages but I haven't found any images :( \nThe last message processed was [this one]("@
            + message_link_text(guild, channel, last) + ")."@
    }
}

/// Builds the address of one message of a channel.
pub fn format_message_link(guild_id: u64, channel_id: u64, message_id: u64) -> (r: String)
    ensures
        r@ == message_link_text(guild_id as int, channel_id as int, message_id as int),
{
    let mut r = String::from_str("https://discord.com/channels/");
    let guild_text = u64_to_string(guild_id);
    r.append(guild_text.as_str());
    r.append("/");
    let channel_text = u64_to_string(channel_id);
    r.append(channel_text.as_str());
    r.append("/");
    let message_text = u64_to_string(message_id);
    r.append(message_text.as_str());
    r.append("/");
    r
}

/// Writes the summary of a finished scan, with the counts and a link to the
/// last processed message.
pub fn scan_summary(result: &ScanResult, guild_id: u64, channel_id: u64) -> (r: String)
    requires
        result.links@.len() <= u64::MAX,
    ensures
        r@ == scan_summary_text(
            result.links@.len() as int,
            result.messages_processed as int,
            guild_id as int,
            channel_id as int,
            result.last_message_id as int,
        ),
{
    let link = format_message_link(guild_id, channel_id, result.last_message_id);
    let processed = u64_to_string(result.messages_processed as u64);
    if result.links.len() > 0 {
        let mut r = String::from_str("Found **");
        let count = u64_to_string(result.links.len() as u64);
        r.append(count.as_str());
        r.append("** images in processed **");
        r.append(processed.as_str());
        r.append("** messages! \nThe last message processed was [this one](");
        r.append(link.as_str());
        r.append(").");
        r
    } else {
        let mut r = String::from_str("Processed **");
        r.append(processed.as_str());
        r.append("** messages but I haven't found any images :( \nThe last message processed was [this one](");
        r.append(link.as_str());
        r.append(").");
        r
    }
}

/// The collected links, one per line, as handed over for download when the
/// scan found anything.
pub fn links_file_content(result: &ScanResult) -> (r: String)
    ensures
        r@ == joined(string_views(result.links@), "\n"@),
{
    join_strings(&result.links, "\n")
}

} // verus!
