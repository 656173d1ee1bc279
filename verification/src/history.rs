//! The message model that the history scanner works on, and the extraction of
//! media links from a single message and from a whole page of messages.
//!
//! A message carries attachments and embeds.  An attachment counts as an image
//! exactly when the provider reported a pixel width for it; an embed counts
//! exactly when it carries an image address.  Extraction collects, in order,
//! first the image attachment addresses and then the embedded image addresses.

use vstd::prelude::*;

use crate::text::string_views;

verus! {

/// An attachment of a message, reduced to what the scanner reads:
/// its address and whether the provider reported a pixel width for it.
pub struct MediaAttachment {
    /// Where the attachment can be downloaded from.
    pub url: String,
    /// Pixel width, reported only for image-like attachments.
    pub width: Option<u32>,
}

impl MediaAttachment {
    /// An attachment counts as an image exactly when a width was reported.
    pub open spec fn is_image(self) -> bool {
        self.width is Some
    }
}

/// An embed of a message, reduced to the one field the scanner reads:
/// the address of its image, when it has one.
pub struct MessageEmbed {
    /// The address of the embedded image, if the embed carries one.
    pub image_url: Option<String>,
}

/// One message of a channel's history, as the scanner sees it.
pub struct ScanMessage {
    /// Position in the history; totally ordered, larger means more recent.
    pub id: u64,
    /// When the message was posted, in seconds since the epoch.
    pub timestamp: u64,
    /// The message's attachments, in the order the provider lists them.
    pub attachments: Vec<MediaAttachment>,
    /// The message's embeds, in the order the provider lists them.
    pub embeds: Vec<MessageEmbed>,
}

/// The addresses of the image attachments among `atts`, in order.
pub open spec fn attachment_links(atts: Seq<MediaAttachment>) -> Seq<Seq<char>>
    decreases atts.len(),
{
    if atts.len() == 0 {
        Seq::empty()
    } else {
        attachment_links(atts.drop_last()) + if atts.last().is_image() {
            seq![atts.last().url@]
        } else {
            Seq::empty()
        }
    }
}

/// The addresses of the embedded images among `embeds`, in order.
pub open spec fn embed_links(embeds: Seq<MessageEmbed>) -> Seq<Seq<char>>
    decreases embeds.len(),
{
    if embeds.len() == 0 {
        Seq::empty()
    } else {
        embed_links(embeds.drop_last()) + if embeds.last().image_url is Some {
            seq![embeds.last().image_url->0@]
        } else {
            Seq::empty()
        }
    }
}

/// Every media link of one message: image attachment addresses first,
/// then embedded image addresses, each group in provider order.
pub open spec fn message_media(msg: ScanMessage) -> Seq<Seq<char>> {
    attachment_links(msg.attachments@) + embed_links(msg.embeds@)
}

/// Every media link of a run of messages, message by message in order.
pub open spec fn messages_media(msgs: Seq<ScanMessage>) -> Seq<Seq<char>>
    decreases msgs.len(),
{
    if msgs.len() == 0 {
        Seq::empty()
    } else {
        messages_media(msgs.drop_last()) + message_media(msgs.last())
    }
}

/// Media extraction distributes over splitting a run of messages.
pub proof fn lemma_messages_media_concat(a: Seq<ScanMessage>, b: Seq<ScanMessage>)
    ensures
        messages_media(a + b) == messages_media(a) + messages_media(b),
    decreases b.len(),
{
    if b.len() == 0 {
        assert(a + b =~= a);
        assert(messages_media(a) + messages_media(b) =~= messages_media(a));
    } else {
        assert((a + b).drop_last() =~= a + b.drop_last());
        assert((a + b).last() == b.last());
        lemma_messages_media_concat(a, b.drop_last());
        assert(messages_media(a) + (messages_media(b.drop_last()) + message_media(b.last()))
            =~= (messages_media(a) + messages_media(b.drop_last())) + message_media(b.last()));
    }
}

/// Appends the addresses of the image attachments among `atts` to `out`, in order.
fn push_attachment_links(out: &mut Vec<String>, atts: &Vec<MediaAttachment>)
    ensures
        string_views(final(out)@) == string_views(old(out)@) + attachment_links(atts@),
{
    let ghost start = out@;
    for i in 0..atts.len()
        invariant
            string_views(out@) == string_views(start) + attachment_links(atts@.take(i as int)),
    {
        let ghost before = out@;
        if atts[i].width.is_some() {
            let url = atts[i].url.clone();
            out.push(url);
        }
        proof {
            assert(atts@.take(i + 1).drop_last() =~= atts@.take(i as int));
            assert(atts@.take(i + 1).last() == atts@[i as int]);
            if atts@[i as int].is_image() {
                assert(string_views(out@) =~= string_views(before).push(atts@[i as int].url@));
                assert(string_views(before).push(atts@[i as int].url@) =~= string_views(start)
                    + attachment_links(atts@.take(i + 1)));
            } else {
                assert(attachment_links(atts@.take(i + 1)) =~= attachment_links(
                    atts@.take(i as int),
                ));
            }
        }
    }
    proof {
        assert(atts@.take(atts@.len() as int) =~= atts@);
    }
}

/// Appends the addresses of the embedded images among `embeds` to `out`, in order.
fn push_embed_links(out: &mut Vec<String>, embeds: &Vec<MessageEmbed>)
    ensures
        string_views(final(out)@) == string_views(old(out)@) + embed_links(embeds@),
{
    let ghost start = out@;
    for i in 0..embeds.len()
        invariant
            string_views(out@) == string_views(start) + embed_links(embeds@.take(i as int)),
    {
        let ghost before = out@;
        match &embeds[i].image_url {
            Some(url) => {
                let link = url.clone();
                out.push(link);
            },
            None => {},
        }
        proof {
            assert(embeds@.take(i + 1).drop_last() =~= embeds@.take(i as int));
            assert(embeds@.take(i + 1).last() == embeds@[i as int]);
            if embeds@[i as int].image_url is Some {
                assert(string_views(out@) =~= string_views(before).push(
                    embeds@[i as int].image_url->0@,
                ));
                assert(string_views(before).push(embeds@[i as int].image_url->0@)
                    =~= string_views(start) + embed_links(embeds@.take(i + 1)));
            } else {
                assert(embed_links(embeds@.take(i + 1)) =~= embed_links(embeds@.take(i as int)));
            }
        }
    }
    proof {
        assert(embeds@.take(embeds@.len() as int) =~= embeds@);
    }
}

/// Appends every media link of `msg` to `out`: image attachments first, then
/// embedded images, and reports whether anything was found.
pub fn push_message_media(out: &mut Vec<String>, msg: &ScanMessage) -> (found: bool)
    ensures
        string_views(final(out)@) == string_views(old(out)@) + message_media(*msg),
        found == (message_media(*msg).len() > 0),
{
    let before_len = out.len();
    push_attachment_links(out, &msg.attachments);
    push_embed_links(out, &msg.embeds);
    proof {
        assert(string_views(out@).len() == out@.len());
        assert(string_views(old(out)@).len() == old(out)@.len());
    }
    out.len() > before_len
}

/// Every media link of one message, on its own: image attachment addresses
/// first, then embedded image addresses.
pub fn extract_media(msg: &ScanMessage) -> (links: Vec<String>)
    ensures
        string_views(links@) == message_media(*msg),
{
    let mut links: Vec<String> = Vec::new();
    push_message_media(&mut links, msg);
    proof {
        assert(string_views(Seq::<String>::empty()) =~= Seq::<Seq<char>>::empty());
    }
    links
}

/// Every media link of a batch of messages, message by message in order:
/// the core of the one-shot collection command, which gathers the images of
/// the most recent page of a channel's history.
pub fn collect_page_links(messages: &Vec<ScanMessage>) -> (links: Vec<String>)
    ensures
        string_views(links@) == messages_media(messages@),
{
    let mut links: Vec<String> = Vec::new();
    proof {
        assert(string_views(Seq::<String>::empty()) =~= Seq::<Seq<char>>::empty());
    }
    for i in 0..messages.len()
        invariant
            string_views(links@) == messages_media(messages@.take(i as int)),
    {
        push_message_media(&mut links, &messages[i]);
        proof {
            assert(messages@.take(i + 1).drop_last() =~= messages@.take(i as int));
            assert(messages@.take(i + 1).last() == messages@[i as int]);
        }
    }
    proof {
        assert(messages@.take(messages@.len() as int) =~= messages@);
    }
    links
}

} // verus!
