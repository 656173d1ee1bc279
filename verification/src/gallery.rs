//! Pure helpers of the gallery lookup command: picking the gallery
//! identifiers out of the raw argument text, building the cover address,
//! and laying out the tag summary.
//!
//! The identifier grammar is the project's own: an identifier is a run of
//! one to six ASCII digits followed by a comma, an ASCII whitespace
//! character, or the end of the text.  The text is scanned left to right;
//! after a hit the following separators are consumed, after a miss the scan
//! moves on by one character.  A run of more than six digits thus yields at
//! most its last six, and only when a separator or the end follows them.

use vstd::prelude::*;

use crate::text::{str_eq, string_views};

verus! {

/// The kind of a gallery tag.
#[derive(Clone, Copy, Debug, PartialEq, Eq, Structural)]
pub enum TagType {
    /// A work this gallery parodies.
    Parody,
    /// An ordinary content tag.
    Tag,
    /// An artist credited for the gallery.
    Artist,
    /// A circle or group credited for the gallery.
    Group,
    /// A language the gallery is available in.
    Language,
    /// The gallery's category.
    Category,
    /// A character appearing in the gallery.
    Character,
}

/// One tag of a gallery, as the provider reports it.
pub struct GalleryTagInfo {
    /// The provider's identifier for the tag.
    pub id: i64,
    /// The kind of the tag.
    pub tag_type: TagType,
    /// The tag's display name.
    pub name: String,
    /// The provider's address for the tag.
    pub url: String,
    /// How many galleries carry the tag.
    pub count: i32,
}

/// An ASCII decimal digit.
pub open spec fn is_id_digit(c: char) -> bool {
    48 <= c as u32 <= 57
}

/// A comma or an ASCII whitespace character (space, tab, line feed,
/// vertical tab, form feed, carriage return).
pub open spec fn is_id_separator(c: char) -> bool {
    c as u32 == 44 || c as u32 == 32 || c as u32 == 9 || c as u32 == 10 || c as u32 == 11 || (
    c as u32) == 12 || c as u32 == 13
}

/// How many digits stand in a row from position `i` on.
pub open spec fn digit_run(s: Seq<char>, i: int) -> int
    decreases s.len() - i,
    when 0 <= i <= s.len()
{
    if i < s.len() && is_id_digit(s[i]) {
        1 + digit_run(s, i + 1)
    } else {
        0
    }
}

/// How many separators stand in a row from position `i` on.
pub open spec fn separator_run(s: Seq<char>, i: int) -> int
    decreases s.len() - i,
    when 0 <= i <= s.len()
{
    if i < s.len() && is_id_separator(s[i]) {
        1 + separator_run(s, i + 1)
    } else {
        0
    }
}

/// A digit run never reaches past the end of the text.
pub proof fn lemma_digit_run_bound(s: Seq<char>, i: int)
    requires
        0 <= i <= s.len(),
    ensures
        0 <= digit_run(s, i) <= s.len() - i,
    decreases s.len() - i,
{
    if i < s.len() && is_id_digit(s[i]) {
        lemma_digit_run_bound(s, i + 1);
    }
}

/// A separator run never reaches past the end of the text.
pub proof fn lemma_separator_run_bound(s: Seq<char>, i: int)
    requires
        0 <= i <= s.len(),
    ensures
        0 <= separator_run(s, i) <= s.len() - i,
    decreases s.len() - i,
{
    if i < s.len() && is_id_separator(s[i]) {
        lemma_separator_run_bound(s, i + 1);
    }
}

/// The gallery identifiers found from position `i` on, in order of
/// discovery: each hit contributes its digits and moves the scan past the
/// separators that close it; a miss moves the scan on by one character.
pub open spec fn gallery_ids_from(s: Seq<char>, i: int) -> Seq<Seq<char>>
    decreases s.len() - i,
    when 0 <= i <= s.len()
{
    if i >= s.len() {
        Seq::empty()
    } else {
        let d = digit_run(s, i);
        if 1 <= d <= 6 && (i + d == s.len() || is_id_separator(s[i + d])) {
            proof {
                lemma_digit_run_bound(s, i);
                lemma_separator_run_bound(s, i + d);
            }
            seq![s.subrange(i, i + d)] + gallery_ids_from(s, i + d + separator_run(s, i + d))
        } else {
            gallery_ids_from(s, i + 1)
        }
    }
}

/// The gallery identifiers found in the text, in order of discovery.
pub open spec fn gallery_ids(s: Seq<char>) -> Seq<Seq<char>> {
    gallery_ids_from(s, 0)
}

/// Whether a character is an ASCII decimal digit.
fn check_id_digit(c: char) -> (r: bool)
    ensures
        r == is_id_digit(c),
{
    let u = c as u32;
    48 <= u && u <= 57
}

/// Whether a character closes an identifier: a comma or ASCII whitespace.
fn check_id_separator(c: char) -> (r: bool)
    ensures
        r == is_id_separator(c),
{
    let u = c as u32;
    u == 44 || u == 32 || u == 9 || u == 10 || u == 11 || u == 12 || u == 13
}

/// Picks every gallery identifier out of the raw argument text, in order of
/// discovery.
pub fn parse_gallery_ids(input: &str) -> (ids: Vec<String>)
    ensures
        string_views(ids@) == gallery_ids(input@),
{
    let ghost s = input@;
    let n = input.unicode_len();
    let mut ids: Vec<String> = Vec::new();
    let mut i: usize = 0;
    while i < n
        invariant
            i <= n,
            n == s.len(),
            s == input@,
            string_views(ids@) + gallery_ids_from(s, i as int) == gallery_ids(s),
        decreases n - i,
    {
        let mut j = i;
        while j < n && check_id_digit(input.get_char(j))
            invariant
                i <= j <= n,
                n == s.len(),
                s == input@,
                digit_run(s, i as int) == j - i + digit_run(s, j as int),
            decreases n - j,
        {
            j = j + 1;
        }
        proof {
            assert(digit_run(s, j as int) == 0);
        }
        let d = j - i;
        if 1 <= d && d <= 6 && (j == n || check_id_separator(input.get_char(j))) {
            let ghost before = ids@;
            let id = String::from_str(input.substring_char(i, j));
            ids.push(id);
            let mut k = j;
            while k < n && check_id_separator(input.get_char(k))
                invariant
                    j <= k <= n,
                    n == s.len(),
                    s == input@,
                    separator_run(s, j as int) == k - j + separator_run(s, k as int),
                decreases n - k,
            {
                k = k + 1;
            }
            proof {
                assert(separator_run(s, k as int) == 0);
                assert(gallery_ids_from(s, i as int) == (seq![s.subrange(i as int, j as int)]
                    + gallery_ids_from(s, k as int)));
                assert(string_views(ids@) =~= string_views(before).push(
                    s.subrange(i as int, j as int),
                ));
                assert(string_views(before).push(s.subrange(i as int, j as int))
                    + gallery_ids_from(s, k as int) =~= string_views(before) + (seq![
                    s.subrange(i as int, j as int),
                ] + gallery_ids_from(s, k as int)));
            }
            i = k;
        } else {
            proof {
                assert(gallery_ids_from(s, i as int) == gallery_ids_from(s, i + 1));
            }
            i = i + 1;
        }
    }
    proof {
        assert(gallery_ids_from(s, n as int) =~= Seq::<Seq<char>>::empty());
        assert(string_views(ids@) + Seq::<Seq<char>>::empty() =~= string_views(ids@));
    }
    ids
}

/// The image file ending for the provider's one-letter image type; unknown
/// letters give an empty ending.
pub open spec fn extension_text(raw: Seq<char>) -> Seq<char> {
    if raw == "j"@ {
        "jpg"@
    } else if raw == "p"@ {
        "png"@
    } else if raw == "g"@ {
        "gif"@
    } else {
        Seq::empty()
    }
}

/// Turns the provider's one-letter image type into a file ending.
pub fn parse_extension(raw_ext: &str) -> (r: String)
    ensures
        r@ == extension_text(raw_ext@),
{
    if str_eq(raw_ext, "j") {
        String::from_str("jpg")
    } else if str_eq(raw_ext, "p") {
        String::from_str("png")
    } else if str_eq(raw_ext, "g") {
        String::from_str("gif")
    } else {
        String::new()
    }
}

/// The address of a gallery's cover image.
pub open spec fn cover_url_text(media_id: Seq<char>, raw_ext: Seq<char>) -> Seq<char> {
    "https://t.nhentai.net/galleries/"@ + media_id + "/cover."@ + extension_text(raw_ext)
}

/// Builds the address of a gallery's cover image.
pub fn get_cover_url(media_id: &str, cover_ext_raw: &str) -> (r: String)
    ensures
        r@ == cover_url_text(media_id@, cover_ext_raw@),
{
    let cover_ext = parse_extension(cover_ext_raw);
    let mut r = String::from_str("https://t.nhentai.net/galleries/");
    r.append(media_id);
    r.append("/cover.");
    r.append(cover_ext.as_str());
    r
}

/// The tags of one kind, in their given order.
pub open spec fn tags_of_type(tags: Seq<GalleryTagInfo>, tag_type: TagType) -> Seq<GalleryTagInfo>
    decreases tags.len(),
{
    if tags.len() == 0 {
        Seq::empty()
    } else {
        tags_of_type(tags.drop_last(), tag_type) + if tags.last().tag_type == tag_type {
            seq![tags.last()]
        } else {
            Seq::empty()
        }
    }
}

/// Keeps the tags of one kind, in their given order.
pub fn filter_tags_by_type<'a>(tags: &'a Vec<GalleryTagInfo>, tag_type: TagType) -> (r: Vec<
    &'a GalleryTagInfo,
>)
    ensures
        r@.map_values(|t: &GalleryTagInfo| *t) == tags_of_type(tags@, tag_type),
{
    let mut r: Vec<&GalleryTagInfo> = Vec::new();
    proof {
        assert(Seq::<&GalleryTagInfo>::empty().map_values(|t: &GalleryTagInfo| *t)
            =~= Seq::<GalleryTagInfo>::empty());
    }
    for i in 0..tags.len()
        invariant
            r@.map_values(|t: &GalleryTagInfo| *t) == tags_of_type(tags@.take(i as int), tag_type),
    {
        let ghost before = r@;
        if tags[i].tag_type == tag_type {
            let tag = &tags[i];
            r.push(tag);
        }
        proof {
            assert(tags@.take(i + 1).drop_last() =~= tags@.take(i as int));
            assert(tags@.take(i + 1).last() == tags@[i as int]);
            if tags@[i as int].tag_type == tag_type {
                assert(r@.map_values(|t: &GalleryTagInfo| *t) =~= before.map_values(
                    |t: &GalleryTagInfo| *t,
                ).push(tags@[i as int]));
                assert(before.map_values(|t: &GalleryTagInfo| *t).push(tags@[i as int])
                    =~= tags_of_type(tags@.take(i + 1), tag_type));
            } else {
                assert(tags_of_type(tags@.take(i + 1), tag_type) =~= tags_of_type(
                    tags@.take(i as int),
                    tag_type,
                ));
            }
        }
    }
    proof {
        assert(tags@.take(tags@.len() as int) =~= tags@);
    }
    r
}

/// The tag names, each in backticks, separated and closed by single spaces.
pub open spec fn tag_items_text(tags: Seq<GalleryTagInfo>) -> Seq<char>
    decreases tags.len(),
{
    if tags.len() == 0 {
        Seq::empty()
    } else {
        tag_items_text(tags.drop_last()) + "`"@ + tags.last().name@ + "` "@
    }
}

/// Writes the tag names, each in backticks, separated and closed by single
/// spaces.
pub fn format_tag_items(tags: &Vec<&GalleryTagInfo>) -> (r: String)
    ensures
        r@ == tag_items_text(tags@.map_values(|t: &GalleryTagInfo| *t)),
{
    let ghost tv = tags@.map_values(|t: &GalleryTagInfo| *t);
    let mut r = String::new();
    for i in 0..tags.len()
        invariant
            tv == tags@.map_values(|t: &GalleryTagInfo| *t),
            tv.len() == tags@.len(),
            r@ == tag_items_text(tv.take(i as int)),
    {
        r.append("`");
        r.append(tags[i].name.as_str());
        r.append("` ");
        proof {
            assert(tv.take(i + 1).drop_last() =~= tv.take(i as int));
            assert(tv.take(i + 1).last() == tv[i as int]);
        }
    }
    proof {
        assert(tv.take(tv.len() as int) =~= tv);
    }
    r
}

/// One optional block of the tag summary: nothing when no tag of the kind
/// is present, otherwise the label followed by the tag names.
pub open spec fn tag_section_text(
    tags: Seq<GalleryTagInfo>,
    tag_type: TagType,
    label: Seq<char>,
) -> Seq<char> {
    if tags_of_type(tags, tag_type).len() == 0 {
        Seq::empty()
    } else {
        label + tag_items_text(tags_of_type(tags, tag_type))
    }
}

/// The whole tag summary: the plain tags first, then one labelled line for
/// each kind that is present, in a fixed order.
pub open spec fn tag_summary_text(tags: Seq<GalleryTagInfo>) -> Seq<char> {
    tag_items_text(tags_of_type(tags, TagType::Tag)) + "\n"@ + tag_section_text(
        tags,
        TagType::Parody,
        "\n Parodies: "@,
    ) + tag_section_text(tags, TagType::Character, "\n Characters: "@) + tag_section_text(
        tags,
        TagType::Artist,
        "\n Artists: "@,
    ) + tag_section_text(tags, TagType::Group, "\n Groups: "@) + tag_section_text(
        tags,
        TagType::Language,
        "\n Languages: "@,
    ) + tag_section_text(tags, TagType::Category, "\n Categories: "@)
}

/// Appends one optional block of the tag summary.
fn append_tag_section(
    r: &mut String,
    all_tags: &Vec<GalleryTagInfo>,
    tag_type: TagType,
    label: &str,
)
    ensures
        final(r)@ == old(r)@ + tag_section_text(all_tags@, tag_type, label@),
{
    let group = filter_tags_by_type(all_tags, tag_type);
    proof {
        assert(group@.map_values(|t: &GalleryTagInfo| *t).len() == group@.len());
    }
    if group.len() > 0 {
        r.append(label);
        let items = format_tag_items(&group);
        r.append(items.as_str());
    }
}

/// Lays out the whole tag summary: the plain tags first, then one labelled
/// line for each kind that is present, in a fixed order.
pub fn build_tag_string(all_tags: &Vec<GalleryTagInfo>) -> (r: String)
    ensures
        r@ == tag_summary_text(all_tags@),
{
    let tags = filter_tags_by_type(all_tags, TagType::Tag);
    let mut r = format_tag_items(&tags);
    r.append("\n");
    append_tag_section(&mut r, all_tags, TagType::Parody, "\n Parodies: ");
    append_tag_section(&mut r, all_tags, TagType::Character, "\n Characters: ");
    append_tag_section(&mut r, all_tags, TagType::Artist, "\n Artists: ");
    append_tag_section(&mut r, all_tags, TagType::Group, "\n Groups: ");
    append_tag_section(&mut r, all_tags, TagType::Language, "\n Languages: ");
    append_tag_section(&mut r, all_tags, TagType::Category, "\n Categories: ");
    r
}

} // verus!
