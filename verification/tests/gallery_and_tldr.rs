use aoyama::gallery::{
    build_tag_string, filter_tags_by_type, format_tag_items, get_cover_url, parse_extension,
    parse_gallery_ids, GalleryTagInfo, TagType,
};
use aoyama::tldr::{build_tldr_urls, get_tldr_content_from_markdown, resolve_platform};

fn tag(tag_type: TagType, name: &str) -> GalleryTagInfo {
    GalleryTagInfo {
        id: 1,
        tag_type,
        name: name.to_string(),
        url: format!("https://example.invalid/tag/{}", name),
        count: 3,
    }
}

#[test]
fn gallery_ids_split_on_commas_and_spaces() {
    assert_eq!(parse_gallery_ids("123456"), vec!["123456".to_string()]);
    assert_eq!(
        parse_gallery_ids("123, 456 789"),
        vec!["123".to_string(), "456".to_string(), "789".to_string()]
    );
    assert_eq!(parse_gallery_ids(""), Vec::<String>::new());
    assert_eq!(parse_gallery_ids("no digits here"), Vec::<String>::new());
}

#[test]
fn gallery_ids_keep_at_most_six_digits() {
    // A run of seven digits matches only from its second digit on.
    assert_eq!(parse_gallery_ids("1234567"), vec!["234567".to_string()]);
    // A run glued to a letter is no identifier; the trailing digits are.
    assert_eq!(parse_gallery_ids("12x34"), vec!["34".to_string()]);
}

#[test]
fn extensions_translate_known_letters() {
    assert_eq!(parse_extension("j"), "jpg");
    assert_eq!(parse_extension("p"), "png");
    assert_eq!(parse_extension("g"), "gif");
    assert_eq!(parse_extension("w"), "");
}

#[test]
fn cover_urls_name_the_gallery_and_extension() {
    assert_eq!(
        get_cover_url("98765", "j"),
        "https://t.nhentai.net/galleries/98765/cover.jpg"
    );
}

#[test]
fn tags_filter_by_kind_in_order() {
    let tags = vec![
        tag(TagType::Tag, "one"),
        tag(TagType::Artist, "someone"),
        tag(TagType::Tag, "two"),
    ];
    let only_tags = filter_tags_by_type(&tags, TagType::Tag);
    let names: Vec<&str> = only_tags.iter().map(|t| t.name.as_str()).collect();
    assert_eq!(names, vec!["one", "two"]);
    assert_eq!(filter_tags_by_type(&tags, TagType::Language).len(), 0);
}

#[test]
fn tag_items_are_backticked() {
    let tags = vec![tag(TagType::Tag, "one"), tag(TagType::Tag, "two")];
    let refs = filter_tags_by_type(&tags, TagType::Tag);
    assert_eq!(format_tag_items(&refs), "`one` `two` ");
}

#[test]
fn tag_summary_lists_present_kinds_only() {
    let tags = vec![
        tag(TagType::Tag, "plain"),
        tag(TagType::Artist, "someone"),
        tag(TagType::Language, "english"),
    ];
    assert_eq!(
        build_tag_string(&tags),
        "`plain` \n\n Artists: `someone` \n Languages: `english` "
    );
    let bare = vec![tag(TagType::Tag, "only")];
    assert_eq!(build_tag_string(&bare), "`only` \n");
}

#[test]
fn tldr_pages_split_into_title_and_body() {
    let page = "# tar\n\n> Archiving utility.\n- create:\n";
    let (title, body) = get_tldr_content_from_markdown(page).unwrap();
    assert_eq!(title, "tar");
    assert_eq!(body, "\n> Archiving utility.\n- create:");
}

#[test]
fn tldr_pages_accept_carriage_returns() {
    let page = "## ls\r\nfirst\r\nsecond";
    let (title, body) = get_tldr_content_from_markdown(page).unwrap();
    assert_eq!(title, "ls");
    assert_eq!(body, "first\nsecond");
}

#[test]
fn empty_tldr_page_has_no_content() {
    assert!(get_tldr_content_from_markdown("").is_none());
}

#[test]
fn single_line_tldr_page_has_empty_body() {
    let (title, body) = get_tldr_content_from_markdown("# top").unwrap();
    assert_eq!(title, "top");
    assert_eq!(body, "");
}

#[test]
fn platforms_fall_back_to_linux() {
    assert_eq!(resolve_platform("windows"), "windows");
    assert_eq!(resolve_platform("macos"), "macos");
    assert_eq!(resolve_platform("linux"), "linux");
    assert_eq!(resolve_platform("amiga"), "linux");
}

#[test]
fn tldr_urls_name_platform_and_common_pages() {
    let (platform_url, common_url) = build_tldr_urls("linux", "tar");
    assert_eq!(
        platform_url,
        "https://raw.githubusercontent.com/tldr-pages/tldr/master/pages/linux/tar.md"
    );
    assert_eq!(
        common_url,
        "https://raw.githubusercontent.com/tldr-pages/tldr/master/pages/common/tar.md"
    );
}
