use aoyama::history::{collect_page_links, extract_media, MediaAttachment, MessageEmbed, ScanMessage};
use aoyama::request::ScanRequest;
use aoyama::scan::scan_history;
use aoyama::state::{ScanState, ScanStatus};

fn image_message(id: u64, timestamp: u64, url: &str) -> ScanMessage {
    ScanMessage {
        id,
        timestamp,
        attachments: vec![MediaAttachment { url: url.to_string(), width: Some(640) }],
        embeds: vec![],
    }
}

fn empty_message(id: u64, timestamp: u64) -> ScanMessage {
    ScanMessage { id, timestamp, attachments: vec![], embeds: vec![] }
}

fn plain_request(anchor: u64) -> ScanRequest {
    ScanRequest {
        anchor_id: anchor,
        explicit_end_id: 0,
        page_size: 100,
        age_threshold_seconds: 64800,
        empty_streak_threshold: 50,
        max_messages: None,
        max_iterations: None,
    }
}

#[test]
fn empty_history_yields_empty_result() {
    let req = plain_request(555);
    let result = scan_history(&req, &vec![]);
    assert_eq!(result.links.len(), 0);
    assert_eq!(result.messages_processed, 0);
    assert_eq!(result.last_message_id, 555);
    assert_eq!(result.status, ScanStatus::StoppedByHistoryExhausted);
}

#[test]
fn starvation_stops_before_late_image() {
    // Fifty media-less messages, then an image-bearing one: with no explicit
    // end the scan must stop before reaching the image.
    let mut history = Vec::new();
    for i in 0..50u64 {
        history.push(empty_message(1000 - i, 90_000 - i));
    }
    history.push(image_message(900, 89_000, "https://example.invalid/late.png"));
    let req = plain_request(2000);
    let result = scan_history(&req, &history);
    assert_eq!(result.links.len(), 0);
    assert_eq!(result.status, ScanStatus::StoppedByStarvation);
    assert_eq!(result.messages_processed, 50);
}

#[test]
fn age_gap_stops_scan() {
    // Two consecutive messages, the second older than the first by just over
    // the age threshold: the scan stops after the first.
    let history = vec![
        image_message(20, 100_000, "https://example.invalid/fresh.png"),
        image_message(10, 100_000 - 64_801, "https://example.invalid/stale.png"),
    ];
    let req = plain_request(30);
    let result = scan_history(&req, &history);
    assert_eq!(result.links, vec!["https://example.invalid/fresh.png".to_string()]);
    assert_eq!(result.messages_processed, 1);
    assert_eq!(result.last_message_id, 20);
    assert_eq!(result.status, ScanStatus::StoppedByAge);
}

#[test]
fn explicit_end_overrides_starvation() {
    // The same starvation-triggering history, but with the image-bearing
    // message named as the explicit end: the scan reaches it and keeps its
    // media.
    let mut history = Vec::new();
    for i in 0..50u64 {
        history.push(empty_message(1000 - i, 90_000 - i));
    }
    history.push(image_message(900, 89_000, "https://example.invalid/late.png"));
    let req = plain_request(2000).ending_at(900);
    let result = scan_history(&req, &history);
    assert_eq!(result.links, vec!["https://example.invalid/late.png".to_string()]);
    assert_eq!(result.status, ScanStatus::StoppedByExplicitEnd);
}

#[test]
fn explicit_end_overrides_age_gap() {
    let history = vec![
        empty_message(20, 1_100_000),
        image_message(10, 100_000, "https://example.invalid/old.png"),
    ];
    let req = plain_request(30).ending_at(10);
    let result = scan_history(&req, &history);
    assert_eq!(result.links, vec!["https://example.invalid/old.png".to_string()]);
    assert_eq!(result.status, ScanStatus::StoppedByExplicitEnd);
}

#[test]
fn explicit_end_is_inclusive_and_exact() {
    let history = vec![
        image_message(30, 3000, "https://example.invalid/a.png"),
        image_message(20, 2999, "https://example.invalid/b.png"),
        image_message(10, 2998, "https://example.invalid/c.png"),
    ];
    let req = plain_request(40).ending_at(20);
    let result = scan_history(&req, &history);
    // The end message's own media is included; nothing past it is.
    assert_eq!(
        result.links,
        vec![
            "https://example.invalid/a.png".to_string(),
            "https://example.invalid/b.png".to_string(),
        ]
    );
    assert_eq!(result.status, ScanStatus::StoppedByExplicitEnd);
    // The end message itself is not advanced past: the cursor stays at the
    // message before it.
    assert_eq!(result.last_message_id, 30);
    assert_eq!(result.messages_processed, 1);
}

#[test]
fn scanning_twice_is_idempotent() {
    let mut history = Vec::new();
    for i in 0..130u64 {
        if i % 3 == 0 {
            history.push(image_message(10_000 - i, 500_000 - i, &format!("https://example.invalid/{}.png", i)));
        } else {
            history.push(empty_message(10_000 - i, 500_000 - i));
        }
    }
    let req = plain_request(20_000);
    let first = scan_history(&req, &history);
    let second = scan_history(&req, &history);
    assert_eq!(first.links, second.links);
    assert_eq!(first.messages_processed, second.messages_processed);
    assert_eq!(first.last_message_id, second.last_message_id);
    assert_eq!(first.status, second.status);
}

#[test]
fn pages_are_requested_at_page_size_until_a_short_page() {
    // Drive the paged loop by hand, as a live driver would, over a history
    // of two and a half pages; every request must ask for exactly the page
    // size, and no request may follow a short page.
    let mut history = Vec::new();
    for i in 0..250u64 {
        history.push(image_message(10_000 - i, 500_000, &format!("https://example.invalid/{}.png", i)));
    }
    let req = plain_request(20_000).ending_at(1);
    let mut state = ScanState::start(&req);
    let mut limits = Vec::new();
    let mut served_short = false;
    while let Some(page_request) = state.next_request(&req) {
        assert!(!served_short, "a page was requested after a short page");
        limits.push(page_request.limit);
        let start = history
            .iter()
            .position(|m: &ScanMessage| m.id < page_request.before_id)
            .unwrap_or(history.len());
        let end = (start + page_request.limit).min(history.len());
        let page: Vec<ScanMessage> = history[start..end]
            .iter()
            .map(|m| ScanMessage {
                id: m.id,
                timestamp: m.timestamp,
                attachments: m
                    .attachments
                    .iter()
                    .map(|a| MediaAttachment { url: a.url.clone(), width: a.width })
                    .collect(),
                embeds: vec![],
            })
            .collect();
        if page.len() < page_request.limit {
            served_short = true;
        }
        state.process_page(&req, &page);
    }
    assert_eq!(limits, vec![100, 100, 100]);
    assert_eq!(state.status, ScanStatus::StoppedByHistoryExhausted);
    assert_eq!(state.links.len(), 250);
}

#[test]
fn iteration_cap_stops_the_scan() {
    let mut history = Vec::new();
    for i in 0..500u64 {
        history.push(image_message(10_000 - i, 500_000, "https://example.invalid/x.png"));
    }
    let mut req = plain_request(20_000).ending_at(1);
    req.max_iterations = Some(2);
    let result = scan_history(&req, &history);
    assert_eq!(result.status, ScanStatus::StoppedByCap);
    assert_eq!(result.messages_processed, 200);
}

#[test]
fn message_cap_stops_the_scan() {
    let mut history = Vec::new();
    for i in 0..80u64 {
        history.push(image_message(10_000 - i, 500_000, "https://example.invalid/x.png"));
    }
    let mut req = plain_request(20_000).ending_at(1);
    req.max_messages = Some(30);
    let result = scan_history(&req, &history);
    assert_eq!(result.status, ScanStatus::StoppedByCap);
    assert_eq!(result.messages_processed, 30);
    assert_eq!(result.links.len(), 30);
}

#[test]
fn extraction_orders_attachments_before_embeds() {
    let msg = ScanMessage {
        id: 7,
        timestamp: 1,
        attachments: vec![
            MediaAttachment { url: "https://example.invalid/a.png".to_string(), width: Some(1) },
            MediaAttachment { url: "https://example.invalid/skipped.bin".to_string(), width: None },
            MediaAttachment { url: "https://example.invalid/b.png".to_string(), width: Some(2) },
        ],
        embeds: vec![
            MessageEmbed { image_url: None },
            MessageEmbed { image_url: Some("https://example.invalid/e.png".to_string()) },
        ],
    };
    let links = extract_media(&msg);
    assert_eq!(
        links,
        vec![
            "https://example.invalid/a.png".to_string(),
            "https://example.invalid/b.png".to_string(),
            "https://example.invalid/e.png".to_string(),
        ]
    );
}

#[test]
fn collect_gathers_links_across_a_page() {
    let page = vec![
        image_message(3, 30, "https://example.invalid/first.png"),
        empty_message(2, 20),
        image_message(1, 10, "https://example.invalid/second.png"),
    ];
    let links = collect_page_links(&page);
    assert_eq!(
        links,
        vec![
            "https://example.invalid/first.png".to_string(),
            "https://example.invalid/second.png".to_string(),
        ]
    );
}
