use aoyama::error::CommandExecError;
use aoyama::lang::validate_unit;
use aoyama::pagination::{PageChange, Pagination};
use aoyama::translate::{
    assemble_translation, parse_translation_response, resolve_translation_languages,
};
use aoyama::units::{
    get_unit, plan_conversion, ConversionError, DistanceType, TemperatureType, Unit, UnitKind,
    VelocityType,
};
use aoyama::weather::format_timestamp;

#[test]
fn language_codes_are_recognised_case_insensitively() {
    assert_eq!(validate_unit(&"en".to_string()), Some("en"));
    assert_eq!(validate_unit(&"EN".to_string()), Some("en"));
    assert_eq!(validate_unit(&"De".to_string()), Some("de"));
    assert_eq!(validate_unit(&"ceb".to_string()), Some("ceb"));
    assert_eq!(validate_unit(&"hmn".to_string()), Some("hmn"));
    assert_eq!(validate_unit(&"xx".to_string()), None);
    assert_eq!(validate_unit(&"english".to_string()), None);
}

#[test]
fn hebrew_keeps_its_old_provider_code() {
    assert_eq!(validate_unit(&"he".to_string()), Some("iw"));
    assert_eq!(validate_unit(&"iw".to_string()), Some("iw"));
}

#[test]
fn translation_languages_resolve_with_optional_source() {
    // Only the target given: the source is left to detection and the second
    // argument still belongs to the text.
    assert_eq!(
        resolve_translation_languages(&"en".to_string(), &"こんにちは".to_string()),
        Some(("auto", "en", false))
    );
    // Source and target given: both consumed.
    assert_eq!(
        resolve_translation_languages(&"de".to_string(), &"en".to_string()),
        Some(("de", "en", true))
    );
    // No valid target: refused.
    assert_eq!(
        resolve_translation_languages(&"hello".to_string(), &"en".to_string()),
        None
    );
}

#[test]
fn translation_replies_are_read_and_joined() {
    let body = r#"[[["Good evening!","Guten Abend!",null],[" Everyone.","Alle.",null]],null,"de"]"#;
    let translation = parse_translation_response(body).unwrap();
    assert_eq!(translation.text, "Good evening! Everyone.");
    assert_eq!(translation.detected_source_lang, "de");
}

#[test]
fn malformed_translation_replies_give_nothing() {
    assert!(parse_translation_response("not json at all").is_none());
    assert!(parse_translation_response("{}").is_none());
    assert!(parse_translation_response(r#"[[[42]],null,"de"]"#).is_none());
    assert!(parse_translation_response(r#"[[["ok"]]]"#).is_none());
}

#[test]
fn assembled_translations_join_fragments_in_order() {
    let parts = vec!["One".to_string(), ", two".to_string(), ", three".to_string()];
    let translation = assemble_translation(&parts, "en".to_string());
    assert_eq!(translation.text, "One, two, three");
    assert_eq!(translation.detected_source_lang, "en");
}

#[test]
fn units_are_recognised_case_insensitively() {
    assert_eq!(get_unit("km/h"), Some(Unit::Velocity(VelocityType::KilometersPerHour)));
    assert_eq!(get_unit("KM"), Some(Unit::Distance(DistanceType::Kilometer)));
    assert_eq!(get_unit("Inches"), Some(Unit::Distance(DistanceType::Inch)));
    assert_eq!(get_unit("°C"), Some(Unit::Temperature(TemperatureType::Celsius)));
    assert_eq!(get_unit("f"), Some(Unit::Temperature(TemperatureType::Fahrenheit)));
    assert_eq!(get_unit("furlong"), None);
}

#[test]
fn conversions_resolve_to_table_places() {
    let plan = plan_conversion("km", "mi").unwrap();
    assert_eq!(plan.kind, UnitKind::Distance);
    assert_eq!(plan.source_index, 0);
    assert_eq!(plan.dest_index, 4);
    let velocity = plan_conversion("m/s", "ft/s").unwrap();
    assert_eq!(velocity.kind, UnitKind::Velocity);
    assert_eq!(velocity.source_index, 2);
    assert_eq!(velocity.dest_index, 3);
}

#[test]
fn conversions_between_families_are_refused() {
    assert_eq!(plan_conversion("km", "k"), Err(ConversionError::UnrelatedUnits));
    assert_eq!(plan_conversion("bogus", "km"), Err(ConversionError::InvalidSource));
    assert_eq!(plan_conversion("km", "bogus"), Err(ConversionError::InvalidDestination));
}

#[test]
fn timestamps_format_at_fixed_offsets() {
    assert_eq!(format_timestamp(0, 0, "%H:%M"), "00:00");
    assert_eq!(format_timestamp(0, 3600, "%H:%M"), "01:00");
    assert_eq!(format_timestamp(0, 0, "%e %b %Y"), " 1 Jan 1970");
    assert_eq!(format_timestamp(1_431_648_000, 0, "%H:%M, %e %b %Y"), "00:00, 15 May 2015");
}

#[test]
fn page_changes_stay_within_bounds() {
    let mut pagination = Pagination {
        pages: vec!["one".to_string(), "two".to_string(), "three".to_string()],
        current_page: 1,
        total_page_count: 3,
    };
    pagination.change_page(PageChange::Next);
    assert_eq!(pagination.current_page, 2);
    pagination.change_page(PageChange::Last);
    assert_eq!(pagination.current_page, 3);
    pagination.change_page(PageChange::Next);
    assert_eq!(pagination.current_page, 3);
    pagination.change_page(PageChange::Previous);
    assert_eq!(pagination.current_page, 2);
    pagination.change_page(PageChange::First);
    assert_eq!(pagination.current_page, 1);
}

#[test]
fn invalid_arguments_have_a_notice() {
    let error = CommandExecError::INVALID_ARGUMENTS;
    assert_eq!(error.message(), "Invalid arguments.");
}
