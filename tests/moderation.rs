use chat_moderation::classify::{
    find_member, flagged_in, image_verdict, is_safe_in, same_text, text_verdict, Json,
    content_type_is_image, is_image_safe, is_message_safe, status_is_success,
    verdict_from_flagged, verdict_from_is_safe, ProviderReply,
};
use chat_moderation::decimal::{parse_u64, u64_to_decimal};
use chat_moderation::enforce::{
    contains_exponent, duration_millis, enforcement_steps, image_steps, mute_duration_or_default,
    mute_length_millis, mute_until, mute_until_now, route_message, text_steps, text_steps_with,
    AttachmentInfo, InboundMessage, Route, Step,
};
use chat_moderation::policy::{
    apply_update, check_sensitivity, default_settings, resolve_settings, PolicyError,
    PolicyUpdate, ServerSettings,
};
use chat_moderation::store::SettingsTable;

fn settings(guild: &str) -> ServerSettings {
    ServerSettings {
        guild_id: guild.to_string(),
        warnings: 5,
        mute_time: "1h".to_string(),
        use_warnings: true,
        sensitivity: 250_000,
        logs_channel_id: Some("42".to_string()),
        mute_enabled: true,
    }
}

fn message(attachments: Vec<AttachmentInfo>) -> InboundMessage {
    InboundMessage {
        author_is_bot: false,
        guild_id: Some(1),
        channel_id: 10,
        message_id: 77,
        author_id: 99,
        content: "bad words".to_string(),
        attachments,
    }
}

fn answered(status: u16, body: &str) -> ProviderReply {
    ProviderReply::Answered { status, body: body.to_string() }
}

#[test]
fn missing_guild_resolves_to_default() {
    let table = SettingsTable::new();
    let g = "123".to_string();
    let stored = table.get(&g).cloned();
    assert!(stored.is_none());
    let s = resolve_settings(&g, stored);
    assert_eq!(s.guild_id, "123");
    assert_eq!(s.warnings, 3);
    assert_eq!(s.mute_time, "10m");
    assert!(!s.use_warnings);
    assert_eq!(s.sensitivity, 500_000);
    assert_eq!(s.logs_channel_id, None);
    assert!(!s.mute_enabled);
    assert_eq!(s, default_settings("123"));
}

#[test]
fn upsert_then_get_round_trips() {
    let mut table = SettingsTable::new();
    table.upsert(settings("a"));
    table.upsert(default_settings("b"));
    let p = settings("a");
    assert_eq!(table.get(&"a".to_string()), Some(&p));
    let mut changed = settings("a");
    changed.warnings = 9;
    changed.logs_channel_id = None;
    table.upsert(changed.clone());
    assert_eq!(table.get(&"a".to_string()), Some(&changed));
    assert_eq!(table.get(&"b".to_string()), Some(&default_settings("b")));
    assert_eq!(table.len(), 2);
}

#[test]
fn bulk_load_keeps_the_last_row_of_a_guild() {
    let mut later = settings("a");
    later.warnings = 1;
    let table = SettingsTable::from_rows(vec![settings("a"), default_settings("b"), later.clone()]);
    assert_eq!(table.len(), 2);
    assert_eq!(table.get(&"a".to_string()), Some(&later));
    assert_eq!(table.get(&"c".to_string()), None);
}

#[test]
fn sensitivity_bounds_are_inclusive() {
    assert_eq!(check_sensitivity(-100_000), Err(PolicyError::SensitivityOutOfRange));
    assert_eq!(check_sensitivity(1_100_000), Err(PolicyError::SensitivityOutOfRange));
    assert_eq!(check_sensitivity(0), Ok(0));
    assert_eq!(check_sensitivity(1_000_000), Ok(1_000_000));
    assert_eq!(
        apply_update("g", None, PolicyUpdate::Sensitivity(-100_000)),
        Err(PolicyError::SensitivityOutOfRange)
    );
    let s = apply_update("g", None, PolicyUpdate::Sensitivity(1_000_000)).unwrap();
    assert_eq!(s.sensitivity, 1_000_000);
    assert_eq!(s.warnings, 3);
}

#[test]
fn updates_change_one_field() {
    let s = apply_update("g", Some(settings("g")), PolicyUpdate::Warnings(7)).unwrap();
    let mut want = settings("g");
    want.warnings = 7;
    assert_eq!(s, want);
    let s = apply_update("g", None, PolicyUpdate::LogsChannel(123456789012)).unwrap();
    assert_eq!(s.logs_channel_id, Some("123456789012".to_string()));
    assert_eq!(s.mute_time, "10m");
    let s = apply_update("g", None, PolicyUpdate::MuteTime("30s".to_string())).unwrap();
    assert_eq!(s.mute_time, "30s");
    let s = apply_update("g", None, PolicyUpdate::MuteEnabled(true)).unwrap();
    assert!(s.mute_enabled);
    let s = apply_update("g", None, PolicyUpdate::UseWarnings(true)).unwrap();
    assert!(s.use_warnings);
}

#[test]
fn provider_failure_is_unsafe() {
    let ok_text = r#"{"results":[{"flagged":false}]}"#;
    let ok_image = r#"{"is_safe":true}"#;
    assert!(!is_message_safe(&answered(500, ok_text)));
    assert!(!is_image_safe(&answered(500, ok_image)));
    assert!(!is_message_safe(&ProviderReply::Unreachable));
    assert!(!is_image_safe(&ProviderReply::Unreachable));
    assert!(!is_message_safe(&answered(200, "not json")));
    assert!(!is_image_safe(&answered(200, "{}")));
    assert!(!is_message_safe(&answered(200, r#"{"results":[]}"#)));
}

#[test]
fn provider_answers_are_read() {
    assert!(is_message_safe(&answered(200, r#"{"results":[{"flagged":false}]}"#)));
    assert!(!is_message_safe(&answered(200, r#"{"results":[{"flagged":true}]}"#)));
    assert!(!is_message_safe(&answered(200, r#"{"results":[{"flagged":"no"}]}"#)));
    assert!(is_image_safe(&answered(200, r#"{"is_safe":true}"#)));
    assert!(!is_image_safe(&answered(204, r#"{"is_safe":false}"#)));
    assert!(status_is_success(299));
    assert!(!status_is_success(300));
    assert!(verdict_from_flagged(Some(false)));
    assert!(!verdict_from_flagged(None));
    assert!(verdict_from_is_safe(Some(true)));
    assert!(!verdict_from_is_safe(Some(false)));
}

#[test]
fn content_types() {
    assert!(content_type_is_image(Some("image/png")));
    assert!(content_type_is_image(Some("image")));
    assert!(!content_type_is_image(Some("imag")));
    assert!(!content_type_is_image(Some("text/plain")));
    assert!(!content_type_is_image(None));
}

#[test]
fn routing() {
    let png = AttachmentInfo { content_type: Some("image/png".to_string()), url: "u".to_string() };
    let pdf = AttachmentInfo { content_type: Some("application/pdf".to_string()), url: "u".to_string() };
    assert_eq!(route_message(&message(vec![png.clone()])), Route::Image);
    assert_eq!(route_message(&message(vec![pdf.clone(), png])), Route::Unchecked);
    assert_eq!(route_message(&message(vec![])), Route::Text);
    let mut bot = message(vec![]);
    bot.author_is_bot = true;
    assert_eq!(route_message(&bot), Route::Ignore);
    let mut direct = message(vec![]);
    direct.guild_id = None;
    assert_eq!(route_message(&direct), Route::Ignore);
}

#[test]
fn unsafe_png_is_logged_deleted_and_paused() {
    let png = AttachmentInfo { content_type: Some("image/png".to_string()), url: "u".to_string() };
    let m = message(vec![png]);
    let route = route_message(&m);
    assert_eq!(route, Route::Image);
    let steps = enforcement_steps(&m, route, false, &settings("g"));
    assert_eq!(
        steps,
        vec![
            Step::PostLog { channel_id: 42, text: "Deleted unsafe image message: 77".to_string() },
            Step::DeleteMessage,
            Step::Pause { seconds: 5 },
        ]
    );
    let plain = image_steps(&default_settings("g"), 77);
    assert_eq!(plain, vec![Step::DeleteMessage, Step::Pause { seconds: 5 }]);
    assert!(!plain.iter().any(|s| matches!(s, Step::Mute { .. })));
}

#[test]
fn unsafe_text_warns_waits_deletes_and_mutes() {
    let mut s = default_settings("g");
    s.mute_enabled = true;
    let steps = text_steps(&s, 77, 10, 99, "bad words");
    assert_eq!(
        steps,
        vec![
            Step::PostWarning {
                channel_id: 10,
                text: "Hey! Don't use that language! <@99>".to_string()
            },
            Step::Pause { seconds: 5 },
            Step::DeleteWarning,
            Step::DeleteMessage,
            Step::Mute { millis: 600_000 },
        ]
    );
    s.mute_time = "not-a-duration".to_string();
    let steps = text_steps(&s, 77, 10, 99, "bad words");
    assert_eq!(steps[4], Step::Mute { millis: 600_000 });
    assert_eq!(mute_until(1_000, 600_000), Some(601_000));
}

#[test]
fn text_enforcement_with_logs_channel() {
    let m = message(vec![]);
    let steps = enforcement_steps(&m, Route::Text, false, &settings("g"));
    assert_eq!(steps.len(), 6);
    assert_eq!(
        steps[0],
        Step::PostLog {
            channel_id: 42,
            text: "Deleted unsafe message: 77 with content: bad words".to_string()
        }
    );
    assert_eq!(steps[5], Step::Mute { millis: 3_600_000 });
    let mut off = settings("g");
    off.mute_enabled = false;
    assert_eq!(text_steps(&off, 77, 10, 99, "x").len(), 5);
    let mut broken = settings("g");
    broken.logs_channel_id = Some("general".to_string());
    assert_eq!(text_steps(&broken, 77, 10, 99, "x")[0], Step::PostWarning {
        channel_id: 10,
        text: "Hey! Don't use that language! <@99>".to_string()
    });
    let no_len = text_steps_with(&default_settings("g"), 1, 2, 3, "x", None);
    assert_eq!(no_len.len(), 4);
}

#[test]
fn safe_or_unchecked_messages_get_no_steps() {
    let m = message(vec![]);
    assert!(enforcement_steps(&m, Route::Text, true, &settings("g")).is_empty());
    assert!(enforcement_steps(&m, Route::Unchecked, false, &settings("g")).is_empty());
    assert!(enforcement_steps(&m, Route::Ignore, false, &settings("g")).is_empty());
}

#[test]
fn step_failures() {
    assert!(!Step::PostWarning { channel_id: 1, text: String::new() }.failure_is_fatal());
    assert!(!Step::DeleteWarning.failure_is_fatal());
    assert!(Step::Mute { millis: 1 }.failure_is_fatal());
    assert!(!Step::DeleteMessage.failure_is_fatal());
    assert!(!Step::PostLog { channel_id: 1, text: String::new() }.failure_is_fatal());
    assert!(!Step::Pause { seconds: 5 }.failure_is_fatal());
}

#[test]
fn mute_lengths() {
    assert_eq!(mute_length_millis("10m"), Some(600_000));
    assert_eq!(mute_length_millis("not-a-duration"), Some(600_000));
    assert_eq!(mute_length_millis("1h 30m"), Some(5_400_000));
    assert_eq!(mute_length_millis("1500ms"), Some(1_500));
    assert_eq!(mute_duration_or_default(None), (600, 0));
    assert_eq!(mute_duration_or_default(Some((3, 5))), (3, 5));
    assert_eq!(duration_millis(2, 999_999_999), Some(2_999));
    assert_eq!(duration_millis(u64::MAX, 0), None);
    assert_eq!(duration_millis(9_223_372_036_854_775, 807_000_000), Some(i64::MAX));
    assert_eq!(duration_millis(9_223_372_036_854_775, 808_000_000), None);
    assert_eq!(mute_until(i64::MAX, 1), None);
    let t = mute_until_now(600_000).unwrap();
    assert!(t > 1_600_000_000_000 + 600_000);
}

#[test]
fn decimal_text() {
    assert_eq!(u64_to_decimal(0), "0");
    assert_eq!(u64_to_decimal(1234567890), "1234567890");
    assert_eq!(u64_to_decimal(u64::MAX), "18446744073709551615");
    assert_eq!(parse_u64("18446744073709551615"), Some(u64::MAX));
    assert_eq!(parse_u64("18446744073709551616"), None);
    assert_eq!(parse_u64("042"), Some(42));
    assert_eq!(parse_u64(""), None);
    assert_eq!(parse_u64("4a"), None);
    assert_eq!(parse_u64("-1"), None);
    assert_eq!(parse_u64("+5"), Some(5));
    assert_eq!(parse_u64("+"), None);
    assert_eq!(parse_u64("++5"), None);
}

#[test]
fn exponent_texts_fall_back_to_ten_minutes() {
    assert!(contains_exponent("1e9223372036854775807s"));
    assert!(contains_exponent("2E+4m"));
    assert!(contains_exponent("1.5e-3h"));
    assert!(!contains_exponent("1 week"));
    assert!(!contains_exponent("e"));
    assert!(!contains_exponent("3 seconds"));
    assert_eq!(mute_length_millis("1e9223372036854775807s"), Some(600_000));
    assert_eq!(mute_length_millis("3 seconds"), Some(3_000));
}

#[test]
fn json_documents_are_read() {
    let doc = Json::Object(vec![
        ("id".to_string(), Json::Str("x".to_string())),
        (
            "results".to_string(),
            Json::Array(vec![Json::Object(vec![("flagged".to_string(), Json::Bool(true))])]),
        ),
    ]);
    assert_eq!(flagged_in(&doc), Some(true));
    assert_eq!(is_safe_in(&doc), None);
    let fields = vec![("is_safe".to_string(), Json::Bool(false))];
    assert_eq!(find_member(&fields, "is_safe"), Some(&Json::Bool(false)));
    assert_eq!(find_member(&fields, "is_saf"), None);
    assert_eq!(is_safe_in(&Json::Object(fields)), Some(false));
    assert_eq!(flagged_in(&Json::Array(vec![])), None);
    assert!(same_text("abc", "abc"));
    assert!(!same_text("abc", "abd"));
    assert!(text_verdict(200, Some(false)));
    assert!(!text_verdict(503, Some(false)));
    assert!(!image_verdict(200, None));
    assert!(is_message_safe(&answered(201, r#"{"results":[{"flagged":false,"categories":{}}],"id":"m"}"#)));
    assert!(!is_image_safe(&answered(200, r#"{"is_safe":"true"}"#)));
}
