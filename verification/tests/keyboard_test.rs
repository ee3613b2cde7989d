use grammers_client::message::{Button, Key, ReplyMarkup};
use telegram_cli::telegram::keyboard::{
    InlineButtonKind, InlineButtonSpec, ReplyButtonKind, ReplyButtonSpec, ReplyMarkupConfig,
};

#[test]
fn parse_plain_reply_button() {
    let spec = ReplyButtonSpec::try_from("Hello").unwrap();
    assert_eq!(spec.label, "Hello");
    assert_eq!(spec.kind, ReplyButtonKind::Text);
}

#[test]
fn parse_phone_reply_button() {
    let spec = ReplyButtonSpec::try_from("Share:phone").unwrap();
    assert_eq!(spec.label, "Share");
    assert_eq!(spec.kind, ReplyButtonKind::RequestPhone);
}

#[test]
fn parse_geo_reply_button() {
    let spec = ReplyButtonSpec::try_from("Location:geo").unwrap();
    assert_eq!(spec.label, "Location");
    assert_eq!(spec.kind, ReplyButtonKind::RequestGeo);
}

#[test]
fn parse_poll_reply_button() {
    let spec = ReplyButtonSpec::try_from("Vote:poll").unwrap();
    assert_eq!(spec.label, "Vote");
    assert_eq!(spec.kind, ReplyButtonKind::RequestPoll);
}

#[test]
fn parse_unknown_reply_button_kind() {
    let err = ReplyButtonSpec::try_from("Test:bad").unwrap_err();
    assert!(err.to_string().contains("unknown reply button kind"));
}

#[test]
fn parse_callback_inline_button() {
    let spec = InlineButtonSpec::try_from("OK:callback:done").unwrap();
    assert_eq!(spec.label, "OK");
    assert_eq!(spec.kind, InlineButtonKind::Callback { data: "done".into() });
}

#[test]
fn parse_url_inline_button() {
    let spec = InlineButtonSpec::try_from("Open:url:https://example.com").unwrap();
    assert_eq!(spec.label, "Open");
    assert_eq!(spec.kind, InlineButtonKind::Url { url: "https://example.com".into() });
}

#[test]
fn parse_inline_button_missing_payload() {
    let err = InlineButtonSpec::try_from("Bad:callback").unwrap_err();
    assert!(err.to_string().contains("label:kind:payload"));
}

#[test]
fn parse_inline_button_missing_kind() {
    let err = InlineButtonSpec::try_from("Nocolon").unwrap_err();
    assert!(err.to_string().contains("label:kind:payload"));
}

#[test]
fn from_flags_none() {
    assert!(ReplyMarkupConfig::from_flags(None, None).unwrap().is_none());
}

#[test]
fn from_flags_both_set_rejects() {
    let err = ReplyMarkupConfig::from_flags(Some("[[\"A\"]]"), Some("[[\"B\"]]")).unwrap_err();
    assert!(err.to_string().contains("cannot be used together"));
}

#[test]
fn from_flags_reply_keyboard() {
    let config = ReplyMarkupConfig::from_flags(Some(r#"[["Yes","No"],["Share:phone"]]"#), None)
        .unwrap()
        .unwrap();
    assert!(config.reply_keyboard.is_some());
    assert!(config.inline_keyboard.is_none());
    let rows = config.reply_keyboard.unwrap();
    assert_eq!(rows.len(), 2);
    assert_eq!(rows[0][0].label, "Yes");
    assert_eq!(rows[0][1].label, "No");
    assert_eq!(rows[1][0].kind, ReplyButtonKind::RequestPhone);
}

#[test]
fn from_flags_inline_keyboard() {
    let config = ReplyMarkupConfig::from_flags(None, Some(r#"[["OK:callback:done"]]"#))
        .unwrap()
        .unwrap();
    assert!(config.reply_keyboard.is_none());
    assert!(config.inline_keyboard.is_some());
    let rows = config.inline_keyboard.unwrap();
    assert_eq!(rows.len(), 1);
    assert_eq!(rows[0][0].label, "OK");
}

#[test]
fn from_flags_invalid_json() {
    let err = ReplyMarkupConfig::from_flags(Some("not-json"), None).unwrap_err();
    assert!(err.to_string().contains("invalid --reply-keyboard JSON"));
}

#[test]
fn reply_button_label_keeps_earlier_colons() {
    let spec = ReplyButtonSpec::try_from("a:b:geo").unwrap();
    assert_eq!(spec.label, "a:b");
    assert_eq!(spec.kind, ReplyButtonKind::RequestGeo);
}

#[test]
fn inline_button_unknown_kind_is_named() {
    let err = InlineButtonSpec::try_from("X:mail:y").unwrap_err();
    assert_eq!(
        err.to_string(),
        "unknown inline button kind 'mail'; expected 'callback' or 'url'"
    );
}

#[test]
fn from_flags_reports_first_bad_button_row_major() {
    let err = ReplyMarkupConfig::from_flags(Some(r#"[["ok"],["a:zz","b:yy"]]"#), None).unwrap_err();
    assert_eq!(
        err.to_string(),
        "unknown reply button kind 'zz'; expected 'phone', 'geo', or 'poll'"
    );
}

#[test]
fn to_reply_markup_returns_none_for_default() {
    let config = ReplyMarkupConfig::default();
    assert!(config.to_reply_markup().is_none());
}

#[test]
fn to_reply_markup_returns_some_for_reply_keyboard() {
    let config = ReplyMarkupConfig::from_flags(Some(r#"[["Yes"]]"#), None).unwrap().unwrap();
    assert!(config.to_reply_markup().is_some());
}

#[test]
fn to_reply_markup_returns_some_for_inline_keyboard() {
    let config = ReplyMarkupConfig::from_flags(None, Some(r#"[["Click:callback:data"]]"#))
        .unwrap()
        .unwrap();
    assert!(config.to_reply_markup().is_some());
}

#[test]
fn flat_reply_keyboard_is_one_row() {
    let config = ReplyMarkupConfig::from_flags(Some(r#"["Yes","No"]"#), None).unwrap().unwrap();
    assert!(config.inline_keyboard.is_none());
    let rows = config.reply_keyboard.unwrap();
    assert_eq!(rows.len(), 1);
    assert_eq!(rows[0].len(), 2);
    assert_eq!(rows[0][0].label, "Yes");
    assert_eq!(rows[0][0].kind, ReplyButtonKind::Text);
    assert_eq!(rows[0][1].label, "No");
    assert_eq!(rows[0][1].kind, ReplyButtonKind::Text);
}

#[test]
fn nested_reply_keyboard_keeps_one_row_per_array() {
    let config = ReplyMarkupConfig::from_flags(Some(r#"[["Yes"],["No"]]"#), None).unwrap().unwrap();
    let rows = config.reply_keyboard.unwrap();
    assert_eq!(rows.len(), 2);
    assert_eq!(rows[0][0].label, "Yes");
    assert_eq!(rows[1][0].label, "No");
}

#[test]
fn flat_inline_keyboard_is_one_row() {
    let config = ReplyMarkupConfig::from_flags(None, Some(r#"["Like:callback:1"]"#)).unwrap().unwrap();
    assert!(config.reply_keyboard.is_none());
    let rows = config.inline_keyboard.unwrap();
    assert_eq!(rows.len(), 1);
    assert_eq!(rows[0][0].label, "Like");
}

#[test]
fn keyboard_text_that_is_no_array_of_strings_is_refused() {
    let err = ReplyMarkupConfig::from_flags(Some(r#"[1, 2]"#), None).unwrap_err();
    assert!(err.to_string().contains("invalid --reply-keyboard JSON"));
}

#[test]
fn reply_markup_keeps_each_key_kind_and_label() {
    let config = ReplyMarkupConfig::from_flags(Some(r#"[["Yes","Share:phone"],["Where:geo","Vote:poll"]]"#), None)
        .unwrap()
        .unwrap();
    let markup = config.to_reply_markup().unwrap();
    let expected = ReplyMarkup::from_keys(&[
        vec![Key::text("Yes"), Key::request_phone("Share")],
        vec![Key::request_geo("Where"), Key::request_poll("Vote")],
    ]);
    assert_eq!(format!("{:?}", markup.raw), format!("{:?}", expected.raw));
}

#[test]
fn inline_markup_keeps_callback_data_and_urls() {
    let config = ReplyMarkupConfig::from_flags(None, Some(r#"[["OK:callback:done","Site:url:https://example.com"]]"#))
        .unwrap()
        .unwrap();
    let markup = config.to_reply_markup().unwrap();
    let expected = ReplyMarkup::from_buttons(&[vec![
        Button::data("OK", "done".as_bytes()),
        Button::url("Site", "https://example.com"),
    ]]);
    assert_eq!(format!("{:?}", markup.raw), format!("{:?}", expected.raw));
    assert!(ReplyMarkupConfig::default().to_reply_markup().is_none());
}
