use waymo::{EloopParams, EloopParamsBuilder, NativeText, WaymoError};

#[test]
fn builder_starts_from_the_defaults() {
    let params = EloopParamsBuilder::new().build().expect("the default layout is native");
    assert_eq!(params.max_commands(), 50);
    assert_eq!(params.kbd_layout().as_bytes(), b"us");
    assert_eq!(params.action_cooldown_ms(), 0);
}

#[test]
fn params_new_is_the_default_builder() {
    let params = EloopParams::new().build().expect("the default layout is native");
    assert_eq!(params.max_commands(), 50);
    assert_eq!(params.kbd_layout().as_bytes(), b"us");
    assert_eq!(params.action_cooldown_ms(), 0);
}

#[test]
fn default_params_are_built_from_the_defaults() {
    let params = EloopParams::default();
    assert_eq!(params.max_commands(), 50);
    assert_eq!(params.kbd_layout().as_bytes(), b"us");
    assert_eq!(params.kbd_layout().len(), 2);
    assert_eq!(params.action_cooldown_ms(), 0);
}

#[test]
fn builder_keeps_what_it_was_given() {
    let params = EloopParamsBuilder::new()
        .max_commands(10)
        .kbd_layout("us")
        .action_cooldown_ms(5)
        .build()
        .expect("a plain layout is native");
    assert_eq!(params.max_commands(), 10);
    assert_eq!(params.kbd_layout().as_bytes(), b"us");
    assert_eq!(params.action_cooldown_ms(), 5);
}

#[test]
fn later_setting_replaces_earlier() {
    let params = EloopParamsBuilder::new()
        .max_commands(1)
        .kbd_layout("de")
        .action_cooldown_ms(7)
        .max_commands(u32::MAX)
        .kbd_layout("fr")
        .action_cooldown_ms(0)
        .build()
        .expect("a plain layout is native");
    assert_eq!(params.max_commands(), u32::MAX);
    assert_eq!(params.kbd_layout().as_bytes(), b"fr");
    assert_eq!(params.action_cooldown_ms(), 0);
}

#[test]
fn setting_one_field_leaves_the_others() {
    let params = EloopParamsBuilder::new().action_cooldown_ms(9).build().expect("native");
    assert_eq!(params.max_commands(), 50);
    assert_eq!(params.kbd_layout().as_bytes(), b"us");
    assert_eq!(params.action_cooldown_ms(), 9);
}

#[test]
fn layout_with_terminator_is_rejected() {
    let result = EloopParamsBuilder::new().kbd_layout("u\0s").build();
    assert!(matches!(result, Err(WaymoError::InvalidConfigurationText)));
}

#[test]
fn layout_of_a_lone_terminator_is_rejected() {
    let result = EloopParamsBuilder::new().kbd_layout("\0").build();
    assert!(matches!(result, Err(WaymoError::InvalidConfigurationText)));
}

#[test]
fn layout_ending_in_a_terminator_is_rejected() {
    let result = EloopParamsBuilder::new().kbd_layout("us\0").build();
    assert!(matches!(result, Err(WaymoError::InvalidConfigurationText)));
}

#[test]
fn terminator_is_found_behind_wide_characters() {
    let result = EloopParamsBuilder::new().kbd_layout("\u{20ac}\u{1f600}\0").build();
    assert!(matches!(result, Err(WaymoError::InvalidConfigurationText)));
}

#[test]
fn empty_layout_is_built() {
    let params = EloopParamsBuilder::new().kbd_layout("").build().expect("nothing to reject");
    assert_eq!(params.kbd_layout().len(), 0);
    assert_eq!(params.kbd_layout().as_bytes(), b"");
}

#[test]
fn native_text_is_the_utf8_encoding() {
    let text = NativeText::new("h\u{e9}l\u{20ac}\u{1f600}").expect("no terminator");
    assert_eq!(
        text.as_bytes(),
        &[0x68, 0xC3, 0xA9, 0x6C, 0xE2, 0x82, 0xAC, 0xF0, 0x9F, 0x98, 0x80]
    );
    assert_eq!(text.len(), 11);
}

#[test]
fn native_text_keeps_low_bytes_of_wide_characters() {
    // U+0100 ends in eight zero bits, yet none of its two bytes is zero.
    let text = NativeText::new("\u{100}").expect("no terminator");
    assert_eq!(text.as_bytes(), &[0xC4, 0x80]);
}

#[test]
fn native_text_rejects_a_terminator() {
    assert!(matches!(
        NativeText::new("a\0b"),
        Err(WaymoError::InvalidConfigurationText)
    ));
}
