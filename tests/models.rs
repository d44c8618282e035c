use link_sanitizer::models::{
    parse_component_id, ComponentAction, DeletePermission, HideOriginalEmbed, ResponseMap,
    SanitizerMode, ServerConfig, SettingsMenuType,
};

#[test]
fn test_sanitizer_mode_component_ids() {
    assert_eq!(SanitizerMode::Automatic.as_ref(), "automatic");
    assert_eq!(SanitizerMode::ManualEmote.as_ref(), "manual_emote");
    assert_eq!(SanitizerMode::ManualMention.as_ref(), "manual_mention");
    assert_eq!(SanitizerMode::ManualBoth.as_ref(), "manual_both");

    assert_eq!("automatic".parse::<SanitizerMode>().unwrap(), SanitizerMode::Automatic);
    assert_eq!("manual_emote".parse::<SanitizerMode>().unwrap(), SanitizerMode::ManualEmote);
    assert_eq!("manual_mention".parse::<SanitizerMode>().unwrap(), SanitizerMode::ManualMention);
    assert_eq!("manual_both".parse::<SanitizerMode>().unwrap(), SanitizerMode::ManualBoth);
}

#[test]
fn test_delete_permission_component_ids() {
    assert_eq!(DeletePermission::AuthorAndMods.as_ref(), "author_and_mods");
    assert_eq!(DeletePermission::Everyone.as_ref(), "everyone");
    assert_eq!(DeletePermission::Disabled.as_ref(), "disabled");

    assert_eq!("author_and_mods".parse::<DeletePermission>().unwrap(), DeletePermission::AuthorAndMods);
    assert_eq!("everyone".parse::<DeletePermission>().unwrap(), DeletePermission::Everyone);
    assert_eq!("disabled".parse::<DeletePermission>().unwrap(), DeletePermission::Disabled);
}

#[test]
fn test_hide_original_embed_component_ids() {
    assert_eq!(HideOriginalEmbed::On.as_ref(), "on");
    assert_eq!(HideOriginalEmbed::Off.as_ref(), "off");

    assert_eq!("on".parse::<HideOriginalEmbed>().unwrap(), HideOriginalEmbed::On);
    assert_eq!("off".parse::<HideOriginalEmbed>().unwrap(), HideOriginalEmbed::Off);
}

#[test]
fn test_settings_menu_type_component_ids() {
    assert_eq!(SettingsMenuType::SanitizerMode.as_ref(), "sanitizer_mode");
    assert_eq!(SettingsMenuType::DeletePermission.as_ref(), "delete_permission");
    assert_eq!(SettingsMenuType::HideOriginalEmbed.as_ref(), "hide_original_embed");

    assert_eq!("sanitizer_mode".parse::<SettingsMenuType>().unwrap(), SettingsMenuType::SanitizerMode);
    assert_eq!("delete_permission".parse::<SettingsMenuType>().unwrap(), SettingsMenuType::DeletePermission);
    assert_eq!("hide_original_embed".parse::<SettingsMenuType>().unwrap(), SettingsMenuType::HideOriginalEmbed);
}

#[test]
fn test_roundtrip_serialization() {
    for variant in [SanitizerMode::Automatic, SanitizerMode::ManualEmote, SanitizerMode::ManualMention, SanitizerMode::ManualBoth] {
        let id = variant.as_ref();
        let parsed = id.parse::<SanitizerMode>().unwrap();
        assert_eq!(variant, parsed, "Failed roundtrip for SanitizerMode::{:?}", variant);
    }

    for variant in [DeletePermission::AuthorAndMods, DeletePermission::Everyone, DeletePermission::Disabled] {
        let id = variant.as_ref();
        let parsed = id.parse::<DeletePermission>().unwrap();
        assert_eq!(variant, parsed, "Failed roundtrip for DeletePermission::{:?}", variant);
    }

    for variant in [HideOriginalEmbed::On, HideOriginalEmbed::Off] {
        let id = variant.as_ref();
        let parsed = id.parse::<HideOriginalEmbed>().unwrap();
        assert_eq!(variant, parsed, "Failed roundtrip for HideOriginalEmbed::{:?}", variant);
    }
}

#[test]
fn test_enum_default_values() {
    assert_eq!(SanitizerMode::default(), SanitizerMode::Automatic);
    assert_eq!(DeletePermission::default(), DeletePermission::AuthorAndMods);
    assert_eq!(HideOriginalEmbed::default(), HideOriginalEmbed::On);
}

#[test]
fn test_from_i32_conversion() {
    assert_eq!(SanitizerMode::from(0), SanitizerMode::Automatic);
    assert_eq!(SanitizerMode::from(1), SanitizerMode::ManualEmote);
    assert_eq!(SanitizerMode::from(2), SanitizerMode::ManualMention);
    assert_eq!(SanitizerMode::from(3), SanitizerMode::ManualBoth);
    assert_eq!(SanitizerMode::from(999), SanitizerMode::Automatic);

    assert_eq!(DeletePermission::from(0), DeletePermission::AuthorAndMods);
    assert_eq!(DeletePermission::from(1), DeletePermission::Everyone);
    assert_eq!(DeletePermission::from(2), DeletePermission::Disabled);
    assert_eq!(DeletePermission::from(999), DeletePermission::AuthorAndMods);
}

#[test]
fn test_as_ref_methods() {
    assert_eq!(SanitizerMode::Automatic.as_ref(), "automatic");
    assert_eq!(DeletePermission::Everyone.as_ref(), "everyone");
    assert_eq!(HideOriginalEmbed::Off.as_ref(), "off");
    assert_eq!(SettingsMenuType::SanitizerMode.as_ref(), "sanitizer_mode");
}

#[test]
fn test_error_cases() {
    assert!("invalid".parse::<SanitizerMode>().is_err());
    assert!("invalid".parse::<DeletePermission>().is_err());
    assert!("invalid".parse::<HideOriginalEmbed>().is_err());
    assert!("invalid".parse::<SettingsMenuType>().is_err());
}

#[test]
fn stored_codes_round_trip_and_default() {
    for m in [SanitizerMode::Automatic, SanitizerMode::ManualEmote, SanitizerMode::ManualMention, SanitizerMode::ManualBoth] {
        assert_eq!(SanitizerMode::from(m.code()), m);
    }
    for p in [DeletePermission::AuthorAndMods, DeletePermission::Everyone, DeletePermission::Disabled] {
        assert_eq!(DeletePermission::from(p.code()), p);
    }
    assert_eq!(SanitizerMode::from(-1), SanitizerMode::Automatic);
    assert_eq!(DeletePermission::from(3), DeletePermission::AuthorAndMods);
    let row = ServerConfig::from_row(7, 2, 1, false);
    assert_eq!(row.sanitizer_mode, SanitizerMode::ManualMention);
    assert_eq!(row.delete_permission, DeletePermission::Everyone);
    assert!(!row.hide_original_embed);
    let bad = ServerConfig::from_row(7, 42, -5, true);
    assert_eq!(bad.sanitizer_mode, SanitizerMode::Automatic);
    assert_eq!(bad.delete_permission, DeletePermission::AuthorAndMods);
}

#[test]
fn default_config_values() {
    let c = ServerConfig::new(5);
    assert_eq!(c.guild_id, 5);
    assert_eq!(c.sanitizer_mode, SanitizerMode::Automatic);
    assert_eq!(c.delete_permission, DeletePermission::AuthorAndMods);
    assert!(c.hide_original_embed);
    assert_eq!(ServerConfig::default(5), c);
}

#[test]
fn settings_selection() {
    let c = ServerConfig::new(1);
    let c2 = c.with_selection(SettingsMenuType::SanitizerMode, "manual_both").unwrap();
    assert_eq!(c2.sanitizer_mode, SanitizerMode::ManualBoth);
    let c3 = c2.with_selection(SettingsMenuType::HideOriginalEmbed, "off").unwrap();
    assert!(!c3.hide_original_embed);
    assert_eq!(c3.sanitizer_mode, SanitizerMode::ManualBoth);
    let c4 = c3.with_selection(SettingsMenuType::DeletePermission, "disabled").unwrap();
    assert_eq!(c4.delete_permission, DeletePermission::Disabled);
    let err = c4.with_selection(SettingsMenuType::DeletePermission, "automatic").unwrap_err();
    assert_eq!(err.id, "automatic");
}

#[test]
fn component_dispatch() {
    assert_eq!(parse_component_id("delete").unwrap(), ComponentAction::Delete);
    assert_eq!(
        parse_component_id("hide_original_embed").unwrap(),
        ComponentAction::Settings(SettingsMenuType::HideOriginalEmbed)
    );
    assert_eq!(parse_component_id("bogus").unwrap_err().id, "bogus");
}

#[test]
fn response_map_fields() {
    let r = ResponseMap::new(1, 2, Some(3), 4);
    assert_eq!(r.user_message_id, 1);
    assert_eq!(r.bot_message_id, 2);
    assert_eq!(r.guild_id, Some(3));
    assert_eq!(r.channel_id, 4);
}
