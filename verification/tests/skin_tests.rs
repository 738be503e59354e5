use rustcraft::skin::{
    cape_cache_path, legacy_skin_cache_path, local_skin_plan, player_skin_key, remove_dashes,
    skin_cache_path, skull_key_with_hash, skull_skin_key, url_texture_key, PlayerSkinProfileCache,
};

#[test]
fn tab_removal_keeps_profile_until_entity_identity_changes() {
    let mut profile =
        PlayerSkinProfileCache::new("uuid:one".to_string(), Some(Some("texture")), None);

    profile.update("uuid:one".to_string(), None, None);
    assert_eq!(profile.skin_property.as_deref(), Some("texture"));

    profile.update("uuid:one".to_string(), Some(None), None);
    assert_eq!(profile.skin_property, None);

    profile.skin_property = Some("old-texture".to_string());
    profile.update("uuid:two".to_string(), None, None);
    assert_eq!(profile.skin_property, None);
}

#[test]
fn entity_profile_survives_tab_removal() {
    let mut profile =
        PlayerSkinProfileCache::new("uuid:npc".to_string(), None, Some("npc-texture"));

    profile.update("uuid:npc".to_string(), None, Some("npc-texture"));

    assert_eq!(profile.skin_property.as_deref(), Some("npc-texture"));
}

#[test]
fn skin_keys_prefer_uuid_then_name() {
    assert_eq!(player_skin_key(Some("abc"), Some("Steve")), "player/abc");
    assert_eq!(player_skin_key(None, Some("Steve")), "player/Steve");
    assert_eq!(player_skin_key(None, None), "player/default");
}

#[test]
fn skull_keys() {
    assert_eq!(skull_key_with_hash(3, None, Some("Notch"), 1234), "player/skull/Notch/1234");
    assert_eq!(skull_key_with_hash(3, None, None, 0), "player/skull/default/0");
    assert_eq!(skull_key_with_hash(1, None, None, 9), "wither_skeleton");
    assert_eq!(skull_key_with_hash(2, None, None, 9), "zombie");
    assert_eq!(skull_key_with_hash(4, None, None, 9), "creeper");
    assert_eq!(skull_key_with_hash(0, None, None, 9), "skeleton");
    assert_eq!(skull_skin_key(3, Some("u"), None, None), "player/skull/u/0");
    let hashed = skull_skin_key(3, Some("u"), None, Some("property"));
    assert!(hashed.starts_with("player/skull/u/"));
    assert_ne!(hashed, "player/skull/u/property");
    assert_eq!(hashed, skull_skin_key(3, Some("u"), None, Some("property")));
    assert_eq!(
        skull_key_with_hash(3, Some("u"), None, u64::MAX),
        "player/skull/u/18446744073709551615"
    );
}

#[test]
fn local_skin_cache_paths() {
    assert_eq!(remove_dashes("12-34-ab"), "1234ab");
    assert_eq!(url_texture_key("http://textures.minecraft.net/texture/abc"), "abc");
    assert_eq!(url_texture_key("plain"), "plain");
    assert_eq!(url_texture_key("ends/"), "");
    assert_eq!(skin_cache_path("u", "t"), "assets/skins/u/t.png");
    assert_eq!(legacy_skin_cache_path("t"), "assets/skins/t.png");
    assert_eq!(cape_cache_path("c"), "assets/capes/c.png");
    let plan = local_skin_plan(Some("a-b"), Some("http://x/y/tex"), Some("SLIM"));
    assert_eq!(plan.uuid_key, "ab");
    assert_eq!(plan.texture_key.as_deref(), Some("tex"));
    assert!(plan.slim_arms);
    let plain = local_skin_plan(None, None, Some("CLASSIC"));
    assert_eq!(plain.uuid_key, "default");
    assert_eq!(plain.texture_key, None);
    assert!(!plain.slim_arms);
}
