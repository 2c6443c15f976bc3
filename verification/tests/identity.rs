use zter::identity::{identity, SETTINGS_RELOAD_ACTION};

#[test]
fn build_identity_matches_the_active_profile() {
    let development = identity(true);
    assert_eq!(
        (
            development.application_id,
            development.application_name,
            development.icon_name,
            development.settings_directory,
        ),
        (
            "io.github.z99natza.zter.Devel",
            "zter (Development)",
            "io.github.z99natza.zter.Devel",
            "zter-devel",
        )
    );

    let release = identity(false);
    assert_eq!(
        (
            release.application_id,
            release.application_name,
            release.icon_name,
            release.settings_directory,
        ),
        (
            "io.github.z99natza.zter",
            "zter",
            "io.github.z99natza.zter",
            "zter",
        )
    );
}

#[test]
fn profiles_keep_their_settings_apart() {
    assert_ne!(identity(true).settings_directory, identity(false).settings_directory);
    assert_ne!(identity(true).application_id, identity(false).application_id);
    assert_eq!(SETTINGS_RELOAD_ACTION, "settings-reload");
}
