use livesplit_core::hotkey::KeyCode;
use pmls::persistence::{
    check_speedrun_name, default_config_path, default_data_folder, default_log_file_path,
    get_splits, parse_key, speedrun_settings_source, update_configuration_with_default_speedrun,
    ConfigurationFileError, FileError, PMLSConfiguration, RunFileError, SettingsSource,
    SpeedrunSettings, SpeedrunSettingsFileError, UserKeybinding, EMPTY_SPEEDRUN_NAME,
    KEYS_NOT_DISTINCT, KEY_NOT_CONVERTED, PROGRAM_NAME,
};
use pmls::Keybinding;

fn keys() -> Keybinding {
    Keybinding::new(
        KeyCode::Numpad1,
        KeyCode::Numpad3,
        KeyCode::Numpad5,
        KeyCode::Numpad7,
        KeyCode::Numpad9,
    )
}

fn settings() -> SpeedrunSettings {
    SpeedrunSettings::new(
        vec!["Cap".to_string(), "Cascade".to_string()],
        "Odyssey".to_string(),
        "Any%".to_string(),
        keys(),
    )
    .unwrap()
}

fn configuration(use_default: bool, name: Option<&str>) -> PMLSConfiguration {
    PMLSConfiguration {
        data_folder_path: "/home/me/.pmls".to_string(),
        use_default_speedrun: use_default,
        default_speedrun_name: name.map(|n| n.to_string()),
    }
}

#[test]
fn get_splits_separates_names_at_bars() {
    assert_eq!(get_splits("split1|split 2|split 3"), vec!["split1", "split 2", "split 3"]);
    assert_eq!(get_splits("alone"), vec!["alone"]);
}

#[test]
fn get_splits_drops_empty_names() {
    assert_eq!(get_splits(""), Vec::<String>::new());
    assert_eq!(get_splits("|"), Vec::<String>::new());
    assert_eq!(get_splits("|||"), Vec::<String>::new());
    assert_eq!(get_splits("a||b"), vec!["a", "b"]);
    assert_eq!(get_splits("|a|"), vec!["a"]);
    assert_eq!(get_splits("a|"), vec!["a"]);
    assert_eq!(get_splits("|a"), vec!["a"]);
}

#[test]
fn get_splits_keeps_blanks_and_letters_of_any_width() {
    assert_eq!(get_splits(" | a "), vec![" ", " a "]);
    assert_eq!(get_splits("\u{e9}t\u{e9}|\u{1f600}|z"), vec!["\u{e9}t\u{e9}", "\u{1f600}", "z"]);
}

#[test]
fn keybinding_new_keeps_each_key() {
    let keybinding = keys();
    assert_eq!(keybinding.split_key, KeyCode::Numpad1);
    assert_eq!(keybinding.reset_key, KeyCode::Numpad3);
    assert_eq!(keybinding.pause_key, KeyCode::Numpad5);
    assert_eq!(keybinding.unpause_key, KeyCode::Numpad7);
    assert_eq!(keybinding.comparison_key, KeyCode::Numpad9);
}

#[test]
fn user_keybinding_new_keeps_each_name() {
    let keybinding = UserKeybinding::new(Some("KeyA"), None, Some("KeyC"), None, Some("KeyE"));
    assert_eq!(keybinding.split_key, Some("KeyA"));
    assert_eq!(keybinding.reset_key, None);
    assert_eq!(keybinding.pause_key, Some("KeyC"));
    assert_eq!(keybinding.unpause_key, None);
    assert_eq!(keybinding.comparison_key, Some("KeyE"));
}

#[test]
fn configuration_new_switches_the_default_speedrun_on() {
    let configuration = PMLSConfiguration::new("/home/me/.pmls".to_string());
    assert_eq!(configuration, self::configuration(true, None));
}

#[test]
fn settings_new_keeps_its_parts() {
    let settings = settings();
    assert_eq!(settings.get_game_name(), "Odyssey");
    assert_eq!(settings.get_category_name(), "Any%");
    assert_eq!(settings.get_split_names(), vec!["Cap", "Cascade"]);
    assert_eq!(settings.get_split_key(), KeyCode::Numpad1);
    assert_eq!(settings.get_reset_key(), KeyCode::Numpad3);
    assert_eq!(settings.get_pause_key(), KeyCode::Numpad5);
    assert_eq!(settings.get_unpause_key(), KeyCode::Numpad7);
    assert_eq!(settings.get_comparison_key(), KeyCode::Numpad9);
}

#[test]
fn settings_new_refuses_two_equal_control_keys() {
    let all = [KeyCode::Numpad1, KeyCode::Numpad3, KeyCode::Numpad5, KeyCode::Numpad7];
    for i in 0..4 {
        for j in 0..4 {
            if i == j {
                continue;
            }
            let mut chosen = all;
            chosen[j] = all[i];
            let keybinding =
                Keybinding::new(chosen[0], chosen[1], chosen[2], chosen[3], KeyCode::Numpad9);
            let refused =
                SpeedrunSettings::new(vec![], "g".to_string(), "c".to_string(), keybinding);
            assert_eq!(
                refused,
                Err(SpeedrunSettingsFileError::UserInput(KEYS_NOT_DISTINCT.to_string()))
            );
        }
    }
    assert_eq!(KEYS_NOT_DISTINCT, "All keys need to be bound to a different key");
}

#[test]
fn settings_new_lets_the_comparison_key_repeat_a_control_key() {
    let keybinding = Keybinding::new(
        KeyCode::Numpad1,
        KeyCode::Numpad3,
        KeyCode::Numpad5,
        KeyCode::Numpad7,
        KeyCode::Numpad1,
    );
    let made = SpeedrunSettings::new(vec![], "g".to_string(), "c".to_string(), keybinding);
    assert_eq!(made.unwrap().get_comparison_key(), KeyCode::Numpad1);
}

#[test]
fn settings_name_their_files() {
    let settings = settings();
    assert_eq!(settings.get_file_name(), "Odyssey_Any%.txt");
    assert_eq!(settings.get_run_file_name(), "Odyssey_Any%.lss");
    assert_eq!(settings.get_file_path("/home/me/.pmls"), "/home/me/.pmls/Odyssey_Any%.txt");
    assert_eq!(settings.get_run_file_path("/home/me/.pmls"), "/home/me/.pmls/Odyssey_Any%.lss");
}

#[test]
fn default_paths_lie_in_the_home_folder() {
    assert_eq!(PROGRAM_NAME, "pmls");
    assert_eq!(default_data_folder("/home/me"), "/home/me/.pmls");
    assert_eq!(default_config_path("/home/me"), "/home/me/.config/.pmls");
    assert_eq!(default_log_file_path("/home/me"), "/home/me/.pmls/logs.txt");
    assert_eq!(default_data_folder(""), "/.pmls");
}

#[test]
fn source_is_the_named_file_when_game_and_category_are_given() {
    for configuration in [configuration(true, Some("x.txt")), configuration(false, None)] {
        assert_eq!(
            speedrun_settings_source(&configuration, Some("Odyssey"), Some("Any%"), false),
            SettingsSource::NamedFile("Odyssey_Any%.txt".to_string())
        );
    }
}

#[test]
fn source_is_the_default_file_when_a_name_is_missing() {
    let configuration = configuration(true, Some("Odyssey_Any%.txt"));
    for (game, category) in [(None, None), (Some("Odyssey"), None), (None, Some("Any%"))] {
        assert_eq!(
            speedrun_settings_source(&configuration, game, category, false),
            SettingsSource::DefaultFile("Odyssey_Any%.txt".to_string())
        );
    }
}

#[test]
fn source_is_the_user_when_the_default_has_no_name() {
    assert_eq!(
        speedrun_settings_source(&configuration(true, None), None, None, false),
        SettingsSource::UserForLackOfDefault
    );
}

#[test]
fn source_is_the_user_when_the_default_is_switched_off_or_creation_forced() {
    assert_eq!(
        speedrun_settings_source(&configuration(false, Some("x.txt")), None, Some("c"), false),
        SettingsSource::User
    );
    for configuration in [configuration(true, Some("x.txt")), configuration(true, None)] {
        assert_eq!(
            speedrun_settings_source(&configuration, Some("Odyssey"), Some("Any%"), true),
            SettingsSource::User
        );
        assert_eq!(
            speedrun_settings_source(&configuration, None, None, true),
            SettingsSource::User
        );
    }
}

#[test]
fn check_speedrun_name_refuses_the_empty_name() {
    assert_eq!(check_speedrun_name("Odyssey_Any%.txt"), Ok(()));
    assert_eq!(
        check_speedrun_name(""),
        Err(SpeedrunSettingsFileError::UserInput(EMPTY_SPEEDRUN_NAME.to_string()))
    );
    assert_eq!(EMPTY_SPEEDRUN_NAME, "Speedrun name cannot be empty.");
}

#[test]
fn update_configuration_makes_the_speedrun_the_default() {
    let updated =
        update_configuration_with_default_speedrun(configuration(false, None), &settings());
    assert_eq!(updated, configuration(true, Some("Odyssey_Any%.txt")));
    let updated = update_configuration_with_default_speedrun(
        configuration(true, Some("old.txt")),
        &settings(),
    );
    assert_eq!(updated, configuration(true, Some("Odyssey_Any%.txt")));
}

#[test]
fn parse_key_knows_the_names_of_keys() {
    assert_eq!(parse_key("Numpad1"), Ok(KeyCode::Numpad1));
    assert_eq!(parse_key("KeyA"), Ok(KeyCode::KeyA));
    assert_eq!(parse_key("Escape"), Ok(KeyCode::Escape));
}

#[test]
fn parse_key_refuses_other_text() {
    for text in ["", "numpad1", "Numpad1 ", "no key"] {
        assert_eq!(parse_key(text), Err(FileError::Other(KEY_NOT_CONVERTED.to_string())));
    }
    assert_eq!(KEY_NOT_CONVERTED, "Could not convert key");
}

#[test]
fn file_error_messages() {
    assert_eq!(FileError::UserInput("bad".to_string()).message(), "bad\n");
    assert_eq!(FileError::Other("worse".to_string()).message(), "worse\n");
    assert_eq!(FileError::UserCancel.message(), "User cancelled his action\n");
    assert_eq!(FileError::VarError("no HOME".to_string()).message(), "no HOME");
    assert_eq!(FileError::Dialog("no dialog".to_string()).message(), "no dialog");
    assert_eq!(FileError::IO("no file".to_string()).message(), "no file");
}

#[test]
fn configuration_file_error_messages() {
    assert_eq!(ConfigurationFileError::UserInput("bad".to_string()).message(), "bad\n");
    assert_eq!(ConfigurationFileError::Other("worse".to_string()).message(), "worse\n");
    assert_eq!(
        ConfigurationFileError::UserCancel.message(),
        "User cancelled creating general configuration file\n"
    );
    assert_eq!(ConfigurationFileError::VarError("a".to_string()).message(), "a");
    assert_eq!(ConfigurationFileError::Dialog("b".to_string()).message(), "b");
    assert_eq!(ConfigurationFileError::IO("c".to_string()).message(), "c");
    assert_eq!(ConfigurationFileError::DataFolder("d".to_string()).message(), "d");
    assert_eq!(ConfigurationFileError::Serialize("e".to_string()).message(), "e");
    assert_eq!(ConfigurationFileError::Deserialize("f".to_string()).message(), "f");
}

#[test]
fn speedrun_settings_file_error_messages() {
    assert_eq!(SpeedrunSettingsFileError::UserInput("bad".to_string()).message(), "bad\n");
    assert_eq!(SpeedrunSettingsFileError::Other("worse".to_string()).message(), "worse\n");
    assert_eq!(
        SpeedrunSettingsFileError::UserCancel.message(),
        "User cancelled action while editing speedrun settings file\n"
    );
    assert_eq!(SpeedrunSettingsFileError::OSStringConversion("path".to_string()).message(), "path\n");
    assert_eq!(SpeedrunSettingsFileError::VarError("a".to_string()).message(), "a");
    assert_eq!(SpeedrunSettingsFileError::Dialog("b".to_string()).message(), "b");
    assert_eq!(SpeedrunSettingsFileError::Serialize("c".to_string()).message(), "c");
    assert_eq!(SpeedrunSettingsFileError::Deserialize("d".to_string()).message(), "d");
    assert_eq!(SpeedrunSettingsFileError::IO("e".to_string()).message(), "e");
    assert_eq!(
        SpeedrunSettingsFileError::Missing("Odyssey_Any%.txt".to_string()).message(),
        "Missing settings file with name: \"Odyssey_Any%.txt\"\n"
    );
}

#[test]
fn run_file_error_messages() {
    assert_eq!(RunFileError::UserInput("bad".to_string()).message(), "bad\n");
    assert_eq!(RunFileError::Other("worse".to_string()).message(), "worse\n");
    assert_eq!(RunFileError::UserCancel.message(), "User cancelled his action while editting run file\n");
    assert_eq!(RunFileError::Save("a".to_string()).message(), "a");
    assert_eq!(RunFileError::Parse("b".to_string()).message(), "b");
    assert_eq!(RunFileError::IO("c".to_string()).message(), "c");
    assert_eq!(RunFileError::VarError("d".to_string()).message(), "d");
    assert_eq!(RunFileError::Dialog("e".to_string()).message(), "e");
}

#[test]
fn file_errors_convert_variant_by_variant() {
    let text = || "said".to_string();
    assert_eq!(RunFileError::from(FileError::UserInput(text())), RunFileError::UserInput(text()));
    assert_eq!(RunFileError::from(FileError::UserCancel), RunFileError::UserCancel);
    assert_eq!(RunFileError::from(FileError::VarError(text())), RunFileError::VarError(text()));
    assert_eq!(RunFileError::from(FileError::Dialog(text())), RunFileError::Dialog(text()));
    assert_eq!(RunFileError::from(FileError::IO(text())), RunFileError::IO(text()));
    assert_eq!(RunFileError::from(FileError::Other(text())), RunFileError::Other(text()));

    assert_eq!(ConfigurationFileError::from(FileError::UserInput(text())), ConfigurationFileError::UserInput(text()));
    assert_eq!(ConfigurationFileError::from(FileError::UserCancel), ConfigurationFileError::UserCancel);
    assert_eq!(ConfigurationFileError::from(FileError::VarError(text())), ConfigurationFileError::VarError(text()));
    assert_eq!(ConfigurationFileError::from(FileError::Dialog(text())), ConfigurationFileError::Dialog(text()));
    assert_eq!(ConfigurationFileError::from(FileError::IO(text())), ConfigurationFileError::IO(text()));
    assert_eq!(ConfigurationFileError::from(FileError::Other(text())), ConfigurationFileError::Other(text()));

    assert_eq!(SpeedrunSettingsFileError::from(FileError::UserInput(text())), SpeedrunSettingsFileError::UserInput(text()));
    assert_eq!(SpeedrunSettingsFileError::from(FileError::UserCancel), SpeedrunSettingsFileError::UserCancel);
    assert_eq!(SpeedrunSettingsFileError::from(FileError::VarError(text())), SpeedrunSettingsFileError::VarError(text()));
    assert_eq!(SpeedrunSettingsFileError::from(FileError::Dialog(text())), SpeedrunSettingsFileError::Dialog(text()));
    assert_eq!(SpeedrunSettingsFileError::from(FileError::IO(text())), SpeedrunSettingsFileError::IO(text()));
    assert_eq!(SpeedrunSettingsFileError::from(FileError::Other(text())), SpeedrunSettingsFileError::Other(text()));
}
