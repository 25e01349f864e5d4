use vaxbot::command::Command;

#[test]
fn stats_command_in_any_case() {
    assert_eq!(Command::recognize("!VACCED"), Command::Stats);
    assert_eq!(Command::recognize("!Vacced stats"), Command::Stats);
    assert_eq!(Command::recognize("!vacced"), Command::Stats);
    assert_eq!(Command::recognize("!vAcCeD"), Command::Stats);
}

#[test]
fn stats_command_needs_its_mark() {
    assert_eq!(Command::recognize("vacced"), Command::Ignore);
    assert_eq!(Command::recognize("?vacced"), Command::Ignore);
    assert_eq!(Command::recognize(" !vacced"), Command::Ignore);
    assert_eq!(Command::recognize("say !vacced"), Command::Ignore);
}

#[test]
fn stats_command_is_a_prefix() {
    assert_eq!(Command::recognize("!vaccedxyz"), Command::Stats);
    assert_eq!(Command::recognize("!vacced\nplease"), Command::Stats);
    assert_eq!(Command::recognize("!vacced 💉"), Command::Stats);
    assert_eq!(Command::recognize("!vacce"), Command::Ignore);
    assert_eq!(Command::recognize("!vacce d"), Command::Ignore);
}

#[test]
fn version_command_in_any_case() {
    assert_eq!(Command::recognize("!version"), Command::Version);
    assert_eq!(Command::recognize("!VERSION"), Command::Version);
    assert_eq!(Command::recognize("!Version please"), Command::Version);
    assert_eq!(Command::recognize("version"), Command::Ignore);
    assert_eq!(Command::recognize("!versio"), Command::Ignore);
}

#[test]
fn other_messages_are_ignored() {
    assert_eq!(Command::recognize(""), Command::Ignore);
    assert_eq!(Command::recognize("!"), Command::Ignore);
    assert_eq!(Command::recognize("hello"), Command::Ignore);
    assert_eq!(Command::recognize("!help"), Command::Ignore);
    assert_eq!(Command::recognize("💉💉💉"), Command::Ignore);
}

#[test]
fn letters_beyond_a_to_z_are_not_folded() {
    assert_eq!(Command::recognize("!versİon"), Command::Ignore);
    assert_eq!(Command::recognize("!vaccéd"), Command::Ignore);
    assert_eq!(Command::recognize("！vacced"), Command::Ignore);
}

#[test]
fn recognition_agrees_with_lowercasing() {
    let messages = [
        "!VACCED", "!Vacced stats", "!vacced", "vacced", "!version", "!VERSION 2", "!versİon",
        "!vers", "", "!", "!VACCEİ", "K!vacced", "!vacced!version", "!version!vacced",
    ];
    for message in messages {
        let lowered = message.to_lowercase();
        let expected = if lowered.starts_with("!vacced") {
            Command::Stats
        } else if lowered.starts_with("!version") {
            Command::Version
        } else {
            Command::Ignore
        };
        assert_eq!(Command::recognize(message), expected);
    }
}
