use pla2html::pla::command::PlaCommand;

#[test]
fn it_should_convert_a_command_to_a_string() {
    let strings = vec!["child", "dep", "duration", "entry", "res", "start", "unknown"];
    let commands = vec![
        PlaCommand::CHILD,
        PlaCommand::DEPENDENCY,
        PlaCommand::DURATION,
        PlaCommand::ENTRY,
        PlaCommand::RESOURCE,
        PlaCommand::START,
        PlaCommand::UNKNOWN,
    ];

    for i in 0..commands.len() {
        assert_eq!(strings[i], commands[i].to_string());
    }
}

#[test]
fn it_should_convert_a_command_from_a_string() {
    let strings = vec!["child", "dep", "duration", "entry", "res", "start", "wakka"];
    let commands = vec![
        PlaCommand::CHILD,
        PlaCommand::DEPENDENCY,
        PlaCommand::DURATION,
        PlaCommand::ENTRY,
        PlaCommand::RESOURCE,
        PlaCommand::START,
        PlaCommand::UNKNOWN,
    ];

    for i in 0..strings.len() {
        assert_eq!(commands[i], PlaCommand::from_str(strings[i]).unwrap());
    }
}

#[test]
fn a_command_word_is_matched_exactly_and_with_its_case() {
    assert_eq!(PlaCommand::UNKNOWN, PlaCommand::from_str("Start").unwrap());
    assert_eq!(PlaCommand::UNKNOWN, PlaCommand::from_str("START").unwrap());
    assert_eq!(PlaCommand::UNKNOWN, PlaCommand::from_str("starts").unwrap());
    assert_eq!(PlaCommand::UNKNOWN, PlaCommand::from_str("star").unwrap());
    assert_eq!(PlaCommand::UNKNOWN, PlaCommand::from_str(" start").unwrap());
    assert_eq!(PlaCommand::UNKNOWN, PlaCommand::from_str("").unwrap());
    assert_eq!(PlaCommand::UNKNOWN, PlaCommand::from_str("dependency").unwrap());
    assert_eq!(PlaCommand::UNKNOWN, PlaCommand::from_str("resource").unwrap());
}

#[test]
fn the_word_of_every_command_leads_back_to_the_command() {
    let commands = vec![
        PlaCommand::CHILD,
        PlaCommand::DEPENDENCY,
        PlaCommand::DURATION,
        PlaCommand::ENTRY,
        PlaCommand::RESOURCE,
        PlaCommand::START,
        PlaCommand::UNKNOWN,
    ];
    for command in commands {
        assert_eq!(command, PlaCommand::from_str(&command.to_string()).unwrap());
    }
}

#[test]
fn the_name_of_a_command_is_its_variant() {
    assert_eq!("CHILD", PlaCommand::CHILD.name());
    assert_eq!("DEPENDENCY", PlaCommand::DEPENDENCY.name());
    assert_eq!("DURATION", PlaCommand::DURATION.name());
    assert_eq!("ENTRY", PlaCommand::ENTRY.name());
    assert_eq!("RESOURCE", PlaCommand::RESOURCE.name());
    assert_eq!("START", PlaCommand::START.name());
    assert_eq!("UNKNOWN", PlaCommand::UNKNOWN.name());
    assert_eq!(format!("{:?}", PlaCommand::DURATION), PlaCommand::DURATION.name());
}

#[test]
fn five_commands_give_sub_records() {
    assert!(PlaCommand::START.is_sub_block());
    assert!(PlaCommand::CHILD.is_sub_block());
    assert!(PlaCommand::DURATION.is_sub_block());
    assert!(PlaCommand::DEPENDENCY.is_sub_block());
    assert!(PlaCommand::RESOURCE.is_sub_block());
    assert!(!PlaCommand::ENTRY.is_sub_block());
    assert!(!PlaCommand::UNKNOWN.is_sub_block());
}
