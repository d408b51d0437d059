use chrono::{Datelike, NaiveDate};
use pla2html::pla::command::PlaCommand;
use pla2html::pla::date::PlaDate;
use pla2html::pla::error::{PlaParseErrorKind, PlaSubBlockConversionError};
use pla2html::pla::parser::HeirarchicalPlaLine;
use pla2html::pla::pattern::group;
use pla2html::pla::sub_blocks::{
    number_argument, PlaChildBlock, PlaDependencyBlock, PlaDurationBlock, PlaResourceBlock,
    PlaStartBlock, PlaSubBlock, SubRecord, DATE_FORMAT, RESOURCE_PATTERN,
};

fn line(command: PlaCommand, text: &str, parent_id: Option<u32>) -> HeirarchicalPlaLine {
    HeirarchicalPlaLine { command, text: String::from(text), parent_id }
}

#[test]
#[should_panic]
fn it_should_panic_when_a_child_string_is_unparseable() {
    let _child_block = PlaChildBlock::try_from((86, "child abc")).unwrap();
}

#[test]
fn it_should_parse_a_child_block_from_a_valid_string_and_parent_id() {
    let child_block = PlaChildBlock::try_from((86, "child 202")).unwrap();
    assert_eq!(86, child_block.parent_id);
    assert_eq!(202, child_block.child_id);
}

#[test]
fn it_should_parse_a_duration_block_from_a_valid_string_and_parent_id() {
    let duration_block: PlaDurationBlock = PlaDurationBlock::try_from((86, "duration 22")).unwrap();
    assert_eq!(86, duration_block.parent_id);
    assert_eq!(22, duration_block.duration);
}

#[test]
#[should_panic]
fn when_parsing_start_blocks_it_should_fail_without_a_date() {
    let start_block = "start 15";
    let pla_start = PlaStartBlock::try_from((1, start_block));
    let _unwrapped = pla_start.unwrap();
}

#[test]
fn a_start_line_gives_its_date_and_hour() {
    let start = PlaStartBlock::try_from((10000, "start 2021-01-15 15")).unwrap();
    assert_eq!(10000, start.parent_id);
    assert_eq!(PlaDate { year: 2021, month: 1, day: 15 }, start.date);
    assert_eq!(15, start.hour);
    let day = NaiveDate::from_ymd_opt(2021, 1, 15).unwrap();
    assert_eq!((day.year(), day.month(), day.day()), (start.date.year, start.date.month, start.date.day));
}

#[test]
fn a_start_line_with_only_a_date_starts_at_midnight() {
    let start = PlaStartBlock::try_from((3, "start 2021-01-15")).unwrap();
    assert_eq!(PlaDate { year: 2021, month: 1, day: 15 }, start.date);
    assert_eq!(0, start.hour);
}

#[test]
fn a_start_line_without_a_date_is_an_invalid_date() {
    assert_eq!(PlaParseErrorKind::InvalidDate, PlaStartBlock::try_from((3, "start")).unwrap_err().kind);
    assert_eq!(PlaParseErrorKind::InvalidDate, PlaStartBlock::try_from((3, "")).unwrap_err().kind);
}

#[test]
fn a_start_line_with_what_is_no_date_is_an_invalid_date() {
    let texts = vec![
        "start 15",
        "start tomorrow",
        "start 2021-13-01",
        "start 2021-02-30",
        "start 2021/01/15",
        "start  2021-01-15",
        "start 2021-01-15x 15",
    ];
    for text in texts {
        let error = PlaStartBlock::try_from((3, text)).unwrap_err();
        assert_eq!(PlaParseErrorKind::InvalidDate, error.kind, "on {:?}", text);
    }
}

#[test]
fn the_date_is_checked_before_the_hour() {
    let error = PlaStartBlock::try_from((3, "start never noon")).unwrap_err();
    assert_eq!(PlaParseErrorKind::InvalidDate, error.kind);
}

#[test]
fn a_start_line_with_what_is_no_hour_is_an_invalid_hour() {
    let texts = vec!["start 2021-01-15 noon", "start 2021-01-15 -1", "start 2021-01-15 ", "start 2021-01-15  15"];
    for text in texts {
        let error = PlaStartBlock::try_from((3, text)).unwrap_err();
        assert_eq!(PlaParseErrorKind::InvalidHour, error.kind, "on {:?}", text);
    }
}

#[test]
fn the_hour_is_kept_as_it_is_written() {
    assert_eq!(23, PlaStartBlock::try_from((3, "start 2021-01-15 23")).unwrap().hour);
    assert_eq!(99, PlaStartBlock::try_from((3, "start 2021-01-15 99")).unwrap().hour);
    assert_eq!(8, PlaStartBlock::try_from((3, "start 2021-01-15 08 and more")).unwrap().hour);
}

#[test]
fn a_leap_day_is_a_date() {
    let start = PlaStartBlock::try_from((3, "start 2024-02-29 6")).unwrap();
    assert_eq!(PlaDate { year: 2024, month: 2, day: 29 }, start.date);
    assert_eq!(
        PlaParseErrorKind::InvalidDate,
        PlaStartBlock::try_from((3, "start 2023-02-29 6")).unwrap_err().kind
    );
}

#[test]
fn a_start_block_is_built_from_a_date_that_was_read() {
    let date = PlaDate { year: 2021, month: 10, day: 1 };
    let with_hour = PlaStartBlock::from_date(4, Some(date), Some("7")).unwrap();
    assert_eq!(PlaStartBlock { parent_id: 4, date, hour: 7 }, with_hour);
    let without_hour = PlaStartBlock::from_date(4, Some(date), None).unwrap();
    assert_eq!(PlaStartBlock { parent_id: 4, date, hour: 0 }, without_hour);
    assert_eq!(
        PlaParseErrorKind::InvalidHour,
        PlaStartBlock::from_date(4, Some(date), Some("seven")).unwrap_err().kind
    );
    assert_eq!(
        PlaParseErrorKind::InvalidDate,
        PlaStartBlock::from_date(4, None, Some("7")).unwrap_err().kind
    );
    assert_eq!(PlaParseErrorKind::InvalidDate, PlaStartBlock::from_date(4, None, None).unwrap_err().kind);
}

#[test]
fn the_date_format_is_year_month_day() {
    assert_eq!("%Y-%m-%d", DATE_FORMAT);
    assert_eq!(
        NaiveDate::from_ymd_opt(2021, 1, 15).unwrap(),
        NaiveDate::parse_from_str("2021-01-15", DATE_FORMAT).unwrap()
    );
}

#[test]
fn a_duration_line_needs_a_number() {
    assert_eq!(0, PlaDurationBlock::try_from((1, "duration 0")).unwrap().duration);
    assert_eq!(4294967295, PlaDurationBlock::try_from((1, "duration 4294967295")).unwrap().duration);
    for text in vec!["duration", "duration ", "duration x", "duration -3", "duration 4294967296", "duration  22"] {
        let error = PlaDurationBlock::try_from((1, text)).unwrap_err();
        assert_eq!(PlaParseErrorKind::InvalidDuration, error.kind, "on {:?}", text);
    }
}

#[test]
fn a_dep_line_needs_a_number() {
    let block = PlaDependencyBlock::try_from((9, "dep 10000")).unwrap();
    assert_eq!(PlaDependencyBlock { parent_id: 9, dependency_id: 10000 }, block);
    for text in vec!["dep", "dep x", "dep 1.5", "dep  1"] {
        let error = PlaDependencyBlock::try_from((9, text)).unwrap_err();
        assert_eq!(PlaParseErrorKind::InvalidDependency, error.kind, "on {:?}", text);
    }
}

#[test]
fn a_child_line_needs_a_number() {
    for text in vec!["child", "child abc", "child 12abc", "child  202"] {
        let error = PlaChildBlock::try_from((86, text)).unwrap_err();
        assert_eq!(PlaParseErrorKind::InvalidChild, error.kind, "on {:?}", text);
    }
    assert_eq!(202, PlaChildBlock::try_from((86, "child 202 and the rest")).unwrap().child_id);
}

#[test]
fn the_number_argument_is_the_second_piece() {
    assert_eq!(Some(202), number_argument("child 202"));
    assert_eq!(Some(5), number_argument("anything 5 6"));
    assert_eq!(None, number_argument("child"));
    assert_eq!(None, number_argument("child  5"));
    assert_eq!(None, number_argument(""));
}

#[test]
fn a_res_line_names_its_resource() {
    let block = PlaResourceBlock::try_from((5, "res Brew kettle")).unwrap();
    assert_eq!(5, block.parent_id);
    assert_eq!("Brew kettle", block.resource_name);
    assert_eq!("two  words", PlaResourceBlock::try_from((5, "res \t two  words")).unwrap().resource_name);
    assert_eq!("", PlaResourceBlock::try_from((5, "res ")).unwrap().resource_name);
}

#[test]
fn a_res_line_without_white_space_after_the_word_is_an_invalid_resource() {
    for text in vec!["res", "resource", "", "re s"] {
        let error = PlaResourceBlock::try_from((5, text)).unwrap_err();
        assert_eq!(PlaParseErrorKind::InvalidResource, error.kind, "on {:?}", text);
    }
}

#[test]
fn a_resource_block_is_built_from_the_groups_of_a_match() {
    let found = Some(vec![
        Some(String::from("res  kettle")),
        Some(String::from(" ")),
        Some(String::from("kettle")),
    ]);
    let block = PlaResourceBlock::from_captures(8, &found).unwrap();
    assert_eq!(8, block.parent_id);
    assert_eq!("kettle", block.resource_name);
    assert_eq!(Some("kettle"), group(&found, 2));
    assert_eq!(None, group(&found, 3));

    let absent = Some(vec![Some(String::from("res ")), Some(String::from(" ")), None]);
    assert_eq!(PlaParseErrorKind::InvalidResource, PlaResourceBlock::from_captures(8, &absent).unwrap_err().kind);
    let short = Some(vec![Some(String::from("res "))]);
    assert_eq!(PlaParseErrorKind::InvalidResource, PlaResourceBlock::from_captures(8, &short).unwrap_err().kind);
    assert_eq!(PlaParseErrorKind::InvalidResource, PlaResourceBlock::from_captures(8, &None).unwrap_err().kind);
}

#[test]
fn the_resource_pattern_is_the_word_white_space_and_the_rest() {
    assert_eq!("res(\\s)+(.*)", RESOURCE_PATTERN);
}

#[test]
fn a_line_without_an_owner_is_an_orphan() {
    let orphan = line(PlaCommand::CHILD, "child 202", None);
    assert_eq!(PlaParseErrorKind::OrphanCommand, PlaChildBlock::try_from(&orphan).unwrap_err().kind);
    assert_eq!(PlaParseErrorKind::OrphanCommand, PlaStartBlock::try_from(&orphan).unwrap_err().kind);
    assert_eq!(PlaParseErrorKind::OrphanCommand, PlaDurationBlock::try_from(&orphan).unwrap_err().kind);
    assert_eq!(PlaParseErrorKind::OrphanCommand, PlaDependencyBlock::try_from(&orphan).unwrap_err().kind);
    assert_eq!(PlaParseErrorKind::OrphanCommand, PlaResourceBlock::try_from(&orphan).unwrap_err().kind);
    assert_eq!(PlaParseErrorKind::OrphanCommand, SubRecord::from_line(&orphan).unwrap_err().kind);
}

#[test]
fn a_line_is_read_without_the_white_space_at_its_start() {
    let child = line(PlaCommand::CHILD, "   child 202", Some(86));
    assert_eq!(PlaChildBlock { parent_id: 86, child_id: 202 }, PlaChildBlock::try_from(&child).unwrap());
    let start = line(PlaCommand::START, "\tstart 2021-01-15 15", Some(86));
    assert_eq!(15, PlaStartBlock::try_from(&start).unwrap().hour);
    let duration = line(PlaCommand::DURATION, " duration 22", Some(86));
    assert_eq!(22, PlaDurationBlock::try_from(&duration).unwrap().duration);
    let dependency = line(PlaCommand::DEPENDENCY, " dep 3", Some(86));
    assert_eq!(3, PlaDependencyBlock::try_from(&dependency).unwrap().dependency_id);
    let resource = line(PlaCommand::RESOURCE, " res Mill", Some(86));
    assert_eq!("Mill", PlaResourceBlock::try_from(&resource).unwrap().resource_name);
}

#[test]
fn the_command_of_a_line_decides_the_kind_of_its_sub_record() {
    let start = SubRecord::from_line(&line(PlaCommand::START, "start 2021-01-15 15", Some(1))).unwrap().unwrap();
    assert_eq!(PlaCommand::START, start.get_command());
    assert_eq!(1, start.get_parent_id());
    let duration = SubRecord::from_line(&line(PlaCommand::DURATION, "duration 22", Some(2))).unwrap().unwrap();
    assert_eq!(PlaCommand::DURATION, duration.get_command());
    assert_eq!(2, duration.get_parent_id());
    let dependency = SubRecord::from_line(&line(PlaCommand::DEPENDENCY, "dep 4", Some(3))).unwrap().unwrap();
    assert_eq!(PlaCommand::DEPENDENCY, dependency.get_command());
    let child = SubRecord::from_line(&line(PlaCommand::CHILD, "child 4", Some(3))).unwrap().unwrap();
    assert_eq!(PlaCommand::CHILD, child.get_command());
    let resource = SubRecord::from_line(&line(PlaCommand::RESOURCE, "res Mill", Some(3))).unwrap().unwrap();
    assert_eq!(PlaCommand::RESOURCE, resource.get_command());
    assert_eq!(3, resource.get_parent_id());

    assert!(SubRecord::from_line(&line(PlaCommand::ENTRY, "[3] Mash", None)).unwrap().is_none());
    assert!(SubRecord::from_line(&line(PlaCommand::UNKNOWN, "color red", Some(3))).unwrap().is_none());
    assert!(SubRecord::from_line(&line(PlaCommand::UNKNOWN, "color red", None)).unwrap().is_none());
}

#[test]
fn each_kind_of_failure_comes_through_the_line() {
    let cases = vec![
        (PlaCommand::START, "start", PlaParseErrorKind::InvalidDate),
        (PlaCommand::START, "start 2021-01-15 x", PlaParseErrorKind::InvalidHour),
        (PlaCommand::DURATION, "duration x", PlaParseErrorKind::InvalidDuration),
        (PlaCommand::DEPENDENCY, "dep x", PlaParseErrorKind::InvalidDependency),
        (PlaCommand::CHILD, "child x", PlaParseErrorKind::InvalidChild),
        (PlaCommand::RESOURCE, "res", PlaParseErrorKind::InvalidResource),
    ];
    for (command, text, kind) in cases {
        let error = SubRecord::from_line(&line(command, text, Some(1))).unwrap_err();
        assert_eq!(kind, error.kind, "on {:?}", text);
        assert_eq!(kind.message(), error.message);
    }
}

#[test]
fn a_sub_record_is_taken_for_its_own_kind_only() {
    let date = PlaDate { year: 2021, month: 1, day: 15 };
    let start = SubRecord::Start(PlaStartBlock { parent_id: 1, date, hour: 15 });
    let duration = SubRecord::Duration(PlaDurationBlock { parent_id: 1, duration: 22 });
    let dependency = SubRecord::Dependency(PlaDependencyBlock { parent_id: 1, dependency_id: 2 });
    let child = SubRecord::Child(PlaChildBlock { parent_id: 1, child_id: 3 });
    let resource = SubRecord::Resource(PlaResourceBlock { parent_id: 1, resource_name: String::from("Mill") });

    assert_eq!(Ok(PlaStartBlock { parent_id: 1, date, hour: 15 }), PlaStartBlock::try_from(&start));
    assert_eq!(Ok(PlaDurationBlock { parent_id: 1, duration: 22 }), PlaDurationBlock::try_from(&duration));
    assert_eq!(Ok(PlaDependencyBlock { parent_id: 1, dependency_id: 2 }), PlaDependencyBlock::try_from(&dependency));
    assert_eq!(Ok(PlaChildBlock { parent_id: 1, child_id: 3 }), PlaChildBlock::try_from(&child));
    let taken = PlaResourceBlock::try_from(&resource).unwrap();
    assert_eq!((1, "Mill"), (taken.parent_id, taken.resource_name.as_str()));

    assert_eq!(
        Err(PlaSubBlockConversionError { initial_type: PlaCommand::START }),
        PlaStartBlock::try_from(&duration)
    );
    assert_eq!(
        Err(PlaSubBlockConversionError { initial_type: PlaCommand::DURATION }),
        PlaDurationBlock::try_from(&start)
    );
    assert_eq!(
        Err(PlaSubBlockConversionError { initial_type: PlaCommand::DEPENDENCY }),
        PlaDependencyBlock::try_from(&child)
    );
    assert_eq!(
        Err(PlaSubBlockConversionError { initial_type: PlaCommand::CHILD }),
        PlaChildBlock::try_from(&dependency)
    );
    assert_eq!(
        PlaSubBlockConversionError { initial_type: PlaCommand::RESOURCE },
        PlaResourceBlock::try_from(&start).unwrap_err()
    );
}

#[test]
fn each_block_knows_its_command_and_its_owner() {
    let date = PlaDate { year: 2021, month: 1, day: 15 };
    let start = PlaStartBlock { parent_id: 11, date, hour: 15 };
    let duration = PlaDurationBlock { parent_id: 12, duration: 22 };
    let dependency = PlaDependencyBlock { parent_id: 13, dependency_id: 2 };
    let child = PlaChildBlock { parent_id: 14, child_id: 3 };
    let resource = PlaResourceBlock { parent_id: 15, resource_name: String::from("Mill") };
    assert_eq!((PlaCommand::START, 11), (start.get_command(), start.get_parent_id()));
    assert_eq!((PlaCommand::DURATION, 12), (duration.get_command(), duration.get_parent_id()));
    assert_eq!((PlaCommand::DEPENDENCY, 13), (dependency.get_command(), dependency.get_parent_id()));
    assert_eq!((PlaCommand::CHILD, 14), (child.get_command(), child.get_parent_id()));
    assert_eq!((PlaCommand::RESOURCE, 15), (resource.get_command(), resource.get_parent_id()));
    let copy = resource.clone();
    assert_eq!((15, "Mill"), (copy.parent_id, copy.resource_name.as_str()));
}
