use pla2html::pla::date::PlaDate;
use pla2html::pla::entry::PlaEntry;
use pla2html::pla::sub_blocks::{PlaDurationBlock, PlaResourceBlock, PlaStartBlock, SubRecord};

#[test]
fn it_should_be_able_to_clone_an_entry_with_no_children() {
    let entry = PlaEntry { id: 196, description: "No Operation".to_string(), children: None };

    let cloned_entry = entry.clone();
    assert_eq!(196, cloned_entry.id);
    assert_eq!(String::from("No Operation"), cloned_entry.description);
    assert!(cloned_entry.children.is_none());
}

#[test]
fn a_clone_holds_a_copy_of_every_child() {
    let entry = PlaEntry {
        id: 7,
        description: String::from("Mash"),
        children: Some(vec![
            SubRecord::Start(PlaStartBlock {
                parent_id: 7,
                date: PlaDate { year: 2021, month: 1, day: 15 },
                hour: 15,
            }),
            SubRecord::Duration(PlaDurationBlock { parent_id: 7, duration: 22 }),
            SubRecord::Resource(PlaResourceBlock {
                parent_id: 7,
                resource_name: String::from("Brew kettle"),
            }),
        ]),
    };
    let mut copy = entry.clone();
    assert_eq!(entry.id, copy.id);
    assert_eq!(entry.description, copy.description);
    assert_eq!(format!("{:?}", entry.children), format!("{:?}", copy.children));
    assert_eq!(3, copy.children.as_ref().unwrap().len());

    copy.children.as_mut().unwrap().pop();
    copy.description.push_str(" tun");
    assert_eq!(3, entry.children.as_ref().unwrap().len());
    assert_eq!("Mash", entry.description);
}

#[test]
fn an_entry_has_children_where_it_holds_a_list() {
    let without = PlaEntry { id: 1, description: String::new(), children: None };
    let with = PlaEntry {
        id: 1,
        description: String::new(),
        children: Some(vec![SubRecord::Duration(PlaDurationBlock { parent_id: 1, duration: 2 })]),
    };
    assert!(!without.has_children());
    assert!(with.has_children());
}

#[test]
fn entries_are_equal_by_number_and_description_alone() {
    let plain = PlaEntry { id: 3, description: String::from("Boil"), children: None };
    let with_children = PlaEntry {
        id: 3,
        description: String::from("Boil"),
        children: Some(vec![SubRecord::Duration(PlaDurationBlock { parent_id: 3, duration: 1 })]),
    };
    let other_number = PlaEntry { id: 4, description: String::from("Boil"), children: None };
    let other_text = PlaEntry { id: 3, description: String::from("boil"), children: None };
    assert!(plain == with_children);
    assert!(plain != other_number);
    assert!(plain != other_text);
    assert_eq!(plain, plain.clone());
}
