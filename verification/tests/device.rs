use sidetone::device::find_device_index;
use sidetone::device::wants_default;

#[test]
fn default_name_is_recognised() {
    assert!(wants_default(&String::from("default")));
    assert!(!wants_default(&String::from("Speakers")));
    assert!(!wants_default(&String::from("")));
}

#[test]
fn named_device_is_found_by_position() {
    let names = vec![
        String::from("Microphone"),
        String::from("Line In"),
        String::from("Monitor"),
    ];
    assert_eq!(find_device_index(&names, &String::from("Line In")), Some(1));
    assert_eq!(find_device_index(&names, &String::from("Monitor")), Some(2));
}

#[test]
fn missing_device_is_not_found() {
    let names = vec![String::from("Microphone")];
    assert_eq!(find_device_index(&names, &String::from("Headset")), None);
    assert_eq!(find_device_index(&Vec::new(), &String::from("Headset")), None);
}

#[test]
fn duplicate_names_resolve_to_the_first() {
    let names = vec![
        String::from("USB Audio"),
        String::from("USB Audio"),
        String::from("Other"),
    ];
    assert_eq!(find_device_index(&names, &String::from("USB Audio")), Some(0));
}
