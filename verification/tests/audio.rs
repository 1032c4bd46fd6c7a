use dictation::audio::pick_device;

#[test]
fn the_first_device_matching_the_hint_is_opened() {
    let names = vec![
        Some("HDA Intel PCH".to_string()),
        None,
        Some("USB Mic".to_string()),
        Some("USB Headset".to_string()),
    ];
    assert_eq!(pick_device(&names, "USB"), Ok(2));
    assert_eq!(pick_device(&names, "Intel"), Ok(0));
    assert_eq!(
        pick_device(&names, "Blue"),
        Err("no input device matching `Blue`".to_string())
    );
}
