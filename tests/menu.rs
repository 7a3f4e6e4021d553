use btmenu::{
    action_lines, check_probe, list_arguments, menu_entry, menu_lines, parse_action, parse_number,
    plan_request, probe_arguments, read_number, request_for, select_device, selected_line,
    sort_devices, Action, Failure, InputError, Operation, PairedDevice, ProbeResult,
    EXIT_BAD_DATA, EXIT_BAD_INPUT, EXIT_TOOL_MISSING, TOOL_NAME,
};

fn device(address: &str, name: &str, connected: bool) -> PairedDevice {
    PairedDevice {
        address: address.to_string(),
        recent_access_date: None,
        favourite: false,
        name: name.to_string(),
        connected,
        paired: true,
    }
}

fn names(devices: &[PairedDevice]) -> Vec<String> {
    devices.iter().map(|d| d.name.clone()).collect()
}

#[test]
fn sort_puts_connected_first_and_keeps_order() {
    let input = vec![
        device("1", "A", false),
        device("2", "B", true),
        device("3", "C", false),
        device("4", "D", true),
    ];
    let sorted = sort_devices(input);
    assert_eq!(names(&sorted), vec!["B", "D", "A", "C"]);
    let flags: Vec<bool> = sorted.iter().map(|d| d.connected).collect();
    assert_eq!(flags, vec![true, true, false, false]);
}

#[test]
fn sort_of_empty_and_uniform_lists() {
    assert!(sort_devices(Vec::new()).is_empty());
    let all_off = vec![device("1", "A", false), device("2", "B", false)];
    assert_eq!(names(&sort_devices(all_off)), vec!["A", "B"]);
    let all_on = vec![device("1", "A", true), device("2", "B", true), device("3", "C", true)];
    assert_eq!(names(&sort_devices(all_on)), vec!["A", "B", "C"]);
}

#[test]
fn menu_numbers_entries_from_one_and_marks_connected() {
    let devices = sort_devices(vec![
        device("1", "Keyboard", false),
        device("2", "Headset", true),
        device("3", "Mouse", false),
    ]);
    let lines = menu_lines(&devices);
    assert_eq!(
        lines,
        vec![
            "Bluetooth Devices".to_string(),
            "1) x \"Headset\"".to_string(),
            "2)   \"Keyboard\"".to_string(),
            "3)   \"Mouse\"".to_string(),
        ]
    );
}

#[test]
fn menu_of_no_devices_is_the_header_alone() {
    assert_eq!(menu_lines(&Vec::new()), vec!["Bluetooth Devices".to_string()]);
}

#[test]
fn menu_quotes_and_escapes_names() {
    let lines = menu_lines(&vec![device("1", "Bob's \"Pods\"", true)]);
    assert_eq!(lines[1], "1) x \"Bob's \\\"Pods\\\"\"");
}

#[test]
fn menu_entry_writes_multi_digit_ordinals() {
    assert_eq!(menu_entry(12, false, "\"X\""), "12)   \"X\"");
    assert_eq!(menu_entry(107, true, "\"Y\""), "107) x \"Y\"");
}

#[test]
fn selected_and_action_lines() {
    assert_eq!(selected_line(&device("1", "Foo", true)), "Selected Device: \"Foo\"");
    assert_eq!(action_lines(true), vec!["1) Disconnect", "0) Forget This Device"]);
    assert_eq!(action_lines(false), vec!["1) Connect", "0) Forget This Device"]);
}

#[test]
fn numbers_are_read_after_trimming() {
    assert_eq!(read_number("3\n"), Ok(3));
    assert_eq!(read_number("  +42 \t\r\n"), Ok(42));
    assert_eq!(read_number("007"), Ok(7));
    assert_eq!(read_number("0"), Ok(0));
}

#[test]
fn number_errors() {
    assert_eq!(read_number("\n"), Err(InputError::Empty));
    assert_eq!(read_number(""), Err(InputError::Empty));
    assert_eq!(read_number("abc"), Err(InputError::NotANumber));
    assert_eq!(read_number("-1"), Err(InputError::NotANumber));
    assert_eq!(read_number("+"), Err(InputError::NotANumber));
    assert_eq!(read_number("1 2"), Err(InputError::NotANumber));
    assert_eq!(parse_number(" 5"), Err(InputError::NotANumber));
    assert_eq!(
        read_number("99999999999999999999999999"),
        Err(InputError::TooLarge)
    );
    assert_eq!(parse_number("18446744073709551615"), Ok(usize::MAX));
}

#[test]
fn selection_is_bounded() {
    let make = || vec![device("1", "A", true), device("2", "B", false)];
    assert!(matches!(
        select_device(make(), 0),
        Err(InputError::OutOfRange { choice: 0, count: 2 })
    ));
    assert!(matches!(
        select_device(make(), 3),
        Err(InputError::OutOfRange { choice: 3, count: 2 })
    ));
    assert_eq!(select_device(make(), 1).unwrap().name, "A");
    assert_eq!(select_device(make(), 2).unwrap().name, "B");
    assert!(matches!(
        select_device(Vec::new(), 1),
        Err(InputError::OutOfRange { choice: 1, count: 0 })
    ));
}

#[test]
fn action_codes_map_to_requests() {
    let on = device("AA:BB", "Foo", true);
    let off = device("CC:DD", "Bar", false);

    let r = request_for(&on, 1).unwrap();
    assert_eq!(r.operation, Operation::Disconnect);
    assert_eq!(r.address, "AA:BB");
    assert_eq!(r.arguments(), vec!["--disconnect", "AA:BB"]);

    let r = request_for(&off, 1).unwrap();
    assert_eq!(r.operation, Operation::Connect);
    assert_eq!(r.arguments(), vec!["--connect", "CC:DD"]);

    let r = request_for(&on, 0).unwrap();
    assert_eq!(r.operation, Operation::Unpair);
    assert_eq!(r.arguments(), vec!["--unpair", "AA:BB"]);
    let r = request_for(&off, 0).unwrap();
    assert_eq!(r.operation, Operation::Unpair);

    assert!(matches!(
        request_for(&on, 2),
        Err(InputError::InvalidAction { code: 2 })
    ));
    assert!(matches!(
        request_for(&off, 7),
        Err(InputError::InvalidAction { code: 7 })
    ));
}

#[test]
fn parse_and_plan_separately() {
    assert_eq!(parse_action(1), Ok(Action::Toggle));
    assert_eq!(parse_action(0), Ok(Action::Forget));
    assert_eq!(parse_action(9), Err(InputError::InvalidAction { code: 9 }));
    let r = plan_request(&device("EE", "Z", false), Action::Forget);
    assert_eq!(r.operation, Operation::Unpair);
    assert_eq!(r.address, "EE");
}

#[test]
fn reports_after_a_change() {
    assert_eq!(Operation::Connect.report(true), "Successfully connected.");
    assert_eq!(Operation::Disconnect.report(true), "Successfully disconnected.");
    assert_eq!(Operation::Unpair.report(true), "Successfully unpaired");
    assert!(Operation::Unpair.report(false).starts_with("Warning"));
    assert_eq!(Operation::Disconnect.flag(), "--disconnect");
}

#[test]
fn invocation_arguments() {
    assert_eq!(TOOL_NAME, "blueutil");
    assert_eq!(probe_arguments(), vec!["--version"]);
    assert_eq!(list_arguments(), vec!["--paired", "--format", "json"]);
}

#[test]
fn missing_tool_stops_with_nonzero_status() {
    let f = check_probe(ProbeResult::NotStarted).unwrap_err();
    assert!(matches!(f, Failure::ToolMissing));
    assert_eq!(f.exit_code(), EXIT_TOOL_MISSING);
    assert_ne!(f.exit_code(), 0);
}

#[test]
fn failed_probe_relays_status_and_text() {
    let ok = ProbeResult::Finished { success: true, code: Some(0), stderr: String::new() };
    assert!(check_probe(ok).is_ok());

    let failed = ProbeResult::Finished {
        success: false,
        code: Some(3),
        stderr: "no adapter".to_string(),
    };
    let f = check_probe(failed).unwrap_err();
    assert_eq!(f.exit_code(), 3);
    assert_eq!(f.message(), "no adapter");

    let killed = ProbeResult::Finished { success: false, code: None, stderr: String::new() };
    assert_eq!(check_probe(killed).unwrap_err().exit_code(), 1);
}

#[test]
fn failure_messages_and_codes() {
    let f = Failure::Undecodable { detail: "expected value".to_string() };
    assert_eq!(f.exit_code(), EXIT_BAD_DATA);
    assert_eq!(
        f.message(),
        "blueutil returned device data that cannot be read: expected value"
    );
    let f = Failure::Input(InputError::OutOfRange { choice: 4, count: 2 });
    assert_eq!(f.exit_code(), EXIT_BAD_INPUT);
    assert_eq!(f.message(), "there is no device with that number");
    assert_eq!(InputError::Empty.message(), "no number was typed");
    assert_eq!(InputError::InvalidAction { code: 5 }.message(), "there is no action with that number");
}
