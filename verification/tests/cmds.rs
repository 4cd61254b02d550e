use talpid_core::cmds::account::{
    account_else_current, device_lines, find_device, format_duration, labelled, logged_in_report,
    normalize_voucher, sort_devices, Account, AccountError, Device, DeviceState, MAX_SECONDS,
    NOT_LOGGED_IN_MESSAGE, REVOKED_MESSAGE,
};
use talpid_core::cmds::{
    classify_answer, confirmation_hint, parse_confirmation, strip_whitespace, BooleanOption,
};

fn device(name: &str, id: &str, created: i64) -> Device {
    Device { id: id.to_string(), name: name.to_string(), pubkey: "a2V5".to_string(), created }
}

#[test]
fn switches_are_named_by_their_labels() {
    let on = BooleanOption::from(true);
    assert!(on.state());
    assert_eq!(on.label(), "on");
    assert_eq!(BooleanOption::from(false).label(), "off");
    let custom = BooleanOption::with_labels(false, "allow", "block");
    assert!(!custom.state());
    assert_eq!(custom.label(), "block");
    assert_eq!(BooleanOption::with_labels(true, "allow", "block").label(), "allow");
}

#[test]
fn switches_are_parsed_from_their_labels() {
    assert!(BooleanOption::parse("on", "on", "off").unwrap().state());
    assert!(!BooleanOption::parse("off", "on", "off").unwrap().state());
    assert!(BooleanOption::parse("On", "on", "off").is_none());
    assert!(BooleanOption::parse("", "on", "off").is_none());
    assert_eq!(BooleanOption::parse("block", "allow", "block").unwrap().label(), "block");
}

#[test]
fn answers_to_questions_of_yes_or_no() {
    assert_eq!(confirmation_hint(true), "[Y/n]");
    assert_eq!(confirmation_hint(false), "[y/N]");
    for yes in ["y", "ye", "yes", "Y", "YES", "  yes\n", "\tYe "] {
        assert_eq!(parse_confirmation(yes, false), Some(true), "{:?}", yes);
    }
    for no in ["n", "no", "N", "No\n"] {
        assert_eq!(parse_confirmation(no, true), Some(false), "{:?}", no);
    }
    assert_eq!(parse_confirmation("\n", true), Some(true));
    assert_eq!(parse_confirmation("", false), Some(false));
    assert_eq!(parse_confirmation("  \t ", false), Some(false));
    for unclear in ["yess", "nope", "maybe", "y e s", "1"] {
        assert_eq!(parse_confirmation(unclear, true), None, "{:?}", unclear);
    }
    assert_eq!(classify_answer("YES", true), None);
    assert_eq!(classify_answer(" yes", true), None);
    assert_eq!(classify_answer("yes", false), Some(true));
}

#[test]
fn entered_lines_lose_their_white_space() {
    assert_eq!(strip_whitespace("1234 5678\t9012\n"), "123456789012");
    assert_eq!(strip_whitespace("  \n"), "");
    assert_eq!(strip_whitespace("abc"), "abc");
}

#[test]
fn durations_are_shown_in_their_largest_unit() {
    assert_eq!(format_duration(0), "0 seconds");
    assert_eq!(format_duration(59), "59 seconds");
    assert_eq!(format_duration(60), "1 minutes");
    assert_eq!(format_duration(3599), "59 minutes");
    assert_eq!(format_duration(3600), "1 hours");
    assert_eq!(format_duration(86399), "23 hours");
    assert_eq!(format_duration(86400), "1 days");
    assert_eq!(format_duration(30 * 86400 + 5), "30 days");
    assert_eq!(format_duration(MAX_SECONDS), "106751991167 days");
}

#[test]
fn voucher_codes_keep_letters_and_digits() {
    assert_eq!(normalize_voucher("ABCD-1234 efgh_5678\n"), "ABCD1234efgh5678");
    assert_eq!(normalize_voucher("----"), "");
    assert_eq!(normalize_voucher("åß9"), "åß9");
}

#[test]
fn the_account_is_the_named_one_or_the_current_one() {
    let logged_in = || DeviceState::LoggedIn {
        account_number: "1234123412341234".to_string(),
        device: device("happy seagull", "id-1", 0),
    };
    assert_eq!(account_else_current(Some("42".to_string()), logged_in()), Ok("42".to_string()));
    assert_eq!(account_else_current(Some("42".to_string()), DeviceState::Revoked), Ok("42".to_string()));
    assert_eq!(account_else_current(None, logged_in()), Ok("1234123412341234".to_string()));
    assert_eq!(account_else_current(None, DeviceState::LoggedOut), Err(AccountError::NotLoggedIn));
    assert_eq!(account_else_current(None, DeviceState::Revoked), Err(AccountError::NotLoggedIn));
}

#[test]
fn devices_are_found_by_name_or_identifier() {
    let devices = vec![
        device("happy seagull", "aaaa-1", 3),
        device("Tidy Otter", "bbbb-2", 1),
        device("aaaa-1", "cccc-3", 2),
    ];
    assert_eq!(find_device(&devices, "HAPPY SEAGULL"), Ok(0));
    assert_eq!(find_device(&devices, "tidy otter"), Ok(1));
    assert_eq!(find_device(&devices, "BBBB-2"), Ok(1));
    assert_eq!(find_device(&devices, "AAAA-1"), Ok(0));
    assert_eq!(find_device(&devices, "cccc-3"), Ok(2));
    assert_eq!(find_device(&devices, "tidy"), Err(AccountError::DeviceNotFound));
    assert_eq!(find_device(&Vec::new(), "x"), Err(AccountError::DeviceNotFound));
}

#[test]
fn devices_are_listed_oldest_first() {
    let mut devices = vec![device("c", "3", 30), device("a", "1", -10), device("b", "2", 20)];
    sort_devices(&mut devices);
    assert_eq!(devices, vec![device("a", "1", -10), device("b", "2", 20), device("c", "3", 30)]);
    assert_eq!(device_lines(&devices[0], "then", false), vec!["a".to_string()]);
    assert_eq!(
        device_lines(&devices[0], "then", true),
        vec![
            "".to_string(),
            "Name      : a".to_string(),
            "Id        : 1".to_string(),
            "Public key: a2V5".to_string(),
            "Created   : then".to_string(),
        ]
    );
}

#[test]
fn labels_stand_in_a_column() {
    assert_eq!(labelled("Expires at:", "soon"), "Expires at:         soon");
    assert_eq!(labelled("", "x"), "                    x");
    assert_eq!(labelled("12345678901234567890", "x"), "12345678901234567890x");
    assert_eq!(labelled("a label wider than the column", "x"), "a label wider than the columnx");
}

#[test]
fn what_is_shown_of_an_account() {
    let seagull = device("Happy Seagull", "id-1", 0);
    assert_eq!(
        logged_in_report("1234", "tomorrow", "acc-1", &seagull, "yesterday", false),
        vec![
            "Mullvad account:    1234".to_string(),
            "Expires at:         tomorrow".to_string(),
            "Device name:        Happy Seagull".to_string(),
        ]
    );
    assert_eq!(
        logged_in_report("1234", "tomorrow", "acc-1", &seagull, "yesterday", true),
        vec![
            "Mullvad account:    1234".to_string(),
            "Expires at:         tomorrow".to_string(),
            "Account id:         acc-1".to_string(),
            "Device name:        Happy Seagull".to_string(),
            "Device id:          id-1".to_string(),
            "Device pubkey:      a2V5".to_string(),
            "Device created:     yesterday".to_string(),
        ]
    );
    assert_eq!(NOT_LOGGED_IN_MESSAGE, "Not logged in on any account");
    assert_eq!(REVOKED_MESSAGE, "The current device has been revoked");
    assert_eq!(Account::Get { verbose: true }, Account::Get { verbose: true });
}
