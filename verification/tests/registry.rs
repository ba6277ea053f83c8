use ade_extract_key::error::ExtractorError;
use ade_extract_key::exchange::Reply;
use ade_extract_key::exchange::Request;
use ade_extract_key::exchange::Step;
use ade_extract_key::registry::adept_information_next;
use ade_extract_key::registry::adept_information_parse_key;
use ade_extract_key::registry::adept_information_parse_user;
use ade_extract_key::registry::adept_information_parse_username;
use ade_extract_key::registry::collect_subentry;
use ade_extract_key::registry::found_groups;
use ade_extract_key::registry::get_adept_information;
use ade_extract_key::registry::get_adept_information_subentries;
use ade_extract_key::registry::read_subentry;
use ade_extract_key::registry::AdeptInformation;
use ade_extract_key::registry::AdeptInformationSubEntry;
use ade_extract_key::registry::SubEntryRead;

const DEVICE_KEY_PATH: &str = "HKEY_CURRENT_USER\\Software\\Adobe\\Adept\\Device";

const ACTIVATION_KEY_PATH: &str = "HKEY_CURRENT_USER\\Software\\Adobe\\Adept\\Activation";

const DEVICE: &str = "HKEY_CURRENT_USER\\Software\\Adobe\\Adept\\Device\r\n    key    REG_BINARY    01000000D08C9DDF0115D1118C7A00C04FC297EB\r\n\r\n";

const USER: &str = "HKEY_CURRENT_USER\\Software\\Adobe\\Adept\\Activation\\0000\\0000\r\n    (Default)    REG_SZ    user\r\n    value    REG_SZ    urn:uuid:01234567-89ab-cdef-0123-456789abcdef\r\n\r\n";

const USERNAME: &str = "HKEY_CURRENT_USER\\Software\\Adobe\\Adept\\Activation\\0000\\0001\r\n    (Default)    REG_SZ    username\r\n    method    REG_SZ    AdobeID\r\n    value    REG_SZ    reader@example.com\r\n\r\n";

const OTHER: &str = "HKEY_CURRENT_USER\\Software\\Adobe\\Adept\\Activation\\0000\\0002\r\n    (Default)    REG_SZ    pkcs12\r\n    value    REG_SZ    AAAA\r\n\r\n";

const KEY: &str = "HKEY_CURRENT_USER\\Software\\Adobe\\Adept\\Activation\\0000\\0003\r\n    (Default)    REG_SZ    privateLicenseKey\r\n    value    REG_SZ    UhjPiaZpbTtcnO+7Q7O2Tw==\r\n\r\n";

const CREDENTIALS: &str = "HKEY_CURRENT_USER\\Software\\Adobe\\Adept\\Activation\\0000\r\n    (Default)    REG_SZ    credentials\r\n\r\n";

fn listing(parts: &[&str]) -> String {
    parts.join("")
}

fn output(text: &str) -> Reply {
    Reply::Output(text.to_string())
}

fn run(args: &[&str]) -> Request {
    Request::Run { program: "reg".to_string(), args: args.iter().map(|a| a.to_string()).collect() }
}

fn sub_entry() -> AdeptInformationSubEntry {
    AdeptInformationSubEntry {
        user: "urn:uuid:01234567-89ab-cdef-0123-456789abcdef".to_string(),
        username: ("AdobeID".to_string(), "reader@example.com".to_string()),
        key: "UhjPiaZpbTtcnO+7Q7O2Tw==".to_string(),
    }
}

#[test]
fn parse_user_reads_the_value_entry() {
    assert_eq!(
        adept_information_parse_user("    value    REG_SZ    urn:uuid:0123"),
        Ok(Some("urn:uuid:0123".to_string()))
    );
    assert_eq!(adept_information_parse_user("    method    REG_SZ    AdobeID"), Ok(None));
    assert_eq!(adept_information_parse_user("value    REG_SZ    urn:uuid:0123"), Ok(None));
}

#[test]
fn parse_key_reads_the_value_entry() {
    assert_eq!(
        adept_information_parse_key("    value    REG_SZ    UhjPiaZpbTtcnO+7Q7O2Tw=="),
        Ok(Some("UhjPiaZpbTtcnO+7Q7O2Tw==".to_string()))
    );
    assert_eq!(adept_information_parse_key(""), Ok(None));
}

#[test]
fn parse_username_reads_the_method_and_the_value() {
    assert_eq!(
        adept_information_parse_username(
            "    method    REG_SZ    AdobeID\r\n    value    REG_SZ    reader@example.com"
        ),
        Ok(Some(("AdobeID".to_string(), "reader@example.com".to_string())))
    );
    assert_eq!(
        adept_information_parse_username("    value    REG_SZ    reader@example.com"),
        Ok(None)
    );
}

#[test]
fn found_groups_wants_both_groups() {
    let both = Some(vec![Some("ab".to_string()), Some("a".to_string()), Some("b".to_string())]);
    assert_eq!(found_groups(&both), Some(("a".to_string(), "b".to_string())));
    let one = Some(vec![Some("a".to_string()), Some("a".to_string()), None]);
    assert_eq!(found_groups(&one), None);
    assert_eq!(found_groups(&None), None);
}

#[test]
fn subentries_are_read_from_the_listing() {
    let text = listing(&[CREDENTIALS, USER, USERNAME, OTHER, KEY]);
    assert_eq!(get_adept_information_subentries(&text), Ok(sub_entry()));
    let text = listing(&[KEY, OTHER, USERNAME, USER]);
    assert_eq!(get_adept_information_subentries(&text), Ok(sub_entry()));
}

#[test]
fn subentries_report_the_first_that_is_missing() {
    let text = listing(&[CREDENTIALS, USERNAME, OTHER, KEY]);
    assert_eq!(
        get_adept_information_subentries(&text),
        Err(ExtractorError::RegistryKeyNotFound("Adept", "user"))
    );
    let text = listing(&[CREDENTIALS, USER, OTHER, KEY]);
    assert_eq!(
        get_adept_information_subentries(&text),
        Err(ExtractorError::RegistryKeyNotFound("Adept", "username"))
    );
    let text = listing(&[CREDENTIALS, USER, USERNAME, OTHER]);
    assert_eq!(
        get_adept_information_subentries(&text),
        Err(ExtractorError::RegistryKeyNotFound("Adept", "privateLicenseKey"))
    );
    assert_eq!(
        get_adept_information_subentries(""),
        Err(ExtractorError::RegistryKeyNotFound("Adept", "user"))
    );
    let text = listing(&[OTHER]);
    assert_eq!(
        get_adept_information_subentries(&text),
        Err(ExtractorError::RegistryKeyNotFound("Adept", "user"))
    );
}

#[test]
fn subentries_take_the_last_key_of_a_name() {
    let later = "HKEY_CURRENT_USER\\Software\\Adobe\\Adept\\Activation\\0000\\0004\r\n    (Default)    REG_SZ    user\r\n    value    REG_SZ    urn:uuid:later\r\n\r\n";
    let text = listing(&[USER, USERNAME, KEY, later]);
    let mut expected = sub_entry();
    expected.user = "urn:uuid:later".to_string();
    assert_eq!(get_adept_information_subentries(&text), Ok(expected));
    // a later key without a value takes the earlier value away
    let empty = "HKEY_CURRENT_USER\\Software\\Adobe\\Adept\\Activation\\0000\\0004\r\n    (Default)    REG_SZ    user\r\n    method    REG_SZ    none\r\n\r\n";
    let text = listing(&[USER, USERNAME, KEY, empty]);
    assert_eq!(
        get_adept_information_subentries(&text),
        Err(ExtractorError::RegistryKeyNotFound("Adept", "user"))
    );
}

#[test]
fn subentries_pass_over_names_in_another_spelling() {
    let shouted = "HKEY_CURRENT_USER\\Software\\Adobe\\Adept\\Activation\\0000\\0000\r\n    (Default)    REG_SZ    USER\r\n    value    REG_SZ    urn:uuid:shouted\r\n\r\n";
    let text = listing(&[shouted, USERNAME, KEY]);
    assert_eq!(
        get_adept_information_subentries(&text),
        Err(ExtractorError::RegistryKeyNotFound("Adept", "user"))
    );
    let text = listing(&[USER, shouted, USERNAME, KEY]);
    assert_eq!(get_adept_information_subentries(&text), Ok(sub_entry()));
}

#[test]
fn adept_information_asks_for_the_device_key_first() {
    assert_eq!(
        get_adept_information(&[]),
        Step::Ask(run(&["query", DEVICE_KEY_PATH, "/v", "key"]))
    );
}

#[test]
fn adept_information_lists_the_activations_next() {
    assert_eq!(
        get_adept_information(&[output(DEVICE)]),
        Step::Ask(run(&["query", ACTIVATION_KEY_PATH, "/s"]))
    );
}

#[test]
fn adept_information_lists_the_key_of_the_credentials_last() {
    let activations = listing(&[CREDENTIALS, USER, USERNAME, OTHER, KEY]);
    assert_eq!(
        get_adept_information(&[output(DEVICE), output(&activations)]),
        Step::Ask(run(&[
            "query",
            "HKEY_CURRENT_USER\\Software\\Adobe\\Adept\\Activation\\0000",
            "/s"
        ]))
    );
}

#[test]
fn adept_information_ends_with_all_four_texts() {
    let activations = listing(&[CREDENTIALS, USER, USERNAME, OTHER, KEY]);
    let replies = [output(DEVICE), output(&activations), output(&activations)];
    assert_eq!(
        get_adept_information(&replies),
        Step::Done(Ok(AdeptInformation {
            user: "urn:uuid:01234567-89ab-cdef-0123-456789abcdef".to_string(),
            username: ("AdobeID".to_string(), "reader@example.com".to_string()),
            key: "UhjPiaZpbTtcnO+7Q7O2Tw==".to_string(),
            device_key: "01000000D08C9DDF0115D1118C7A00C04FC297EB".to_string(),
        }))
    );
}

#[test]
fn adept_information_reports_what_it_cannot_find() {
    assert_eq!(
        get_adept_information(&[output("ERROR: unable to find the specified registry key")]),
        Step::Done(Err(ExtractorError::NoCaptures("adept device key")))
    );
    assert_eq!(
        get_adept_information(&[output(DEVICE), output(USER)]),
        Step::Done(Err(ExtractorError::NoCaptures("adept sub-entry list")))
    );
    let activations = listing(&[CREDENTIALS, USER, OTHER, KEY]);
    assert_eq!(
        get_adept_information(&[output(DEVICE), output(&activations), output(&activations)]),
        Step::Done(Err(ExtractorError::RegistryKeyNotFound("Adept", "username")))
    );
}

#[test]
fn adept_information_reports_a_program_that_could_not_be_run() {
    let failed = Reply::Failed("Failed to spawn command".to_string());
    let error = ExtractorError::HelperExecutionFailed("Failed to spawn command".to_string());
    assert_eq!(get_adept_information(&[failed]), Step::Done(Err(error)));
    let failed = Reply::Failed("Failed to spawn command".to_string());
    let error = ExtractorError::HelperExecutionFailed("Failed to spawn command".to_string());
    assert_eq!(get_adept_information(&[output(DEVICE), failed]), Step::Done(Err(error)));
    let failed = Reply::Failed("Failed to spawn command".to_string());
    let error = ExtractorError::HelperExecutionFailed("Failed to spawn command".to_string());
    assert_eq!(
        get_adept_information(&[output(DEVICE), output(CREDENTIALS), failed]),
        Step::Done(Err(error))
    );
}

#[test]
fn adept_information_refuses_replies_out_of_place() {
    assert!(matches!(
        get_adept_information(&[Reply::Present]),
        Step::Done(Err(ExtractorError::AssertionFailed(_)))
    ));
    assert!(matches!(
        get_adept_information(&[output(DEVICE), output(CREDENTIALS), Reply::Printed]),
        Step::Done(Err(ExtractorError::AssertionFailed(_)))
    ));
}

fn user(text: &str) -> SubEntryRead {
    SubEntryRead::User(Some(text.to_string()))
}

fn username(method: &str, id: &str) -> SubEntryRead {
    SubEntryRead::Username(Some((method.to_string(), id.to_string())))
}

fn key(text: &str) -> SubEntryRead {
    SubEntryRead::Key(Some(text.to_string()))
}

#[test]
fn collect_subentry_wants_all_three() {
    let reads = [SubEntryRead::Other, key("k"), username("m", "i"), user("u")];
    assert_eq!(
        collect_subentry(&reads),
        Ok(AdeptInformationSubEntry {
            user: "u".to_string(),
            username: ("m".to_string(), "i".to_string()),
            key: "k".to_string(),
        })
    );
    assert_eq!(
        collect_subentry(&[]),
        Err(ExtractorError::RegistryKeyNotFound("Adept", "user"))
    );
    assert_eq!(
        collect_subentry(&[key("k"), username("m", "i")]),
        Err(ExtractorError::RegistryKeyNotFound("Adept", "user"))
    );
    assert_eq!(
        collect_subentry(&[key("k"), user("u")]),
        Err(ExtractorError::RegistryKeyNotFound("Adept", "username"))
    );
    assert_eq!(
        collect_subentry(&[user("u"), username("m", "i")]),
        Err(ExtractorError::RegistryKeyNotFound("Adept", "privateLicenseKey"))
    );
    assert_eq!(
        collect_subentry(&[user("u")]),
        Err(ExtractorError::RegistryKeyNotFound("Adept", "username"))
    );
}

#[test]
fn collect_subentry_lets_the_later_key_win() {
    let reads = [user("first"), key("k"), username("m", "i"), user("second"), key("l")];
    assert_eq!(
        collect_subentry(&reads),
        Ok(AdeptInformationSubEntry {
            user: "second".to_string(),
            username: ("m".to_string(), "i".to_string()),
            key: "l".to_string(),
        })
    );
    let reads = [user("first"), key("k"), username("m", "i"), SubEntryRead::Key(None)];
    assert_eq!(
        collect_subentry(&reads),
        Err(ExtractorError::RegistryKeyNotFound("Adept", "privateLicenseKey"))
    );
    let reads = [username("m", "i"), SubEntryRead::Username(None), user("u"), key("k")];
    assert_eq!(
        collect_subentry(&reads),
        Err(ExtractorError::RegistryKeyNotFound("Adept", "username"))
    );
}

#[test]
fn read_subentry_goes_by_the_name_of_the_key() {
    let entry = |name: &str, val: &str| {
        vec![Some("all of it".to_string()), Some(name.to_string()), Some(val.to_string())]
    };
    assert_eq!(read_subentry(&entry("user", "    value    REG_SZ    u")), Ok(user("u")));
    assert_eq!(
        read_subentry(&entry("privateLicenseKey", "    value    REG_SZ    k")),
        Ok(key("k"))
    );
    assert_eq!(
        read_subentry(&entry(
            "username",
            "    method    REG_SZ    m\r\n    value    REG_SZ    i"
        )),
        Ok(username("m", "i"))
    );
    assert_eq!(read_subentry(&entry("user", "nothing")), Ok(SubEntryRead::User(None)));
    assert_eq!(read_subentry(&entry("username", "nothing")), Ok(SubEntryRead::Username(None)));
    assert_eq!(read_subentry(&entry("USER", "    value    REG_SZ    u")), Ok(SubEntryRead::Other));
    assert_eq!(read_subentry(&entry("pkcs12", "    value    REG_SZ    u")), Ok(SubEntryRead::Other));
    assert_eq!(read_subentry(&vec![Some("x".to_string())]), Ok(SubEntryRead::Other));
    assert_eq!(
        read_subentry(&vec![Some("x".to_string()), Some("user".to_string()), None]),
        Ok(SubEntryRead::Other)
    );
}

#[test]
fn adept_information_next_goes_by_what_was_found() {
    let found = |text: &str| Some(vec![Some(format!("x {}", text)), Some(text.to_string())]);
    let replies = [output("one"), output("two"), output("three")];
    assert_eq!(
        adept_information_next(&replies, &found("beef"), &found("0007"), Ok(sub_entry())),
        Step::Done(Ok(AdeptInformation {
            user: "urn:uuid:01234567-89ab-cdef-0123-456789abcdef".to_string(),
            username: ("AdobeID".to_string(), "reader@example.com".to_string()),
            key: "UhjPiaZpbTtcnO+7Q7O2Tw==".to_string(),
            device_key: "beef".to_string(),
        }))
    );
    assert_eq!(
        adept_information_next(&replies[..2], &found("beef"), &found("0007"), Ok(sub_entry())),
        Step::Ask(run(&[
            "query",
            "HKEY_CURRENT_USER\\Software\\Adobe\\Adept\\Activation\\0007",
            "/s"
        ]))
    );
    assert_eq!(
        adept_information_next(&replies, &None, &found("0007"), Ok(sub_entry())),
        Step::Done(Err(ExtractorError::NoCaptures("adept device key")))
    );
    assert_eq!(
        adept_information_next(&replies, &found("beef"), &None, Ok(sub_entry())),
        Step::Done(Err(ExtractorError::NoCaptures("adept sub-entry list")))
    );
    assert_eq!(
        adept_information_next(
            &replies,
            &found("beef"),
            &found("0007"),
            Err(ExtractorError::RegistryKeyNotFound("Adept", "username"))
        ),
        Step::Done(Err(ExtractorError::RegistryKeyNotFound("Adept", "username")))
    );
}
