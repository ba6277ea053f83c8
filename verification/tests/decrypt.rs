use ade_extract_key::decrypt::decrypt;
use ade_extract_key::error::ExtractorError;
use ade_extract_key::exchange::Reply;
use ade_extract_key::exchange::Request;
use ade_extract_key::exchange::Step;
use ade_extract_key::machine::CpuInfo;
use ade_extract_key::machine::DriveInfo;
use ade_extract_key::registry::AdeptInformation;

const ENTROPY_HEX: &str = "4300000041757468656e746963414d4420f112626f6200000000000000000000";

const DEVICE_KEY: &str = "01000000d08c9ddf0115d1118c7a00c04fc297eb";

const LICENSE_KEY: &str =
    "UhjPiaZpbTtcnO+7Q7O2T6RSRgyTUvkK8NQDMJzv2Gu0Z00PrzuGqCXD6GBsF/VRL4BxCiJBrMcYb5FjRuvMsQ==";

fn drive() -> DriveInfo {
    DriveInfo { win_system_drive: "C:".to_string(), win_system_volume_serial: 0x4300_0000 }
}

fn cpu() -> CpuInfo {
    CpuInfo { cpu_vendor: "AuthenticAMD".to_string(), cpu_magic_number: vec![0x20, 0xf1, 0x12] }
}

fn adept() -> AdeptInformation {
    AdeptInformation {
        user: "urn:uuid:01234567-89ab-cdef-0123-456789abcdef".to_string(),
        username: ("AdobeID".to_string(), "reader@example.com".to_string()),
        key: LICENSE_KEY.to_string(),
        device_key: DEVICE_KEY.to_string(),
    }
}

fn run(print_info: bool, replies: &[Reply]) -> Step<Vec<u8>> {
    decrypt(&drive(), &cpu(), "bob", &adept(), print_info, replies)
}

fn helper_output() -> Reply {
    Reply::Output("entropy: \"43\"\ndecrypted \"aabbccddeeff00112233445566778899\"\n".to_string())
}

#[test]
fn decrypt_first_looks_for_the_helper() {
    assert_eq!(
        run(false, &[]),
        Step::Ask(Request::Probe("./ade-extract-winapi-bin.exe".to_string()))
    );
}

#[test]
fn decrypt_hands_the_helper_the_entropy_and_the_device_key() {
    assert_eq!(
        run(false, &[Reply::Present]),
        Step::Ask(Request::Run {
            program: "ade-extract-winapi-bin.exe".to_string(),
            args: vec![ENTROPY_HEX.to_string(), DEVICE_KEY.to_string()],
        })
    );
}

#[test]
fn decrypt_ends_with_the_content_key() {
    let key: Vec<u8> = (0u8..37).collect();
    assert_eq!(run(false, &[Reply::Present, helper_output()]), Step::Done(Ok(key)));
}

#[test]
fn decrypt_without_the_helper_ends_at_once() {
    assert_eq!(
        run(false, &[Reply::Missing("/tmp/work".to_string())]),
        Step::Done(Err(ExtractorError::HelperNotFound(
            "ade-extract-winapi-bin.exe",
            "/tmp/work".to_string()
        )))
    );
}

#[test]
fn decrypt_reports_a_helper_that_could_not_be_run() {
    assert_eq!(
        run(false, &[Reply::Present, Reply::Failed("Failed to spawn command".to_string())]),
        Step::Done(Err(ExtractorError::HelperExecutionFailed(
            "Failed to spawn command".to_string()
        )))
    );
}

#[test]
fn decrypt_reports_output_without_a_result_line() {
    assert_eq!(
        run(false, &[Reply::Present, Reply::Output("Decryption failed\n".to_string())]),
        Step::Done(Err(ExtractorError::UnprotectOutputUnparseable))
    );
}

#[test]
fn decrypt_refuses_an_empty_key_from_the_helper() {
    assert_eq!(
        run(false, &[Reply::Present, Reply::Output("decrypted \"\"\n".to_string())]),
        Step::Done(Err(ExtractorError::InvalidKeyLength { expected: 16, actual: 0 }))
    );
}

#[test]
fn decrypt_refuses_a_key_of_the_wrong_length_from_the_helper() {
    assert_eq!(
        run(false, &[Reply::Present, Reply::Output("decrypted \"aabbcc\"".to_string())]),
        Step::Done(Err(ExtractorError::InvalidKeyLength { expected: 16, actual: 3 }))
    );
}

#[test]
fn decrypt_reports_a_licence_key_that_is_not_base64() {
    let mut adept = adept();
    adept.key = "***".to_string();
    assert_eq!(
        decrypt(&drive(), &cpu(), "bob", &adept, false, &[Reply::Present, helper_output()]),
        Step::Done(Err(ExtractorError::InvalidBase64))
    );
}

#[test]
fn decrypt_with_the_notice_prints_it_first() {
    assert_eq!(
        run(true, &[]),
        Step::Ask(Request::Print(vec![
            format!("Entropy (hex): \"{}\"", ENTROPY_HEX),
            format!("Device-Key (hex): \"{}\"", DEVICE_KEY),
            format!("Adept-Key (base64): \"{}\"", LICENSE_KEY),
        ]))
    );
}

#[test]
fn decrypt_with_the_notice_goes_on_as_without() {
    assert_eq!(run(true, &[Reply::Printed]), run(false, &[]));
    assert_eq!(run(true, &[Reply::Printed, Reply::Present]), run(false, &[Reply::Present]));
    assert_eq!(
        run(true, &[Reply::Printed, Reply::Present, helper_output()]),
        run(false, &[Reply::Present, helper_output()])
    );
    assert_eq!(
        run(true, &[Reply::Printed, Reply::Missing("/tmp".to_string())]),
        run(false, &[Reply::Missing("/tmp".to_string())])
    );
}

#[test]
fn decrypt_with_the_notice_wants_it_printed() {
    assert!(matches!(
        run(true, &[Reply::Present]),
        Step::Done(Err(ExtractorError::AssertionFailed(_)))
    ));
}
