use ade_extract_key::codec::encode_hex;
use ade_extract_key::entropy::setup_entropy;
use ade_extract_key::machine::get_cpu_info;
use ade_extract_key::machine::CpuInfo;
use ade_extract_key::machine::DriveInfo;

fn drive(serial: u32) -> DriveInfo {
    DriveInfo { win_system_drive: "C:".to_string(), win_system_volume_serial: serial }
}

fn amd() -> CpuInfo {
    CpuInfo { cpu_vendor: "AuthenticAMD".to_string(), cpu_magic_number: vec![0x20, 0xf1, 0x12] }
}

#[test]
fn entropy_of_a_short_account_name_is_padded() {
    let entropy = setup_entropy(&drive(0x4300_0000), &amd(), "bob");
    let mut expected: Vec<u8> = vec![0x43, 0x00, 0x00, 0x00];
    expected.extend_from_slice(b"AuthenticAMD");
    expected.extend_from_slice(&[0x20, 0xf1, 0x12]);
    expected.extend_from_slice(b"bob");
    expected.extend_from_slice(&[0u8; 10]);
    assert_eq!(entropy, expected);
    assert_eq!(entropy.len(), 4 + 12 + 3 + 13);
    assert_eq!(
        encode_hex(&entropy),
        "4300000041757468656e746963414d4420f112626f6200000000000000000000"
    );
}

#[test]
fn entropy_begins_with_the_serial_number_big_endian() {
    let entropy = setup_entropy(&drive(0x0102_03fe), &amd(), "bob");
    assert_eq!(&entropy[0..4], &[0x01, 0x02, 0x03, 0xfe]);
    let entropy = setup_entropy(&drive(u32::MAX), &amd(), "bob");
    assert_eq!(&entropy[0..4], &[0xff, 0xff, 0xff, 0xff]);
    let entropy = setup_entropy(&drive(1), &amd(), "bob");
    assert_eq!(&entropy[0..4], &[0, 0, 0, 1]);
}

#[test]
fn entropy_of_a_long_account_name_is_not_cut() {
    let user = "a-very-long-account-name";
    let entropy = setup_entropy(&drive(7), &amd(), user);
    assert_eq!(entropy.len(), 4 + 12 + 3 + user.len());
    assert_eq!(&entropy[19..], user.as_bytes());
}

#[test]
fn entropy_of_an_account_name_of_thirteen_bytes_has_no_padding() {
    let user = "thirteen-char";
    assert_eq!(user.len(), 13);
    let entropy = setup_entropy(&drive(7), &amd(), user);
    assert_eq!(entropy.len(), 4 + 12 + 3 + 13);
    assert_eq!(&entropy[19..], user.as_bytes());
    let entropy = setup_entropy(&drive(7), &amd(), "twelve-chars");
    assert_eq!(entropy.len(), 4 + 12 + 3 + 13);
    assert_eq!(entropy[31], 0);
    assert_eq!(&entropy[19..31], b"twelve-chars");
}

#[test]
fn entropy_of_an_empty_account_name_is_all_padding() {
    let entropy = setup_entropy(&drive(7), &amd(), "");
    assert_eq!(entropy.len(), 4 + 12 + 3 + 13);
    assert_eq!(&entropy[19..], &[0u8; 13]);
}

#[test]
fn entropy_counts_the_bytes_of_an_account_name() {
    // six characters, twelve bytes: one zero byte follows
    let user = "\u{e9}\u{e9}\u{e9}\u{e9}\u{e9}\u{e9}";
    let entropy = setup_entropy(&drive(7), &amd(), user);
    assert_eq!(entropy.len(), 4 + 12 + 3 + 13);
    assert_eq!(&entropy[19..31], user.as_bytes());
    assert_eq!(entropy[31], 0);
}

#[test]
fn entropy_takes_the_vendor_name_as_it_is() {
    let cpu = CpuInfo { cpu_vendor: "GenuineIntel".to_string(), cpu_magic_number: vec![1, 2, 3] };
    let entropy = setup_entropy(&drive(0), &cpu, "alice");
    assert_eq!(&entropy[4..16], b"GenuineIntel");
    assert_eq!(&entropy[16..19], &[1, 2, 3]);
    let cpu = CpuInfo { cpu_vendor: String::new(), cpu_magic_number: vec![1, 2, 3] };
    let entropy = setup_entropy(&drive(0), &cpu, "alice");
    assert_eq!(entropy.len(), 4 + 3 + 13);
    assert_eq!(&entropy[4..7], &[1, 2, 3]);
}

#[test]
fn cpu_info_drops_the_highest_byte_of_the_register() {
    let info = get_cpu_info("AuthenticAMD".to_string(), 0x00a2_0f12);
    assert_eq!(info.cpu_vendor, "AuthenticAMD");
    assert_eq!(info.cpu_magic_number, vec![0xa2, 0x0f, 0x12]);
    let info = get_cpu_info("GenuineIntel".to_string(), 0xfe01_0203);
    assert_eq!(info.cpu_magic_number, vec![0x01, 0x02, 0x03]);
}
