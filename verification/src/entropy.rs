//! The entropy buffer: the facts about the machine, laid out as the bytes that
//! the unprotect step is keyed with.

use crate::machine::CpuInfo;
use crate::machine::CpuInfoView;
use crate::machine::DriveInfo;
use crate::machine::DriveInfoView;
use vstd::prelude::*;
use vstd::utf8::encode_utf8;

verus! {

/// An account name shorter than this is filled up with zero bytes; a longer
/// one is kept whole.
pub const USER_FIELD_LEN: usize = 13;

/// The four bytes of `value`, most significant first.
pub open spec fn big_endian(value: u32) -> Seq<u8> {
    seq![
        (value / 0x100_0000) as u8,
        (value / 0x1_0000 % 0x100) as u8,
        (value / 0x100 % 0x100) as u8,
        (value % 0x100) as u8,
    ]
}

/// The zero bytes that follow an account name of `user_len` bytes.
pub open spec fn user_padding(user_len: nat) -> Seq<u8> {
    Seq::new(
        if user_len < USER_FIELD_LEN {
            (USER_FIELD_LEN - user_len) as nat
        } else {
            0
        },
        |i: int| 0u8,
    )
}

/// The layout of the buffer, with nothing between the fields: the volume
/// serial number as four bytes, most significant first; the bytes of the CPU
/// vendor's name; the CPU identification bytes; the bytes of the account name;
/// and zero bytes up to 13 where the account name is shorter than that.
pub open spec fn entropy_layout(serial: u32, vendor: Seq<u8>, magic: Seq<u8>, user: Seq<u8>) -> Seq<
    u8,
> {
    big_endian(serial) + vendor + magic + user + user_padding(user.len())
}

/// The buffer for one machine and account.
pub open spec fn entropy_of(
    drive_info: DriveInfoView,
    cpu_info: CpuInfoView,
    user: Seq<char>,
) -> Seq<u8> {
    entropy_layout(
        drive_info.win_system_volume_serial,
        encode_utf8(cpu_info.cpu_vendor),
        cpu_info.cpu_magic_number,
        encode_utf8(user),
    )
}

/// With three identification bytes the buffer has `4 + vendor + 3 + max(user,
/// 13)` bytes, and it begins with the serial number, most significant byte
/// first.
pub proof fn lemma_entropy_length(serial: u32, vendor: Seq<u8>, magic: Seq<u8>, user: Seq<u8>)
    requires
        magic.len() == 3,
    ensures
        entropy_layout(serial, vendor, magic, user).len() == 4 + vendor.len() + 3 + if user.len()
            < 13 {
            13
        } else {
            user.len()
        },
        entropy_layout(serial, vendor, magic, user).subrange(0, 4) == big_endian(serial),
{
    assert(entropy_layout(serial, vendor, magic, user).subrange(0, 4) =~= big_endian(serial));
}

/// Where each field lies in the buffer.
pub proof fn lemma_entropy_fields(serial: u32, vendor: Seq<u8>, magic: Seq<u8>, user: Seq<u8>)
    ensures
        ({
            let buffer = entropy_layout(serial, vendor, magic, user);
            let v: int = 4 + vendor.len() as int;
            let m: int = v + magic.len();
            let u: int = m + user.len();
            &&& buffer.len() >= u
            &&& buffer.subrange(0, 4) == big_endian(serial)
            &&& buffer.subrange(4, v) == vendor
            &&& buffer.subrange(v, m) == magic
            &&& buffer.subrange(m, u) == user
            &&& buffer.len() - m >= 13
            &&& forall|i: int| u <= i < buffer.len() ==> buffer[i] == 0
            &&& user.len() >= 13 ==> buffer.len() == u
            &&& user.len() < 13 ==> buffer.len() == m + 13
        }),
{
    let buffer = entropy_layout(serial, vendor, magic, user);
    let v: int = 4 + vendor.len() as int;
    let m: int = v + magic.len();
    let u: int = m + user.len();
    assert(buffer.subrange(0, 4) =~= big_endian(serial));
    assert(buffer.subrange(4, v) =~= vendor);
    assert(buffer.subrange(v, m) =~= magic);
    assert(buffer.subrange(m, u) =~= user);
}

/// Calls `WriteBytesExt::write_u32::<BigEndian>` of the byteorder crate on a
/// `Vec<u8>`, for which writing cannot fail. The contract claims what the
/// crate documents: the four bytes of `value` are appended, most significant
/// first.
#[verifier::external_body]
fn write_u32_big_endian(buffer: &mut Vec<u8>, value: u32)
    ensures
        final(buffer)@ == old(buffer)@ + big_endian(value),
{
    let _ = byteorder::WriteBytesExt::write_u32::<byteorder::BigEndian>(buffer, value);
}

/// Lays out the entropy buffer for a machine and an account name: see
/// [`entropy_layout`]. An account name of 13 bytes or more is taken whole,
/// so that the buffer is then longer than for the names that are filled up.
pub fn setup_entropy(drive_info: &DriveInfo, cpu_info: &CpuInfo, user: &str) -> (entropy: Vec<u8>)
    ensures
        entropy@ == entropy_of(drive_info@, cpu_info@, user@),
        entropy@.subrange(0, 4) == big_endian(drive_info.win_system_volume_serial),
        cpu_info.is_valid() ==> entropy@.len() == 4 + encode_utf8(cpu_info.cpu_vendor@).len() + 3
            + if encode_utf8(user@).len() < 13 {
            13
        } else {
            encode_utf8(user@).len()
        },
{
    let mut entropy: Vec<u8> = Vec::new();
    write_u32_big_endian(&mut entropy, drive_info.win_system_volume_serial);
    entropy.extend_from_slice(cpu_info.cpu_vendor.as_str().as_bytes());
    entropy.extend_from_slice(cpu_info.cpu_magic_number.as_slice());
    let user_bytes = user.as_bytes();
    entropy.extend_from_slice(user_bytes);
    let ghost unpadded = entropy@;
    let mut len: usize = user_bytes.len();
    while len < USER_FIELD_LEN
        invariant
            user_bytes@ == encode_utf8(user@),
            unpadded == big_endian(drive_info.win_system_volume_serial) + encode_utf8(
                cpu_info.cpu_vendor@,
            ) + cpu_info.cpu_magic_number@ + user_bytes@,
            user_bytes@.len() <= len,
            user_bytes@.len() < USER_FIELD_LEN ==> len <= USER_FIELD_LEN,
            user_bytes@.len() >= USER_FIELD_LEN ==> len == user_bytes@.len(),
            entropy@ == unpadded + Seq::new((len - user_bytes@.len()) as nat, |i: int| 0u8),
        decreases USER_FIELD_LEN - len,
    {
        entropy.push(0);
        len += 1;
        assert(entropy@ =~= unpadded + Seq::new((len - user_bytes@.len()) as nat, |i: int| 0u8));
    }
    assert(entropy@ =~= entropy_of(drive_info@, cpu_info@, user@));
    proof {
        lemma_entropy_fields(
            drive_info.win_system_volume_serial,
            encode_utf8(cpu_info.cpu_vendor@),
            cpu_info.cpu_magic_number@,
            encode_utf8(user@),
        );
    }
    entropy
}

} // verus!
