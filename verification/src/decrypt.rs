//! The whole way from the facts about a machine to the content key.

use crate::cipher::unwrap_key;
use crate::cipher::unwrapped_key;
use crate::cipher::KEY_LEN;
use crate::codec::ascii_text;
use crate::codec::encode_hex;
use crate::codec::hex_text;
use crate::entropy::entropy_of;
use crate::entropy::setup_entropy;
use crate::error::ErrorView;
use crate::exchange::replies_view;
use crate::exchange::unexpected_reply;
use crate::exchange::texts;
use crate::exchange::Reply;
use crate::exchange::ReplyView;
use crate::exchange::Request;
use crate::exchange::RequestView;
use crate::exchange::Step;
use crate::exchange::StepView;
use crate::exchange::UNEXPECTED_REPLY;
use crate::helper::key_in_output;
use crate::helper::unprotect;
use crate::helper::unprotect_step;
use crate::helper::HELPER_NAME;
use crate::machine::CpuInfo;
use crate::machine::CpuInfoView;
use crate::machine::DriveInfo;
use crate::machine::DriveInfoView;
use crate::registry::AdeptInformation;
use crate::registry::AdeptInformationView;
use vstd::prelude::*;
use vstd::slice::slice_subrange;
use vstd::string::StringExecFns;
use vstd::utf8::encode_utf8;

verus! {

/// The three lines with which the helper can be run by hand: the entropy
/// buffer and the device key as hexadecimal text, and the licence key as
/// base64 text.
pub open spec fn replay_notice(
    entropy_hex: Seq<char>,
    device_key_hex: Seq<char>,
    adept_key: Seq<char>,
) -> Seq<Seq<char>> {
    seq![
        "Entropy (hex): \""@ + entropy_hex + "\""@,
        "Device-Key (hex): \""@ + device_key_hex + "\""@,
        "Adept-Key (base64): \""@ + adept_key + "\""@,
    ]
}

/// The hexadecimal text of the entropy buffer for a machine and an account.
pub open spec fn entropy_hex_of(
    drive_info: DriveInfoView,
    cpu_info: CpuInfoView,
    user: Seq<char>,
) -> Seq<char> {
    ascii_text(hex_text(entropy_of(drive_info, cpu_info, user)))
}

/// The stages after the notice: the helper unprotects the device key with the
/// entropy buffer, and the key it yields opens the licence key. The first
/// failure is the result.
pub open spec fn extraction_step(
    drive_info: DriveInfoView,
    cpu_info: CpuInfoView,
    user: Seq<char>,
    adept_info: AdeptInformationView,
    replies: Seq<ReplyView>,
) -> StepView<Seq<u8>> {
    match unprotect_step(
        entropy_hex_of(drive_info, cpu_info, user),
        adept_info.device_key,
        replies,
    ) {
        StepView::Ask(request) => StepView::Ask(request),
        StepView::Done(Err(e)) => StepView::Done(Err(e)),
        StepView::Done(Ok(key)) => StepView::Done(
            unwrapped_key(key, encode_utf8(adept_info.key)),
        ),
    }
}

/// The whole extraction, by the replies so far. With `print_info` the notice
/// is printed first, and then all goes on as without it.
pub open spec fn decrypt_step(
    drive_info: DriveInfoView,
    cpu_info: CpuInfoView,
    user: Seq<char>,
    adept_info: AdeptInformationView,
    print_info: bool,
    replies: Seq<ReplyView>,
) -> StepView<Seq<u8>> {
    if !print_info {
        extraction_step(drive_info, cpu_info, user, adept_info, replies)
    } else if replies.len() == 0 {
        StepView::Ask(
            RequestView::Print(
                replay_notice(
                    entropy_hex_of(drive_info, cpu_info, user),
                    adept_info.device_key,
                    adept_info.key,
                ),
            ),
        )
    } else if replies[0] is Printed {
        extraction_step(drive_info, cpu_info, user, adept_info, replies.skip(1))
    } else {
        StepView::Done(Err(ErrorView::AssertionFailed(UNEXPECTED_REPLY@)))
    }
}

/// Printing the notice changes nothing in what follows.
pub proof fn lemma_notice_changes_nothing(
    drive_info: DriveInfoView,
    cpu_info: CpuInfoView,
    user: Seq<char>,
    adept_info: AdeptInformationView,
    replies: Seq<ReplyView>,
)
    ensures
        decrypt_step(
            drive_info,
            cpu_info,
            user,
            adept_info,
            true,
            seq![ReplyView::Printed] + replies,
        ) == decrypt_step(drive_info, cpu_info, user, adept_info, false, replies),
{
    assert((seq![ReplyView::Printed] + replies).skip(1) =~= replies);
}

/// The helper is run only as the answer to its being found, and where it is
/// missing the extraction ends with [`ErrorView::HelperNotFound`].
pub proof fn lemma_missing_helper_is_never_run(
    drive_info: DriveInfoView,
    cpu_info: CpuInfoView,
    user: Seq<char>,
    adept_info: AdeptInformationView,
    replies: Seq<ReplyView>,
)
    ensures
        extraction_step(drive_info, cpu_info, user, adept_info, replies) matches StepView::Ask(
            RequestView::Run { .. },
        ) ==> replies == seq![ReplyView::Present],
        replies.len() > 0 ==> (replies[0] matches ReplyView::Missing(dir) ==> extraction_step(
            drive_info,
            cpu_info,
            user,
            adept_info,
            replies,
        ) == StepView::<Seq<u8>>::Done(Err(ErrorView::HelperNotFound(HELPER_NAME@, dir)))),
{
    crate::helper::lemma_helper_is_probed_first(
        entropy_hex_of(drive_info, cpu_info, user),
        adept_info.device_key,
        replies,
    );
}

/// With or without the notice, the helper is run only as the answer to its
/// being found.
pub proof fn lemma_helper_runs_only_when_found(
    drive_info: DriveInfoView,
    cpu_info: CpuInfoView,
    user: Seq<char>,
    adept_info: AdeptInformationView,
    print_info: bool,
    replies: Seq<ReplyView>,
)
    ensures
        ({
            let step = decrypt_step(drive_info, cpu_info, user, adept_info, print_info, replies);
            step matches StepView::Ask(RequestView::Run { .. }) ==> replies == if print_info {
                seq![ReplyView::Printed, ReplyView::Present]
            } else {
                seq![ReplyView::Present]
            }
        }),
{
    let step = decrypt_step(drive_info, cpu_info, user, adept_info, print_info, replies);
    if step matches StepView::Ask(RequestView::Run { .. }) {
        let rest = if print_info {
            replies.skip(1)
        } else {
            replies
        };
        lemma_missing_helper_is_never_run(drive_info, cpu_info, user, adept_info, rest);
        if print_info {
            assert(replies =~= seq![ReplyView::Printed, ReplyView::Present]);
        }
    }
}

/// A key of the wrong length that the helper printed is refused before the
/// licence key is touched.
pub proof fn lemma_short_key_is_refused(
    drive_info: DriveInfoView,
    cpu_info: CpuInfoView,
    user: Seq<char>,
    adept_info: AdeptInformationView,
    output: Seq<char>,
)
    ensures
        key_in_output(encode_utf8(output)) matches Ok(key) ==> key.len() != KEY_LEN
            ==> extraction_step(
            drive_info,
            cpu_info,
            user,
            adept_info,
            seq![ReplyView::Present, ReplyView::Output(output)],
        ) == StepView::<Seq<u8>>::Done(
            Err(ErrorView::InvalidKeyLength { expected: KEY_LEN as nat, actual: key.len() }),
        ),
{
}

/// The extraction ends after two replies at the latest, and after three
/// where the notice is printed.
pub proof fn lemma_decrypt_ends(
    drive_info: DriveInfoView,
    cpu_info: CpuInfoView,
    user: Seq<char>,
    adept_info: AdeptInformationView,
    print_info: bool,
    replies: Seq<ReplyView>,
)
    requires
        replies.len() >= if print_info {
            3nat
        } else {
            2nat
        },
    ensures
        decrypt_step(drive_info, cpu_info, user, adept_info, print_info, replies) is Done,
{
}

/// The lines of the notice.
fn notice_lines(entropy_hex: &str, device_key_hex: &str, adept_key: &str) -> (lines: Vec<String>)
    ensures
        texts(lines@) == replay_notice(entropy_hex@, device_key_hex@, adept_key@),
{
    let mut first = String::from_str("Entropy (hex): \"");
    first.append(entropy_hex);
    first.append("\"");
    let mut second = String::from_str("Device-Key (hex): \"");
    second.append(device_key_hex);
    second.append("\"");
    let mut third = String::from_str("Adept-Key (base64): \"");
    third.append(adept_key);
    third.append("\"");
    let mut lines: Vec<String> = Vec::new();
    lines.push(first);
    lines.push(second);
    lines.push(third);
    assert(texts(lines@) =~= replay_notice(entropy_hex@, device_key_hex@, adept_key@));
    lines
}

/// Finds the content key: says what to do next after the replies so far, or
/// ends with the key or with the first failure.
///
/// The entropy buffer is laid out and written as hexadecimal text. With
/// `print_info` the caller is first asked to print it, with the device key
/// and the licence key, so that the helper can be run by hand. Then the
/// helper unprotects the device key, and the key it yields opens the licence
/// key.
pub fn decrypt(
    drive_info: &DriveInfo,
    cpu_info: &CpuInfo,
    user: &str,
    adept_info: &AdeptInformation,
    print_info: bool,
    replies: &[Reply],
) -> (step: Step<Vec<u8>>)
    ensures
        step@ == decrypt_step(
            drive_info@,
            cpu_info@,
            user@,
            adept_info@,
            print_info,
            replies_view(replies@),
        ),
{
    let entropy = setup_entropy(drive_info, cpu_info, user);
    let entropy_hex = encode_hex(entropy.as_slice());
    let device_key_hex = adept_info.device_key.as_str();
    let rest = if print_info {
        if replies.len() == 0 {
            return Step::Ask(
                Request::Print(
                    notice_lines(entropy_hex.as_str(), device_key_hex, adept_info.key.as_str()),
                ),
            );
        }
        match &replies[0] {
            Reply::Printed => {},
            _ => {
                return unexpected_reply();
            },
        }
        let rest = slice_subrange(replies, 1, replies.len());
        assert(replies_view(rest@) =~= replies_view(replies@).skip(1));
        rest
    } else {
        replies
    };
    match unprotect(entropy_hex.as_str(), device_key_hex, rest) {
        Step::Ask(request) => Step::Ask(request),
        Step::Done(Err(e)) => Step::Done(Err(e)),
        Step::Done(Ok(key)) => Step::Done(unwrap_key(key.as_slice(), adept_info.key.as_str())),
    }
}

} // verus!
