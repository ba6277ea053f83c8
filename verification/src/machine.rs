//! Facts about the machine that the key is bound to: the system drive, the
//! processor and the account.
//!
//! The drive and the account are asked of programs of the target system, and
//! what these print is searched with regular expressions.

use crate::entropy::big_endian;
use crate::error::result_view;
use crate::error::ErrorView;
use crate::error::ExtractorError;
use crate::exchange::ask_run;
use crate::exchange::command_failed;
use crate::exchange::output_at;
use crate::exchange::replies_view;
use crate::exchange::texts;
use crate::exchange::unexpected_reply;
use crate::exchange::Reply;
use crate::exchange::ReplyView;
use crate::exchange::RequestView;
use crate::exchange::Step;
use crate::exchange::StepView;
use crate::exchange::UNEXPECTED_REPLY;
use crate::pattern::first_match;
use crate::pattern::search_output;
use crate::pattern::text_of;
use crate::pattern::found_text;
use crate::pattern::pattern_rejected;
use crate::pattern::regex_captures;
use crate::pattern::required_group;
use crate::pattern::required_text;
use crate::registry::DEVICE_KEY_PATH;
use crate::text::before_first;
use crate::text::hex_u32;
use crate::text::join;
use crate::text::parse_hex_u32;
use crate::text::remove_char;
use crate::text::take_before;
use crate::text::trim;
use crate::text::trim_end;
use crate::text::trim_end_of;
use crate::text::trimmed;
use crate::text::without_char;
use vstd::prelude::*;
use vstd::string::StringExecFns;

verus! {

/// The system drive.
#[derive(Debug, PartialEq, Eq)]
pub struct DriveInfo {
    /// Drive letter where the system is installed (mostly "C:")
    pub win_system_drive: String,
    /// The volume serial number of the system drive
    pub win_system_volume_serial: u32,
}

/// A [`DriveInfo`] with its text as characters.
pub struct DriveInfoView {
    pub win_system_drive: Seq<char>,
    pub win_system_volume_serial: u32,
}

impl View for DriveInfo {
    type V = DriveInfoView;

    open spec fn view(&self) -> DriveInfoView {
        DriveInfoView {
            win_system_drive: self.win_system_drive@,
            win_system_volume_serial: self.win_system_volume_serial,
        }
    }
}

/// The processor.
#[derive(Debug, PartialEq, Eq)]
pub struct CpuInfo {
    /// The vendor of the CPU
    pub cpu_vendor: String,
    /// The identification bytes of the CPU: the lower three bytes of what the
    /// identification instruction leaves in its first register
    pub cpu_magic_number: Vec<u8>,
}

/// A [`CpuInfo`] with its text as characters and its bytes as a sequence.
pub struct CpuInfoView {
    pub cpu_vendor: Seq<char>,
    pub cpu_magic_number: Seq<u8>,
}

impl View for CpuInfo {
    type V = CpuInfoView;

    open spec fn view(&self) -> CpuInfoView {
        CpuInfoView { cpu_vendor: self.cpu_vendor@, cpu_magic_number: self.cpu_magic_number@ }
    }
}

impl CpuInfoView {
    /// There are three identification bytes.
    pub open spec fn is_valid(self) -> bool {
        self.cpu_magic_number.len() == 3
    }
}

impl CpuInfo {
    /// There are three identification bytes.
    pub open spec fn is_valid(&self) -> bool {
        self@.is_valid()
    }
}

/// Describes the processor from its vendor name and from `eax`, the first
/// register after the identification instruction ran with leaf 1. The highest
/// byte of `eax` is not used.
pub fn get_cpu_info(vendor: String, eax: u32) -> (info: CpuInfo)
    ensures
        info.is_valid(),
        info.cpu_vendor@ == vendor@,
        info.cpu_magic_number@ == big_endian(eax).skip(1),
{
    let mut cpu_magic_number: Vec<u8> = Vec::new();
    cpu_magic_number.push((eax / 0x1_0000 % 0x100) as u8);
    cpu_magic_number.push((eax / 0x100 % 0x100) as u8);
    cpu_magic_number.push((eax % 0x100) as u8);
    assert(cpu_magic_number@ =~= big_endian(eax).skip(1));
    CpuInfo { cpu_vendor: vendor, cpu_magic_number }
}

/// Finds the serial number in what `vol` prints.
pub const VOLUME_SERIAL_PATTERN: &'static str = r"(?mi)Volume Serial Number is ([^\r\n]+)";

/// Finds the account name in what `reg query` prints for the value
/// `username`.
pub const ADEPT_USERNAME_PATTERN: &'static str = r"(?mi)username\s+REG_SZ\s+([^\r\n]+)";

/// The serial number that a text such as `4300-0000` writes: the hyphens are
/// left out and white space at the ends is dropped, and the rest is a number
/// in base 16.
pub open spec fn serial_of_text(captured: Seq<char>) -> Result<u32, ErrorView> {
    match hex_u32(trimmed(without_char(captured, '-'))) {
        Some(serial) => Ok(serial),
        None => Err(ErrorView::InvalidHex),
    }
}

/// The serial number in what was found in the output of `vol`.
pub open spec fn serial_in(found: Option<Seq<Option<Seq<char>>>>) -> Result<u32, ErrorView> {
    match required_text(found, "Volume Serial Number"@) {
        Ok(text) => serial_of_text(text),
        Err(e) => Err(e),
    }
}

/// Reads a volume serial number as `vol` writes it. Fails with
/// [`ExtractorError::InvalidHex`] where the text is no such number.
pub fn parse_volume_serial(captured: &str) -> (r: Result<u32, ExtractorError>)
    ensures
        result_view(r) == serial_of_text(captured@),
{
    let digits = remove_char(captured, '-');
    match parse_hex_u32(trim(digits.as_str())) {
        Some(serial) => Ok(serial),
        None => Err(ExtractorError::InvalidHex),
    }
}

/// Reads the volume serial number from what was found in the output of
/// `vol`.
pub fn volume_serial(found: &Option<Vec<Option<String>>>) -> (r: Result<u32, ExtractorError>)
    ensures
        result_view(r) == serial_in(found.deep_view()),
{
    match required_group(found, "Volume Serial Number") {
        Ok(text) => parse_volume_serial(text.as_str()),
        Err(e) => Err(e),
    }
}

/// The inquiry about the system drive, by the replies so far, where
/// `found` is what the search of the second output found.
///
/// First the system's root directory is asked for; the drive is what stands
/// before its first backslash. Then the volume of that drive is asked for,
/// and its serial number read.
pub open spec fn drive_info_step(
    replies: Seq<ReplyView>,
    found: Option<Seq<Option<Seq<char>>>>,
) -> StepView<DriveInfoView> {
    if replies.len() == 0 {
        StepView::Ask(RequestView::Run { program: "cmd"@, args: seq!["/c echo %SystemRoot%"@] })
    } else {
        match replies[0] {
            ReplyView::Output(root) => {
                let drive = before_first(root, '\\');
                if replies.len() == 1 {
                    StepView::Ask(
                        RequestView::Run { program: "cmd"@, args: seq!["/c"@, "vol "@ + drive] },
                    )
                } else {
                    match replies[1] {
                        ReplyView::Output(_) => StepView::Done(
                            match serial_in(found) {
                                Ok(serial) => Ok(
                                    DriveInfoView {
                                        win_system_drive: drive,
                                        win_system_volume_serial: serial,
                                    },
                                ),
                                Err(e) => Err(e),
                            },
                        ),
                        ReplyView::Failed(reason) => StepView::Done(
                            Err(ErrorView::HelperExecutionFailed(reason)),
                        ),
                        _ => StepView::Done(Err(ErrorView::AssertionFailed(UNEXPECTED_REPLY@))),
                    }
                }
            },
            ReplyView::Failed(reason) => StepView::Done(
                Err(ErrorView::HelperExecutionFailed(reason)),
            ),
            _ => StepView::Done(Err(ErrorView::AssertionFailed(UNEXPECTED_REPLY@))),
        }
    }
}

/// The inquiry about the system drive ends after two replies at the latest,
/// whatever was found.
pub proof fn lemma_drive_info_ends(replies: Seq<ReplyView>, found: Option<Seq<Option<Seq<char>>>>)
    requires
        replies.len() >= 2,
    ensures
        drive_info_step(replies, found) is Done,
{
}

/// Says what to run next in the inquiry about the system drive, or ends it,
/// from the replies so far and from what was found in the second output.
pub fn drive_info_next(replies: &[Reply], found: &Option<Vec<Option<String>>>) -> (step: Step<
    DriveInfo,
>)
    ensures
        step@ == drive_info_step(replies_view(replies@), found.deep_view()),
{
    if replies.len() == 0 {
        let mut args: Vec<String> = Vec::new();
        args.push(String::from_str("/c echo %SystemRoot%"));
        assert(texts(args@) =~= seq!["/c echo %SystemRoot%"@]);
        return ask_run("cmd", args);
    }
    let root_dir = match &replies[0] {
        Reply::Output(root) => take_before(root.as_str(), '\\'),
        Reply::Failed(reason) => {
            return command_failed(reason);
        },
        _ => {
            return unexpected_reply();
        },
    };
    if replies.len() == 1 {
        let mut args: Vec<String> = Vec::new();
        args.push(String::from_str("/c"));
        args.push(join("vol ", root_dir));
        assert(texts(args@) =~= seq!["/c"@, "vol "@ + root_dir@]);
        return ask_run("cmd", args);
    }
    match &replies[1] {
        Reply::Output(_) => {},
        Reply::Failed(reason) => {
            return command_failed(reason);
        },
        _ => {
            return unexpected_reply();
        },
    }
    match volume_serial(found) {
        Ok(serial) => Step::Done(
            Ok(
                DriveInfo {
                    win_system_drive: String::from_str(root_dir),
                    win_system_volume_serial: serial,
                },
            ),
        ),
        Err(e) => Step::Done(Err(e)),
    }
}

/// Retrieves the system drive and its volume serial number: says what to run
/// next after the replies so far, or ends with the [`DriveInfo`].
///
/// The serial number is searched for in the second output with
/// [`VOLUME_SERIAL_PATTERN`]. Only there can the pattern be refused, which
/// ends the inquiry with the error of [`pattern_rejected`].
pub fn get_drive_info(replies: &[Reply]) -> (step: Step<DriveInfo>)
    ensures
        match output_at(replies_view(replies@), 1) {
            Some(vol) => step@ == drive_info_step(
                replies_view(replies@),
                regex_captures(VOLUME_SERIAL_PATTERN@, vol),
            ) || step@ == StepView::<DriveInfoView>::Done(Err(pattern_rejected())),
            None => step@ == drive_info_step(replies_view(replies@), None),
        },
{
    match search_output(replies, 1, VOLUME_SERIAL_PATTERN) {
        Ok(found) => drive_info_next(replies, &found),
        Err(e) => Step::Done(Err(e)),
    }
}

/// Reads the account name that the vendor's software stored, from what `reg
/// query` printed. Fails with [`ExtractorError::NoCaptures`] where the output
/// holds none, and with the error of [`pattern_rejected`] where the pattern
/// is refused.
pub fn get_win_username_adept(reg_output: &str) -> (r: Result<String, ExtractorError>)
    ensures
        result_view(r) == required_text(
            regex_captures(ADEPT_USERNAME_PATTERN@, reg_output@),
            "adept username"@,
        ) || result_view(r) == Err::<Seq<char>, ErrorView>(pattern_rejected()),
{
    match first_match(ADEPT_USERNAME_PATTERN, reg_output) {
        Ok(found) => required_group(&found, "adept username"),
        Err(e) => Err(e),
    }
}

/// Reads the account name from what `echo %username%` printed: the output
/// without the white space at its end.
pub fn get_win_username_echo(echo_output: &str) -> (username: String)
    ensures
        username@ == trim_end_of(echo_output@),
{
    String::from_str(trim_end(echo_output))
}

/// The inquiry about the account name, by the replies so far, where `stored`
/// is the name that the registry gave, if it gave one.
///
/// First the registry is asked for the name that the vendor's software
/// stored. Only where that gives no name is the environment asked.
pub open spec fn username_step(replies: Seq<ReplyView>, stored: Option<Seq<char>>) -> StepView<
    Seq<char>,
> {
    if replies.len() == 0 {
        StepView::Ask(
            RequestView::Run {
                program: "reg"@,
                args: seq!["query"@, DEVICE_KEY_PATH@, "/v"@, "username"@],
            },
        )
    } else if !(replies[0] is Output || replies[0] is Failed) {
        StepView::Done(Err(ErrorView::AssertionFailed(UNEXPECTED_REPLY@)))
    } else if replies[0] is Output && stored is Some {
        StepView::Done(Ok(stored->0))
    } else if replies.len() == 1 {
        StepView::Ask(
            RequestView::Run { program: "cmd"@, args: seq!["/c"@, "echo"@, "%username%"@] },
        )
    } else {
        match replies[1] {
            ReplyView::Output(text) => StepView::Done(Ok(trim_end_of(text))),
            ReplyView::Failed(reason) => StepView::Done(
                Err(ErrorView::HelperExecutionFailed(reason)),
            ),
            _ => StepView::Done(Err(ErrorView::AssertionFailed(UNEXPECTED_REPLY@))),
        }
    }
}

/// The inquiry about the account name ends after two replies at the latest,
/// whatever the registry gave.
pub proof fn lemma_username_ends(replies: Seq<ReplyView>, stored: Option<Seq<char>>)
    requires
        replies.len() >= 2,
    ensures
        username_step(replies, stored) is Done,
{
}

/// Says what to run next in the inquiry about the account name, or ends it,
/// from the replies so far and from the name that the registry gave, if it
/// gave one.
pub fn win_username_next(replies: &[Reply], stored: Option<String>) -> (step: Step<String>)
    ensures
        step@ == username_step(replies_view(replies@), text_of(stored)),
{
    if replies.len() == 0 {
        let mut args: Vec<String> = Vec::new();
        args.push(String::from_str("query"));
        args.push(String::from_str(DEVICE_KEY_PATH));
        args.push(String::from_str("/v"));
        args.push(String::from_str("username"));
        assert(texts(args@) =~= seq!["query"@, DEVICE_KEY_PATH@, "/v"@, "username"@]);
        return ask_run("reg", args);
    }
    match &replies[0] {
        Reply::Output(_) => {
            match stored {
                Some(username) => {
                    return Step::Done(Ok(username));
                },
                None => {},
            }
        },
        Reply::Failed(_) => {},
        _ => {
            return unexpected_reply();
        },
    }
    if replies.len() == 1 {
        let mut args: Vec<String> = Vec::new();
        args.push(String::from_str("/c"));
        args.push(String::from_str("echo"));
        args.push(String::from_str("%username%"));
        assert(texts(args@) =~= seq!["/c"@, "echo"@, "%username%"@]);
        return ask_run("cmd", args);
    }
    match &replies[1] {
        Reply::Output(text) => Step::Done(Ok(get_win_username_echo(text.as_str()))),
        Reply::Failed(reason) => command_failed(reason),
        _ => unexpected_reply(),
    }
}

/// Retrieves the account name: says what to run next after the replies so
/// far, or ends with the name.
///
/// The name is searched for in the first output with
/// [`ADEPT_USERNAME_PATTERN`]. Where the pattern is refused, all goes on as if
/// the registry had given no name.
pub fn get_win_username(replies: &[Reply]) -> (step: Step<String>)
    ensures
        match output_at(replies_view(replies@), 0) {
            Some(reg_output) => step@ == username_step(
                replies_view(replies@),
                found_text(regex_captures(ADEPT_USERNAME_PATTERN@, reg_output), 1),
            ) || step@ == username_step(replies_view(replies@), None),
            None => step@ == username_step(replies_view(replies@), None),
        },
{
    let stored = if replies.len() > 0 {
        match &replies[0] {
            Reply::Output(reg_output) => match get_win_username_adept(reg_output.as_str()) {
                Ok(username) => Some(username),
                Err(_) => None,
            },
            _ => None,
        }
    } else {
        None
    };
    win_username_next(replies, stored)
}

} // verus!
