//! What the vendor's software keeps in the registry: the protected key of
//! the device, and the credentials of the activated account.
//!
//! The registry is read by `reg query`, and what it prints is searched with
//! regular expressions.

use crate::error::result_view;
use crate::error::ErrorView;
use crate::error::ExtractorError;
use crate::exchange::ask_run;
use crate::exchange::command_failed;
use crate::exchange::output_at;
use crate::exchange::replies_view;
use crate::exchange::reply_failure;
use crate::exchange::texts;
use crate::exchange::unexpected_reply;
use crate::exchange::Reply;
use crate::exchange::ReplyView;
use crate::exchange::RequestView;
use crate::exchange::Step;
use crate::exchange::StepView;
use crate::pattern::all_matches;
use crate::pattern::first_match;
use crate::pattern::found_group;
use crate::pattern::found_text;
use crate::pattern::group;
use crate::pattern::group_text;
use crate::pattern::pattern_rejected;
use crate::pattern::regex_captures;
use crate::pattern::regex_captures_all;
use crate::pattern::required_group;
use crate::pattern::required_text;
use crate::pattern::search_output;
use crate::pattern::text_of;
use crate::text::join;
use crate::text::same_text;
use vstd::prelude::*;
use vstd::string::StringExecFns;

verus! {

/// Where the vendor's software keeps what it knows of the device.
pub const DEVICE_KEY_PATH: &'static str = r"HKEY_CURRENT_USER\Software\Adobe\Adept\Device";

/// Where the vendor's software keeps its activations.
pub const ACTIVATION_KEY_PATH: &'static str = r"HKEY_CURRENT_USER\Software\Adobe\Adept\Activation";

/// Finds the text of a `value` entry.
pub const ADEPT_PARSE_VALUE_PATTERN: &'static str = r"(?mis)^\s+value\s+REG_SZ\s+([^\r\n]+)";

/// Finds the texts of a `method` entry and of the `value` entry after it.
pub const ADEPT_PARSE_USERNAME_PATTERN: &'static str =
    r"(?mis)\s+method\s+REG_SZ\s+([^\r\n]+)\r?\n\s+value\s+REG_SZ\s+([^\r\n]+)";

/// Finds the numbered keys named `username`, `user` or `privateLicenseKey`,
/// each with what it holds.
pub const ADEPT_SUBENTRY_FILTER_PATTERN: &'static str =
    r"(?mis)\\\d+\s+\(Default\)\s+REG_SZ\s+((?:username)|(?:user)|(?:privateLicenseKey))\r?\n(.+?)\r?\n\r?\n";

/// Finds the protected key of the device.
pub const ADEPT_DEVICE_KEY_PATTERN: &'static str = r"(?mis)key\s+REG_BINARY\s+([^\r\n]+)";

/// Finds the number of the key that holds the credentials.
pub const ADEPT_ACTIVATION_SUBENTRY_PATTERN: &'static str =
    r"(?mi)\\(\d+)\s+\(Default\)\s+REG_SZ\s+credentials";

/// The stored credentials of an activated account.
#[derive(Debug, PartialEq, Eq)]
pub struct AdeptInformation {
    /// The "urn:uuid" of the used account
    pub user: String,
    /// The method and the vendor ID that is used (method, id)
    pub username: (String, String),
    /// The licence key, wrapped, as base64 text
    pub key: String,
    /// The key of the device, protected, as hexadecimal text
    pub device_key: String,
}

/// An [`AdeptInformation`] with its texts as characters.
pub struct AdeptInformationView {
    pub user: Seq<char>,
    pub username: (Seq<char>, Seq<char>),
    pub key: Seq<char>,
    pub device_key: Seq<char>,
}

impl View for AdeptInformation {
    type V = AdeptInformationView;

    open spec fn view(&self) -> AdeptInformationView {
        AdeptInformationView {
            user: self.user@,
            username: (self.username.0@, self.username.1@),
            key: self.key@,
            device_key: self.device_key@,
        }
    }
}

/// What the key of the credentials holds.
#[derive(Debug, PartialEq, Eq)]
pub struct AdeptInformationSubEntry {
    /// The "urn:uuid" of the used account
    pub user: String,
    /// The method and the vendor ID that is used (method, id)
    pub username: (String, String),
    /// The licence key, wrapped, as base64 text
    pub key: String,
}

/// An [`AdeptInformationSubEntry`] with its texts as characters.
pub struct SubEntryView {
    pub user: Seq<char>,
    pub username: (Seq<char>, Seq<char>),
    pub key: Seq<char>,
}

impl View for AdeptInformationSubEntry {
    type V = SubEntryView;

    open spec fn view(&self) -> SubEntryView {
        SubEntryView {
            user: self.user@,
            username: (self.username.0@, self.username.1@),
            key: self.key@,
        }
    }
}

/// The three fields of a sub-entry, as far as they were found.
pub struct SubEntryFields {
    pub user: Option<Seq<char>>,
    pub username: Option<(Seq<char>, Seq<char>)>,
    pub key: Option<Seq<char>>,
}

/// The texts of groups 1 and 2 of what a search found; `None` unless both
/// are there.
pub open spec fn found_pair(found: Option<Seq<Option<Seq<char>>>>) -> Option<
    (Seq<char>, Seq<char>),
> {
    match (found_text(found, 1), found_text(found, 2)) {
        (Some(first), Some(second)) => Some((first, second)),
        _ => None,
    }
}

/// The texts of an optional pair of strings.
pub open spec fn pair_text_of(pair: Option<(String, String)>) -> Option<(Seq<char>, Seq<char>)> {
    match pair {
        Some((first, second)) => Some((first@, second@)),
        None => None,
    }
}

/// Copies the texts of groups 1 and 2 out of what a search found.
pub fn found_groups(found: &Option<Vec<Option<String>>>) -> (r: Option<(String, String)>)
    ensures
        pair_text_of(r) == found_pair(found.deep_view()),
{
    match (found_group(found, 1), found_group(found, 2)) {
        (Some(first), Some(second)) => Some((first, second)),
        _ => None,
    }
}

/// Reads what the key named `user` holds: the text of its `value` entry, if
/// it has one. The error is that of [`pattern_rejected`].
pub fn adept_information_parse_user(val: &str) -> (r: Result<Option<String>, ExtractorError>)
    ensures
        match r {
            Ok(user) => text_of(user) == found_text(
                regex_captures(ADEPT_PARSE_VALUE_PATTERN@, val@),
                1,
            ),
            Err(e) => e@ == pattern_rejected(),
        },
{
    match first_match(ADEPT_PARSE_VALUE_PATTERN, val) {
        Ok(found) => Ok(found_group(&found, 1)),
        Err(e) => Err(e),
    }
}

/// Reads what the key named `username` holds: the texts of its `method`
/// entry and of the `value` entry after it, if it has both. The error is that
/// of [`pattern_rejected`].
pub fn adept_information_parse_username(val: &str) -> (r: Result<
    Option<(String, String)>,
    ExtractorError,
>)
    ensures
        match r {
            Ok(username) => pair_text_of(username) == found_pair(
                regex_captures(ADEPT_PARSE_USERNAME_PATTERN@, val@),
            ),
            Err(e) => e@ == pattern_rejected(),
        },
{
    match first_match(ADEPT_PARSE_USERNAME_PATTERN, val) {
        Ok(found) => Ok(found_groups(&found)),
        Err(e) => Err(e),
    }
}

/// Reads what the key named `privateLicenseKey` holds: the text of its
/// `value` entry, if it has one. The error is that of [`pattern_rejected`].
pub fn adept_information_parse_key(val: &str) -> (r: Result<Option<String>, ExtractorError>)
    ensures
        match r {
            Ok(key) => text_of(key) == found_text(
                regex_captures(ADEPT_PARSE_VALUE_PATTERN@, val@),
                1,
            ),
            Err(e) => e@ == pattern_rejected(),
        },
{
    match first_match(ADEPT_PARSE_VALUE_PATTERN, val) {
        Ok(found) => Ok(found_group(&found, 1)),
        Err(e) => Err(e),
    }
}

/// What one numbered key gave.
#[derive(Debug, PartialEq, Eq)]
pub enum SubEntryRead {
    /// The key is named `user`; the field is what it holds, if that can be
    /// read.
    User(Option<String>),
    /// The key is named `username`; the field is what it holds, if that can
    /// be read.
    Username(Option<(String, String)>),
    /// The key is named `privateLicenseKey`; the field is what it holds, if
    /// that can be read.
    Key(Option<String>),
    /// The key has another name.
    Other,
}

/// A [`SubEntryRead`] with its texts as characters.
pub enum SubEntryReadView {
    User(Option<Seq<char>>),
    Username(Option<(Seq<char>, Seq<char>)>),
    Key(Option<Seq<char>>),
    Other,
}

impl View for SubEntryRead {
    type V = SubEntryReadView;

    open spec fn view(&self) -> SubEntryReadView {
        match *self {
            SubEntryRead::User(user) => SubEntryReadView::User(text_of(user)),
            SubEntryRead::Username(username) => SubEntryReadView::Username(pair_text_of(username)),
            SubEntryRead::Key(key) => SubEntryReadView::Key(text_of(key)),
            SubEntryRead::Other => SubEntryReadView::Other,
        }
    }
}

/// The reads of a list, each by its view.
pub open spec fn reads_view(reads: Seq<SubEntryRead>) -> Seq<SubEntryReadView> {
    Seq::new(reads.len(), |i: int| reads[i]@)
}

/// What one match of [`ADEPT_SUBENTRY_FILTER_PATTERN`] gave: group 1 is the
/// name of the key, which counts only in exactly the spelling `user`,
/// `username` or `privateLicenseKey`, and group 2 is what the key holds.
pub open spec fn read_of(entry: Seq<Option<Seq<char>>>) -> SubEntryReadView {
    match (group_text(entry, 1), group_text(entry, 2)) {
        (Some(name), Some(val)) => if name == "user"@ {
            SubEntryReadView::User(found_text(regex_captures(ADEPT_PARSE_VALUE_PATTERN@, val), 1))
        } else if name == "username"@ {
            SubEntryReadView::Username(
                found_pair(regex_captures(ADEPT_PARSE_USERNAME_PATTERN@, val)),
            )
        } else if name == "privateLicenseKey"@ {
            SubEntryReadView::Key(found_text(regex_captures(ADEPT_PARSE_VALUE_PATTERN@, val), 1))
        } else {
            SubEntryReadView::Other
        },
        _ => SubEntryReadView::Other,
    }
}

/// What each of the matches gave, in their order.
pub open spec fn reads_of(entries: Seq<Seq<Option<Seq<char>>>>) -> Seq<SubEntryReadView> {
    Seq::new(entries.len(), |i: int| read_of(entries[i]))
}

/// The fields after one more key was read: the key sets its field to what it
/// holds, or to nothing where that could not be read; a key of another name
/// changes nothing.
pub open spec fn with_read(before: SubEntryFields, read: SubEntryReadView) -> SubEntryFields {
    match read {
        SubEntryReadView::User(user) => SubEntryFields {
            user,
            username: before.username,
            key: before.key,
        },
        SubEntryReadView::Username(username) => SubEntryFields {
            user: before.user,
            username,
            key: before.key,
        },
        SubEntryReadView::Key(key) => SubEntryFields {
            user: before.user,
            username: before.username,
            key,
        },
        SubEntryReadView::Other => before,
    }
}

/// The fields after the keys were read in their order: a later key of a name
/// replaces what an earlier one gave.
pub open spec fn fields_after(reads: Seq<SubEntryReadView>) -> SubEntryFields
    decreases reads.len(),
{
    if reads.len() == 0 {
        SubEntryFields { user: None, username: None, key: None }
    } else {
        with_read(fields_after(reads.drop_last()), reads.last())
    }
}

/// The sub-entry that the fields make up; the first field that is missing is
/// the error.
pub open spec fn subentry_of(fields: SubEntryFields) -> Result<SubEntryView, ErrorView> {
    match fields.user {
        None => Err(ErrorView::RegistryKeyNotFound("Adept"@, "user"@)),
        Some(user) => match fields.username {
            None => Err(ErrorView::RegistryKeyNotFound("Adept"@, "username"@)),
            Some(username) => match fields.key {
                None => Err(ErrorView::RegistryKeyNotFound("Adept"@, "privateLicenseKey"@)),
                Some(key) => Ok(SubEntryView { user, username, key }),
            },
        },
    }
}

/// Reads one match of [`ADEPT_SUBENTRY_FILTER_PATTERN`]. The error is that
/// of [`pattern_rejected`].
pub fn read_subentry(entry: &Vec<Option<String>>) -> (r: Result<SubEntryRead, ExtractorError>)
    ensures
        match r {
            Ok(read) => read@ == read_of(entry.deep_view()),
            Err(e) => e@ == pattern_rejected(),
        },
{
    match (group(entry, 1), group(entry, 2)) {
        (Some(name), Some(val)) => {
            if same_text(name.as_str(), "user") {
                match adept_information_parse_user(val.as_str()) {
                    Ok(user) => Ok(SubEntryRead::User(user)),
                    Err(e) => Err(e),
                }
            } else if same_text(name.as_str(), "username") {
                match adept_information_parse_username(val.as_str()) {
                    Ok(username) => Ok(SubEntryRead::Username(username)),
                    Err(e) => Err(e),
                }
            } else if same_text(name.as_str(), "privateLicenseKey") {
                match adept_information_parse_key(val.as_str()) {
                    Ok(key) => Ok(SubEntryRead::Key(key)),
                    Err(e) => Err(e),
                }
            } else {
                Ok(SubEntryRead::Other)
            }
        },
        _ => Ok(SubEntryRead::Other),
    }
}

/// Copies an optional text.
fn copy_text(text: &Option<String>) -> (r: Option<String>)
    ensures
        text_of(r) == text_of(*text),
{
    match text {
        Some(text) => Some(text.clone()),
        None => None,
    }
}

/// Copies an optional pair of texts.
fn copy_pair(pair: &Option<(String, String)>) -> (r: Option<(String, String)>)
    ensures
        pair_text_of(r) == pair_text_of(*pair),
{
    match pair {
        Some((first, second)) => Some((first.clone(), second.clone())),
        None => None,
    }
}

/// Puts together what the numbered keys gave, in their order. Fails with
/// [`ExtractorError::RegistryKeyNotFound`] for the first of the account, the
/// account name and the licence key that is missing in the end.
pub fn collect_subentry(reads: &[SubEntryRead]) -> (r: Result<
    AdeptInformationSubEntry,
    ExtractorError,
>)
    ensures
        result_view(r) == subentry_of(fields_after(reads_view(reads@))),
{
    let mut user: Option<String> = None;
    let mut username: Option<(String, String)> = None;
    let mut key: Option<String> = None;
    let mut i: usize = 0;
    assert(reads_view(reads@).take(0) =~= Seq::empty());
    while i < reads.len()
        invariant
            i <= reads.len(),
            (SubEntryFields {
                user: text_of(user),
                username: pair_text_of(username),
                key: text_of(key),
            }) == fields_after(reads_view(reads@).take(i as int)),
        decreases reads.len() - i,
    {
        proof {
            let all = reads_view(reads@);
            assert(all.take(i + 1).drop_last() =~= all.take(i as int));
            assert(all.take(i + 1).last() == reads@[i as int]@);
        }
        match &reads[i] {
            SubEntryRead::User(read) => {
                user = copy_text(read);
            },
            SubEntryRead::Username(read) => {
                username = copy_pair(read);
            },
            SubEntryRead::Key(read) => {
                key = copy_text(read);
            },
            SubEntryRead::Other => {},
        }
        i += 1;
    }
    assert(reads_view(reads@).take(reads.len() as int) =~= reads_view(reads@));
    let user = match user {
        Some(user) => user,
        None => {
            return Err(ExtractorError::no_adept_reg_key("user"));
        },
    };
    let username = match username {
        Some(username) => username,
        None => {
            return Err(ExtractorError::no_adept_reg_key("username"));
        },
    };
    let key = match key {
        Some(key) => key,
        None => {
            return Err(ExtractorError::no_adept_reg_key("privateLicenseKey"));
        },
    };
    Ok(AdeptInformationSubEntry { key, user, username })
}

/// The sub-entry in what a search for all the matches of
/// [`ADEPT_SUBENTRY_FILTER_PATTERN`] found.
pub open spec fn subentry_in(entries: Seq<Seq<Option<Seq<char>>>>) -> Result<
    SubEntryView,
    ErrorView,
> {
    subentry_of(fields_after(reads_of(entries)))
}

/// Reads the account, the account name and the licence key from what `reg
/// query` printed for the key of the credentials and all below it.
///
/// Fails with [`ExtractorError::RegistryKeyNotFound`] for the first of the
/// three that is missing, and with the error of [`pattern_rejected`] where a
/// pattern is refused.
pub fn get_adept_information_subentries(reg_output: &str) -> (r: Result<
    AdeptInformationSubEntry,
    ExtractorError,
>)
    ensures
        result_view(r) == subentry_in(
            regex_captures_all(ADEPT_SUBENTRY_FILTER_PATTERN@, reg_output@),
        ) || result_view(r) == Err::<SubEntryView, ErrorView>(pattern_rejected()),
{
    let entries = match all_matches(ADEPT_SUBENTRY_FILTER_PATTERN, reg_output) {
        Ok(entries) => entries,
        Err(e) => {
            return Err(e);
        },
    };
    let mut reads: Vec<SubEntryRead> = Vec::new();
    let mut i: usize = 0;
    while i < entries.len()
        invariant
            i <= entries.len(),
            reads@.len() == i,
            forall|k: int| 0 <= k < i ==> (#[trigger] reads@[k])@ == read_of(entries@[k].deep_view()),
        decreases entries.len() - i,
    {
        match read_subentry(&entries[i]) {
            Ok(read) => {
                reads.push(read);
            },
            Err(e) => {
                return Err(e);
            },
        }
        i += 1;
    }
    assert(reads_view(reads@) =~= reads_of(entries.deep_view()));
    collect_subentry(reads.as_slice())
}

/// The inquiry about the stored credentials, by the replies so far, where
/// `device` and `activation` are what the searches of the first and second
/// output found, and `sub` what was read from the third.
///
/// First the protected key of the device is asked for. Then all the
/// activations are listed, to find the number of the key that holds the
/// credentials; then that key is listed, and the account, the account name
/// and the licence key are read from it. Each output is read before the next
/// question is put, and the first failure ends the inquiry.
pub open spec fn adept_information_step(
    replies: Seq<ReplyView>,
    device: Option<Seq<Option<Seq<char>>>>,
    activation: Option<Seq<Option<Seq<char>>>>,
    sub: Result<SubEntryView, ErrorView>,
) -> StepView<AdeptInformationView> {
    if replies.len() == 0 {
        StepView::Ask(
            RequestView::Run {
                program: "reg"@,
                args: seq!["query"@, DEVICE_KEY_PATH@, "/v"@, "key"@],
            },
        )
    } else if reply_failure(replies[0]) is Some {
        StepView::Done(Err(reply_failure(replies[0])->0))
    } else if required_text(device, "adept device key"@) is Err {
        StepView::Done(Err(required_text(device, "adept device key"@)->Err_0))
    } else if replies.len() == 1 {
        StepView::Ask(
            RequestView::Run { program: "reg"@, args: seq!["query"@, ACTIVATION_KEY_PATH@, "/s"@] },
        )
    } else if reply_failure(replies[1]) is Some {
        StepView::Done(Err(reply_failure(replies[1])->0))
    } else if required_text(activation, "adept sub-entry list"@) is Err {
        StepView::Done(Err(required_text(activation, "adept sub-entry list"@)->Err_0))
    } else if replies.len() == 2 {
        StepView::Ask(
            RequestView::Run {
                program: "reg"@,
                args: seq![
                    "query"@,
                    ACTIVATION_KEY_PATH@ + "\\"@ + required_text(
                        activation,
                        "adept sub-entry list"@,
                    )->Ok_0,
                    "/s"@,
                ],
            },
        )
    } else if reply_failure(replies[2]) is Some {
        StepView::Done(Err(reply_failure(replies[2])->0))
    } else {
        match sub {
            Ok(sub) => StepView::Done(
                Ok(
                    AdeptInformationView {
                        user: sub.user,
                        username: sub.username,
                        key: sub.key,
                        device_key: required_text(device, "adept device key"@)->Ok_0,
                    },
                ),
            ),
            Err(e) => StepView::Done(Err(e)),
        }
    }
}

/// The inquiry about the stored credentials ends after three replies at the
/// latest, whatever was found.
pub proof fn lemma_adept_information_ends(
    replies: Seq<ReplyView>,
    device: Option<Seq<Option<Seq<char>>>>,
    activation: Option<Seq<Option<Seq<char>>>>,
    sub: Result<SubEntryView, ErrorView>,
)
    requires
        replies.len() >= 3,
    ensures
        adept_information_step(replies, device, activation, sub) is Done,
{
}

/// The inquiry about the stored credentials, by the replies so far, with
/// what the regex crate finds in each output.
pub open spec fn adept_information_found(replies: Seq<ReplyView>) -> StepView<
    AdeptInformationView,
> {
    adept_information_step(
        replies,
        match output_at(replies, 0) {
            Some(text) => regex_captures(ADEPT_DEVICE_KEY_PATTERN@, text),
            None => None,
        },
        match output_at(replies, 1) {
            Some(text) => regex_captures(ADEPT_ACTIVATION_SUBENTRY_PATTERN@, text),
            None => None,
        },
        match output_at(replies, 2) {
            Some(text) => subentry_in(regex_captures_all(ADEPT_SUBENTRY_FILTER_PATTERN@, text)),
            None => subentry_in(Seq::empty()),
        },
    )
}

/// Says what to run next in the inquiry about the stored credentials, or
/// ends it, from the replies so far and from what was found in them:
/// `device` in the first output, `activation` in the second, `sub` in the
/// third.
pub fn adept_information_next(
    replies: &[Reply],
    device: &Option<Vec<Option<String>>>,
    activation: &Option<Vec<Option<String>>>,
    sub: Result<AdeptInformationSubEntry, ExtractorError>,
) -> (step: Step<AdeptInformation>)
    ensures
        step@ == adept_information_step(
            replies_view(replies@),
            device.deep_view(),
            activation.deep_view(),
            result_view(sub),
        ),
{
    if replies.len() == 0 {
        let mut args: Vec<String> = Vec::new();
        args.push(String::from_str("query"));
        args.push(String::from_str(DEVICE_KEY_PATH));
        args.push(String::from_str("/v"));
        args.push(String::from_str("key"));
        assert(texts(args@) =~= seq!["query"@, DEVICE_KEY_PATH@, "/v"@, "key"@]);
        return ask_run("reg", args);
    }
    match &replies[0] {
        Reply::Output(_) => {},
        Reply::Failed(reason) => {
            return command_failed(reason);
        },
        _ => {
            return unexpected_reply();
        },
    }
    let device_key = match required_group(device, "adept device key") {
        Ok(device_key) => device_key,
        Err(e) => {
            return Step::Done(Err(e));
        },
    };
    if replies.len() == 1 {
        let mut args: Vec<String> = Vec::new();
        args.push(String::from_str("query"));
        args.push(String::from_str(ACTIVATION_KEY_PATH));
        args.push(String::from_str("/s"));
        assert(texts(args@) =~= seq!["query"@, ACTIVATION_KEY_PATH@, "/s"@]);
        return ask_run("reg", args);
    }
    match &replies[1] {
        Reply::Output(_) => {},
        Reply::Failed(reason) => {
            return command_failed(reason);
        },
        _ => {
            return unexpected_reply();
        },
    }
    let number = match required_group(activation, "adept sub-entry list") {
        Ok(number) => number,
        Err(e) => {
            return Step::Done(Err(e));
        },
    };
    if replies.len() == 2 {
        let mut credentials_path = join(ACTIVATION_KEY_PATH, "\\");
        credentials_path.append(number.as_str());
        let mut args: Vec<String> = Vec::new();
        args.push(String::from_str("query"));
        args.push(credentials_path);
        args.push(String::from_str("/s"));
        assert(texts(args@) =~= seq!["query"@, ACTIVATION_KEY_PATH@ + "\\"@ + number@, "/s"@]);
        return ask_run("reg", args);
    }
    match &replies[2] {
        Reply::Output(_) => {},
        Reply::Failed(reason) => {
            return command_failed(reason);
        },
        _ => {
            return unexpected_reply();
        },
    }
    match sub {
        Ok(sub_info) => Step::Done(
            Ok(
                AdeptInformation {
                    device_key,
                    key: sub_info.key,
                    user: sub_info.user,
                    username: sub_info.username,
                },
            ),
        ),
        Err(e) => Step::Done(Err(e)),
    }
}

/// Retrieves the stored credentials: says what to run next after the replies
/// so far, or ends with the [`AdeptInformation`].
///
/// Each output that has come is searched with its pattern. Where a pattern
/// is refused the inquiry ends with the error of [`pattern_rejected`].
pub fn get_adept_information(replies: &[Reply]) -> (step: Step<AdeptInformation>)
    ensures
        step@ == adept_information_found(replies_view(replies@)) || (replies@.len() > 0 && step@
            == StepView::<AdeptInformationView>::Done(Err(pattern_rejected()))),
{
    let device = match search_output(replies, 0, ADEPT_DEVICE_KEY_PATTERN) {
        Ok(found) => found,
        Err(e) => {
            return Step::Done(Err(e));
        },
    };
    let activation = match search_output(replies, 1, ADEPT_ACTIVATION_SUBENTRY_PATTERN) {
        Ok(found) => found,
        Err(e) => {
            return Step::Done(Err(e));
        },
    };
    let sub = if replies.len() > 2 {
        match &replies[2] {
            Reply::Output(text) => get_adept_information_subentries(text.as_str()),
            _ => Err(ExtractorError::no_adept_reg_key("user")),
        }
    } else {
        Err(ExtractorError::no_adept_reg_key("user"))
    };
    adept_information_next(replies, &device, &activation, sub)
}

} // verus!
