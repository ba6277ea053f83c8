//! The first stage: a helper program unprotects the device key.
//!
//! The helper is a program of the target system. It is started with two
//! arguments, the entropy buffer and the protected device key, both as
//! hexadecimal text, and prints the unprotected key on a line of its own:
//! the word `decrypted`, a space, and the key as hexadecimal text between
//! double quotes.

use crate::codec::decode_hex_bytes;
use crate::codec::encode_hex;
use crate::codec::hex_bytes;
use crate::codec::hex_text;
use crate::codec::is_hex_text;
use crate::codec::is_lower_hex_digit;
use crate::codec::lemma_hex_round_trip;
use crate::codec::lemma_hex_text_shape;
use crate::error::result_view;
use crate::error::ErrorView;
use crate::error::ExtractorError;
use crate::exchange::command_failed;
use crate::exchange::replies_view;
use crate::exchange::unexpected_reply;
use crate::exchange::Reply;
use crate::exchange::ReplyView;
use crate::exchange::Request;
use crate::exchange::RequestView;
use crate::exchange::Step;
use crate::exchange::StepView;
use crate::exchange::UNEXPECTED_REPLY;
use vstd::prelude::*;
use vstd::string::StringExecFns;
use vstd::string::StringSliceAdditionalSpecFns;
use vstd::utf8::encode_utf8;
use vstd::utf8::is_ascii_chars_encode_utf8;

verus! {

/// The byte that ends a line.
pub const NEWLINE: u8 = 0x0a;

/// The double quote.
pub const QUOTE: u8 = 0x22;

/// How a result line begins: the bytes of `decrypted "`.
pub const RESULT_PREFIX: [u8; 11] = [
    0x64,
    0x65,
    0x63,
    0x72,
    0x79,
    0x70,
    0x74,
    0x65,
    0x64,
    0x20,
    0x22,
];

/// A result line: `decrypted "`, then any bytes but quotes, then a quote, and
/// nothing before or after.
pub open spec fn is_result_line(line: Seq<u8>) -> bool {
    &&& line.len() >= 12
    &&& line.take(11) == RESULT_PREFIX@
    &&& line.last() == QUOTE
    &&& forall|i: int| 11 <= i < line.len() - 1 ==> line[i] != QUOTE
}

/// What stands between the quotes of a result line.
pub open spec fn line_payload(line: Seq<u8>) -> Seq<u8> {
    line.subrange(11, line.len() - 1)
}

/// The result line for a payload.
pub open spec fn result_line(payload: Seq<u8>) -> Seq<u8> {
    RESULT_PREFIX@ + payload + seq![QUOTE]
}

/// Where the line that begins at `from` ends: at the next newline, or at the
/// end of the text.
pub open spec fn line_end(text: Seq<u8>, from: int) -> int
    decreases text.len() - from,
{
    if from >= text.len() {
        text.len() as int
    } else if text[from] == NEWLINE {
        from
    } else {
        line_end(text, from + 1)
    }
}

/// The payload of the first result line among the lines of `text` from the
/// one that begins at `from`; `None` where none of them is a result line.
pub open spec fn payload_from(text: Seq<u8>, from: int) -> Option<Seq<u8>>
    decreases text.len() - from,
{
    if from < 0 || from > text.len() {
        None
    } else {
        let end = line_end(text, from);
        let line = text.subrange(from, end);
        if is_result_line(line) {
            Some(line_payload(line))
        } else if from <= end < text.len() {
            payload_from(text, end + 1)
        } else {
            None
        }
    }
}

/// The payload of the first result line of `text`.
pub open spec fn result_payload(text: Seq<u8>) -> Option<Seq<u8>> {
    payload_from(text, 0)
}

/// The unprotected key that the helper's output holds: the bytes that the
/// payload of its first result line stands for. An output without a result
/// line holds none, nor does one whose first result line has a payload that
/// is not hexadecimal.
pub open spec fn key_in_output(output: Seq<u8>) -> Result<Seq<u8>, ErrorView> {
    match result_payload(output) {
        Some(payload) if is_hex_text(payload) => Ok(hex_bytes(payload)),
        _ => Err(ErrorView::UnprotectOutputUnparseable),
    }
}

/// A line ends at or after its beginning, within the text, and holds no
/// newline.
pub proof fn lemma_line_end(text: Seq<u8>, from: int)
    requires
        0 <= from <= text.len(),
    ensures
        from <= line_end(text, from) <= text.len(),
        line_end(text, from) < text.len() ==> text[line_end(text, from)] == NEWLINE,
        forall|i: int| from <= i < line_end(text, from) ==> text[i] != NEWLINE,
    decreases text.len() - from,
{
    if from < text.len() && text[from] != NEWLINE {
        lemma_line_end(text, from + 1);
    }
}

/// The line that begins at `from` ends at `end` if no newline stands between
/// the two and `end` is a newline or the end of the text.
pub proof fn lemma_line_end_unique(text: Seq<u8>, from: int, end: int)
    requires
        0 <= from <= end <= text.len(),
        forall|i: int| from <= i < end ==> text[i] != NEWLINE,
        end == text.len() || text[end] == NEWLINE,
    ensures
        line_end(text, from) == end,
    decreases end - from,
{
    if from < end {
        lemma_line_end_unique(text, from + 1, end);
    }
}

/// `text[start..end]` is one whole line of `text`: it begins the text or
/// follows a newline, holds none, and a newline or the end of the text
/// follows it.
pub open spec fn is_line(text: Seq<u8>, start: int, end: int) -> bool {
    &&& 0 <= start <= end <= text.len()
    &&& (start == 0 || text[start - 1] == NEWLINE)
    &&& (end == text.len() || text[end] == NEWLINE)
    &&& forall|i: int| start <= i < end ==> text[i] != NEWLINE
}

/// [`payload_from`] finds the earliest result line at or after a line's
/// beginning, and finds none only where there is none.
proof fn lemma_payload_from(text: Seq<u8>, from: int)
    requires
        0 <= from <= text.len(),
        from == 0 || text[from - 1] == NEWLINE,
    ensures
        match payload_from(text, from) {
            Some(payload) => exists|s: int, e: int|
                {
                    &&& from <= s
                    &&& #[trigger] is_line(text, s, e)
                    &&& is_result_line(text.subrange(s, e))
                    &&& payload == line_payload(text.subrange(s, e))
                    &&& forall|s2: int, e2: int|
                        from <= s2 < s && #[trigger] is_line(text, s2, e2) ==> !is_result_line(
                            text.subrange(s2, e2),
                        )
                },
            None => forall|s: int, e: int|
                from <= s && #[trigger] is_line(text, s, e) ==> !is_result_line(
                    text.subrange(s, e),
                ),
        },
    decreases text.len() - from,
{
    let end = line_end(text, from);
    lemma_line_end(text, from);
    assert(is_line(text, from, end));
    // a line that begins at or after `from` is this one or begins after it ends
    assert forall|s2: int, e2: int| from <= s2 && #[trigger] is_line(text, s2, e2) implies (s2
        == from && e2 == end) || s2 > end by {
        if s2 == from {
            if e2 < end {
                assert(text[e2] == NEWLINE);
            } else if e2 > end {
                assert(text[end] == NEWLINE);
            }
        } else if s2 <= end {
            assert(text[s2 - 1] == NEWLINE);
        }
    }
    let line = text.subrange(from, end);
    if is_result_line(line) {
        assert(payload_from(text, from) == Some(line_payload(line)));
    } else if end < text.len() {
        lemma_payload_from(text, end + 1);
        match payload_from(text, end + 1) {
            Some(payload) => {
                let (s, e): (int, int) = choose|s: int, e: int|
                    {
                        &&& end + 1 <= s
                        &&& #[trigger] is_line(text, s, e)
                        &&& is_result_line(text.subrange(s, e))
                        &&& payload == line_payload(text.subrange(s, e))
                        &&& forall|s2: int, e2: int|
                            end + 1 <= s2 < s && #[trigger] is_line(text, s2, e2)
                                ==> !is_result_line(text.subrange(s2, e2))
                    };
                assert(from <= s && is_line(text, s, e));
                assert forall|s2: int, e2: int|
                    from <= s2 < s && #[trigger] is_line(text, s2, e2) implies !is_result_line(
                    text.subrange(s2, e2),
                ) by {
                    if s2 == from {
                        assert(e2 == end);
                    }
                }
            },
            None => {
                assert forall|s: int, e: int|
                    from <= s && #[trigger] is_line(text, s, e) implies !is_result_line(
                    text.subrange(s, e),
                ) by {
                    if s == from {
                        assert(e == end);
                    }
                }
            },
        }
    } else {
        assert forall|s: int, e: int|
            from <= s && #[trigger] is_line(text, s, e) implies !is_result_line(
            text.subrange(s, e),
        ) by {
            if s == from {
                assert(e == end);
            }
        }
    }
}

/// The payload that is read from an output is that of its earliest result
/// line, and none is read only where no line of the output is a result line.
pub proof fn lemma_result_payload_is_first(text: Seq<u8>)
    ensures
        match result_payload(text) {
            Some(payload) => exists|s: int, e: int|
                {
                    &&& #[trigger] is_line(text, s, e)
                    &&& is_result_line(text.subrange(s, e))
                    &&& payload == line_payload(text.subrange(s, e))
                    &&& forall|s2: int, e2: int|
                        s2 < s && #[trigger] is_line(text, s2, e2) ==> !is_result_line(
                            text.subrange(s2, e2),
                        )
                },
            None => forall|s: int, e: int| #[trigger]
                is_line(text, s, e) ==> !is_result_line(text.subrange(s, e)),
        },
{
    lemma_payload_from(text, 0);
    match result_payload(text) {
        Some(payload) => {
            let (s, e): (int, int) = choose|s: int, e: int|
                {
                    &&& 0 <= s
                    &&& #[trigger] is_line(text, s, e)
                    &&& is_result_line(text.subrange(s, e))
                    &&& payload == line_payload(text.subrange(s, e))
                    &&& forall|s2: int, e2: int|
                        0 <= s2 < s && #[trigger] is_line(text, s2, e2) ==> !is_result_line(
                            text.subrange(s2, e2),
                        )
                };
            assert(is_line(text, s, e));
        },
        None => {},
    }
}

/// A result line, alone or with a newline after it, is read back as its
/// payload, provided that the payload holds no quote and no newline.
pub proof fn lemma_result_line_round_trip(payload: Seq<u8>)
    requires
        forall|i: int| 0 <= i < payload.len() ==> payload[i] != QUOTE && payload[i] != NEWLINE,
    ensures
        is_result_line(result_line(payload)),
        line_payload(result_line(payload)) == payload,
        result_payload(result_line(payload)) == Some(payload),
        result_payload(result_line(payload) + seq![NEWLINE]) == Some(payload),
{
    let line = result_line(payload);
    let n = line.len() as int;
    assert(line.take(11) =~= RESULT_PREFIX@);
    assert(line_payload(line) =~= payload);
    assert forall|i: int| 0 <= i < n implies line[i] != NEWLINE by {
        if 11 <= i < n - 1 {
            assert(line[i] == payload[i - 11]);
        }
    }
    assert forall|i: int| 11 <= i < n - 1 implies line[i] != QUOTE by {
        assert(line[i] == payload[i - 11]);
    }
    lemma_line_end_unique(line, 0, n);
    assert(line.subrange(0, n) =~= line);
    let longer = line + seq![NEWLINE];
    lemma_line_end_unique(longer, 0, n);
    assert(longer.subrange(0, n) =~= line);
}

/// What the helper prints for a key is read back as that key.
pub proof fn lemma_helper_round_trip(key: Seq<u8>)
    ensures
        key_in_output(result_line(hex_text(key))) == Ok::<Seq<u8>, ErrorView>(key),
        key_in_output(result_line(hex_text(key)) + seq![NEWLINE]) == Ok::<Seq<u8>, ErrorView>(key),
{
    lemma_hex_text_shape(key);
    lemma_hex_round_trip(key);
    assert forall|i: int| 0 <= i < hex_text(key).len() implies hex_text(key)[i] != QUOTE
        && hex_text(key)[i] != NEWLINE by {
        assert(is_lower_hex_digit(hex_text(key)[i]));
    }
    lemma_result_line_round_trip(hex_text(key));
}

/// Tells whether `text[start..end]` is a result line.
fn check_result_line(text: &[u8], start: usize, end: usize) -> (found: bool)
    requires
        start <= end <= text@.len(),
    ensures
        found == is_result_line(text@.subrange(start as int, end as int)),
{
    let ghost line = text@.subrange(start as int, end as int);
    if end - start < 12 {
        return false;
    }
    let mut i: usize = 0;
    while i < 11
        invariant
            i <= 11,
            start + 12 <= end <= text@.len(),
            line == text@.subrange(start as int, end as int),
            forall|k: int| 0 <= k < i ==> line[k] == RESULT_PREFIX@[k],
        decreases 11 - i,
    {
        if text[start + i] != RESULT_PREFIX[i] {
            assert(line.take(11)[i as int] != RESULT_PREFIX@[i as int]);
            return false;
        }
        i += 1;
    }
    assert(line.take(11) =~= RESULT_PREFIX@);
    if text[end - 1] != QUOTE {
        return false;
    }
    let mut j: usize = start + 11;
    while j < end - 1
        invariant
            start + 11 <= j <= end - 1,
            end <= text@.len(),
            line == text@.subrange(start as int, end as int),
            forall|k: int| 11 <= k < j - start ==> line[k] != QUOTE,
        decreases end - j,
    {
        if text[j] == QUOTE {
            assert(line[j - start] == QUOTE);
            return false;
        }
        j += 1;
    }
    true
}

/// Finds the first result line in what the helper printed, and gives the
/// place of its payload: the payload is `output[r.0..r.1]`.
pub fn find_result(output: &[u8]) -> (r: Option<(usize, usize)>)
    ensures
        match r {
            Some((from, to)) => from <= to <= output@.len() && result_payload(output@) == Some(
                output@.subrange(from as int, to as int),
            ),
            None => result_payload(output@) is None,
        },
{
    let mut start: usize = 0;
    loop
        invariant
            start <= output@.len(),
            result_payload(output@) == payload_from(output@, start as int),
        decreases output@.len() - start,
    {
        let mut end: usize = start;
        while end < output.len() && output[end] != NEWLINE
            invariant
                start <= end <= output@.len(),
                line_end(output@, start as int) == line_end(output@, end as int),
            decreases output@.len() - end,
        {
            end += 1;
        }
        if check_result_line(output, start, end) {
            assert(output@.subrange(start as int, end as int).subrange(11, end - start - 1)
                =~= output@.subrange(start + 11, end - 1));
            return Some((start + 11, end - 1));
        }
        if end >= output.len() {
            return None;
        }
        start = end + 1;
    }
}

/// Reads the unprotected key from what the helper printed. The first line of
/// the form `decrypted "<text>"` counts, whatever else was printed. Fails with
/// [`ExtractorError::UnprotectOutputUnparseable`] where there is no such line
/// or its text is not hexadecimal. The length of the key is not looked at
/// here.
pub fn read_helper_output(output: &str) -> (r: Result<Vec<u8>, ExtractorError>)
    ensures
        result_view(r) == key_in_output(output.spec_bytes()),
{
    let bytes = output.as_bytes();
    match find_result(bytes) {
        None => Err(ExtractorError::UnprotectOutputUnparseable),
        Some((from, to)) => {
            let payload = vstd::slice::slice_subrange(bytes, from, to);
            match decode_hex_bytes(payload) {
                Ok(key) => Ok(key),
                Err(_) => Err(ExtractorError::UnprotectOutputUnparseable),
            }
        },
    }
}

/// The line that the helper prints for an unprotected key: `decrypted "`,
/// the key as hexadecimal text, and a closing quote. The newline is left to
/// whoever prints it.
pub fn helper_result_line(key: &[u8]) -> (line: String)
    ensures
        encode_utf8(line@) == result_line(hex_text(key@)),
{
    let hex = encode_hex(key);
    let mut line = String::from_str("decrypted \"");
    line.append(hex.as_str());
    line.append("\"");
    proof {
        reveal_strlit("decrypted \"");
        reveal_strlit("\"");
        lemma_hex_text_shape(key@);
        let expected = result_line(hex_text(key@));
        assert(line@.len() == expected.len());
        assert forall|i: int| 0 <= i < line@.len() implies '\0' <= #[trigger] line@[i] <= '\u{7f}'
            && line@[i] as u8 == expected[i] by {
            if 11 <= i < line@.len() - 1 {
                assert(line@[i] == hex@[i - 11]);
                assert(hex_text(key@)[i - 11] < 0x80);
            }
        }
        is_ascii_chars_encode_utf8(line@);
        assert(encode_utf8(line@) =~= expected);
    }
    line
}

/// The helper's file name.
pub const HELPER_NAME: &'static str = "ade-extract-winapi-bin.exe";

/// Where the helper is looked for: in the working directory.
pub const HELPER_PATH: &'static str = "./ade-extract-winapi-bin.exe";

/// The exchange with the helper, by the replies so far.
///
/// First the helper is looked for. If it is missing, that ends the exchange:
/// it is never run. If it is there it is run with the two hexadecimal texts
/// as arguments, and what it printed is read for the key.
pub open spec fn unprotect_step(
    entropy_hex: Seq<char>,
    device_key_hex: Seq<char>,
    replies: Seq<ReplyView>,
) -> StepView<Seq<u8>> {
    if replies.len() == 0 {
        StepView::Ask(RequestView::Probe(HELPER_PATH@))
    } else {
        match replies[0] {
            ReplyView::Missing(dir) => StepView::Done(
                Err(ErrorView::HelperNotFound(HELPER_NAME@, dir)),
            ),
            ReplyView::Present => if replies.len() == 1 {
                StepView::Ask(
                    RequestView::Run {
                        program: HELPER_NAME@,
                        args: seq![entropy_hex, device_key_hex],
                    },
                )
            } else {
                match replies[1] {
                    ReplyView::Output(text) => StepView::Done(key_in_output(encode_utf8(text))),
                    ReplyView::Failed(reason) => StepView::Done(
                        Err(ErrorView::HelperExecutionFailed(reason)),
                    ),
                    _ => StepView::Done(Err(ErrorView::AssertionFailed(UNEXPECTED_REPLY@))),
                }
            },
            _ => StepView::Done(Err(ErrorView::AssertionFailed(UNEXPECTED_REPLY@))),
        }
    }
}

/// The helper is run only after it was found, and a missing helper ends the
/// exchange with [`ErrorView::HelperNotFound`].
pub proof fn lemma_helper_is_probed_first(
    entropy_hex: Seq<char>,
    device_key_hex: Seq<char>,
    replies: Seq<ReplyView>,
)
    ensures
        unprotect_step(entropy_hex, device_key_hex, replies) matches StepView::Ask(
            RequestView::Run { .. },
        ) ==> replies == seq![ReplyView::Present],
        replies.len() > 0 ==> (replies[0] matches ReplyView::Missing(dir) ==> unprotect_step(
            entropy_hex,
            device_key_hex,
            replies,
        ) == StepView::<Seq<u8>>::Done(Err(ErrorView::HelperNotFound(HELPER_NAME@, dir)))),
{
    if unprotect_step(entropy_hex, device_key_hex, replies) matches StepView::Ask(
        RequestView::Run { .. },
    ) {
        assert(replies =~= seq![ReplyView::Present]);
    }
}

/// The exchange with the helper ends after two replies at the latest.
pub proof fn lemma_unprotect_ends(
    entropy_hex: Seq<char>,
    device_key_hex: Seq<char>,
    replies: Seq<ReplyView>,
)
    requires
        replies.len() >= 2,
    ensures
        unprotect_step(entropy_hex, device_key_hex, replies) is Done,
{
}

/// Unprotects the device key through the helper: says what to do next after
/// the replies so far, or ends with the unprotected key. The key's length is
/// not looked at here.
pub fn unprotect(entropy_hex: &str, device_key_hex: &str, replies: &[Reply]) -> (step: Step<
    Vec<u8>,
>)
    ensures
        step@ == unprotect_step(entropy_hex@, device_key_hex@, replies_view(replies@)),
{
    if replies.len() == 0 {
        return Step::Ask(Request::Probe(String::from_str(HELPER_PATH)));
    }
    match &replies[0] {
        Reply::Missing(dir) => Step::Done(
            Err(ExtractorError::HelperNotFound(HELPER_NAME, dir.clone())),
        ),
        Reply::Present => {
            if replies.len() == 1 {
                let mut args: Vec<String> = Vec::new();
                args.push(String::from_str(entropy_hex));
                args.push(String::from_str(device_key_hex));
                assert(crate::exchange::texts(args@) =~= seq![entropy_hex@, device_key_hex@]);
                Step::Ask(Request::Run { program: String::from_str(HELPER_NAME), args })
            } else {
                match &replies[1] {
                    Reply::Output(text) => Step::Done(read_helper_output(text.as_str())),
                    Reply::Failed(reason) => command_failed(reason),
                    _ => unexpected_reply(),
                }
            }
        },
        _ => unexpected_reply(),
    }
}

} // verus!
