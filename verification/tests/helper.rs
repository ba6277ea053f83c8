use ade_extract_key::codec::encode_hex;
use ade_extract_key::error::ExtractorError;
use ade_extract_key::exchange::Reply;
use ade_extract_key::exchange::Request;
use ade_extract_key::exchange::Step;
use ade_extract_key::helper::find_result;
use ade_extract_key::helper::helper_result_line;
use ade_extract_key::helper::read_helper_output;
use ade_extract_key::helper::unprotect;

#[test]
fn helper_output_yields_the_sixteen_bytes() {
    let key = vec![
        0xAA, 0xBB, 0xCC, 0xDD, 0xEE, 0xFF, 0x00, 0x11, 0x22, 0x33, 0x44, 0x55, 0x66, 0x77, 0x88,
        0x99,
    ];
    assert_eq!(
        read_helper_output("decrypted \"aabbccddeeff00112233445566778899\""),
        Ok(key.clone())
    );
    assert_eq!(
        read_helper_output("decrypted \"aabbccddeeff00112233445566778899\"\n"),
        Ok(key)
    );
}

#[test]
fn helper_output_with_nothing_between_the_quotes_is_an_empty_key() {
    assert_eq!(read_helper_output("decrypted \"\""), Ok(Vec::<u8>::new()));
    assert_eq!(read_helper_output("decrypted \"\"\n"), Ok(Vec::<u8>::new()));
}

#[test]
fn helper_output_is_searched_line_by_line() {
    let output = "fixme:ntdll:something decrypted \"00\"\nentropy: \"4300\"\ndecrypted \"0102\"\nres 1\n";
    assert_eq!(read_helper_output(output), Ok(vec![1, 2]));
}

#[test]
fn helper_output_takes_the_first_result_line() {
    assert_eq!(read_helper_output("decrypted \"01\"\ndecrypted \"02\"\n"), Ok(vec![1]));
    assert_eq!(
        read_helper_output("decrypted \"zz\"\ndecrypted \"02\"\n"),
        Err(ExtractorError::UnprotectOutputUnparseable)
    );
}

#[test]
fn helper_output_without_a_result_line_is_unparseable() {
    for output in [
        "",
        "\n",
        "Decryption failed\n",
        "decrypted \"0102",
        "decrypted 0102",
        " decrypted \"0102\"",
        "decrypted \"0102\" ",
        "decrypted \"0102\"\r\n",
        "decrypted  \"0102\"",
        "Decrypted \"0102\"",
        "decrypted \"01\"02\"",
        "decrypted \"01\n02\"",
        "decrypted \"",
    ] {
        assert_eq!(
            read_helper_output(output),
            Err(ExtractorError::UnprotectOutputUnparseable),
            "{:?}",
            output
        );
    }
}

#[test]
fn helper_output_with_a_payload_that_is_not_hexadecimal_is_unparseable() {
    for output in ["decrypted \"xyz\"", "decrypted \"012\"", "decrypted \"01 02\""] {
        assert_eq!(
            read_helper_output(output),
            Err(ExtractorError::UnprotectOutputUnparseable),
            "{:?}",
            output
        );
    }
}

#[test]
fn find_result_agrees_with_the_pattern_of_a_result_line() {
    let pattern = regex::Regex::new("(?m)^decrypted \"([^\"\n]*)\"$").unwrap();
    let pieces = ["decrypted \"", "0a", "\"", "\n", " ", "decrypted", "\r", "x"];
    // every text made of up to five of the pieces
    let mut texts: Vec<String> = vec![String::new()];
    let mut last: Vec<String> = vec![String::new()];
    for _ in 0..5 {
        let mut next: Vec<String> = Vec::new();
        for text in &last {
            for piece in pieces {
                next.push(format!("{}{}", text, piece));
            }
        }
        texts.extend(next.iter().cloned());
        last = next;
    }
    assert_eq!(texts.len(), 1 + 8 + 64 + 512 + 4096 + 32768);
    for text in &texts {
        let expected = pattern.captures(text).map(|c| c.get(1).unwrap().range());
        let found = find_result(text.as_bytes()).map(|(from, to)| from..to);
        assert_eq!(found, expected, "{:?}", text);
    }
}

#[test]
fn find_result_gives_the_place_of_the_payload() {
    assert_eq!(find_result(b"decrypted \"0102\""), Some((11, 15)));
    assert_eq!(find_result(b"x\ndecrypted \"\"\n"), Some((13, 13)));
    assert_eq!(find_result(b"x\ny\n"), None);
}

#[test]
fn helper_result_line_is_read_back() {
    let key: Vec<u8> = (0u8..16).collect();
    let line = helper_result_line(&key);
    assert_eq!(line, "decrypted \"000102030405060708090a0b0c0d0e0f\"");
    assert_eq!(read_helper_output(&line), Ok(key.clone()));
    assert_eq!(read_helper_output(&format!("{}\n", line)), Ok(key));
    assert_eq!(helper_result_line(&[]), "decrypted \"\"");
}

#[test]
fn unprotect_first_looks_for_the_helper() {
    assert_eq!(
        unprotect("4300", "0102", &[]),
        Step::Ask(Request::Probe("./ade-extract-winapi-bin.exe".to_string()))
    );
}

#[test]
fn unprotect_does_not_run_a_missing_helper() {
    let replies = [Reply::Missing("/home/bob".to_string())];
    assert_eq!(
        unprotect("4300", "0102", &replies),
        Step::Done(Err(ExtractorError::HelperNotFound(
            "ade-extract-winapi-bin.exe",
            "/home/bob".to_string()
        )))
    );
    // whatever is claimed to have followed
    let replies =
        [Reply::Missing("/home/bob".to_string()), Reply::Output("decrypted \"00\"".to_string())];
    assert_eq!(
        unprotect("4300", "0102", &replies),
        Step::Done(Err(ExtractorError::HelperNotFound(
            "ade-extract-winapi-bin.exe",
            "/home/bob".to_string()
        )))
    );
}

#[test]
fn unprotect_runs_the_helper_with_both_texts() {
    assert_eq!(
        unprotect("4300", "0102", &[Reply::Present]),
        Step::Ask(Request::Run {
            program: "ade-extract-winapi-bin.exe".to_string(),
            args: vec!["4300".to_string(), "0102".to_string()],
        })
    );
}

#[test]
fn unprotect_reads_what_the_helper_printed() {
    let key: Vec<u8> = (0u8..16).collect();
    let output = format!("before CryptUnprotectData\ndecrypted \"{}\"\n", encode_hex(&key));
    assert_eq!(
        unprotect("4300", "0102", &[Reply::Present, Reply::Output(output)]),
        Step::Done(Ok(key))
    );
    assert_eq!(
        unprotect("4300", "0102", &[Reply::Present, Reply::Output("Decryption failed".to_string())]),
        Step::Done(Err(ExtractorError::UnprotectOutputUnparseable))
    );
}

#[test]
fn unprotect_reports_a_helper_that_could_not_be_run() {
    assert_eq!(
        unprotect("4300", "0102", &[Reply::Present, Reply::Failed("no wine".to_string())]),
        Step::Done(Err(ExtractorError::HelperExecutionFailed("no wine".to_string())))
    );
}

#[test]
fn unprotect_refuses_replies_out_of_place() {
    let unexpected = ExtractorError::AssertionFailed(
        "a reply does not answer the request that was made".to_string(),
    );
    assert_eq!(
        unprotect("4300", "0102", &[Reply::Output("decrypted \"00\"".to_string())]),
        Step::Done(Err(unexpected))
    );
    assert!(matches!(
        unprotect("4300", "0102", &[Reply::Present, Reply::Present]),
        Step::Done(Err(ExtractorError::AssertionFailed(_)))
    ));
    assert!(matches!(
        unprotect("4300", "0102", &[Reply::Printed]),
        Step::Done(Err(ExtractorError::AssertionFailed(_)))
    ));
}
