use candid::Principal;
use rustic::identity::Identity;
use rustic::inter_canister::failure_message;
use rustic::inter_canister::prepare_request;
use rustic::inter_canister::process_response;
use rustic::inter_canister::request_of;
use rustic::inter_canister::response_of;
use rustic::inter_canister::RejectionCode;
use rustic::testing::MOCK_CANISTER_0;
use rustic::utils::not_anonymous;

fn callee() -> Identity {
    Identity::from_text("rrkah-fqaaa-aaaaa-aaaaq-cai").unwrap()
}

fn encode(n: u32) -> Result<Vec<u8>, String> {
    if n < 256 {
        Ok(vec![n as u8])
    } else {
        Err(format!("{:?}", "too large"))
    }
}

fn decode(bytes: &[u8]) -> Result<u32, String> {
    if bytes.len() == 1 {
        Ok(bytes[0] as u32)
    } else {
        Err(format!("{:?}", bytes.len()))
    }
}

#[test]
fn request_carries_the_encoded_arguments() {
    assert_eq!(prepare_request(&callee(), "greet", 42, encode), Ok(vec![42]));
    assert_eq!(request_of(&callee(), "greet", Ok(vec![1, 2, 3])), Ok(vec![1, 2, 3]));
}

#[test]
fn request_names_callee_and_method_when_encoding_fails() {
    let expected = "SER Error calling \"rrkah-fqaaa-aaaaa-aaaaq-cai\" \"greet\": \"too large\"";
    assert_eq!(
        prepare_request(&callee(), "greet", 1000, encode),
        Err((RejectionCode::CanisterError, expected.to_string()))
    );
    let principal = Principal::from_text("rrkah-fqaaa-aaaaa-aaaaq-cai").unwrap();
    assert_eq!(
        expected,
        format!("SER Error calling {:?} {:?}: {:?}", principal.to_string(), "greet", "too large")
    );
}

#[test]
fn method_names_are_quoted_with_escapes() {
    let method = "say \"hi\"\n";
    let canister = Identity::from_text(MOCK_CANISTER_0).unwrap();
    let expected = format!(
        "SER Error calling {:?} {:?}: {}",
        MOCK_CANISTER_0, method, "broken"
    );
    assert_eq!(
        request_of(&canister, method, Err("broken".to_string())),
        Err((RejectionCode::CanisterError, expected))
    );
    assert_eq!(
        request_of(&Identity::anonymous(), "m", Err(String::new())),
        Err((RejectionCode::CanisterError, "SER Error calling \"2vxsx-fae\" \"m\": ".to_string()))
    );
}

#[test]
fn response_is_decoded() {
    assert_eq!(process_response(&callee(), "greet", Ok(vec![7]), decode), Ok(7));
    assert_eq!(response_of(&callee(), "greet", Ok::<u32, String>(9)), Ok(9));
}

#[test]
fn response_names_callee_and_method_when_decoding_fails() {
    assert_eq!(
        process_response(&callee(), "greet", Ok(vec![7, 8]), decode),
        Err((
            RejectionCode::CanisterError,
            "DES Error calling \"rrkah-fqaaa-aaaaa-aaaaq-cai\" \"greet\": 2".to_string()
        ))
    );
}

#[test]
fn rejection_is_handed_on() {
    for code in [
        RejectionCode::NoError,
        RejectionCode::SysFatal,
        RejectionCode::SysTransient,
        RejectionCode::DestinationInvalid,
        RejectionCode::CanisterReject,
        RejectionCode::CanisterError,
        RejectionCode::Unknown,
    ] {
        assert_eq!(
            process_response(&callee(), "greet", Err((code, "no".to_string())), decode),
            Err((code, "no".to_string()))
        );
    }
}

#[test]
fn failure_message_joins_its_parts() {
    assert_eq!(failure_message("SER", "a", "b", "c"), "SER Error calling a b: c");
    assert_eq!(failure_message("", "", "", ""), " Error calling  : ");
}

#[test]
fn anonymous_caller_guard() {
    assert_eq!(
        not_anonymous(&Identity::anonymous()),
        Err("Anonymous caller is not allowed".to_string())
    );
    assert_eq!(not_anonymous(&callee()), Ok(()));
    assert_eq!(not_anonymous(&Identity::from_slice(&[]).unwrap()), Ok(()));
}
