//! The interface-description rule: a JSON document with an `abi`
//! member is accepted, anything else is rejected with the right error.

use agaro_relay::abi::{extract_abi_value, AbiError};

#[test]
fn a_document_with_an_abi_member_is_accepted() {
    let doc = "{\"contractName\":\"EntryPoint\",\"abi\":[{\"type\":\"event\"}]}";
    let abi = extract_abi_value(doc).expect("document with an abi member");
    assert!(abi.is_array());
    assert_eq!(abi.as_array().unwrap().len(), 1);
}

#[test]
fn a_document_without_the_abi_member_is_rejected() {
    let doc = "{\"contractName\":\"EntryPoint\"}";
    assert_eq!(extract_abi_value(doc).unwrap_err(), AbiError::MissingAbiField);
}

#[test]
fn text_that_is_not_json_is_rejected() {
    assert_eq!(
        extract_abi_value("this is not json").unwrap_err(),
        AbiError::NotJson
    );
    assert_eq!(extract_abi_value("").unwrap_err(), AbiError::NotJson);
}

#[test]
fn a_non_object_document_has_no_abi_member() {
    assert_eq!(extract_abi_value("[1, 2, 3]").unwrap_err(), AbiError::MissingAbiField);
}

#[test]
fn only_a_top_level_abi_member_counts() {
    let doc = "{\"nested\":{\"abi\":[]}}";
    assert_eq!(extract_abi_value(doc).unwrap_err(), AbiError::MissingAbiField);
}

#[test]
fn the_abi_member_is_returned_as_it_stands() {
    let doc = "{\"abi\":[{\"type\":\"event\",\"name\":\"VoteSucceeded\"}],\"other\":1}";
    let abi = extract_abi_value(doc).expect("document with an abi member");
    assert_eq!(
        abi.get(0).and_then(|e| e.get("name")).and_then(|n| n.as_str()),
        Some("VoteSucceeded")
    );
}
