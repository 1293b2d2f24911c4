use keiko::manifest::{discover_world_address, extract_contract_args, world_address};
use keiko::KeikoError;

#[test]
fn a_manifest_with_an_address_yields_a_deployment_record() {
    let text = r#"{"world":{"address":"0xABC"}}"#;
    let rec = discover_world_address(text, "manifests/deployment.json").unwrap();
    assert_eq!(rec.address, "0xABC");
    assert_eq!(rec.manifest_path, "manifests/deployment.json");
}

#[test]
fn a_manifest_without_an_address_fails_discovery() {
    let text = r#"{"world":{}}"#;
    let r = discover_world_address(text, "manifests/deployment.json");
    assert_eq!(r.unwrap_err(), KeikoError::WorldAddressNotFound);
}

#[test]
fn a_malformed_manifest_fails_discovery() {
    let r = discover_world_address("not a manifest", "m.json");
    assert_eq!(r.unwrap_err(), KeikoError::SozoMigrateFailed);
    let r = discover_world_address(r#"{"world":{"address":"0x1"}"#, "m.json");
    assert_eq!(r.unwrap_err(), KeikoError::SozoMigrateFailed);
}

#[test]
fn unrelated_members_and_nesting_are_skipped() {
    let text = r#"
        {
            "version": 7,
            "flags": [true, false, null, 1.5e3],
            "world": { "name": "w1", "address": "0xFF", "meta": { "deep": [ {"x": "y"} ] } },
            "tail": "end"
        }
    "#;
    assert_eq!(world_address(text).unwrap(), "0xFF");
}

#[test]
fn string_escapes_are_decoded() {
    let text = "{\"world\":{\"address\":\"a\\\"b\\\\c\\nd\"}}";
    assert_eq!(world_address(text).unwrap(), "a\"b\\c\nd");
}

#[test]
fn an_unsupported_escape_is_malformed() {
    let text = "{\"world\":{\"address\":\"\\u0041\"}}";
    let r = discover_world_address(text, "m.json");
    assert_eq!(r.unwrap_err(), KeikoError::SozoMigrateFailed);
}

#[test]
fn the_first_of_two_equal_keys_wins() {
    let text = r#"{"world":{"address":"0x1","address":"0x2"}}"#;
    assert_eq!(world_address(text).unwrap(), "0x1");
}

#[test]
fn contracts_become_name_address_lines() {
    let text = r#"{"contracts":[{"name":"actions","address":"0x1"},{"address":"0x2","name":"world"}]}"#;
    let lines = extract_contract_args(text).unwrap();
    assert_eq!(lines, vec![String::from("actions=0x1"), String::from("world=0x2")]);
}

#[test]
fn an_empty_contract_list_yields_no_lines() {
    let lines = extract_contract_args(r#"{"contracts":[]}"#).unwrap();
    assert!(lines.is_empty());
}

#[test]
fn a_contract_without_its_strings_fails_extraction() {
    let r = extract_contract_args(r#"{"contracts":[{"name":"a"}]}"#);
    assert_eq!(r.unwrap_err(), KeikoError::SozoMigrateFailed);
    let r = extract_contract_args(r#"{"other":[]}"#);
    assert_eq!(r.unwrap_err(), KeikoError::SozoMigrateFailed);
}

#[test]
fn error_messages_name_the_failure() {
    assert_eq!(KeikoError::SozoMigrateFailed.message(), "sozo migrate failed");
    assert_eq!(KeikoError::WorldAddressNotFound.message(), "world address not found");
}
