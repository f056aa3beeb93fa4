use service_startup::decode::{DecodeError, JsonDecode};
use service_startup::deployment::DappDeployment;
use service_startup::hex::HexError;
use service_startup::hex_array::{Address, HexArray, ADDRESS_SIZE, HASH_SIZE};
use service_startup::json::Member;
use service_startup::loader::{read_json_file, ConfigError, FileRead};
use std::path::PathBuf;

const ADDRESS: &str = "0x1111111111111111111111111111111111111111";

fn block_hash() -> String {
    "0x".to_string() + &"22".repeat(32)
}

fn document() -> Vec<u8> {
    format!("{{\"address\": \"{}\", \"blockHash\": \"{}\"}}", ADDRESS, block_hash()).into_bytes()
}

fn load(path: &str, content: &str) -> Result<DappDeployment, ConfigError> {
    read_json_file(PathBuf::from(path), FileRead::Contents(content.as_bytes().to_vec()))
}

fn cause_of(content: &str) -> DecodeError {
    match load("deployment.json", content) {
        Err(ConfigError::JsonParseError { path, cause }) => {
            assert_eq!(path, PathBuf::from("deployment.json"));
            cause
        }
        other => panic!("expected a parse error, got {:?}", other),
    }
}

#[test]
fn loads_the_deployment_descriptor() {
    let loaded: DappDeployment =
        read_json_file(PathBuf::from("deployment.json"), FileRead::Contents(document())).unwrap();
    assert_eq!(loaded.dapp_address.inner(), &[0x11u8; 20]);
    assert_eq!(loaded.dapp_deploy_block_hash.inner(), &[0x22u8; 32]);
}

#[test]
fn loader_agrees_with_the_decoder() {
    let loaded: DappDeployment =
        read_json_file(PathBuf::from("deployment.json"), FileRead::Contents(document())).unwrap();
    assert_eq!(Ok(loaded), DappDeployment::decode(&document()));
}

#[test]
fn file_that_does_not_open_is_a_read_error_with_the_path() {
    let path = PathBuf::from("/no/such/directory/deployment.json");
    let res: Result<DappDeployment, ConfigError> = read_json_file(path.clone(), FileRead::Unopened);
    assert_eq!(res, Err(ConfigError::ReadFileError { path }));
}

#[test]
fn truncated_document_is_a_parse_error_with_the_path() {
    let path = PathBuf::from("broken.json");
    let content = b"{\"address\":".to_vec();
    let res: Result<DappDeployment, ConfigError> =
        read_json_file(path.clone(), FileRead::Contents(content));
    match res {
        Err(ConfigError::JsonParseError { path: reported, cause }) => {
            assert_eq!(reported, path);
            assert_eq!(
                cause,
                DecodeError::Syntax {
                    line: 1,
                    column: 11,
                    message: "EOF while parsing a value at line 1 column 11".to_string(),
                }
            );
        }
        other => panic!("expected a parse error, got {:?}", other),
    }
}

#[test]
fn syntax_error_carries_the_place_of_the_parser() {
    let cause = cause_of("{\n  \"address\": ?\n}");
    match cause {
        DecodeError::Syntax { line, column, message } => {
            assert_eq!(line, 2);
            assert_eq!(column, 14);
            assert_eq!(message, "expected value at line 2 column 14");
        }
        other => panic!("expected a syntax error, got {:?}", other),
    }
}

#[test]
fn missing_block_hash_is_a_parse_error() {
    let content = format!("{{\"address\": \"{}\"}}", ADDRESS);
    assert_eq!(cause_of(&content), DecodeError::MissingField { field: "blockHash" });
}

#[test]
fn missing_address_is_a_parse_error() {
    let content = format!("{{\"blockHash\": \"{}\"}}", block_hash());
    assert_eq!(cause_of(&content), DecodeError::MissingField { field: "address" });
}

#[test]
fn empty_object_misses_the_address_first() {
    assert_eq!(cause_of("{}"), DecodeError::MissingField { field: "address" });
}

#[test]
fn internal_field_names_are_not_wire_keys() {
    let content = format!(
        "{{\"dapp_address\": \"{}\", \"dapp_deploy_block_hash\": \"{}\"}}",
        ADDRESS,
        block_hash()
    );
    assert_eq!(cause_of(&content), DecodeError::MissingField { field: "address" });
}

#[test]
fn wire_keys_are_case_sensitive() {
    let content =
        format!("{{\"address\": \"{}\", \"blockhash\": \"{}\"}}", ADDRESS, block_hash());
    assert_eq!(cause_of(&content), DecodeError::MissingField { field: "blockHash" });
}

#[test]
fn member_of_another_type_is_refused() {
    let content = format!("{{\"address\": 17, \"blockHash\": \"{}\"}}", block_hash());
    assert_eq!(cause_of(&content), DecodeError::InvalidType { field: "address" });
    let content = format!("{{\"address\": \"{}\", \"blockHash\": null}}", ADDRESS);
    assert_eq!(cause_of(&content), DecodeError::InvalidType { field: "blockHash" });
    let content = format!("{{\"address\": \"{}\", \"blockHash\": [\"{}\"]}}", ADDRESS, block_hash());
    assert_eq!(cause_of(&content), DecodeError::InvalidType { field: "blockHash" });
}

#[test]
fn text_that_is_not_hexadecimal_is_refused() {
    let content = format!("{{\"address\": \"0xnothex\", \"blockHash\": \"{}\"}}", block_hash());
    assert_eq!(
        cause_of(&content),
        DecodeError::InvalidHex {
            field: "address",
            fault: HexError::InvalidCharacter { index: 2 }
        }
    );
    let content = format!("{{\"address\": \"{}\", \"blockHash\": \"0x123\"}}", ADDRESS);
    assert_eq!(
        cause_of(&content),
        DecodeError::InvalidHex { field: "blockHash", fault: HexError::OddLength }
    );
}

#[test]
fn value_of_the_wrong_width_is_refused() {
    let content = format!("{{\"address\": \"{}\", \"blockHash\": \"{}\"}}", block_hash(), block_hash());
    assert_eq!(
        cause_of(&content),
        DecodeError::InvalidHex {
            field: "address",
            fault: HexError::IncorrectSize { found: 32 }
        }
    );
    let content = format!("{{\"address\": \"{}\", \"blockHash\": \"{}\"}}", ADDRESS, ADDRESS);
    assert_eq!(
        cause_of(&content),
        DecodeError::InvalidHex {
            field: "blockHash",
            fault: HexError::IncorrectSize { found: 20 }
        }
    );
}

#[test]
fn fault_of_the_address_is_reported_first() {
    assert_eq!(
        cause_of("{\"blockHash\": 1, \"address\": 2}"),
        DecodeError::InvalidType { field: "address" }
    );
}

#[test]
fn unknown_keys_are_ignored() {
    let content = format!(
        "{{\"abi\": [1, {{\"x\": null}}], \"address\": \"{}\", \"blockHash\": \"{}\", \"transactionIndex\": 0}}",
        ADDRESS,
        block_hash()
    );
    let loaded = load("deployment.json", &content).unwrap();
    assert_eq!(loaded.dapp_address.inner(), &[0x11u8; 20]);
    assert_eq!(loaded.dapp_deploy_block_hash.inner(), &[0x22u8; 32]);
}

#[test]
fn text_without_prefix_is_accepted() {
    let content = format!(
        "{{\"address\": \"{}\", \"blockHash\": \"{}\"}}",
        "AB".repeat(20),
        "cd".repeat(32)
    );
    let loaded = load("deployment.json", &content).unwrap();
    assert_eq!(loaded.dapp_address.inner(), &[0xabu8; 20]);
    assert_eq!(loaded.dapp_deploy_block_hash.inner(), &[0xcdu8; 32]);
}

#[test]
fn document_that_is_no_object_is_refused() {
    for content in ["[]", "null", "17", "\"address\"", "", "   "] {
        match cause_of(content) {
            DecodeError::Syntax { .. } => {}
            other => panic!("expected a syntax error for {:?}, got {:?}", content, other),
        }
    }
}

#[test]
fn trailing_text_is_refused() {
    let content = String::from_utf8(document()).unwrap() + " {}";
    match cause_of(&content) {
        DecodeError::Syntax { line, .. } => assert_eq!(line, 1),
        other => panic!("expected a syntax error, got {:?}", other),
    }
}

#[test]
fn content_that_is_not_text_is_refused() {
    let res: Result<DappDeployment, ConfigError> = read_json_file(
        PathBuf::from("binary.json"),
        FileRead::Contents(vec![0xff, 0xfe, 0x00, 0x7b]),
    );
    match res {
        Err(ConfigError::JsonParseError { path, cause: DecodeError::Syntax { .. } }) => {
            assert_eq!(path, PathBuf::from("binary.json"))
        }
        other => panic!("expected a syntax error, got {:?}", other),
    }
}

#[test]
fn interrupted_read_is_a_parse_error_with_the_path() {
    let path = PathBuf::from("deployment.json");
    let res: Result<DappDeployment, ConfigError> =
        read_json_file(path.clone(), FileRead::Interrupted);
    assert_eq!(res, Err(ConfigError::JsonParseError { path, cause: DecodeError::Interrupted }));
}

#[test]
fn each_load_reads_what_it_is_given() {
    let first = load("a.json", &String::from_utf8(document()).unwrap());
    let second = load("a.json", "{}");
    let third = load("a.json", &String::from_utf8(document()).unwrap());
    assert!(first.is_ok());
    assert!(second.is_err());
    assert_eq!(first, third);
}

#[test]
fn descriptor_is_written_with_wire_keys() {
    let deployment = DappDeployment {
        dapp_address: Address::new([0x11; ADDRESS_SIZE]),
        dapp_deploy_block_hash: HexArray::new([0x22; HASH_SIZE]),
    };
    let expected = format!("{{\"address\":\"{}\",\"blockHash\":\"{}\"}}", ADDRESS, block_hash());
    assert_eq!(deployment.to_json(), expected);
}

#[test]
fn written_descriptor_decodes_to_itself() {
    let mut address = [0u8; ADDRESS_SIZE];
    for (i, b) in address.iter_mut().enumerate() {
        *b = (i * 13 + 1) as u8;
    }
    let mut hash = [0u8; HASH_SIZE];
    for (i, b) in hash.iter_mut().enumerate() {
        *b = 255 - (i * 5) as u8;
    }
    let deployment = DappDeployment {
        dapp_address: Address::new(address),
        dapp_deploy_block_hash: HexArray::new(hash),
    };
    let text = deployment.to_json();
    assert_eq!(DappDeployment::decode(text.as_bytes()), Ok(deployment.clone()));
    assert_eq!(load("deployment.json", &text), Ok(deployment));
}

#[test]
fn members_decode_without_a_document() {
    let address = Member::Text(ADDRESS.to_string());
    let hash = Member::Text(block_hash());
    let deployment = DappDeployment::from_members(&address, &hash).unwrap();
    assert_eq!(deployment.dapp_address.inner(), &[0x11u8; 20]);
    assert_eq!(deployment.dapp_deploy_block_hash.inner(), &[0x22u8; 32]);
    assert_eq!(
        DappDeployment::from_members(&Member::Absent, &hash),
        Err(DecodeError::MissingField { field: "address" })
    );
    assert_eq!(
        DappDeployment::from_members(&address, &Member::Other),
        Err(DecodeError::InvalidType { field: "blockHash" })
    );
    assert_eq!(
        DappDeployment::from_members(&hash, &address),
        Err(DecodeError::InvalidHex {
            field: "address",
            fault: HexError::IncorrectSize { found: 32 }
        })
    );
}

#[test]
fn later_of_two_equal_keys_counts() {
    let content = format!(
        "{{\"address\": 1, \"address\": \"{}\", \"blockHash\": \"{}\"}}",
        ADDRESS,
        block_hash()
    );
    assert!(load("deployment.json", &content).is_ok());
}
