use evm_disasm::hex::{is_valid_bytecode, strip_first_hex_marker};
use evm_disasm::plan_invocation;
use evm_disasm::resolve::{
    cache_key, classify, derive_output_dir, normalize_fetched, plan_address_fetch,
    resolve_literal, validate_file_contents, AddressPlan, DisasmError, Target,
};
use evm_disasm::DisassemblerArgs;

const ADDR: &str = "1234567890abcdef1234567890abcdef12345678";

#[test]
fn classify_bare_address() {
    match classify(ADDR) {
        Target::OnChainAddress(a) => assert_eq!(a, ADDR),
        other => panic!("classified as {:?}", other),
    }
}

#[test]
fn classify_prefixed_address() {
    let t = format!("0x{}", ADDR);
    match classify(&t) {
        Target::OnChainAddress(a) => assert_eq!(a, t),
        other => panic!("classified as {:?}", other),
    }
}

#[test]
fn classify_literal_bytecode() {
    assert!(matches!(classify("6001600201"), Target::LiteralBytecode(_)));
    assert!(matches!(classify("0x6001"), Target::LiteralBytecode(_)));
}

#[test]
fn classify_file_path() {
    assert!(matches!(classify("contract.txt"), Target::FilePath(_)));
    assert!(matches!(classify("./bytecode.evm"), Target::FilePath(_)));
    // odd-length hex is not literal bytecode
    assert!(matches!(classify("600"), Target::FilePath(_)));
}

#[test]
fn address_pattern_wins_over_file_path() {
    // even a string that could name an existing file is an address when it
    // matches the address pattern
    assert!(matches!(classify(ADDR), Target::OnChainAddress(_)));
}

#[test]
fn resolve_literal_strips_prefix_only() {
    assert_eq!(resolve_literal("6001600201"), "6001600201");
    assert_eq!(resolve_literal("0x6001600201"), "6001600201");
}

#[test]
fn file_contents_validation() {
    match validate_file_contents("a/b.evm", "invalid_not_hex") {
        Err(DisasmError::InvalidFileBytecode { path }) => assert_eq!(path, "a/b.evm"),
        other => panic!("got {:?}", other),
    }
    // odd length is rejected even when all digits are hex
    assert!(validate_file_contents("p", "600").is_err());
    assert_eq!(validate_file_contents("p", "0x6001").unwrap(), "6001");
    assert_eq!(validate_file_contents("p", "6001").unwrap(), "6001");
}

#[test]
fn invalid_file_message_names_the_path() {
    let e = validate_file_contents("a/b.evm", "zz").unwrap_err();
    assert_eq!(e.message(), "file 'a/b.evm' doesn't contain valid bytecode.");
}

#[test]
fn fetched_code_normalization() {
    assert_eq!(normalize_fetched("0xdead"), "dead");
    assert_eq!(normalize_fetched("dead"), "dead");
    // only the first marker goes, wherever it stands
    assert_eq!(normalize_fetched("de0xad"), "dead");
    assert_eq!(normalize_fetched("0x0x60"), "0x60");
    assert_eq!(strip_first_hex_marker("0x"), "");
}

#[test]
fn cache_key_shape() {
    assert_eq!(cache_key(ADDR), format!("contract.{}", ADDR));
}

#[test]
fn warm_cache_is_used_without_fetch() {
    let plan = plan_address_fetch(Some("6001".to_string()), "http://node.example");
    match plan {
        AddressPlan::UseCached { bytecode } => assert_eq!(bytecode, "6001"),
        other => panic!("got {:?}", other),
    }
}

#[test]
fn warm_cache_twice_fetches_at_most_once() {
    // cold cache with an endpoint: exactly one fetch is planned
    let first = plan_address_fetch(None, "http://node.example");
    let code = match first {
        AddressPlan::Fetch { endpoint } => {
            assert_eq!(endpoint, "http://node.example");
            normalize_fetched("0x6001600201")
        },
        other => panic!("got {:?}", other),
    };
    // the fetched value is stored; the second resolution plans no fetch
    let second = plan_address_fetch(Some(code.clone()), "http://node.example");
    match second {
        AddressPlan::UseCached { bytecode } => assert_eq!(bytecode, "6001600201"),
        other => panic!("got {:?}", other),
    }
}

#[test]
fn missing_endpoint_is_fatal_before_any_fetch() {
    let plan = plan_address_fetch(None, "");
    assert!(matches!(plan, AddressPlan::MissingRpc));
    assert_eq!(
        DisasmError::MissingRpcUrl.message(),
        "disassembling an on-chain contract requires an RPC provider."
    );
}

#[test]
fn cached_value_beats_missing_endpoint() {
    // the cache is consulted before the endpoint is checked
    let plan = plan_address_fetch(Some("6001".to_string()), "");
    assert!(matches!(plan, AddressPlan::UseCached { .. }));
}

#[test]
fn output_directory_derivation() {
    let addr = classify(ADDR);
    let lit = classify("6001");
    let file = classify("a.evm");
    assert_eq!(
        derive_output_dir("", "/work", &addr),
        format!("/work/output/{}", ADDR)
    );
    assert_eq!(derive_output_dir("", "/work", &lit), "/work/output");
    assert_eq!(derive_output_dir("", "/work", &file), "/work/output/local");
    // an explicit override is used exactly as given, with no suffix
    assert_eq!(derive_output_dir("/custom", "/work", &addr), "/custom");
    assert_eq!(derive_output_dir("/custom", "/work", &file), "/custom");
}

#[test]
fn invocation_planning() {
    let args = DisassemblerArgs {
        target: "6001600201".to_string(),
        verbose: 1,
        output: String::new(),
        rpc_url: String::new(),
        default: true,
    };
    let (target, dir) = plan_invocation(&args, "/work");
    assert!(matches!(target, Target::LiteralBytecode(_)));
    assert_eq!(dir, "/work/output");
}

#[test]
fn bytecode_validity_check() {
    assert!(is_valid_bytecode("6001"));
    assert!(is_valid_bytecode(""));
    assert!(!is_valid_bytecode("600"));
    assert!(!is_valid_bytecode("60g1"));
}

#[test]
fn error_messages_name_their_subject() {
    let e = DisasmError::UnreadableFile { path: "x.evm".to_string() };
    assert_eq!(e.message(), "failed to open file 'x.evm' .");
    let e = DisasmError::UnparseableAddress { address: "0xbad".to_string() };
    assert_eq!(e.message(), "failed to parse address '0xbad' .");
    let e = DisasmError::ConnectionFailed { endpoint: "http://n".to_string() };
    assert_eq!(e.message(), "failed to connect to RPC provider 'http://n' .");
    let e = DisasmError::FetchFailed { address: "0xabc".to_string() };
    assert_eq!(e.message(), "failed to fetch bytecode from '0xabc' .");
}
