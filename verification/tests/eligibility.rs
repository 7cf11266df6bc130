use claim_orchestrator::eligibility::{
    assemble, check_node, decode_nodes, extract_proof_and_amount, find_payload, ClaimFields,
    ProofError, NODE_LEN,
};
use claim_orchestrator::workflow::Amount;

fn node_hex(byte: u8) -> String {
    let mut text = String::new();
    for _ in 0..32 {
        text.push_str(&format!("{:02x}", byte));
    }
    text
}

fn amount_of(limb0: u64, limb1: u64, limb2: u64, limb3: u64) -> Amount {
    Amount { limb0, limb1, limb2, limb3 }
}

fn answer(payload: &str) -> String {
    format!("0:[\"$@1\",[\"development\",null]]\n1:{}\n", payload)
}

#[test]
fn a_full_answer_gives_proof_and_amount() {
    let payload = format!(
        "{{\"amount\":\"1234\",\"proof\":[\"0x{}\",\"{}\"]}}",
        node_hex(0xab),
        node_hex(0x01)
    );
    let claim = extract_proof_and_amount(&answer(&payload)).unwrap();
    assert_eq!(claim.amount, amount_of(1234, 0, 0, 0));
    assert_eq!(claim.proof, vec![vec![0xabu8; 32], vec![0x01u8; 32]]);
}

#[test]
fn an_empty_proof_is_a_proof() {
    let claim = extract_proof_and_amount("1:{\"amount\":\"0\",\"proof\":[]}").unwrap();
    assert_eq!(claim.amount, amount_of(0, 0, 0, 0));
    assert!(claim.amount.is_zero());
    assert!(claim.proof.is_empty());
}

#[test]
fn the_amount_fills_all_four_limbs() {
    let two_to_64 = "1:{\"amount\":\"18446744073709551616\",\"proof\":[]}";
    assert_eq!(extract_proof_and_amount(two_to_64).unwrap().amount, amount_of(0, 1, 0, 0));
    let max = "1:{\"amount\":\"115792089237316195423570985008687907853269984665640564039457584007913129639935\",\"proof\":[]}";
    assert_eq!(
        extract_proof_and_amount(max).unwrap().amount,
        amount_of(u64::MAX, u64::MAX, u64::MAX, u64::MAX)
    );
    let two_to_192 = "1:{\"amount\":\"6277101735386680763835789423207666416102355444464034512896\",\"proof\":[]}";
    assert_eq!(extract_proof_and_amount(two_to_192).unwrap().amount, amount_of(0, 0, 0, 1));
}

#[test]
fn an_amount_that_is_no_number_of_256_bits_is_refused() {
    for bad in [
        "12a",
        "-5",
        "1.5",
        "115792089237316195423570985008687907853269984665640564039457584007913129639936",
    ] {
        let text = format!("1:{{\"amount\":\"{}\",\"proof\":[]}}", bad);
        assert_eq!(extract_proof_and_amount(&text).err(), Some(ProofError::AmountInvalid));
    }
}

#[test]
fn a_missing_marker_is_reported() {
    assert_eq!(extract_proof_and_amount("").err(), Some(ProofError::MarkerMissing));
    assert_eq!(extract_proof_and_amount("1").err(), Some(ProofError::MarkerMissing));
    assert_eq!(
        extract_proof_and_amount("{\"amount\":\"1\",\"proof\":[]}").err(),
        Some(ProofError::MarkerMissing)
    );
    assert_eq!(extract_proof_and_amount("1 :{}").err(), Some(ProofError::MarkerMissing));
}

#[test]
fn what_follows_the_marker_must_be_json() {
    assert_eq!(extract_proof_and_amount("1:").err(), Some(ProofError::InvalidJson));
    assert_eq!(extract_proof_and_amount("1:{not json").err(), Some(ProofError::InvalidJson));
    assert_eq!(
        extract_proof_and_amount("1:{\"amount\":\"1\",\"proof\":[]} trailing").err(),
        Some(ProofError::InvalidJson)
    );
}

#[test]
fn the_payload_is_trimmed_before_it_is_parsed() {
    // A no-break space is white space to `trim` and not to JSON.
    let text = "1:\u{a0} {\"amount\":\"7\",\"proof\":[]}\u{a0}\n";
    let claim = extract_proof_and_amount(text).unwrap();
    assert_eq!(claim.amount, amount_of(7, 0, 0, 0));
}

#[test]
fn the_first_marker_counts() {
    let text = "x1:{\"amount\":\"5\",\"proof\":[],\"note\":\"1:\"}";
    assert_eq!(extract_proof_and_amount(text).unwrap().amount, amount_of(5, 0, 0, 0));
    assert_eq!(find_payload("x1:abc1:def"), Some("abc1:def"));
    assert_eq!(find_payload("11:x"), Some("x"));
    assert_eq!(find_payload("1:"), Some(""));
    assert_eq!(find_payload("\u{e9}1:\u{df}"), Some("\u{df}"));
    assert_eq!(find_payload(":1"), None);
    assert_eq!(find_payload(""), None);
}

#[test]
fn the_amount_is_looked_at_before_the_proof() {
    assert_eq!(
        extract_proof_and_amount("1:{\"proof\":[]}").err(),
        Some(ProofError::AmountMissing)
    );
    assert_eq!(
        extract_proof_and_amount("1:{\"amount\":12,\"proof\":[]}").err(),
        Some(ProofError::AmountMissing)
    );
    assert_eq!(extract_proof_and_amount("1:[1,2]").err(), Some(ProofError::AmountMissing));
    assert_eq!(extract_proof_and_amount("1:{}").err(), Some(ProofError::AmountMissing));
    assert_eq!(
        extract_proof_and_amount("1:{\"amount\":\"x\"}").err(),
        Some(ProofError::AmountInvalid)
    );
    assert_eq!(
        extract_proof_and_amount("1:{\"amount\":\"1\"}").err(),
        Some(ProofError::ProofMissing)
    );
    assert_eq!(
        extract_proof_and_amount("1:{\"amount\":\"1\",\"proof\":\"0x00\"}").err(),
        Some(ProofError::ProofMissing)
    );
}

#[test]
fn the_first_bad_entry_decides_the_error() {
    let good = node_hex(0x11);
    let cases: Vec<(String, ProofError)> = vec![
        (format!("[\"{}\",7]", good), ProofError::EntryNotString),
        (format!("[\"{}\",\"zz\"]", good), ProofError::EntryNotHex),
        (format!("[\"{}\",\"0x123\"]", good), ProofError::EntryNotHex),
        (format!("[\"{}\",\"0x1234\"]", good), ProofError::EntryWrongLength),
        (format!("[\"{}00\"]", good), ProofError::EntryWrongLength),
        ("[\"\"]".to_string(), ProofError::EntryWrongLength),
        ("[null,\"zz\"]".to_string(), ProofError::EntryNotString),
        ("[\"zz\",null]".to_string(), ProofError::EntryNotHex),
    ];
    for (proof, expected) in cases {
        let text = format!("1:{{\"amount\":\"1\",\"proof\":{}}}", proof);
        assert_eq!(extract_proof_and_amount(&text).err(), Some(expected), "{}", proof);
    }
}

#[test]
fn a_node_is_thirty_two_bytes() {
    assert_eq!(NODE_LEN, 32);
    assert_eq!(check_node(None), Err(ProofError::EntryNotHex));
    assert_eq!(check_node(Some(vec![9u8; 32])), Ok(vec![9u8; 32]));
    assert_eq!(check_node(Some(vec![9u8; 31])), Err(ProofError::EntryWrongLength));
    assert_eq!(check_node(Some(vec![9u8; 33])), Err(ProofError::EntryWrongLength));
    assert_eq!(check_node(Some(Vec::new())), Err(ProofError::EntryWrongLength));
}

#[test]
fn nodes_are_decoded_in_order_with_or_without_prefix_in_any_case() {
    let mut counting = String::from("0X");
    for i in 0..32u8 {
        counting.push_str(&format!("{:02X}", i));
    }
    let entries = vec![Some(counting), Some(node_hex(0xfe))];
    let nodes = decode_nodes(&entries).unwrap();
    assert_eq!(nodes.len(), 2);
    assert_eq!(nodes[0], (0..32u8).collect::<Vec<u8>>());
    assert_eq!(nodes[1], vec![0xfeu8; 32]);
    assert_eq!(decode_nodes(&Vec::new()), Ok(Vec::new()));
    assert_eq!(decode_nodes(&vec![None]), Err(ProofError::EntryNotString));
}

#[test]
fn fields_are_assembled_into_a_claim() {
    let fields = ClaimFields {
        amount: Some("1_000".to_string()),
        proof: Some(vec![Some(node_hex(0x22))]),
    };
    let claim = assemble(&fields).unwrap();
    // The number parser skips underscores.
    assert_eq!(claim.amount, amount_of(1000, 0, 0, 0));
    assert_eq!(claim.proof, vec![vec![0x22u8; 32]]);
    let no_amount = ClaimFields { amount: None, proof: Some(Vec::new()) };
    assert_eq!(assemble(&no_amount).err(), Some(ProofError::AmountMissing));
    let no_proof = ClaimFields { amount: Some("1".to_string()), proof: None };
    assert_eq!(assemble(&no_proof).err(), Some(ProofError::ProofMissing));
}

#[test]
fn proof_error_messages() {
    assert_eq!(ProofError::MarkerMissing.message(), "Could not find '1:' in the response.");
    assert_eq!(ProofError::InvalidJson.message(), "the payload is not JSON");
    assert_eq!(
        ProofError::AmountMissing.message(),
        "'amount' field is missing or not a string"
    );
    assert_eq!(
        ProofError::AmountInvalid.message(),
        "'amount' field is not a decimal number of 256 bits"
    );
    assert_eq!(ProofError::ProofMissing.message(), "'proof' field is missing or not an array");
    assert_eq!(ProofError::EntryNotString.message(), "an entry of 'proof' is not a string");
    assert_eq!(ProofError::EntryNotHex.message(), "an entry of 'proof' is not hex");
    assert_eq!(
        ProofError::EntryWrongLength.message(),
        "an entry of 'proof' is not 32 bytes long"
    );
}

#[test]
fn an_amount_without_digits_is_nothing() {
    for text in ["", "_", "0_0", "000"] {
        let fields = ClaimFields { amount: Some(text.to_string()), proof: Some(Vec::new()) };
        let claim = assemble(&fields).unwrap();
        assert!(claim.amount.is_zero(), "{:?}", text);
    }
}

#[test]
fn leading_zeros_do_not_overflow_an_amount() {
    let mut text = String::new();
    for _ in 0..100 {
        text.push('0');
    }
    text.push_str("42");
    let fields = ClaimFields { amount: Some(text), proof: Some(Vec::new()) };
    assert_eq!(assemble(&fields).unwrap().amount, amount_of(42, 0, 0, 0));
}

#[test]
fn signs_letters_and_foreign_digits_are_no_amount() {
    for text in ["+5", "0x10", "ff", " 1", "1 ", "\u{ff11}\u{ff12}"] {
        let fields = ClaimFields { amount: Some(text.to_string()), proof: Some(Vec::new()) };
        assert_eq!(assemble(&fields).err(), Some(ProofError::AmountInvalid), "{:?}", text);
    }
}

#[test]
fn a_bare_prefix_is_hex_for_no_bytes() {
    assert_eq!(decode_nodes(&vec![Some("0x".to_string())]), Err(ProofError::EntryWrongLength));
    assert_eq!(decode_nodes(&vec![Some("0xg0".to_string())]), Err(ProofError::EntryNotHex));
    assert_eq!(decode_nodes(&vec![Some("x0".to_string())]), Err(ProofError::EntryNotHex));
    assert_eq!(decode_nodes(&vec![Some("\u{e9}".to_string())]), Err(ProofError::EntryNotHex));
    assert_eq!(decode_nodes(&vec![Some("0x0x".to_string())]), Err(ProofError::EntryNotHex));
}
