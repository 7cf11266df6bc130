//! Reading the answer of the eligibility lookup: the payload that follows the
//! marker `1:` is JSON with the allocation under `amount`, a decimal string,
//! and the Merkle proof under `proof`, an array of hex strings of 32 bytes.

use crate::workflow::Amount;
use vstd::prelude::*;
use vstd::string::*;

verus! {

/// The length of one node of a Merkle proof, in bytes.
pub const NODE_LEN: usize = 32;

/// What the payload holds under the two keys that are read.
#[derive(Debug)]
pub struct ClaimFields {
    /// The value of `amount`, if there is one and it is a string.
    pub amount: Option<String>,
    /// The value of `proof`, if there is one and it is an array: for each of
    /// its entries the string, if the entry is one.
    pub proof: Option<Vec<Option<String>>>,
}

/// An allocation and the proof that the account is owed it.
#[derive(Debug)]
pub struct ClaimProof {
    /// The nodes of the Merkle proof, 32 bytes each.
    pub proof: Vec<Vec<u8>>,
    pub amount: Amount,
}

/// Why an answer could not be read.
#[derive(Clone, Copy, Debug, PartialEq, Eq, Structural)]
pub enum ProofError {
    /// The answer holds no `1:`.
    MarkerMissing,
    /// What follows the marker is not JSON.
    InvalidJson,
    /// `amount` is missing or not a string.
    AmountMissing,
    /// `amount` is not a decimal number of 256 bits.
    AmountInvalid,
    /// `proof` is missing or not an array.
    ProofMissing,
    /// An entry of `proof` is not a string.
    EntryNotString,
    /// An entry of `proof` is not hex.
    EntryNotHex,
    /// An entry of `proof` is not 32 bytes long.
    EntryWrongLength,
}

impl ProofError {
    /// A sentence for logs.
    pub fn message(&self) -> (text: &'static str)
        ensures
            text@ == match *self {
                ProofError::MarkerMissing => "Could not find '1:' in the response."@,
                ProofError::InvalidJson => "the payload is not JSON"@,
                ProofError::AmountMissing => "'amount' field is missing or not a string"@,
                ProofError::AmountInvalid => "'amount' field is not a decimal number of 256 bits"@,
                ProofError::ProofMissing => "'proof' field is missing or not an array"@,
                ProofError::EntryNotString => "an entry of 'proof' is not a string"@,
                ProofError::EntryNotHex => "an entry of 'proof' is not hex"@,
                ProofError::EntryWrongLength => "an entry of 'proof' is not 32 bytes long"@,
            },
    {
        match self {
            ProofError::MarkerMissing => "Could not find '1:' in the response.",
            ProofError::InvalidJson => "the payload is not JSON",
            ProofError::AmountMissing => "'amount' field is missing or not a string",
            ProofError::AmountInvalid => "'amount' field is not a decimal number of 256 bits",
            ProofError::ProofMissing => "'proof' field is missing or not an array",
            ProofError::EntryNotString => "an entry of 'proof' is not a string",
            ProofError::EntryNotHex => "an entry of 'proof' is not hex",
            ProofError::EntryWrongLength => "an entry of 'proof' is not 32 bytes long",
        }
    }
}

/// What `str::trim` returns for a text.
pub uninterp spec fn trimmed(text: Seq<char>) -> Seq<char>;

/// What `serde_json` reads from a text: `None` where the text is not JSON, else
/// the fields found in the value.
pub uninterp spec fn json_claim_fields(json: Seq<char>) -> Option<ClaimFields>;

/// The number that a text spells in decimal digits, underscores skipped, or
/// `None` where it holds anything else. A text without digits spells 0.
pub open spec fn decimal_value(text: Seq<char>) -> Option<nat>
    decreases text.len(),
{
    if text.len() == 0 {
        Some(0)
    } else {
        let c = text.last();
        match decimal_value(text.drop_last()) {
            None => None,
            Some(above) => if c == '_' {
                Some(above)
            } else if '0' <= c && c <= '9' {
                Some(above * 10 + (c as nat - '0' as nat) as nat)
            } else {
                None
            },
        }
    }
}

/// The first number that 256 bits cannot hold.
pub open spec fn amount_limit() -> nat {
    0x1_0000_0000_0000_0000_0000_0000_0000_0000 * 0x1_0000_0000_0000_0000_0000_0000_0000_0000
}

/// Whether a text spells an amount: a decimal number that 256 bits hold.
pub open spec fn spells_amount(text: Seq<char>) -> bool {
    decimal_value(text) is Some && decimal_value(text)->0 < amount_limit()
}

/// The value of a hex digit of either case.
pub open spec fn hex_value(c: char) -> Option<nat> {
    if '0' <= c && c <= '9' {
        Some((c as nat - '0' as nat) as nat)
    } else if 'a' <= c && c <= 'f' {
        Some((c as nat - 'a' as nat + 10) as nat)
    } else if 'A' <= c && c <= 'F' {
        Some((c as nat - 'A' as nat + 10) as nat)
    } else {
        None
    }
}

/// A hex text without its prefix `0x` or `0X`, if it has one.
pub open spec fn hex_body(text: Seq<char>) -> Seq<char> {
    if text.len() >= 2 && text[0] == '0' && (text[1] == 'x' || text[1] == 'X') {
        text.subrange(2, text.len() as int)
    } else {
        text
    }
}

/// The bytes that a hex text spells, two digits each with the high one first,
/// or `None` where a digit is left over or a character is no hex digit.
pub open spec fn hex_bytes(text: Seq<char>) -> Option<Seq<u8>> {
    let body = hex_body(text);
    if body.len() % 2 == 0 && (forall|i: int|
        0 <= i < body.len() ==> hex_value(#[trigger] body[i]) is Some) {
        Some(
            Seq::new(
                body.len() / 2,
                |i: int| (hex_value(body[2 * i])->0 * 16 + hex_value(body[2 * i + 1])->0) as u8,
            ),
        )
    } else {
        None
    }
}

/// Calls `str::trim`. Believed, not proved: the result is the same for the
/// same text.
#[verifier::external_body]
fn trim_text(text: &str) -> (out: &str)
    ensures
        out@ == trimmed(text@),
{
    text.trim()
}

/// Calls `serde_json::from_str` for a `serde_json::Value` and reads two keys
/// of it: `amount` with `Value::as_str`, `proof` with `Value::as_array` and
/// each entry with `Value::as_str`. Believed, not proved: the result is the
/// same for the same text.
#[verifier::external_body]
fn read_claim_fields(json: &str) -> (fields: Option<ClaimFields>)
    ensures
        fields == json_claim_fields(json@),
{
    let data: serde_json::Value = serde_json::from_str(json).ok()?;
    let amount = data["amount"].as_str().map(String::from);
    let proof = data["proof"].as_array().map(
        |entries| entries.iter().map(|entry| entry.as_str().map(String::from)).collect(),
    );
    Some(ClaimFields { amount, proof })
}

/// Calls `alloy::primitives::U256::from_str_radix` with radix 10 and hands
/// out the limbs of the number, least significant first. Believed, not
/// proved: the call succeeds on the texts that spell an amount, and the
/// number it gives is the one spelled.
#[verifier::external_body]
fn parse_decimal_u256(text: &str) -> (amount: Option<Amount>)
    ensures
        amount is Some <==> spells_amount(text@),
        amount is Some ==> amount->0.value() == decimal_value(text@)->0,
{
    let limbs = alloy::primitives::U256::from_str_radix(text, 10).ok()?.into_limbs();
    Some(Amount { limb0: limbs[0], limb1: limbs[1], limb2: limbs[2], limb3: limbs[3] })
}

/// Calls `alloy::hex::decode`. Believed, not proved: an optional prefix is
/// dropped, digits of either case are read in pairs, and anything else fails.
#[verifier::external_body]
fn decode_hex(text: &str) -> (bytes: Option<Vec<u8>>)
    ensures
        match bytes {
            Some(b) => hex_bytes(text@) == Some(b@),
            None => hex_bytes(text@) is None,
        },
{
    alloy::hex::decode(text).ok()
}

/// Whether the marker `1:` stands at a position of the text.
pub open spec fn marker_at(text: Seq<char>, i: int) -> bool {
    0 <= i && i + 1 < text.len() && text[i] == '1' && text[i + 1] == ':'
}

/// Whether a position is that of the first marker.
pub open spec fn is_first_marker(text: Seq<char>, i: int) -> bool {
    marker_at(text, i) && forall|j: int| 0 <= j < i ==> !marker_at(text, j)
}

/// What follows the first marker, if there is a marker.
pub open spec fn payload_of(text: Seq<char>) -> Option<Seq<char>> {
    if exists|i: int| is_first_marker(text, i) {
        let first = choose|i: int| is_first_marker(text, i);
        Some(text.subrange(first + 2, text.len() as int))
    } else {
        None
    }
}

/// What one entry of `proof` gives: its 32 bytes, or why it has none.
pub open spec fn checked_entry(entry: Option<String>) -> Result<Seq<u8>, ProofError> {
    match entry {
        None => Err(ProofError::EntryNotString),
        Some(text) => match hex_bytes(text@) {
            None => Err(ProofError::EntryNotHex),
            Some(bytes) => if bytes.len() == NODE_LEN {
                Ok(bytes)
            } else {
                Err(ProofError::EntryWrongLength)
            },
        },
    }
}

/// Every entry gives its node.
pub open spec fn nodes_of(entries: Seq<Option<String>>, nodes: Seq<Vec<u8>>) -> bool {
    &&& nodes.len() == entries.len()
    &&& forall|i: int|
        0 <= i < entries.len() ==> checked_entry(#[trigger] entries[i]) == Ok::<
            Seq<u8>,
            ProofError,
        >(nodes[i]@)
}

/// The first entry that gives no node fails with this error.
pub open spec fn entries_fail_with(entries: Seq<Option<String>>, error: ProofError) -> bool {
    exists|k: int|
        {
            &&& 0 <= k < entries.len()
            &&& checked_entry(#[trigger] entries[k]) == Err::<Seq<u8>, ProofError>(error)
            &&& forall|j: int| 0 <= j < k ==> checked_entry(#[trigger] entries[j]) is Ok
        }
}

/// What the fields of a payload give: the amount is looked at first, then the
/// proof, entry by entry.
pub open spec fn fields_outcome(fields: ClaimFields, out: Result<ClaimProof, ProofError>) -> bool {
    match fields.amount {
        None => out == Err::<ClaimProof, ProofError>(ProofError::AmountMissing),
        Some(text) => if !spells_amount(text@) {
            out == Err::<ClaimProof, ProofError>(ProofError::AmountInvalid)
        } else {
            match fields.proof {
                None => out == Err::<ClaimProof, ProofError>(ProofError::ProofMissing),
                Some(entries) => match out {
                    Ok(claim) => claim.amount.value() == decimal_value(text@)->0 && nodes_of(
                        entries@,
                        claim.proof@,
                    ),
                    Err(error) => entries_fail_with(entries@, error),
                },
            }
        },
    }
}

/// What an answer gives.
pub open spec fn extraction_outcome(text: Seq<char>, out: Result<ClaimProof, ProofError>) -> bool {
    match payload_of(text) {
        None => out == Err::<ClaimProof, ProofError>(ProofError::MarkerMissing),
        Some(payload) => match json_claim_fields(trimmed(payload)) {
            None => out == Err::<ClaimProof, ProofError>(ProofError::InvalidJson),
            Some(fields) => fields_outcome(fields, out),
        },
    }
}

/// The part of an answer that follows its first `1:`, or `None` where the
/// answer holds no such marker.
pub fn find_payload(text: &str) -> (payload: Option<&str>)
    ensures
        match payload {
            Some(rest) => payload_of(text@) == Some(rest@),
            None => payload_of(text@) is None,
        },
{
    let n = text.unicode_len();
    let mut i: usize = 0;
    while i < n && n - i >= 2
        invariant
            n == text@.len(),
            i <= n,
            forall|j: int| 0 <= j < i ==> !marker_at(text@, j),
        decreases n - i,
    {
        if text.get_char(i) == '1' && text.get_char(i + 1) == ':' {
            let rest = text.substring_char(i + 2, n);
            proof {
                assert(is_first_marker(text@, i as int));
                let first = choose|k: int| is_first_marker(text@, k);
                assert(is_first_marker(text@, first));
                if first < i {
                    assert(!marker_at(text@, first));
                }
                if first > i {
                    assert(!marker_at(text@, i as int));
                }
                assert(first == i);
            }
            return Some(rest);
        }
        i = i + 1;
    }
    proof {
        assert forall|k: int| !is_first_marker(text@, k) by {
            if marker_at(text@, k) {
                assert(k < i);
            }
        }
    }
    None
}

/// Takes what decoding an entry gave and keeps it if it is a node: 32 bytes.
pub fn check_node(decoded: Option<Vec<u8>>) -> (node: Result<Vec<u8>, ProofError>)
    ensures
        match decoded {
            None => node == Err::<Vec<u8>, ProofError>(ProofError::EntryNotHex),
            Some(bytes) => if bytes@.len() == NODE_LEN {
                node == Ok::<Vec<u8>, ProofError>(bytes)
            } else {
                node == Err::<Vec<u8>, ProofError>(ProofError::EntryWrongLength)
            },
        },
{
    match decoded {
        None => Err(ProofError::EntryNotHex),
        Some(bytes) => if bytes.len() == NODE_LEN {
            Ok(bytes)
        } else {
            Err(ProofError::EntryWrongLength)
        },
    }
}

/// Decodes the entries of `proof` in order, and stops at the first that is not
/// a hex string of 32 bytes.
pub fn decode_nodes(entries: &Vec<Option<String>>) -> (decoded: Result<Vec<Vec<u8>>, ProofError>)
    ensures
        match decoded {
            Ok(nodes) => nodes_of(entries@, nodes@),
            Err(error) => entries_fail_with(entries@, error),
        },
{
    let mut nodes: Vec<Vec<u8>> = Vec::new();
    let mut i: usize = 0;
    while i < entries.len()
        invariant
            i <= entries@.len(),
            nodes@.len() == i,
            forall|j: int|
                0 <= j < i ==> checked_entry(#[trigger] entries@[j]) == Ok::<Seq<u8>, ProofError>(
                    nodes@[j]@,
                ),
        decreases entries@.len() - i,
    {
        let entry = &entries[i];
        let checked = match entry {
            None => Err(ProofError::EntryNotString),
            Some(text) => check_node(decode_hex(text.as_str())),
        };
        match checked {
            Ok(node) => {
                assert(checked_entry(entries@[i as int]) == Ok::<Seq<u8>, ProofError>(node@));
                nodes.push(node);
            },
            Err(error) => {
                assert(checked_entry(entries@[i as int]) == Err::<Seq<u8>, ProofError>(error));
                return Err(error);
            },
        }
        i = i + 1;
    }
    Ok(nodes)
}

/// Takes the fields of a payload and makes the claim of them: the amount is
/// parsed first, then the proof is decoded.
pub fn assemble(fields: &ClaimFields) -> (out: Result<ClaimProof, ProofError>)
    ensures
        fields_outcome(*fields, out),
{
    let amount = match &fields.amount {
        None => {
            return Err(ProofError::AmountMissing);
        },
        Some(text) => match parse_decimal_u256(text.as_str()) {
            None => {
                return Err(ProofError::AmountInvalid);
            },
            Some(amount) => amount,
        },
    };
    match &fields.proof {
        None => Err(ProofError::ProofMissing),
        Some(entries) => match decode_nodes(entries) {
            Ok(proof) => Ok(ClaimProof { proof, amount }),
            Err(error) => Err(error),
        },
    }
}

/// Reads the proof and the allocation out of the answer of the lookup.
pub fn extract_proof_and_amount(response_text: &str) -> (out: Result<ClaimProof, ProofError>)
    ensures
        extraction_outcome(response_text@, out),
{
    let payload = match find_payload(response_text) {
        None => {
            return Err(ProofError::MarkerMissing);
        },
        Some(rest) => rest,
    };
    match read_claim_fields(trim_text(payload)) {
        None => Err(ProofError::InvalidJson),
        Some(fields) => assemble(&fields),
    }
}

} // verus!
