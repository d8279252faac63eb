use crosschain_bridge::encoding::{to_be_bytes, to_decimal};
use crosschain_bridge::keys::{
    allowance_key, argument_separator_bytes, compose2, compose3, confirmations_key, data_hash_key,
    event_key, separator_bytes, status_key, KeyName,
};
use crosschain_bridge::members::{all_distinct, find_member, format_list, is_member, parse_list};
use crosschain_bridge::text::{bytes_eq, copy_range, find, join_bytes, matches_at, split_bytes};

fn list(items: &[&str]) -> Vec<Vec<u8>> {
    items.iter().map(|s| s.as_bytes().to_vec()).collect()
}

#[test]
fn find_returns_first_occurrence() {
    assert_eq!(find(b"a__b__c", b"__", 0), Some(1));
    assert_eq!(find(b"a__b__c", b"__", 2), Some(4));
    assert_eq!(find(b"a__b__c", b"__", 5), None);
    assert_eq!(find(b"abc", b"__", 0), None);
    assert_eq!(find(b"", b"__", 0), None);
    assert_eq!(find(b"_", b"__", 0), None);
    assert_eq!(find(b"___", b"__", 0), Some(0));
}

#[test]
fn find_with_empty_needle_matches_at_start() {
    assert_eq!(find(b"abc", b"", 0), Some(0));
    assert_eq!(find(b"abc", b"", 3), Some(3));
    assert_eq!(find(b"abc", b"", 4), None);
}

#[test]
fn matches_at_checks_bounds() {
    assert!(matches_at(b"hello", b"llo", 2));
    assert!(!matches_at(b"hello", b"llo", 3));
    assert!(!matches_at(b"hello", b"hello!", 0));
    assert!(!matches_at(b"hello", b"l", 9));
}

#[test]
fn bytes_eq_compares_content() {
    assert!(bytes_eq(b"abc", b"abc"));
    assert!(!bytes_eq(b"abc", b"abd"));
    assert!(!bytes_eq(b"abc", b"ab"));
    assert!(bytes_eq(b"", b""));
}

#[test]
fn copy_range_copies_the_range() {
    assert_eq!(copy_range(b"abcdef", 1, 4), b"bcd".to_vec());
    assert_eq!(copy_range(b"abcdef", 3, 3), Vec::<u8>::new());
}

#[test]
fn split_on_separator() {
    assert_eq!(split_bytes(b"A__B__C", b"__"), list(&["A", "B", "C"]));
    assert_eq!(split_bytes(b"A", b"__"), list(&["A"]));
    assert_eq!(split_bytes(b"", b"__"), list(&[""]));
}

#[test]
fn split_keeps_empty_pieces() {
    assert_eq!(split_bytes(b"a####", b"####"), list(&["a", ""]));
    assert_eq!(split_bytes(b"####a", b"####"), list(&["", "a"]));
    assert_eq!(split_bytes(b"a########b", b"####"), list(&["a", "", "b"]));
    assert_eq!(split_bytes(b"a#####b", b"####"), list(&["a", "#b"]));
}

#[test]
fn split_with_empty_separator_does_not_split() {
    assert_eq!(split_bytes(b"abc", b""), list(&["abc"]));
}

#[test]
fn join_puts_separator_between() {
    assert_eq!(join_bytes(&list(&["A", "B", "C"]), b"__"), b"A__B__C".to_vec());
    assert_eq!(join_bytes(&list(&["A"]), b"__"), b"A".to_vec());
    assert_eq!(join_bytes(&list(&[]), b"__"), Vec::<u8>::new());
    assert_eq!(join_bytes(&list(&["", ""]), b"__"), b"__".to_vec());
}

#[test]
fn join_then_split_gives_the_pieces_back() {
    let pieces = list(&["3Nzk", "7xQw", "Bb9"]);
    let text = join_bytes(&pieces, b"__");
    assert_eq!(split_bytes(&text, b"__"), pieces);
}

#[test]
fn be_bytes_are_big_endian() {
    assert_eq!(to_be_bytes(0), vec![0, 0, 0, 0, 0, 0, 0, 0]);
    assert_eq!(to_be_bytes(1), vec![0, 0, 0, 0, 0, 0, 0, 1]);
    assert_eq!(to_be_bytes(0x0102030405060708), vec![1, 2, 3, 4, 5, 6, 7, 8]);
    assert_eq!(to_be_bytes(31337), 31337i64.to_be_bytes().to_vec());
}

#[test]
fn be_bytes_of_negative_numbers_are_twos_complement() {
    assert_eq!(to_be_bytes(-1), vec![255; 8]);
    assert_eq!(to_be_bytes(-2), vec![255, 255, 255, 255, 255, 255, 255, 254]);
    assert_eq!(to_be_bytes(i64::MIN), vec![128, 0, 0, 0, 0, 0, 0, 0]);
    assert_eq!(to_be_bytes(i64::MAX), vec![127, 255, 255, 255, 255, 255, 255, 255]);
    assert_eq!(to_be_bytes(-31337), (-31337i64).to_be_bytes().to_vec());
}

#[test]
fn decimal_text_of_numbers() {
    assert_eq!(to_decimal(0), b"0".to_vec());
    assert_eq!(to_decimal(7), b"7".to_vec());
    assert_eq!(to_decimal(10), b"10".to_vec());
    assert_eq!(to_decimal(31337), b"31337".to_vec());
    assert_eq!(to_decimal(-42), b"-42".to_vec());
    assert_eq!(to_decimal(i64::MAX), b"9223372036854775807".to_vec());
    assert_eq!(to_decimal(i64::MIN), b"-9223372036854775808".to_vec());
}

#[test]
fn decimal_agrees_with_std() {
    for v in [1i64, 9, 99, 100, 101, 1000000007, -1, -10, -999, 1234567890123] {
        assert_eq!(to_decimal(v), v.to_string().into_bytes());
    }
}

#[test]
fn key_names_have_their_text() {
    assert_eq!(KeyName::Init.bytes(), b"INIT".to_vec());
    assert_eq!(KeyName::This.bytes(), b"THIS".to_vec());
    assert_eq!(KeyName::Multisig.bytes(), b"MULTISIG".to_vec());
    assert_eq!(KeyName::Status.bytes(), b"STATUS".to_vec());
    assert_eq!(KeyName::Paused.bytes(), b"PAUSED".to_vec());
    assert_eq!(KeyName::Pauser.bytes(), b"PAUSER".to_vec());
    assert_eq!(KeyName::ChainId.bytes(), b"CHAIN_ID".to_vec());
    assert_eq!(KeyName::SignerPublicKey.bytes(), b"SIGNER_PUBLIC_KEY".to_vec());
    assert_eq!(KeyName::DataHash.bytes(), b"DATA_HASH".to_vec());
    assert_eq!(KeyName::Allowance.bytes(), b"ALLOWANCE".to_vec());
    assert_eq!(KeyName::CallChainId.bytes(), b"CALL_CHAIN_ID".to_vec());
    assert_eq!(KeyName::Event.bytes(), b"EVENT".to_vec());
    assert_eq!(KeyName::EventSize.bytes(), b"EVENT_SIZE".to_vec());
    assert_eq!(KeyName::Nonce.bytes(), b"NONCE".to_vec());
    assert_eq!(KeyName::Quorum.bytes(), b"QUORUM".to_vec());
    assert_eq!(KeyName::PublicKeys.bytes(), b"PUBLIC_KEYS".to_vec());
    assert_eq!(KeyName::Confirm.bytes(), b"CONFIRM".to_vec());
}

#[test]
fn separators_have_their_text() {
    assert_eq!(separator_bytes(), b"__".to_vec());
    assert_eq!(argument_separator_bytes(), b"####".to_vec());
}

#[test]
fn composite_keys_join_segments() {
    assert_eq!(compose2(KeyName::Nonce, b"x"), b"NONCE__x".to_vec());
    assert_eq!(compose3(KeyName::Status, b"x", b"y"), b"STATUS__x__y".to_vec());
    assert_eq!(status_key(b"TargetId", b"TxId"), b"STATUS__TargetId__TxId".to_vec());
    assert_eq!(confirmations_key(b"TargetId", b"TxId"), b"CONFIRM__TargetId__TxId".to_vec());
    assert_eq!(data_hash_key(b"HashText"), b"DATA_HASH__HashText".to_vec());
    assert_eq!(allowance_key(b"Caller"), b"ALLOWANCE__Caller".to_vec());
    assert_eq!(event_key(0), b"EVENT__0".to_vec());
    assert_eq!(event_key(12), b"EVENT__12".to_vec());
}

#[test]
fn stored_list_text_round_trip() {
    assert_eq!(parse_list(b""), list(&[]));
    assert_eq!(parse_list(b"A"), list(&["A"]));
    assert_eq!(parse_list(b"A__B"), list(&["A", "B"]));
    assert_eq!(format_list(&list(&[])), Vec::<u8>::new());
    assert_eq!(format_list(&list(&["A", "B", "C"])), b"A__B__C".to_vec());
    let owners = list(&["3Nzk", "7xQw", "Bb9"]);
    assert_eq!(parse_list(&format_list(&owners)), owners);
}

#[test]
fn membership_is_by_equality_not_by_substring() {
    let owners = list(&["abcd", "efgh"]);
    assert!(is_member(&owners, b"abcd"));
    assert!(!is_member(&owners, b"bc"));
    assert!(!is_member(&owners, b"abcde"));
    assert_eq!(find_member(&owners, b"efgh", 0), Some(1));
    assert_eq!(find_member(&owners, b"abcd", 1), None);
}

#[test]
fn all_distinct_finds_repetitions() {
    assert!(all_distinct(&list(&[])));
    assert!(all_distinct(&list(&["a", "b", "c"])));
    assert!(!all_distinct(&list(&["a", "b", "a"])));
    assert!(!all_distinct(&list(&["a", "a"])));
}
