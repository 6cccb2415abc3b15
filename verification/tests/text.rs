use origin_stamp::digest::{digest_hex, text_digest_hex, u64_be_bytes};
use origin_stamp::identity::{authenticate_user, CallContext, PrincipalId, Unauthenticated};
use origin_stamp::store::Registry;
use origin_stamp::subscription::SubscriptionTier;
use origin_stamp::text::{
    bytes_to_hex, clone_optional_text, clone_texts, digit_to_char, join, string_from_chars,
    text_eq, u64_to_decimal, u64_to_hex, u64_to_hex16,
};

#[test]
fn decimal_rendering() {
    assert_eq!(u64_to_decimal(0), "0");
    assert_eq!(u64_to_decimal(7), "7");
    assert_eq!(u64_to_decimal(10), "10");
    assert_eq!(u64_to_decimal(1_700_000_000_000_000_000), "1700000000000000000");
    assert_eq!(u64_to_decimal(u64::MAX), "18446744073709551615");
}

#[test]
fn hexadecimal_rendering() {
    assert_eq!(u64_to_hex(0), "0");
    assert_eq!(u64_to_hex(255), "ff");
    assert_eq!(u64_to_hex(0x362a0000), "362a0000");
    assert_eq!(u64_to_hex(u64::MAX), "ffffffffffffffff");
    assert_eq!(u64_to_hex16(0), "0000000000000000");
    assert_eq!(u64_to_hex16(0xabc), "0000000000000abc");
    assert_eq!(u64_to_hex16(u64::MAX), "ffffffffffffffff");
    assert_eq!(u64_to_hex16(0x0123_4567_89ab_cdef), "0123456789abcdef");
}

#[test]
fn digits() {
    assert_eq!(digit_to_char(0), '0');
    assert_eq!(digit_to_char(9), '9');
    assert_eq!(digit_to_char(10), 'a');
    assert_eq!(digit_to_char(15), 'f');
}

#[test]
fn bytes_in_hexadecimal() {
    assert_eq!(bytes_to_hex(&vec![]), "");
    assert_eq!(bytes_to_hex(&vec![0, 1, 0x0a, 0xa0, 0xff]), "00010aa0ff");
}

#[test]
fn joining() {
    assert_eq!(join(&vec![], ", "), "");
    assert_eq!(join(&vec!["a".to_string()], ", "), "a");
    assert_eq!(join(&vec!["a".to_string(), "b".to_string(), "c".to_string()], ", "), "a, b, c");
    assert_eq!(join(&vec!["".to_string(), "".to_string()], "-"), "-");
}

#[test]
fn copies_and_comparisons() {
    assert_eq!(string_from_chars(&vec!['h', 'é', '中']), "hé中");
    assert_eq!(clone_texts(&vec!["a".to_string(), "b".to_string()]), vec!["a", "b"]);
    assert_eq!(clone_optional_text(&Some("a".to_string())), Some("a".to_string()));
    assert_eq!(clone_optional_text(&None), None);
    assert!(text_eq(&"PNG".to_string(), "PNG"));
    assert!(!text_eq(&"PNG".to_string(), "PNg"));
    assert!(!text_eq(&"PNG".to_string(), "PN"));
}

#[test]
fn big_endian_bytes() {
    assert_eq!(u64_be_bytes(0), vec![0; 8]);
    assert_eq!(u64_be_bytes(1), vec![0, 0, 0, 0, 0, 0, 0, 1]);
    assert_eq!(u64_be_bytes(0x0102_0304_0506_0708), vec![1, 2, 3, 4, 5, 6, 7, 8]);
    assert_eq!(u64_be_bytes(u64::MAX), vec![255; 8]);
}

#[test]
fn sha256_digests() {
    assert_eq!(
        digest_hex(&vec![]),
        "e3b0c44298fc1c149afbf4c8996fb92427ae41e4649b934ca495991b7852b855"
    );
    assert_eq!(
        digest_hex(&b"abc".to_vec()),
        "ba7816bf8f01cfea414140de5dae2223b00361a396177a9cb410ff61f20015ad"
    );
    assert_eq!(
        text_digest_hex(&"abc".to_string()),
        "ba7816bf8f01cfea414140de5dae2223b00361a396177a9cb410ff61f20015ad"
    );
    assert_eq!(
        text_digest_hex(&"héllo".to_string()),
        "3c48591d8d098a4538f5e013dfcf406e948eac4d3277b10bf614e295d6068179"
    );
}

#[test]
fn principal_text() {
    assert_eq!(PrincipalId::from_bytes(vec![]).unwrap().to_text(), "aaaaa-aa");
    assert_eq!(PrincipalId::anonymous().to_text(), "2vxsx-fae");
    assert_eq!(PrincipalId::from_bytes(vec![1, 2, 3]).unwrap().to_text(), "kw6ia-hibai-bq");
    assert_eq!(PrincipalId::from_bytes(vec![9, 9]).unwrap().to_text(), "5hdrc-eqjbe");
}

#[test]
fn principal_bytes_are_bounded() {
    assert!(PrincipalId::from_bytes(vec![0; 29]).is_some());
    assert!(PrincipalId::from_bytes(vec![0; 30]).is_none());
    let p = PrincipalId::from_bytes(vec![5, 6]).unwrap();
    assert_eq!(p.as_bytes(), &vec![5, 6]);
    assert_eq!(p.clone(), p);
    assert!(p.same_as(&PrincipalId::from_bytes(vec![5, 6]).unwrap()));
    assert!(!p.same_as(&PrincipalId::from_bytes(vec![5, 7]).unwrap()));
    assert!(!p.same_as(&PrincipalId::from_bytes(vec![5]).unwrap()));
    assert!(PrincipalId::anonymous().is_anonymous());
    assert_eq!(PrincipalId::anonymous().as_bytes(), &vec![4]);
    assert!(!p.is_anonymous());
    assert!(!PrincipalId::from_bytes(vec![4, 4]).unwrap().is_anonymous());
}

#[test]
fn authentication() {
    let canister = || PrincipalId::from_bytes(vec![9, 9]).unwrap();
    let ctx = |caller: PrincipalId| CallContext { caller, canister: canister(), time: 0 };
    assert_eq!(
        authenticate_user(&ctx(PrincipalId::from_bytes(vec![1, 2, 3]).unwrap())),
        Ok("kw6ia-hibai-bq".to_string())
    );
    assert_eq!(authenticate_user(&ctx(PrincipalId::anonymous())), Err(Unauthenticated));
    assert_eq!(authenticate_user(&ctx(canister())), Err(Unauthenticated));
}

#[test]
fn registry_keeps_first_arrival_order_and_replaces_in_place() {
    let mut r: Registry<SubscriptionTier> = Registry::new();
    assert_eq!(r.len(), 0);
    assert_eq!(r.get(&"a".to_string()), None);
    r.insert("a".to_string(), SubscriptionTier::Free);
    r.insert("b".to_string(), SubscriptionTier::Basic);
    r.insert("a".to_string(), SubscriptionTier::Premium);
    assert_eq!(r.len(), 2);
    assert_eq!(r.key_at(0), "a");
    assert_eq!(r.value_at(0), &SubscriptionTier::Premium);
    assert_eq!(r.key_at(1), "b");
    assert_eq!(r.find(&"b".to_string()), Some(1));
    assert_eq!(r.find(&"c".to_string()), None);
    assert!(r.contains_key(&"a".to_string()));
    assert!(!r.contains_key(&"c".to_string()));
    assert_eq!(r.get(&"b".to_string()), Some(&SubscriptionTier::Basic));
}
