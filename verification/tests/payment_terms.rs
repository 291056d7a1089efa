use marketplace::marketplace::{ProverHandlerMarketplace, DEFAULT_MIN_PAID};
use marketplace::payment::{PaymentMinimums, PaymentType};
use marketplace::request::{ProvingRequest, SAMPLE_CLAIM, SAMPLE_LOG_SIZE};

#[test]
fn empty_minimums_have_no_entry() {
    let m = PaymentMinimums::new();
    assert_eq!(m.get(PaymentType::Zap), None);
    assert_eq!(m.get(PaymentType::Starknet), None);
    assert_eq!(m.len(), 0);
}

#[test]
fn read_after_write_gives_the_written_amount() {
    let mut m = PaymentMinimums::new();
    assert_eq!(m.insert(PaymentType::Zap, 200_000), None);
    assert_eq!(m.get(PaymentType::Zap), Some(200_000));
    assert_eq!(m.get(PaymentType::Starknet), None);
    assert_eq!(m.len(), 1);
}

#[test]
fn writing_one_payment_type_keeps_the_other() {
    let mut m = PaymentMinimums::new();
    m.insert(PaymentType::Starknet, 5);
    m.insert(PaymentType::Zap, 9);
    assert_eq!(m.get(PaymentType::Starknet), Some(5));
    assert_eq!(m.get(PaymentType::Zap), Some(9));
    assert_eq!(m.len(), 2);
}

#[test]
fn last_write_wins_and_returns_the_previous_amount() {
    let mut m = PaymentMinimums::new();
    m.insert(PaymentType::Zap, 1);
    assert_eq!(m.insert(PaymentType::Zap, 2), Some(1));
    assert_eq!(m.get(PaymentType::Zap), Some(2));
    assert_eq!(m.len(), 1);
}

#[test]
fn new_handler_holds_its_arguments() {
    let mut minimums = PaymentMinimums::new();
    minimums.insert(PaymentType::Starknet, 42);
    let tags = vec![nostr_sdk::Tag::hashtag("prover")];
    let h = ProverHandlerMarketplace::new(
        "req-1".to_string(),
        10,
        11,
        Some(vec![1u8, 2, 3]),
        minimums,
        "ipfs://x".to_string(),
        vec![PaymentType::Starknet, PaymentType::Zap],
        7u64,
        tags.clone(),
        PaymentType::Starknet,
    );
    assert_eq!(h.request_id, "req-1");
    assert_eq!(h.min_paid, 10);
    assert_eq!(h.claim, 11);
    assert_eq!(h.proof, Some(vec![1u8, 2, 3]));
    assert_eq!(h.min_paid_by_payment, minimums);
    assert_eq!(h.url_storage, "ipfs://x");
    assert_eq!(h.payment_accepted, vec![PaymentType::Starknet, PaymentType::Zap]);
    assert_eq!(h.input_metadata, 7u64);
    assert_eq!(h.tags, tags);
    assert_eq!(h.main_payment, PaymentType::Starknet);
}

#[test]
fn recommended_handler_terms() {
    let request = ProvingRequest::sample("abc".to_string());
    let h = ProverHandlerMarketplace::recommended_application_handler(
        "abc".to_string(),
        request.clone(),
        150_000,
    );
    assert_eq!(h.request_id, "abc");
    assert_eq!(h.input_metadata, request);
    assert_eq!(h.main_payment, PaymentType::Zap);
    assert_eq!(h.min_paid_by_payment.get(PaymentType::Zap), Some(150_000));
    assert_eq!(h.min_paid_by_payment.get(PaymentType::Starknet), None);
    assert_eq!(h.min_paid_by_payment.len(), 1);
    assert_eq!(h.min_paid, 200_000);
    assert_eq!(h.claim, 200_000);
    assert_eq!(DEFAULT_MIN_PAID, 200_000);
    assert_eq!(h.url_storage, "");
    assert!(h.tags.is_empty());
    assert_eq!(h.payment_accepted, vec![PaymentType::Zap]);
    assert!(h.proof.is_none());
    assert!(h.payment_accepted.contains(&h.main_payment));
}

#[test]
fn sample_request_values() {
    let r = ProvingRequest::sample("id-7".to_string());
    assert_eq!(r.request_id, "id-7");
    assert_eq!(r.log_size, 5);
    assert_eq!(r.claim, 443693538);
    assert_eq!(SAMPLE_LOG_SIZE, 5);
    assert_eq!(SAMPLE_CLAIM, 443693538);
}

#[test]
fn fresh_sample_request_has_a_v4_uuid() {
    let r = ProvingRequest::new_sample();
    let id: Vec<char> = r.request_id.chars().collect();
    assert_eq!(id.len(), 36);
    for (i, c) in id.iter().enumerate() {
        if i == 8 || i == 13 || i == 18 || i == 23 {
            assert_eq!(*c, '-');
        } else {
            assert!(c.is_ascii_digit() || ('a'..='f').contains(c));
        }
    }
    assert_eq!(id[14], '4');
    assert_eq!(r.log_size, 5);
    assert_eq!(r.claim, 443693538);
    let other = ProvingRequest::new_sample();
    assert_ne!(r.request_id, other.request_id);
}
