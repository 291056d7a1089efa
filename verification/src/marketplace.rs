use vstd::prelude::*;

use crate::payment::{PaymentMinimums, PaymentType};

verus! {

/// A Nostr tag, carried as is.
#[verifier::external_type_specification]
#[verifier::external_body]
pub struct ExTag(nostr_sdk::Tag);

/// Marker trait for the metadata that a marketplace handler carries.
pub trait SomeTrait {
}

/// The minimum price, in millisats, that a prover handler asks by default.
pub const DEFAULT_MIN_PAID: u32 = 200_000;

/// A prover's offer on the marketplace (a NIP-89 application handler):
/// what it proves, what it asks to be paid and how.
pub struct ProverHandlerMarketplace<T> {
    pub request_id: String,
    pub claim: u32,
    /// The proof, serialized, once there is one.
    pub proof: Option<Vec<u8>>,
    pub input_metadata: T,
    pub tags: Vec<nostr_sdk::Tag>,
    pub url_storage: String,
    pub min_paid: u32,
    pub min_paid_by_payment: PaymentMinimums,
    pub payment_accepted: Vec<PaymentType>,
    pub main_payment: PaymentType,
}

impl<T> ProverHandlerMarketplace<T> {
    /// A handler that holds exactly the given values.
    pub fn new(
        request_id: String,
        min_paid: u32,
        claim: u32,
        proof: Option<Vec<u8>>,
        min_paid_by_payment: PaymentMinimums,
        url_storage: String,
        payment_accepted: Vec<PaymentType>,
        input_metadata: T,
        tags: Vec<nostr_sdk::Tag>,
        main_payment: PaymentType,
    ) -> (h: Self)
        ensures
            h.request_id == request_id,
            h.min_paid == min_paid,
            h.claim == claim,
            h.proof == proof,
            h.min_paid_by_payment == min_paid_by_payment,
            h.url_storage == url_storage,
            h.payment_accepted == payment_accepted,
            h.input_metadata == input_metadata,
            h.tags == tags,
            h.main_payment == main_payment,
    {
        ProverHandlerMarketplace {
            request_id,
            min_paid,
            claim,
            proof,
            min_paid_by_payment,
            url_storage,
            payment_accepted,
            input_metadata,
            tags,
            main_payment,
        }
    }

    /// The handler that a prover announces for a proving request: paid by
    /// zap only, at least `amount_millisats` by zap, with the default minimum
    /// price as claim, no tags, no storage URL and no proof yet.
    pub fn recommended_application_handler(
        request_id: String,
        input_metadata: T,
        amount_millisats: u64,
    ) -> (h: Self)
        ensures
            h.request_id == request_id,
            h.input_metadata == input_metadata,
            h.main_payment == PaymentType::Zap,
            h.min_paid_by_payment@ == map![PaymentType::Zap => amount_millisats],
            h.min_paid == DEFAULT_MIN_PAID,
            h.claim == DEFAULT_MIN_PAID,
            h.url_storage@ == Seq::<char>::empty(),
            h.tags@.len() == 0,
            h.payment_accepted@ == seq![PaymentType::Zap],
            h.proof is None,
            h.payment_accepted@.contains(h.main_payment),
            h.min_paid_by_payment@.contains_key(h.main_payment),
    {
        let mut min_paid_by_payment = PaymentMinimums::new();
        min_paid_by_payment.insert(PaymentType::Zap, amount_millisats);
        let min_paid = DEFAULT_MIN_PAID;
        let tags: Vec<nostr_sdk::Tag> = Vec::new();
        let payment_accepted = vec![PaymentType::Zap];
        ProverHandlerMarketplace::new(
            request_id,
            min_paid,
            min_paid,
            None,
            min_paid_by_payment,
            String::new(),
            payment_accepted,
            input_metadata,
            tags,
            PaymentType::Zap,
        )
    }
}

} // verus!
