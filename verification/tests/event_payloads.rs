use soroban_sdk::testutils::Address as _;
use soroban_sdk::{Address, Env, String as SorobanString};

use stello_pay_contract::events::{
    AgreementMode, MilestoneAdded, MilestoneApproved, MilestoneClaimed, AgreementCreatedEvent, AgreementActivatedEvent, EmployeeAddedEvent, PayrollClaimedEvent, AgreementPausedEvent, AgreementResumedEvent, PaymentSentEvent, PaymentReceivedEvent, ContractMigratedEvent, ArbiterSetEvent, DisputeRaisedEvent, DisputeResolvedEvent, AgreementCancelledEvent, GracePeriodFinalizedEvent, GracePeriodExtendedEvent, BatchPayrollClaimedEvent, BatchMilestoneClaimedEvent, MilestoneFundedEvent, ExchangeRateUpdatedEvent, MultisigConfigChangedEvent, MilestoneRejectedEvent, MilestoneExpiredEvent, BulkAgreementsPausedEvent, BulkAgreementsUnpausedEvent,
};
use stello_pay_contract::schema::{EventSchema, FieldType, FieldValue};

/// Checks a published payload against the event's schema: one entry per
/// declared field, keys in strictly ascending order, each value of the
/// declared type.
fn assert_conforms(schema: &EventSchema, topics: &[&str], data: &[(&str, FieldValue)]) {
    assert_eq!(topics, schema.topics.as_slice());
    assert_eq!(data.len(), schema.fields.len());
    for pair in data.windows(2) {
        assert!(pair[0].0 < pair[1].0, "{} must sort before {}", pair[0].0, pair[1].0);
    }
    for (key, value) in data {
        let field = schema
            .fields
            .iter()
            .find(|f| f.name == *key)
            .unwrap_or_else(|| panic!("{key} is not a field of {}", schema.name));
        assert_eq!(value.field_type(), field.ty);
    }
}

#[test]
fn payload_of_milestone_added_conforms_to_its_schema() {
    let env = Env::default();
    let event = MilestoneAdded {
        agreement_id: 7u128,
        milestone_id: 4u32,
        amount: -13i128,
    };
    assert_conforms(&MilestoneAdded::schema(), &event.topics(), &event.data());
}

#[test]
fn payload_of_milestone_approved_conforms_to_its_schema() {
    let env = Env::default();
    let event = MilestoneApproved {
        agreement_id: 7u128,
        milestone_id: 4u32,
    };
    assert_conforms(&MilestoneApproved::schema(), &event.topics(), &event.data());
}

#[test]
fn payload_of_milestone_claimed_conforms_to_its_schema() {
    let env = Env::default();
    let event = MilestoneClaimed {
        agreement_id: 7u128,
        milestone_id: 4u32,
        amount: -13i128,
        to: Address::generate(&env),
    };
    assert_conforms(&MilestoneClaimed::schema(), &event.topics(), &event.data());
}

#[test]
fn payload_of_agreement_created_event_conforms_to_its_schema() {
    let env = Env::default();
    let event = AgreementCreatedEvent {
        agreement_id: 7u128,
        employer: Address::generate(&env),
        mode: AgreementMode::Payroll,
    };
    assert_conforms(&AgreementCreatedEvent::schema(), &event.topics(), &event.data());
}

#[test]
fn payload_of_agreement_activated_event_conforms_to_its_schema() {
    let env = Env::default();
    let event = AgreementActivatedEvent {
        agreement_id: 7u128,
    };
    assert_conforms(&AgreementActivatedEvent::schema(), &event.topics(), &event.data());
}

#[test]
fn payload_of_employee_added_event_conforms_to_its_schema() {
    let env = Env::default();
    let event = EmployeeAddedEvent {
        agreement_id: 7u128,
        employee: Address::generate(&env),
        salary_per_period: -13i128,
    };
    assert_conforms(&EmployeeAddedEvent::schema(), &event.topics(), &event.data());
}

#[test]
fn payload_of_payroll_claimed_event_conforms_to_its_schema() {
    let env = Env::default();
    let event = PayrollClaimedEvent {
        agreement_id: 7u128,
        employee: Address::generate(&env),
        amount: -13i128,
    };
    assert_conforms(&PayrollClaimedEvent::schema(), &event.topics(), &event.data());
}

#[test]
fn payload_of_agreement_paused_event_conforms_to_its_schema() {
    let env = Env::default();
    let event = AgreementPausedEvent {
        agreement_id: 7u128,
    };
    assert_conforms(&AgreementPausedEvent::schema(), &event.topics(), &event.data());
}

#[test]
fn payload_of_agreement_resumed_event_conforms_to_its_schema() {
    let env = Env::default();
    let event = AgreementResumedEvent {
        agreement_id: 7u128,
    };
    assert_conforms(&AgreementResumedEvent::schema(), &event.topics(), &event.data());
}

#[test]
fn payload_of_payment_sent_event_conforms_to_its_schema() {
    let env = Env::default();
    let event = PaymentSentEvent {
        agreement_id: 7u128,
        from: Address::generate(&env),
        to: Address::generate(&env),
        amount: -14i128,
        token: Address::generate(&env),
    };
    assert_conforms(&PaymentSentEvent::schema(), &event.topics(), &event.data());
}

#[test]
fn payload_of_payment_received_event_conforms_to_its_schema() {
    let env = Env::default();
    let event = PaymentReceivedEvent {
        agreement_id: 7u128,
        to: Address::generate(&env),
        amount: -13i128,
        token: Address::generate(&env),
    };
    assert_conforms(&PaymentReceivedEvent::schema(), &event.topics(), &event.data());
}

#[test]
fn payload_of_contract_migrated_event_conforms_to_its_schema() {
    let env = Env::default();
    let event = ContractMigratedEvent {
        from_version: 3u32,
        to_version: 4u32,
    };
    assert_conforms(&ContractMigratedEvent::schema(), &event.topics(), &event.data());
}

#[test]
fn payload_of_arbiter_set_event_conforms_to_its_schema() {
    let env = Env::default();
    let event = ArbiterSetEvent {
        arbiter: Address::generate(&env),
    };
    assert_conforms(&ArbiterSetEvent::schema(), &event.topics(), &event.data());
}

#[test]
fn payload_of_dispute_raised_event_conforms_to_its_schema() {
    let env = Env::default();
    let event = DisputeRaisedEvent {
        agreement_id: 7u128,
    };
    assert_conforms(&DisputeRaisedEvent::schema(), &event.topics(), &event.data());
}

#[test]
fn payload_of_dispute_resolved_event_conforms_to_its_schema() {
    let env = Env::default();
    let event = DisputeResolvedEvent {
        agreement_id: 7u128,
        pay_contributor: -12i128,
        refund_employer: -13i128,
    };
    assert_conforms(&DisputeResolvedEvent::schema(), &event.topics(), &event.data());
}

#[test]
fn payload_of_agreement_cancelled_event_conforms_to_its_schema() {
    let env = Env::default();
    let event = AgreementCancelledEvent {
        agreement_id: 7u128,
    };
    assert_conforms(&AgreementCancelledEvent::schema(), &event.topics(), &event.data());
}

#[test]
fn payload_of_grace_period_finalized_event_conforms_to_its_schema() {
    let env = Env::default();
    let event = GracePeriodFinalizedEvent {
        agreement_id: 7u128,
    };
    assert_conforms(&GracePeriodFinalizedEvent::schema(), &event.topics(), &event.data());
}

#[test]
fn payload_of_grace_period_extended_event_conforms_to_its_schema() {
    let env = Env::default();
    let event = GracePeriodExtendedEvent {
        agreement_id: 7u128,
        additional_seconds: 1001u64,
        total_extension_seconds: 1002u64,
        extended_by_owner: true,
    };
    assert_conforms(&GracePeriodExtendedEvent::schema(), &event.topics(), &event.data());
}

#[test]
fn payload_of_batch_payroll_claimed_event_conforms_to_its_schema() {
    let env = Env::default();
    let event = BatchPayrollClaimedEvent {
        agreement_id: 7u128,
        total_claimed: -12i128,
        successful_claims: 5u32,
        failed_claims: 6u32,
    };
    assert_conforms(&BatchPayrollClaimedEvent::schema(), &event.topics(), &event.data());
}

#[test]
fn payload_of_batch_milestone_claimed_event_conforms_to_its_schema() {
    let env = Env::default();
    let event = BatchMilestoneClaimedEvent {
        agreement_id: 7u128,
        total_claimed: -12i128,
        successful_claims: 5u32,
        failed_claims: 6u32,
    };
    assert_conforms(&BatchMilestoneClaimedEvent::schema(), &event.topics(), &event.data());
}

#[test]
fn payload_of_milestone_funded_event_conforms_to_its_schema() {
    let env = Env::default();
    let event = MilestoneFundedEvent {
        agreement_id: 7u128,
        from: Address::generate(&env),
        amount: -13i128,
        total_escrow_balance: -14i128,
    };
    assert_conforms(&MilestoneFundedEvent::schema(), &event.topics(), &event.data());
}

#[test]
fn payload_of_exchange_rate_updated_event_conforms_to_its_schema() {
    let env = Env::default();
    let event = ExchangeRateUpdatedEvent {
        base: Address::generate(&env),
        quote: Address::generate(&env),
        new_rate: -13i128,
        prev_rate: -14i128,
        updater: Address::generate(&env),
        updated_at: 1005u64,
    };
    assert_conforms(&ExchangeRateUpdatedEvent::schema(), &event.topics(), &event.data());
}

#[test]
fn payload_of_multisig_config_changed_event_conforms_to_its_schema() {
    let env = Env::default();
    let event = MultisigConfigChangedEvent {
        caller: Address::generate(&env),
        multisig_contract: Address::generate(&env),
        old_large_threshold: -13i128,
        new_large_threshold: -14i128,
        old_dispute_threshold: -15i128,
        new_dispute_threshold: -16i128,
    };
    assert_conforms(&MultisigConfigChangedEvent::schema(), &event.topics(), &event.data());
}

#[test]
fn payload_of_milestone_rejected_event_conforms_to_its_schema() {
    let env = Env::default();
    let event = MilestoneRejectedEvent {
        agreement_id: 7u128,
        milestone_id: 4u32,
        rejected_by: Address::generate(&env),
        reason: SorobanString::from_str(&env, "missing deliverable"),
    };
    assert_conforms(&MilestoneRejectedEvent::schema(), &event.topics(), &event.data());
}

#[test]
fn payload_of_milestone_expired_event_conforms_to_its_schema() {
    let env = Env::default();
    let event = MilestoneExpiredEvent {
        agreement_id: 7u128,
        milestone_id: 4u32,
        locked_amount: -13i128,
        expired_by: Address::generate(&env),
    };
    assert_conforms(&MilestoneExpiredEvent::schema(), &event.topics(), &event.data());
}

#[test]
fn payload_of_bulk_agreements_paused_event_conforms_to_its_schema() {
    let env = Env::default();
    let event = BulkAgreementsPausedEvent {
        employer: Address::generate(&env),
        count: 4u32,
    };
    assert_conforms(&BulkAgreementsPausedEvent::schema(), &event.topics(), &event.data());
}

#[test]
fn payload_of_bulk_agreements_unpaused_event_conforms_to_its_schema() {
    let env = Env::default();
    let event = BulkAgreementsUnpausedEvent {
        employer: Address::generate(&env),
        count: 4u32,
    };
    assert_conforms(&BulkAgreementsUnpausedEvent::schema(), &event.topics(), &event.data());
}
#[test]
fn milestone_added_is_published_under_its_name_and_version() {
    let event = MilestoneAdded { agreement_id: 42, milestone_id: 1, amount: 5_000 };
    assert_eq!(event.topics(), vec!["milestone_added", "event_schema_v1"]);
    assert_eq!(
        event.data(),
        vec![
            ("agreement_id", FieldValue::U128(42)),
            ("amount", FieldValue::I128(5_000)),
            ("milestone_id", FieldValue::U32(1)),
        ]
    );
}

#[test]
fn payment_sent_data_is_keyed_in_ascending_order() {
    let env = Env::default();
    let from = Address::generate(&env);
    let to = Address::generate(&env);
    let token = Address::generate(&env);
    let event = PaymentSentEvent {
        agreement_id: 9,
        from: from.clone(),
        to: to.clone(),
        amount: 250,
        token: token.clone(),
    };
    assert_eq!(
        event.data(),
        vec![
            ("agreement_id", FieldValue::U128(9)),
            ("amount", FieldValue::I128(250)),
            ("from", FieldValue::Address(from)),
            ("to", FieldValue::Address(to)),
            ("token", FieldValue::Address(token)),
        ]
    );
    assert_eq!(event.topics(), vec!["payment_sent_event", "event_schema_v1"]);
}

#[test]
fn agreement_created_carries_employer_and_mode() {
    let env = Env::default();
    let employer = Address::generate(&env);
    let event = AgreementCreatedEvent {
        agreement_id: 1,
        employer: employer.clone(),
        mode: AgreementMode::Escrow,
    };
    assert_eq!(
        event.data(),
        vec![
            ("agreement_id", FieldValue::U128(1)),
            ("employer", FieldValue::Address(employer)),
            ("mode", FieldValue::AgreementMode(AgreementMode::Escrow)),
        ]
    );
}

#[test]
fn milestone_rejected_carries_the_reason() {
    let env = Env::default();
    let employer = Address::generate(&env);
    let reason = SorobanString::from_str(&env, "deliverable incomplete");
    let event = MilestoneRejectedEvent {
        agreement_id: 3,
        milestone_id: 2,
        rejected_by: employer.clone(),
        reason: reason.clone(),
    };
    assert_eq!(
        event.data(),
        vec![
            ("agreement_id", FieldValue::U128(3)),
            ("milestone_id", FieldValue::U32(2)),
            ("reason", FieldValue::SorobanString(reason)),
            ("rejected_by", FieldValue::Address(employer)),
        ]
    );
    assert_eq!(event.topics()[0], "milestone_rejected_event");
}

#[test]
fn multisig_config_changed_orders_thresholds_by_name() {
    let env = Env::default();
    let caller = Address::generate(&env);
    let multisig = Address::generate(&env);
    let event = MultisigConfigChangedEvent {
        caller: caller.clone(),
        multisig_contract: multisig.clone(),
        old_large_threshold: 100,
        new_large_threshold: 200,
        old_dispute_threshold: 10,
        new_dispute_threshold: 20,
    };
    let keys: Vec<&str> = event.data().iter().map(|(k, _)| *k).collect();
    assert_eq!(
        keys,
        vec![
            "caller",
            "multisig_contract",
            "new_dispute_threshold",
            "new_large_threshold",
            "old_dispute_threshold",
            "old_large_threshold",
        ]
    );
    assert_eq!(event.data()[2].1, FieldValue::I128(20));
    assert_eq!(event.data()[5].1, FieldValue::I128(100));
}

#[test]
fn grace_period_extended_keeps_every_field() {
    let event = GracePeriodExtendedEvent {
        agreement_id: 5,
        additional_seconds: 3_600,
        total_extension_seconds: 7_200,
        extended_by_owner: false,
    };
    assert_eq!(
        event.data(),
        vec![
            ("additional_seconds", FieldValue::U64(3_600)),
            ("agreement_id", FieldValue::U128(5)),
            ("extended_by_owner", FieldValue::Bool(false)),
            ("total_extension_seconds", FieldValue::U64(7_200)),
        ]
    );
}

#[test]
fn contract_migrated_schema_lists_fields_in_declaration_order() {
    let schema = ContractMigratedEvent::schema();
    assert_eq!(schema.name, "ContractMigratedEvent");
    assert_eq!(schema.topics, vec!["contract_migrated_event", "event_schema_v1"]);
    let fields: Vec<(&str, FieldType)> = schema.fields.iter().map(|f| (f.name, f.ty)).collect();
    assert_eq!(fields, vec![("from_version", FieldType::U32), ("to_version", FieldType::U32)]);
    let event = ContractMigratedEvent { from_version: 1, to_version: 2 };
    assert_eq!(
        event.data(),
        vec![("from_version", FieldValue::U32(1)), ("to_version", FieldValue::U32(2))]
    );
}

#[test]
fn declared_type_names_match_the_declarations() {
    assert_eq!(FieldType::U32.declared_type(), "u32");
    assert_eq!(FieldType::U64.declared_type(), "u64");
    assert_eq!(FieldType::U128.declared_type(), "u128");
    assert_eq!(FieldType::I128.declared_type(), "i128");
    assert_eq!(FieldType::Bool.declared_type(), "bool");
    assert_eq!(FieldType::Address.declared_type(), "Address");
    assert_eq!(FieldType::AgreementMode.declared_type(), "AgreementMode");
    assert_eq!(FieldType::SorobanString.declared_type(), "soroban_sdk::String");
}

#[test]
fn field_values_report_their_type() {
    let env = Env::default();
    assert_eq!(FieldValue::U32(1).field_type(), FieldType::U32);
    assert_eq!(FieldValue::U64(1).field_type(), FieldType::U64);
    assert_eq!(FieldValue::U128(1).field_type(), FieldType::U128);
    assert_eq!(FieldValue::I128(-1).field_type(), FieldType::I128);
    assert_eq!(FieldValue::Bool(true).field_type(), FieldType::Bool);
    assert_eq!(FieldValue::Address(Address::generate(&env)).field_type(), FieldType::Address);
    assert_eq!(
        FieldValue::AgreementMode(AgreementMode::Payroll).field_type(),
        FieldType::AgreementMode
    );
    assert_eq!(
        FieldValue::SorobanString(SorobanString::from_str(&env, "x")).field_type(),
        FieldType::SorobanString
    );
}
