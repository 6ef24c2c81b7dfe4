//! The catalog of every event the contract publishes, and the rules that
//! hold across events.

use vstd::prelude::*;

use crate::events::{
    AgreementActivatedEvent, AgreementCancelledEvent, AgreementCreatedEvent,
    AgreementPausedEvent, AgreementResumedEvent, ArbiterSetEvent, BatchMilestoneClaimedEvent,
    BatchPayrollClaimedEvent, BulkAgreementsPausedEvent, BulkAgreementsUnpausedEvent,
    ContractMigratedEvent, DisputeRaisedEvent, DisputeResolvedEvent, EmployeeAddedEvent,
    ExchangeRateUpdatedEvent, GracePeriodExtendedEvent, GracePeriodFinalizedEvent,
    MilestoneAdded, MilestoneApproved, MilestoneClaimed, MilestoneExpiredEvent,
    MilestoneFundedEvent, MilestoneRejectedEvent, MultisigConfigChangedEvent,
    PaymentReceivedEvent, PaymentSentEvent, PayrollClaimedEvent,
};
use crate::schema::{
    all_distinct, lemma_ascending_distinct, lex_lt, strictly_ascending, well_formed_schema,
    EventSchema, EventSchemaView,
};

verus! {

/// The schemas of all contract events, ordered by event name.
pub open spec fn spec_catalog() -> Seq<EventSchemaView> {
    seq![
        AgreementActivatedEvent::spec_schema(),
        AgreementCancelledEvent::spec_schema(),
        AgreementCreatedEvent::spec_schema(),
        AgreementPausedEvent::spec_schema(),
        AgreementResumedEvent::spec_schema(),
        ArbiterSetEvent::spec_schema(),
        BatchMilestoneClaimedEvent::spec_schema(),
        BatchPayrollClaimedEvent::spec_schema(),
        BulkAgreementsPausedEvent::spec_schema(),
        BulkAgreementsUnpausedEvent::spec_schema(),
        ContractMigratedEvent::spec_schema(),
        DisputeRaisedEvent::spec_schema(),
        DisputeResolvedEvent::spec_schema(),
        EmployeeAddedEvent::spec_schema(),
        ExchangeRateUpdatedEvent::spec_schema(),
        GracePeriodExtendedEvent::spec_schema(),
        GracePeriodFinalizedEvent::spec_schema(),
        MilestoneAdded::spec_schema(),
        MilestoneApproved::spec_schema(),
        MilestoneClaimed::spec_schema(),
        MilestoneExpiredEvent::spec_schema(),
        MilestoneFundedEvent::spec_schema(),
        MilestoneRejectedEvent::spec_schema(),
        MultisigConfigChangedEvent::spec_schema(),
        PaymentReceivedEvent::spec_schema(),
        PaymentSentEvent::spec_schema(),
        PayrollClaimedEvent::spec_schema(),
    ]
}

/// The declared names of the events of a catalog.
pub open spec fn event_names(c: Seq<EventSchemaView>) -> Seq<Seq<char>> {
    c.map_values(|s: EventSchemaView| s.name)
}

/// The event-name topics (topic index 0) of the events of a catalog.
pub open spec fn name_topics(c: Seq<EventSchemaView>) -> Seq<Seq<char>> {
    c.map_values(|s: EventSchemaView| s.topics[0])
}

/// The schemas of all contract events, ordered by event name. Every schema
/// is well formed: its events are published with their event-name topic and
/// the schema version.
pub fn event_schemas() -> (c: Vec<EventSchema>)
    ensures
        c@.len() == spec_catalog().len(),
        forall|i: int| 0 <= i < c@.len() ==> #[trigger] c@[i]@ == spec_catalog()[i],
        forall|i: int| 0 <= i < c@.len() ==> well_formed_schema(#[trigger] c@[i]@),
{
    let c = vec![
        AgreementActivatedEvent::schema(),
        AgreementCancelledEvent::schema(),
        AgreementCreatedEvent::schema(),
        AgreementPausedEvent::schema(),
        AgreementResumedEvent::schema(),
        ArbiterSetEvent::schema(),
        BatchMilestoneClaimedEvent::schema(),
        BatchPayrollClaimedEvent::schema(),
        BulkAgreementsPausedEvent::schema(),
        BulkAgreementsUnpausedEvent::schema(),
        ContractMigratedEvent::schema(),
        DisputeRaisedEvent::schema(),
        DisputeResolvedEvent::schema(),
        EmployeeAddedEvent::schema(),
        ExchangeRateUpdatedEvent::schema(),
        GracePeriodExtendedEvent::schema(),
        GracePeriodFinalizedEvent::schema(),
        MilestoneAdded::schema(),
        MilestoneApproved::schema(),
        MilestoneClaimed::schema(),
        MilestoneExpiredEvent::schema(),
        MilestoneFundedEvent::schema(),
        MilestoneRejectedEvent::schema(),
        MultisigConfigChangedEvent::schema(),
        PaymentReceivedEvent::schema(),
        PaymentSentEvent::schema(),
        PayrollClaimedEvent::schema(),
    ];
    assert(c@.map_values(|s: EventSchema| s@) =~= spec_catalog());
    c
}

/// The catalog is ordered by event name, and no two contract events share
/// a declared name.
pub proof fn lemma_event_names_ascending()
    ensures
        strictly_ascending(event_names(spec_catalog())),
        all_distinct(event_names(spec_catalog())),
{
    reveal_strlit("AgreementActivatedEvent");
    reveal_strlit("AgreementCancelledEvent");
    reveal_strlit("AgreementCreatedEvent");
    reveal_strlit("AgreementPausedEvent");
    reveal_strlit("AgreementResumedEvent");
    reveal_strlit("ArbiterSetEvent");
    reveal_strlit("BatchMilestoneClaimedEvent");
    reveal_strlit("BatchPayrollClaimedEvent");
    reveal_strlit("BulkAgreementsPausedEvent");
    reveal_strlit("BulkAgreementsUnpausedEvent");
    reveal_strlit("ContractMigratedEvent");
    reveal_strlit("DisputeRaisedEvent");
    reveal_strlit("DisputeResolvedEvent");
    reveal_strlit("EmployeeAddedEvent");
    reveal_strlit("ExchangeRateUpdatedEvent");
    reveal_strlit("GracePeriodExtendedEvent");
    reveal_strlit("GracePeriodFinalizedEvent");
    reveal_strlit("MilestoneAdded");
    reveal_strlit("MilestoneApproved");
    reveal_strlit("MilestoneClaimed");
    reveal_strlit("MilestoneExpiredEvent");
    reveal_strlit("MilestoneFundedEvent");
    reveal_strlit("MilestoneRejectedEvent");
    reveal_strlit("MultisigConfigChangedEvent");
    reveal_strlit("PaymentReceivedEvent");
    reveal_strlit("PaymentSentEvent");
    reveal_strlit("PayrollClaimedEvent");
    assert(event_names(spec_catalog()) =~= seq![
        "AgreementActivatedEvent"@,
        "AgreementCancelledEvent"@,
        "AgreementCreatedEvent"@,
        "AgreementPausedEvent"@,
        "AgreementResumedEvent"@,
        "ArbiterSetEvent"@,
        "BatchMilestoneClaimedEvent"@,
        "BatchPayrollClaimedEvent"@,
        "BulkAgreementsPausedEvent"@,
        "BulkAgreementsUnpausedEvent"@,
        "ContractMigratedEvent"@,
        "DisputeRaisedEvent"@,
        "DisputeResolvedEvent"@,
        "EmployeeAddedEvent"@,
        "ExchangeRateUpdatedEvent"@,
        "GracePeriodExtendedEvent"@,
        "GracePeriodFinalizedEvent"@,
        "MilestoneAdded"@,
        "MilestoneApproved"@,
        "MilestoneClaimed"@,
        "MilestoneExpiredEvent"@,
        "MilestoneFundedEvent"@,
        "MilestoneRejectedEvent"@,
        "MultisigConfigChangedEvent"@,
        "PaymentReceivedEvent"@,
        "PaymentSentEvent"@,
        "PayrollClaimedEvent"@,
    ]);
    reveal_with_fuel(strictly_ascending, 28);
    reveal_with_fuel(lex_lt, 16);
    lemma_ascending_distinct(event_names(spec_catalog()));
}

/// The event-name topics follow the same order as the event names, so no
/// two contract events share their event-name topic: the topic at index 0
/// tells which event was published.
pub proof fn lemma_name_topics_distinct()
    ensures
        strictly_ascending(name_topics(spec_catalog())),
        all_distinct(name_topics(spec_catalog())),
{
    reveal_strlit("agreement_activated_event");
    reveal_strlit("agreement_cancelled_event");
    reveal_strlit("agreement_created_event");
    reveal_strlit("agreement_paused_event");
    reveal_strlit("agreement_resumed_event");
    reveal_strlit("arbiter_set_event");
    reveal_strlit("batch_milestone_claimed_event");
    reveal_strlit("batch_payroll_claimed_event");
    reveal_strlit("bulk_agreements_paused_event");
    reveal_strlit("bulk_agreements_unpaused_event");
    reveal_strlit("contract_migrated_event");
    reveal_strlit("dispute_raised_event");
    reveal_strlit("dispute_resolved_event");
    reveal_strlit("employee_added_event");
    reveal_strlit("exchange_rate_updated_event");
    reveal_strlit("grace_period_extended_event");
    reveal_strlit("grace_period_finalized_event");
    reveal_strlit("milestone_added");
    reveal_strlit("milestone_approved");
    reveal_strlit("milestone_claimed");
    reveal_strlit("milestone_expired_event");
    reveal_strlit("milestone_funded_event");
    reveal_strlit("milestone_rejected_event");
    reveal_strlit("multisig_config_changed_event");
    reveal_strlit("payment_received_event");
    reveal_strlit("payment_sent_event");
    reveal_strlit("payroll_claimed_event");
    assert(name_topics(spec_catalog()) =~= seq![
        "agreement_activated_event"@,
        "agreement_cancelled_event"@,
        "agreement_created_event"@,
        "agreement_paused_event"@,
        "agreement_resumed_event"@,
        "arbiter_set_event"@,
        "batch_milestone_claimed_event"@,
        "batch_payroll_claimed_event"@,
        "bulk_agreements_paused_event"@,
        "bulk_agreements_unpaused_event"@,
        "contract_migrated_event"@,
        "dispute_raised_event"@,
        "dispute_resolved_event"@,
        "employee_added_event"@,
        "exchange_rate_updated_event"@,
        "grace_period_extended_event"@,
        "grace_period_finalized_event"@,
        "milestone_added"@,
        "milestone_approved"@,
        "milestone_claimed"@,
        "milestone_expired_event"@,
        "milestone_funded_event"@,
        "milestone_rejected_event"@,
        "multisig_config_changed_event"@,
        "payment_received_event"@,
        "payment_sent_event"@,
        "payroll_claimed_event"@,
    ]);
    reveal_with_fuel(strictly_ascending, 28);
    reveal_with_fuel(lex_lt, 18);
    lemma_ascending_distinct(name_topics(spec_catalog()));
}

} // verus!
