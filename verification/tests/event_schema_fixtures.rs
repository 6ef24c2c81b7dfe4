use std::collections::BTreeMap;

use stello_pay_contract::catalog::event_schemas;
use stello_pay_contract::schema::SCHEMA_VERSION;

/// The versioned event schema fixture: one row per contract event, giving its
/// fields (name and declared type, in declaration order) and its schema version.
const SCHEMA_FIXTURE: &str = "\
# Contract event schema fixture: event|field:type,...|schema version\n\
AgreementActivatedEvent|agreement_id:u128|event_schema_v1\n\
AgreementCancelledEvent|agreement_id:u128|event_schema_v1\n\
AgreementCreatedEvent|agreement_id:u128,employer:Address,mode:AgreementMode|event_schema_v1\n\
AgreementPausedEvent|agreement_id:u128|event_schema_v1\n\
AgreementResumedEvent|agreement_id:u128|event_schema_v1\n\
ArbiterSetEvent|arbiter:Address|event_schema_v1\n\
BatchMilestoneClaimedEvent|agreement_id:u128,total_claimed:i128,successful_claims:u32,failed_claims:u32|event_schema_v1\n\
BatchPayrollClaimedEvent|agreement_id:u128,total_claimed:i128,successful_claims:u32,failed_claims:u32|event_schema_v1\n\
BulkAgreementsPausedEvent|employer:Address,count:u32|event_schema_v1\n\
BulkAgreementsUnpausedEvent|employer:Address,count:u32|event_schema_v1\n\
ContractMigratedEvent|from_version:u32,to_version:u32|event_schema_v1\n\
DisputeRaisedEvent|agreement_id:u128|event_schema_v1\n\
DisputeResolvedEvent|agreement_id:u128,pay_contributor:i128,refund_employer:i128|event_schema_v1\n\
EmployeeAddedEvent|agreement_id:u128,employee:Address,salary_per_period:i128|event_schema_v1\n\
ExchangeRateUpdatedEvent|base:Address,quote:Address,new_rate:i128,prev_rate:i128,updater:Address,updated_at:u64|event_schema_v1\n\
GracePeriodExtendedEvent|agreement_id:u128,additional_seconds:u64,total_extension_seconds:u64,extended_by_owner:bool|event_schema_v1\n\
GracePeriodFinalizedEvent|agreement_id:u128|event_schema_v1\n\
MilestoneAdded|agreement_id:u128,milestone_id:u32,amount:i128|event_schema_v1\n\
MilestoneApproved|agreement_id:u128,milestone_id:u32|event_schema_v1\n\
MilestoneClaimed|agreement_id:u128,milestone_id:u32,amount:i128,to:Address|event_schema_v1\n\
MilestoneExpiredEvent|agreement_id:u128,milestone_id:u32,locked_amount:i128,expired_by:Address|event_schema_v1\n\
MilestoneFundedEvent|agreement_id:u128,from:Address,amount:i128,total_escrow_balance:i128|event_schema_v1\n\
MilestoneRejectedEvent|agreement_id:u128,milestone_id:u32,rejected_by:Address,reason:soroban_sdk::String|event_schema_v1\n\
MultisigConfigChangedEvent|caller:Address,multisig_contract:Address,old_large_threshold:i128,new_large_threshold:i128,old_dispute_threshold:i128,new_dispute_threshold:i128|event_schema_v1\n\
PaymentReceivedEvent|agreement_id:u128,to:Address,amount:i128,token:Address|event_schema_v1\n\
PaymentSentEvent|agreement_id:u128,from:Address,to:Address,amount:i128,token:Address|event_schema_v1\n\
PayrollClaimedEvent|agreement_id:u128,employee:Address,amount:i128|event_schema_v1\n\
";
fn snake_case(name: &str) -> String {
    let mut result = String::new();
    for (index, character) in name.chars().enumerate() {
        if character.is_ascii_uppercase() && index > 0 {
            result.push('_');
        }
        result.push(character.to_ascii_lowercase());
    }
    result
}

fn fixture_entries() -> BTreeMap<String, (String, String)> {
    let mut entries = BTreeMap::new();
    for line in SCHEMA_FIXTURE
        .lines()
        .map(str::trim)
        .filter(|line| !line.is_empty() && !line.starts_with('#'))
    {
        let parts: Vec<_> = line.split('|').collect();
        assert_eq!(parts.len(), 3, "malformed event schema fixture row: {line}");
        assert!(
            entries
                .insert(
                    parts[0].to_owned(),
                    (parts[1].to_owned(), parts[2].to_owned())
                )
                .is_none(),
            "duplicate fixture entry for {}",
            parts[0]
        );
    }
    entries
}

#[test]
fn every_contract_event_matches_its_versioned_schema_fixture() {
    let fixture = fixture_entries();
    let mut seen = BTreeMap::new();

    for schema in event_schemas() {
        let name = schema.name;
        let expected_topic = snake_case(name);
        assert!(
            schema.topics.first() == Some(&expected_topic.as_str()),
            "{name} must preserve its event-name topic"
        );
        assert!(
            schema.topics.contains(&"event_schema_v1"),
            "{name} is missing the schema-version topic"
        );

        let fields: Vec<String> = schema
            .fields
            .iter()
            .map(|field| format!("{}:{}", field.name, field.ty.declared_type()))
            .collect();
        let shape = fields.join(",");
        let (fixture_shape, fixture_version) = fixture
            .get(name)
            .unwrap_or_else(|| panic!("missing fixture for event {name}"));
        assert_eq!(
            &shape, fixture_shape,
            "payload shape changed for {name}; review the fixture and version policy"
        );
        assert_eq!(
            fixture_version, "event_schema_v1",
            "fixture version drift for {name}"
        );
        assert!(
            seen.insert(name.to_owned(), ()).is_none(),
            "duplicate event declaration {name}"
        );
    }

    assert_eq!(
        seen.len(),
        fixture.len(),
        "fixture must cover every contract event and no unknown event"
    );
}

#[test]
fn schema_version_topic_is_second_for_every_event() {
    for schema in event_schemas() {
        assert_eq!(schema.topics.len(), 2);
        assert_eq!(schema.topics[1], SCHEMA_VERSION);
        assert_eq!(schema.topics[1], "event_schema_v1");
    }
}

#[test]
fn catalog_lists_every_event_once_ordered_by_name() {
    let names: Vec<&str> = event_schemas().iter().map(|s| s.name).collect();
    assert_eq!(names.len(), 27);
    assert_eq!(names[0], "AgreementActivatedEvent");
    assert_eq!(names[10], "ContractMigratedEvent");
    assert_eq!(names[26], "PayrollClaimedEvent");
    for pair in names.windows(2) {
        assert!(pair[0] < pair[1], "{} must sort before {}", pair[0], pair[1]);
    }
}

#[test]
fn event_name_topics_identify_the_event() {
    let mut topics: Vec<&str> = event_schemas().iter().map(|s| s.topics[0]).collect();
    topics.sort();
    topics.dedup();
    assert_eq!(topics.len(), 27);
}

#[test]
fn topics_and_field_names_are_soroban_symbols() {
    let is_symbol = |s: &str| {
        s.len() <= 32 && s.chars().all(|c| c.is_ascii_alphanumeric() || c == '_')
    };
    for schema in event_schemas() {
        assert!(schema.name.len() <= 32);
        for topic in &schema.topics {
            assert!(is_symbol(topic), "{topic}");
        }
        for field in &schema.fields {
            assert!(is_symbol(field.name) && field.name.len() <= 30, "{}", field.name);
        }
    }
}
