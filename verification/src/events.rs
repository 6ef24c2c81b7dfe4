//! The contract's events.
//!
//! Each event is published with two topics, its event-name topic and the
//! schema-version topic, and with a data map from its field names to its
//! field values. For each event, `schema` describes it, `topics` gives the
//! topics it is published with and `data` its data map, as a list of entries
//! in ascending key order.

use vstd::prelude::*;

use crate::schema::{
    all_distinct, data_conforms, is_symbol, entry_views, field_names, lex_lt, snake_case,
    strictly_ascending, topic_views, well_formed_schema, EventSchema, EventSchemaView,
    FieldSchema, FieldType, FieldValue, SCHEMA_VERSION,
};

verus! {

/// How an agreement pays out.
#[derive(Clone, Copy, Debug, PartialEq, Eq, Structural)]
pub enum AgreementMode {
    Escrow,
    Payroll,
}


/// A milestone was added to a milestone agreement.
#[derive(Clone, Debug)]
pub struct MilestoneAdded {
    pub agreement_id: u128,
    pub milestone_id: u32,
    pub amount: i128,
}

impl MilestoneAdded {
    /// The schema of this event.
    pub open spec fn spec_schema() -> EventSchemaView {
        EventSchemaView {
            name: "MilestoneAdded"@,
            topics: seq!["milestone_added"@, "event_schema_v1"@],
            fields: seq![
                ("agreement_id"@, FieldType::U128),
                ("milestone_id"@, FieldType::U32),
                ("amount"@, FieldType::I128),
            ],
        }
    }

    /// The schema of this event: its name, its topics and its fields in
    /// declaration order.
    pub fn schema() -> (s: EventSchema)
        ensures
            s@ == Self::spec_schema(),
            well_formed_schema(s@),
    {
        proof {
            reveal_strlit("MilestoneAdded");
            reveal_strlit("milestone_added");
            reveal_strlit("event_schema_v1");
            reveal_strlit("agreement_id");
            reveal_strlit("milestone_id");
            reveal_strlit("amount");
            reveal_with_fuel(snake_case, 15);
        }
        let s = EventSchema {
            name: "MilestoneAdded",
            topics: vec!["milestone_added", SCHEMA_VERSION],
            fields: vec![
                FieldSchema { name: "agreement_id", ty: FieldType::U128 },
                FieldSchema { name: "milestone_id", ty: FieldType::U32 },
                FieldSchema { name: "amount", ty: FieldType::I128 },
            ],
        };
        proof {
            assert(s@.topics =~= Self::spec_schema().topics);
            assert(s@.fields =~= Self::spec_schema().fields);
            assert(field_names(s@.fields) =~= seq!["agreement_id"@, "milestone_id"@, "amount"@]);
            assert("agreement_id"@.len() == 12);
            assert("milestone_id"@.len() == 12);
            assert("amount"@.len() == 6);
            assert("agreement_id"@[0] != "milestone_id"@[0]);
            assert(all_distinct(field_names(s@.fields)));
            assert(s@.topics[0] == snake_case(s@.name));
            assert(forall|i: int| 0 <= i < s@.topics.len() ==> is_symbol(#[trigger] s@.topics[i]));
            assert(forall|i: int| 0 <= i < s@.fields.len() ==>
                is_symbol(#[trigger] s@.fields[i].0) && s@.fields[i].0.len() <= 30);
        }
        s
    }

    /// The topics this event is published with: its event-name topic, then
    /// the schema version.
    pub fn topics(&self) -> (t: Vec<&'static str>)
        ensures
            topic_views(t@) == Self::spec_schema().topics,
    {
        let t = vec!["milestone_added", SCHEMA_VERSION];
        assert(topic_views(t@) =~= Self::spec_schema().topics);
        t
    }

    /// The data map this event is published with: one entry per field,
    /// keyed by the field name, in ascending key order.
    pub fn data(&self) -> (d: Vec<(&'static str, FieldValue)>)
        ensures
            d@.len() == 3,
            d@[0].0@ == "agreement_id"@,
            d@[0].1 == FieldValue::U128(self.agreement_id),
            d@[1].0@ == "amount"@,
            d@[1].1 == FieldValue::I128(self.amount),
            d@[2].0@ == "milestone_id"@,
            d@[2].1 == FieldValue::U32(self.milestone_id),
            data_conforms(entry_views(d@), Self::spec_schema().fields),
    {
        proof {
            reveal_strlit("agreement_id");
            reveal_strlit("milestone_id");
            reveal_strlit("amount");
        }
        let d = vec![
            ("agreement_id", FieldValue::U128(self.agreement_id)),
            ("amount", FieldValue::I128(self.amount)),
            ("milestone_id", FieldValue::U32(self.milestone_id)),
        ];
        proof {
            let e = entry_views(d@);
            let f = Self::spec_schema().fields;
            reveal_with_fuel(strictly_ascending, 3);
            reveal_with_fuel(lex_lt, 3);
            assert(field_names(e) =~= seq!["agreement_id"@, "amount"@, "milestone_id"@]);
            assert(e[0] == f[0]);
            assert(e[1] == f[2]);
            assert(e[2] == f[1]);
        }
        d
    }
}

/// A milestone of an agreement was approved.
#[derive(Clone, Debug)]
pub struct MilestoneApproved {
    pub agreement_id: u128,
    pub milestone_id: u32,
}

impl MilestoneApproved {
    /// The schema of this event.
    pub open spec fn spec_schema() -> EventSchemaView {
        EventSchemaView {
            name: "MilestoneApproved"@,
            topics: seq!["milestone_approved"@, "event_schema_v1"@],
            fields: seq![
                ("agreement_id"@, FieldType::U128),
                ("milestone_id"@, FieldType::U32),
            ],
        }
    }

    /// The schema of this event: its name, its topics and its fields in
    /// declaration order.
    pub fn schema() -> (s: EventSchema)
        ensures
            s@ == Self::spec_schema(),
            well_formed_schema(s@),
    {
        proof {
            reveal_strlit("MilestoneApproved");
            reveal_strlit("milestone_approved");
            reveal_strlit("event_schema_v1");
            reveal_strlit("agreement_id");
            reveal_strlit("milestone_id");
            reveal_with_fuel(snake_case, 18);
        }
        let s = EventSchema {
            name: "MilestoneApproved",
            topics: vec!["milestone_approved", SCHEMA_VERSION],
            fields: vec![
                FieldSchema { name: "agreement_id", ty: FieldType::U128 },
                FieldSchema { name: "milestone_id", ty: FieldType::U32 },
            ],
        };
        proof {
            assert(s@.topics =~= Self::spec_schema().topics);
            assert(s@.fields =~= Self::spec_schema().fields);
            assert(field_names(s@.fields) =~= seq!["agreement_id"@, "milestone_id"@]);
            assert("agreement_id"@.len() == 12);
            assert("milestone_id"@.len() == 12);
            assert("agreement_id"@[0] != "milestone_id"@[0]);
            assert(all_distinct(field_names(s@.fields)));
            assert(s@.topics[0] == snake_case(s@.name));
            assert(forall|i: int| 0 <= i < s@.topics.len() ==> is_symbol(#[trigger] s@.topics[i]));
            assert(forall|i: int| 0 <= i < s@.fields.len() ==>
                is_symbol(#[trigger] s@.fields[i].0) && s@.fields[i].0.len() <= 30);
        }
        s
    }

    /// The topics this event is published with: its event-name topic, then
    /// the schema version.
    pub fn topics(&self) -> (t: Vec<&'static str>)
        ensures
            topic_views(t@) == Self::spec_schema().topics,
    {
        let t = vec!["milestone_approved", SCHEMA_VERSION];
        assert(topic_views(t@) =~= Self::spec_schema().topics);
        t
    }

    /// The data map this event is published with: one entry per field,
    /// keyed by the field name, in ascending key order.
    pub fn data(&self) -> (d: Vec<(&'static str, FieldValue)>)
        ensures
            d@.len() == 2,
            d@[0].0@ == "agreement_id"@,
            d@[0].1 == FieldValue::U128(self.agreement_id),
            d@[1].0@ == "milestone_id"@,
            d@[1].1 == FieldValue::U32(self.milestone_id),
            data_conforms(entry_views(d@), Self::spec_schema().fields),
    {
        proof {
            reveal_strlit("agreement_id");
            reveal_strlit("milestone_id");
        }
        let d = vec![
            ("agreement_id", FieldValue::U128(self.agreement_id)),
            ("milestone_id", FieldValue::U32(self.milestone_id)),
        ];
        proof {
            let e = entry_views(d@);
            let f = Self::spec_schema().fields;
            reveal_with_fuel(strictly_ascending, 2);
            reveal_with_fuel(lex_lt, 2);
            assert(field_names(e) =~= seq!["agreement_id"@, "milestone_id"@]);
            assert(e[0] == f[0]);
            assert(e[1] == f[1]);
        }
        d
    }
}

/// The payment of an approved milestone was claimed.
#[derive(Clone, Debug)]
pub struct MilestoneClaimed {
    pub agreement_id: u128,
    pub milestone_id: u32,
    pub amount: i128,
    pub to: soroban_sdk::Address,
}

impl MilestoneClaimed {
    /// The schema of this event.
    pub open spec fn spec_schema() -> EventSchemaView {
        EventSchemaView {
            name: "MilestoneClaimed"@,
            topics: seq!["milestone_claimed"@, "event_schema_v1"@],
            fields: seq![
                ("agreement_id"@, FieldType::U128),
                ("milestone_id"@, FieldType::U32),
                ("amount"@, FieldType::I128),
                ("to"@, FieldType::Address),
            ],
        }
    }

    /// The schema of this event: its name, its topics and its fields in
    /// declaration order.
    pub fn schema() -> (s: EventSchema)
        ensures
            s@ == Self::spec_schema(),
            well_formed_schema(s@),
    {
        proof {
            reveal_strlit("MilestoneClaimed");
            reveal_strlit("milestone_claimed");
            reveal_strlit("event_schema_v1");
            reveal_strlit("agreement_id");
            reveal_strlit("milestone_id");
            reveal_strlit("amount");
            reveal_strlit("to");
            reveal_with_fuel(snake_case, 17);
        }
        let s = EventSchema {
            name: "MilestoneClaimed",
            topics: vec!["milestone_claimed", SCHEMA_VERSION],
            fields: vec![
                FieldSchema { name: "agreement_id", ty: FieldType::U128 },
                FieldSchema { name: "milestone_id", ty: FieldType::U32 },
                FieldSchema { name: "amount", ty: FieldType::I128 },
                FieldSchema { name: "to", ty: FieldType::Address },
            ],
        };
        proof {
            assert(s@.topics =~= Self::spec_schema().topics);
            assert(s@.fields =~= Self::spec_schema().fields);
            assert(field_names(s@.fields) =~= seq![
                "agreement_id"@,
                "milestone_id"@,
                "amount"@,
                "to"@,
            ]);
            assert("agreement_id"@.len() == 12);
            assert("milestone_id"@.len() == 12);
            assert("amount"@.len() == 6);
            assert("to"@.len() == 2);
            assert("agreement_id"@[0] != "milestone_id"@[0]);
            assert(all_distinct(field_names(s@.fields)));
            assert(s@.topics[0] == snake_case(s@.name));
            assert(forall|i: int| 0 <= i < s@.topics.len() ==> is_symbol(#[trigger] s@.topics[i]));
            assert(forall|i: int| 0 <= i < s@.fields.len() ==>
                is_symbol(#[trigger] s@.fields[i].0) && s@.fields[i].0.len() <= 30);
        }
        s
    }

    /// The topics this event is published with: its event-name topic, then
    /// the schema version.
    pub fn topics(&self) -> (t: Vec<&'static str>)
        ensures
            topic_views(t@) == Self::spec_schema().topics,
    {
        let t = vec!["milestone_claimed", SCHEMA_VERSION];
        assert(topic_views(t@) =~= Self::spec_schema().topics);
        t
    }

    /// The data map this event is published with: one entry per field,
    /// keyed by the field name, in ascending key order.
    pub fn data(&self) -> (d: Vec<(&'static str, FieldValue)>)
        ensures
            d@.len() == 4,
            d@[0].0@ == "agreement_id"@,
            d@[0].1 == FieldValue::U128(self.agreement_id),
            d@[1].0@ == "amount"@,
            d@[1].1 == FieldValue::I128(self.amount),
            d@[2].0@ == "milestone_id"@,
            d@[2].1 == FieldValue::U32(self.milestone_id),
            d@[3].0@ == "to"@,
            d@[3].1 == FieldValue::Address(self.to),
            data_conforms(entry_views(d@), Self::spec_schema().fields),
    {
        proof {
            reveal_strlit("agreement_id");
            reveal_strlit("milestone_id");
            reveal_strlit("amount");
            reveal_strlit("to");
        }
        let d = vec![
            ("agreement_id", FieldValue::U128(self.agreement_id)),
            ("amount", FieldValue::I128(self.amount)),
            ("milestone_id", FieldValue::U32(self.milestone_id)),
            ("to", FieldValue::Address(self.to.clone())),
        ];
        proof {
            let e = entry_views(d@);
            let f = Self::spec_schema().fields;
            reveal_with_fuel(strictly_ascending, 4);
            reveal_with_fuel(lex_lt, 3);
            assert(field_names(e) =~= seq!["agreement_id"@, "amount"@, "milestone_id"@, "to"@]);
            assert(e[0] == f[0]);
            assert(e[1] == f[2]);
            assert(e[2] == f[1]);
            assert(e[3] == f[3]);
        }
        d
    }
}

/// An agreement was created by an employer.
#[derive(Clone, Debug)]
pub struct AgreementCreatedEvent {
    pub agreement_id: u128,
    pub employer: soroban_sdk::Address,
    pub mode: AgreementMode,
}

impl AgreementCreatedEvent {
    /// The schema of this event.
    pub open spec fn spec_schema() -> EventSchemaView {
        EventSchemaView {
            name: "AgreementCreatedEvent"@,
            topics: seq!["agreement_created_event"@, "event_schema_v1"@],
            fields: seq![
                ("agreement_id"@, FieldType::U128),
                ("employer"@, FieldType::Address),
                ("mode"@, FieldType::AgreementMode),
            ],
        }
    }

    /// The schema of this event: its name, its topics and its fields in
    /// declaration order.
    pub fn schema() -> (s: EventSchema)
        ensures
            s@ == Self::spec_schema(),
            well_formed_schema(s@),
    {
        proof {
            reveal_strlit("AgreementCreatedEvent");
            reveal_strlit("agreement_created_event");
            reveal_strlit("event_schema_v1");
            reveal_strlit("agreement_id");
            reveal_strlit("employer");
            reveal_strlit("mode");
            reveal_with_fuel(snake_case, 22);
        }
        let s = EventSchema {
            name: "AgreementCreatedEvent",
            topics: vec!["agreement_created_event", SCHEMA_VERSION],
            fields: vec![
                FieldSchema { name: "agreement_id", ty: FieldType::U128 },
                FieldSchema { name: "employer", ty: FieldType::Address },
                FieldSchema { name: "mode", ty: FieldType::AgreementMode },
            ],
        };
        proof {
            assert(s@.topics =~= Self::spec_schema().topics);
            assert(s@.fields =~= Self::spec_schema().fields);
            assert(field_names(s@.fields) =~= seq!["agreement_id"@, "employer"@, "mode"@]);
            assert("agreement_id"@.len() == 12);
            assert("employer"@.len() == 8);
            assert("mode"@.len() == 4);
            assert(all_distinct(field_names(s@.fields)));
            assert(s@.topics[0] == snake_case(s@.name));
            assert(forall|i: int| 0 <= i < s@.topics.len() ==> is_symbol(#[trigger] s@.topics[i]));
            assert(forall|i: int| 0 <= i < s@.fields.len() ==>
                is_symbol(#[trigger] s@.fields[i].0) && s@.fields[i].0.len() <= 30);
        }
        s
    }

    /// The topics this event is published with: its event-name topic, then
    /// the schema version.
    pub fn topics(&self) -> (t: Vec<&'static str>)
        ensures
            topic_views(t@) == Self::spec_schema().topics,
    {
        let t = vec!["agreement_created_event", SCHEMA_VERSION];
        assert(topic_views(t@) =~= Self::spec_schema().topics);
        t
    }

    /// The data map this event is published with: one entry per field,
    /// keyed by the field name, in ascending key order.
    pub fn data(&self) -> (d: Vec<(&'static str, FieldValue)>)
        ensures
            d@.len() == 3,
            d@[0].0@ == "agreement_id"@,
            d@[0].1 == FieldValue::U128(self.agreement_id),
            d@[1].0@ == "employer"@,
            d@[1].1 == FieldValue::Address(self.employer),
            d@[2].0@ == "mode"@,
            d@[2].1 == FieldValue::AgreementMode(self.mode),
            data_conforms(entry_views(d@), Self::spec_schema().fields),
    {
        proof {
            reveal_strlit("agreement_id");
            reveal_strlit("employer");
            reveal_strlit("mode");
        }
        let d = vec![
            ("agreement_id", FieldValue::U128(self.agreement_id)),
            ("employer", FieldValue::Address(self.employer.clone())),
            ("mode", FieldValue::AgreementMode(self.mode)),
        ];
        proof {
            let e = entry_views(d@);
            let f = Self::spec_schema().fields;
            reveal_with_fuel(strictly_ascending, 3);
            reveal_with_fuel(lex_lt, 2);
            assert(field_names(e) =~= seq!["agreement_id"@, "employer"@, "mode"@]);
            assert(e[0] == f[0]);
            assert(e[1] == f[1]);
            assert(e[2] == f[2]);
        }
        d
    }
}

/// An agreement was activated.
#[derive(Clone, Debug)]
pub struct AgreementActivatedEvent {
    pub agreement_id: u128,
}

impl AgreementActivatedEvent {
    /// The schema of this event.
    pub open spec fn spec_schema() -> EventSchemaView {
        EventSchemaView {
            name: "AgreementActivatedEvent"@,
            topics: seq!["agreement_activated_event"@, "event_schema_v1"@],
            fields: seq![
                ("agreement_id"@, FieldType::U128),
            ],
        }
    }

    /// The schema of this event: its name, its topics and its fields in
    /// declaration order.
    pub fn schema() -> (s: EventSchema)
        ensures
            s@ == Self::spec_schema(),
            well_formed_schema(s@),
    {
        proof {
            reveal_strlit("AgreementActivatedEvent");
            reveal_strlit("agreement_activated_event");
            reveal_strlit("event_schema_v1");
            reveal_strlit("agreement_id");
            reveal_with_fuel(snake_case, 24);
        }
        let s = EventSchema {
            name: "AgreementActivatedEvent",
            topics: vec!["agreement_activated_event", SCHEMA_VERSION],
            fields: vec![
                FieldSchema { name: "agreement_id", ty: FieldType::U128 },
            ],
        };
        proof {
            assert(s@.topics =~= Self::spec_schema().topics);
            assert(s@.fields =~= Self::spec_schema().fields);
            assert(field_names(s@.fields) =~= seq!["agreement_id"@]);
            assert("agreement_id"@.len() == 12);
            assert(all_distinct(field_names(s@.fields)));
            assert(s@.topics[0] == snake_case(s@.name));
            assert(forall|i: int| 0 <= i < s@.topics.len() ==> is_symbol(#[trigger] s@.topics[i]));
            assert(forall|i: int| 0 <= i < s@.fields.len() ==>
                is_symbol(#[trigger] s@.fields[i].0) && s@.fields[i].0.len() <= 30);
        }
        s
    }

    /// The topics this event is published with: its event-name topic, then
    /// the schema version.
    pub fn topics(&self) -> (t: Vec<&'static str>)
        ensures
            topic_views(t@) == Self::spec_schema().topics,
    {
        let t = vec!["agreement_activated_event", SCHEMA_VERSION];
        assert(topic_views(t@) =~= Self::spec_schema().topics);
        t
    }

    /// The data map this event is published with: one entry per field,
    /// keyed by the field name, in ascending key order.
    pub fn data(&self) -> (d: Vec<(&'static str, FieldValue)>)
        ensures
            d@.len() == 1,
            d@[0].0@ == "agreement_id"@,
            d@[0].1 == FieldValue::U128(self.agreement_id),
            data_conforms(entry_views(d@), Self::spec_schema().fields),
    {
        proof {
            reveal_strlit("agreement_id");
        }
        let d = vec![
            ("agreement_id", FieldValue::U128(self.agreement_id)),
        ];
        proof {
            let e = entry_views(d@);
            let f = Self::spec_schema().fields;
            reveal_with_fuel(strictly_ascending, 1);
            reveal_with_fuel(lex_lt, 2);
            assert(field_names(e) =~= seq!["agreement_id"@]);
            assert(e[0] == f[0]);
        }
        d
    }
}

/// An employee was added to an agreement.
#[derive(Clone, Debug)]
pub struct EmployeeAddedEvent {
    pub agreement_id: u128,
    pub employee: soroban_sdk::Address,
    pub salary_per_period: i128,
}

impl EmployeeAddedEvent {
    /// The schema of this event.
    pub open spec fn spec_schema() -> EventSchemaView {
        EventSchemaView {
            name: "EmployeeAddedEvent"@,
            topics: seq!["employee_added_event"@, "event_schema_v1"@],
            fields: seq![
                ("agreement_id"@, FieldType::U128),
                ("employee"@, FieldType::Address),
                ("salary_per_period"@, FieldType::I128),
            ],
        }
    }

    /// The schema of this event: its name, its topics and its fields in
    /// declaration order.
    pub fn schema() -> (s: EventSchema)
        ensures
            s@ == Self::spec_schema(),
            well_formed_schema(s@),
    {
        proof {
            reveal_strlit("EmployeeAddedEvent");
            reveal_strlit("employee_added_event");
            reveal_strlit("event_schema_v1");
            reveal_strlit("agreement_id");
            reveal_strlit("employee");
            reveal_strlit("salary_per_period");
            reveal_with_fuel(snake_case, 19);
        }
        let s = EventSchema {
            name: "EmployeeAddedEvent",
            topics: vec!["employee_added_event", SCHEMA_VERSION],
            fields: vec![
                FieldSchema { name: "agreement_id", ty: FieldType::U128 },
                FieldSchema { name: "employee", ty: FieldType::Address },
                FieldSchema { name: "salary_per_period", ty: FieldType::I128 },
            ],
        };
        proof {
            assert(s@.topics =~= Self::spec_schema().topics);
            assert(s@.fields =~= Self::spec_schema().fields);
            assert(field_names(s@.fields) =~= seq![
                "agreement_id"@,
                "employee"@,
                "salary_per_period"@,
            ]);
            assert("agreement_id"@.len() == 12);
            assert("employee"@.len() == 8);
            assert("salary_per_period"@.len() == 17);
            assert(all_distinct(field_names(s@.fields)));
            assert(s@.topics[0] == snake_case(s@.name));
            assert(forall|i: int| 0 <= i < s@.topics.len() ==> is_symbol(#[trigger] s@.topics[i]));
            assert(forall|i: int| 0 <= i < s@.fields.len() ==>
                is_symbol(#[trigger] s@.fields[i].0) && s@.fields[i].0.len() <= 30);
        }
        s
    }

    /// The topics this event is published with: its event-name topic, then
    /// the schema version.
    pub fn topics(&self) -> (t: Vec<&'static str>)
        ensures
            topic_views(t@) == Self::spec_schema().topics,
    {
        let t = vec!["employee_added_event", SCHEMA_VERSION];
        assert(topic_views(t@) =~= Self::spec_schema().topics);
        t
    }

    /// The data map this event is published with: one entry per field,
    /// keyed by the field name, in ascending key order.
    pub fn data(&self) -> (d: Vec<(&'static str, FieldValue)>)
        ensures
            d@.len() == 3,
            d@[0].0@ == "agreement_id"@,
            d@[0].1 == FieldValue::U128(self.agreement_id),
            d@[1].0@ == "employee"@,
            d@[1].1 == FieldValue::Address(self.employee),
            d@[2].0@ == "salary_per_period"@,
            d@[2].1 == FieldValue::I128(self.salary_per_period),
            data_conforms(entry_views(d@), Self::spec_schema().fields),
    {
        proof {
            reveal_strlit("agreement_id");
            reveal_strlit("employee");
            reveal_strlit("salary_per_period");
        }
        let d = vec![
            ("agreement_id", FieldValue::U128(self.agreement_id)),
            ("employee", FieldValue::Address(self.employee.clone())),
            ("salary_per_period", FieldValue::I128(self.salary_per_period)),
        ];
        proof {
            let e = entry_views(d@);
            let f = Self::spec_schema().fields;
            reveal_with_fuel(strictly_ascending, 3);
            reveal_with_fuel(lex_lt, 2);
            assert(field_names(e) =~= seq!["agreement_id"@, "employee"@, "salary_per_period"@]);
            assert(e[0] == f[0]);
            assert(e[1] == f[1]);
            assert(e[2] == f[2]);
        }
        d
    }
}

/// An employee claimed payroll.
#[derive(Clone, Debug)]
pub struct PayrollClaimedEvent {
    pub agreement_id: u128,
    pub employee: soroban_sdk::Address,
    pub amount: i128,
}

impl PayrollClaimedEvent {
    /// The schema of this event.
    pub open spec fn spec_schema() -> EventSchemaView {
        EventSchemaView {
            name: "PayrollClaimedEvent"@,
            topics: seq!["payroll_claimed_event"@, "event_schema_v1"@],
            fields: seq![
                ("agreement_id"@, FieldType::U128),
                ("employee"@, FieldType::Address),
                ("amount"@, FieldType::I128),
            ],
        }
    }

    /// The schema of this event: its name, its topics and its fields in
    /// declaration order.
    pub fn schema() -> (s: EventSchema)
        ensures
            s@ == Self::spec_schema(),
            well_formed_schema(s@),
    {
        proof {
            reveal_strlit("PayrollClaimedEvent");
            reveal_strlit("payroll_claimed_event");
            reveal_strlit("event_schema_v1");
            reveal_strlit("agreement_id");
            reveal_strlit("employee");
            reveal_strlit("amount");
            reveal_with_fuel(snake_case, 20);
        }
        let s = EventSchema {
            name: "PayrollClaimedEvent",
            topics: vec!["payroll_claimed_event", SCHEMA_VERSION],
            fields: vec![
                FieldSchema { name: "agreement_id", ty: FieldType::U128 },
                FieldSchema { name: "employee", ty: FieldType::Address },
                FieldSchema { name: "amount", ty: FieldType::I128 },
            ],
        };
        proof {
            assert(s@.topics =~= Self::spec_schema().topics);
            assert(s@.fields =~= Self::spec_schema().fields);
            assert(field_names(s@.fields) =~= seq!["agreement_id"@, "employee"@, "amount"@]);
            assert("agreement_id"@.len() == 12);
            assert("employee"@.len() == 8);
            assert("amount"@.len() == 6);
            assert(all_distinct(field_names(s@.fields)));
            assert(s@.topics[0] == snake_case(s@.name));
            assert(forall|i: int| 0 <= i < s@.topics.len() ==> is_symbol(#[trigger] s@.topics[i]));
            assert(forall|i: int| 0 <= i < s@.fields.len() ==>
                is_symbol(#[trigger] s@.fields[i].0) && s@.fields[i].0.len() <= 30);
        }
        s
    }

    /// The topics this event is published with: its event-name topic, then
    /// the schema version.
    pub fn topics(&self) -> (t: Vec<&'static str>)
        ensures
            topic_views(t@) == Self::spec_schema().topics,
    {
        let t = vec!["payroll_claimed_event", SCHEMA_VERSION];
        assert(topic_views(t@) =~= Self::spec_schema().topics);
        t
    }

    /// The data map this event is published with: one entry per field,
    /// keyed by the field name, in ascending key order.
    pub fn data(&self) -> (d: Vec<(&'static str, FieldValue)>)
        ensures
            d@.len() == 3,
            d@[0].0@ == "agreement_id"@,
            d@[0].1 == FieldValue::U128(self.agreement_id),
            d@[1].0@ == "amount"@,
            d@[1].1 == FieldValue::I128(self.amount),
            d@[2].0@ == "employee"@,
            d@[2].1 == FieldValue::Address(self.employee),
            data_conforms(entry_views(d@), Self::spec_schema().fields),
    {
        proof {
            reveal_strlit("agreement_id");
            reveal_strlit("employee");
            reveal_strlit("amount");
        }
        let d = vec![
            ("agreement_id", FieldValue::U128(self.agreement_id)),
            ("amount", FieldValue::I128(self.amount)),
            ("employee", FieldValue::Address(self.employee.clone())),
        ];
        proof {
            let e = entry_views(d@);
            let f = Self::spec_schema().fields;
            reveal_with_fuel(strictly_ascending, 3);
            reveal_with_fuel(lex_lt, 3);
            assert(field_names(e) =~= seq!["agreement_id"@, "amount"@, "employee"@]);
            assert(e[0] == f[0]);
            assert(e[1] == f[2]);
            assert(e[2] == f[1]);
        }
        d
    }
}

/// An agreement was paused.
#[derive(Clone, Debug)]
pub struct AgreementPausedEvent {
    pub agreement_id: u128,
}

impl AgreementPausedEvent {
    /// The schema of this event.
    pub open spec fn spec_schema() -> EventSchemaView {
        EventSchemaView {
            name: "AgreementPausedEvent"@,
            topics: seq!["agreement_paused_event"@, "event_schema_v1"@],
            fields: seq![
                ("agreement_id"@, FieldType::U128),
            ],
        }
    }

    /// The schema of this event: its name, its topics and its fields in
    /// declaration order.
    pub fn schema() -> (s: EventSchema)
        ensures
            s@ == Self::spec_schema(),
            well_formed_schema(s@),
    {
        proof {
            reveal_strlit("AgreementPausedEvent");
            reveal_strlit("agreement_paused_event");
            reveal_strlit("event_schema_v1");
            reveal_strlit("agreement_id");
            reveal_with_fuel(snake_case, 21);
        }
        let s = EventSchema {
            name: "AgreementPausedEvent",
            topics: vec!["agreement_paused_event", SCHEMA_VERSION],
            fields: vec![
                FieldSchema { name: "agreement_id", ty: FieldType::U128 },
            ],
        };
        proof {
            assert(s@.topics =~= Self::spec_schema().topics);
            assert(s@.fields =~= Self::spec_schema().fields);
            assert(field_names(s@.fields) =~= seq!["agreement_id"@]);
            assert("agreement_id"@.len() == 12);
            assert(all_distinct(field_names(s@.fields)));
            assert(s@.topics[0] == snake_case(s@.name));
            assert(forall|i: int| 0 <= i < s@.topics.len() ==> is_symbol(#[trigger] s@.topics[i]));
            assert(forall|i: int| 0 <= i < s@.fields.len() ==>
                is_symbol(#[trigger] s@.fields[i].0) && s@.fields[i].0.len() <= 30);
        }
        s
    }

    /// The topics this event is published with: its event-name topic, then
    /// the schema version.
    pub fn topics(&self) -> (t: Vec<&'static str>)
        ensures
            topic_views(t@) == Self::spec_schema().topics,
    {
        let t = vec!["agreement_paused_event", SCHEMA_VERSION];
        assert(topic_views(t@) =~= Self::spec_schema().topics);
        t
    }

    /// The data map this event is published with: one entry per field,
    /// keyed by the field name, in ascending key order.
    pub fn data(&self) -> (d: Vec<(&'static str, FieldValue)>)
        ensures
            d@.len() == 1,
            d@[0].0@ == "agreement_id"@,
            d@[0].1 == FieldValue::U128(self.agreement_id),
            data_conforms(entry_views(d@), Self::spec_schema().fields),
    {
        proof {
            reveal_strlit("agreement_id");
        }
        let d = vec![
            ("agreement_id", FieldValue::U128(self.agreement_id)),
        ];
        proof {
            let e = entry_views(d@);
            let f = Self::spec_schema().fields;
            reveal_with_fuel(strictly_ascending, 1);
            reveal_with_fuel(lex_lt, 2);
            assert(field_names(e) =~= seq!["agreement_id"@]);
            assert(e[0] == f[0]);
        }
        d
    }
}

/// A paused agreement was resumed.
#[derive(Clone, Debug)]
pub struct AgreementResumedEvent {
    pub agreement_id: u128,
}

impl AgreementResumedEvent {
    /// The schema of this event.
    pub open spec fn spec_schema() -> EventSchemaView {
        EventSchemaView {
            name: "AgreementResumedEvent"@,
            topics: seq!["agreement_resumed_event"@, "event_schema_v1"@],
            fields: seq![
                ("agreement_id"@, FieldType::U128),
            ],
        }
    }

    /// The schema of this event: its name, its topics and its fields in
    /// declaration order.
    pub fn schema() -> (s: EventSchema)
        ensures
            s@ == Self::spec_schema(),
            well_formed_schema(s@),
    {
        proof {
            reveal_strlit("AgreementResumedEvent");
            reveal_strlit("agreement_resumed_event");
            reveal_strlit("event_schema_v1");
            reveal_strlit("agreement_id");
            reveal_with_fuel(snake_case, 22);
        }
        let s = EventSchema {
            name: "AgreementResumedEvent",
            topics: vec!["agreement_resumed_event", SCHEMA_VERSION],
            fields: vec![
                FieldSchema { name: "agreement_id", ty: FieldType::U128 },
            ],
        };
        proof {
            assert(s@.topics =~= Self::spec_schema().topics);
            assert(s@.fields =~= Self::spec_schema().fields);
            assert(field_names(s@.fields) =~= seq!["agreement_id"@]);
            assert("agreement_id"@.len() == 12);
            assert(all_distinct(field_names(s@.fields)));
            assert(s@.topics[0] == snake_case(s@.name));
            assert(forall|i: int| 0 <= i < s@.topics.len() ==> is_symbol(#[trigger] s@.topics[i]));
            assert(forall|i: int| 0 <= i < s@.fields.len() ==>
                is_symbol(#[trigger] s@.fields[i].0) && s@.fields[i].0.len() <= 30);
        }
        s
    }

    /// The topics this event is published with: its event-name topic, then
    /// the schema version.
    pub fn topics(&self) -> (t: Vec<&'static str>)
        ensures
            topic_views(t@) == Self::spec_schema().topics,
    {
        let t = vec!["agreement_resumed_event", SCHEMA_VERSION];
        assert(topic_views(t@) =~= Self::spec_schema().topics);
        t
    }

    /// The data map this event is published with: one entry per field,
    /// keyed by the field name, in ascending key order.
    pub fn data(&self) -> (d: Vec<(&'static str, FieldValue)>)
        ensures
            d@.len() == 1,
            d@[0].0@ == "agreement_id"@,
            d@[0].1 == FieldValue::U128(self.agreement_id),
            data_conforms(entry_views(d@), Self::spec_schema().fields),
    {
        proof {
            reveal_strlit("agreement_id");
        }
        let d = vec![
            ("agreement_id", FieldValue::U128(self.agreement_id)),
        ];
        proof {
            let e = entry_views(d@);
            let f = Self::spec_schema().fields;
            reveal_with_fuel(strictly_ascending, 1);
            reveal_with_fuel(lex_lt, 2);
            assert(field_names(e) =~= seq!["agreement_id"@]);
            assert(e[0] == f[0]);
        }
        d
    }
}

/// A payment was sent.
#[derive(Clone, Debug)]
pub struct PaymentSentEvent {
    pub agreement_id: u128,
    pub from: soroban_sdk::Address,
    pub to: soroban_sdk::Address,
    pub amount: i128,
    pub token: soroban_sdk::Address,
}

impl PaymentSentEvent {
    /// The schema of this event.
    pub open spec fn spec_schema() -> EventSchemaView {
        EventSchemaView {
            name: "PaymentSentEvent"@,
            topics: seq!["payment_sent_event"@, "event_schema_v1"@],
            fields: seq![
                ("agreement_id"@, FieldType::U128),
                ("from"@, FieldType::Address),
                ("to"@, FieldType::Address),
                ("amount"@, FieldType::I128),
                ("token"@, FieldType::Address),
            ],
        }
    }

    /// The schema of this event: its name, its topics and its fields in
    /// declaration order.
    pub fn schema() -> (s: EventSchema)
        ensures
            s@ == Self::spec_schema(),
            well_formed_schema(s@),
    {
        proof {
            reveal_strlit("PaymentSentEvent");
            reveal_strlit("payment_sent_event");
            reveal_strlit("event_schema_v1");
            reveal_strlit("agreement_id");
            reveal_strlit("from");
            reveal_strlit("to");
            reveal_strlit("amount");
            reveal_strlit("token");
            reveal_with_fuel(snake_case, 17);
        }
        let s = EventSchema {
            name: "PaymentSentEvent",
            topics: vec!["payment_sent_event", SCHEMA_VERSION],
            fields: vec![
                FieldSchema { name: "agreement_id", ty: FieldType::U128 },
                FieldSchema { name: "from", ty: FieldType::Address },
                FieldSchema { name: "to", ty: FieldType::Address },
                FieldSchema { name: "amount", ty: FieldType::I128 },
                FieldSchema { name: "token", ty: FieldType::Address },
            ],
        };
        proof {
            assert(s@.topics =~= Self::spec_schema().topics);
            assert(s@.fields =~= Self::spec_schema().fields);
            assert(field_names(s@.fields) =~= seq![
                "agreement_id"@,
                "from"@,
                "to"@,
                "amount"@,
                "token"@,
            ]);
            assert("agreement_id"@.len() == 12);
            assert("from"@.len() == 4);
            assert("to"@.len() == 2);
            assert("amount"@.len() == 6);
            assert("token"@.len() == 5);
            assert(all_distinct(field_names(s@.fields)));
            assert(s@.topics[0] == snake_case(s@.name));
            assert(forall|i: int| 0 <= i < s@.topics.len() ==> is_symbol(#[trigger] s@.topics[i]));
            assert(forall|i: int| 0 <= i < s@.fields.len() ==>
                is_symbol(#[trigger] s@.fields[i].0) && s@.fields[i].0.len() <= 30);
        }
        s
    }

    /// The topics this event is published with: its event-name topic, then
    /// the schema version.
    pub fn topics(&self) -> (t: Vec<&'static str>)
        ensures
            topic_views(t@) == Self::spec_schema().topics,
    {
        let t = vec!["payment_sent_event", SCHEMA_VERSION];
        assert(topic_views(t@) =~= Self::spec_schema().topics);
        t
    }

    /// The data map this event is published with: one entry per field,
    /// keyed by the field name, in ascending key order.
    pub fn data(&self) -> (d: Vec<(&'static str, FieldValue)>)
        ensures
            d@.len() == 5,
            d@[0].0@ == "agreement_id"@,
            d@[0].1 == FieldValue::U128(self.agreement_id),
            d@[1].0@ == "amount"@,
            d@[1].1 == FieldValue::I128(self.amount),
            d@[2].0@ == "from"@,
            d@[2].1 == FieldValue::Address(self.from),
            d@[3].0@ == "to"@,
            d@[3].1 == FieldValue::Address(self.to),
            d@[4].0@ == "token"@,
            d@[4].1 == FieldValue::Address(self.token),
            data_conforms(entry_views(d@), Self::spec_schema().fields),
    {
        proof {
            reveal_strlit("agreement_id");
            reveal_strlit("from");
            reveal_strlit("to");
            reveal_strlit("amount");
            reveal_strlit("token");
        }
        let d = vec![
            ("agreement_id", FieldValue::U128(self.agreement_id)),
            ("amount", FieldValue::I128(self.amount)),
            ("from", FieldValue::Address(self.from.clone())),
            ("to", FieldValue::Address(self.to.clone())),
            ("token", FieldValue::Address(self.token.clone())),
        ];
        proof {
            let e = entry_views(d@);
            let f = Self::spec_schema().fields;
            reveal_with_fuel(strictly_ascending, 5);
            reveal_with_fuel(lex_lt, 4);
            assert(field_names(e) =~= seq!["agreement_id"@, "amount"@, "from"@, "to"@, "token"@]);
            assert(e[0] == f[0]);
            assert(e[1] == f[3]);
            assert(e[2] == f[1]);
            assert(e[3] == f[2]);
            assert(e[4] == f[4]);
        }
        d
    }
}

/// A payment was received.
#[derive(Clone, Debug)]
pub struct PaymentReceivedEvent {
    pub agreement_id: u128,
    pub to: soroban_sdk::Address,
    pub amount: i128,
    pub token: soroban_sdk::Address,
}

impl PaymentReceivedEvent {
    /// The schema of this event.
    pub open spec fn spec_schema() -> EventSchemaView {
        EventSchemaView {
            name: "PaymentReceivedEvent"@,
            topics: seq!["payment_received_event"@, "event_schema_v1"@],
            fields: seq![
                ("agreement_id"@, FieldType::U128),
                ("to"@, FieldType::Address),
                ("amount"@, FieldType::I128),
                ("token"@, FieldType::Address),
            ],
        }
    }

    /// The schema of this event: its name, its topics and its fields in
    /// declaration order.
    pub fn schema() -> (s: EventSchema)
        ensures
            s@ == Self::spec_schema(),
            well_formed_schema(s@),
    {
        proof {
            reveal_strlit("PaymentReceivedEvent");
            reveal_strlit("payment_received_event");
            reveal_strlit("event_schema_v1");
            reveal_strlit("agreement_id");
            reveal_strlit("to");
            reveal_strlit("amount");
            reveal_strlit("token");
            reveal_with_fuel(snake_case, 21);
        }
        let s = EventSchema {
            name: "PaymentReceivedEvent",
            topics: vec!["payment_received_event", SCHEMA_VERSION],
            fields: vec![
                FieldSchema { name: "agreement_id", ty: FieldType::U128 },
                FieldSchema { name: "to", ty: FieldType::Address },
                FieldSchema { name: "amount", ty: FieldType::I128 },
                FieldSchema { name: "token", ty: FieldType::Address },
            ],
        };
        proof {
            assert(s@.topics =~= Self::spec_schema().topics);
            assert(s@.fields =~= Self::spec_schema().fields);
            assert(field_names(s@.fields) =~= seq!["agreement_id"@, "to"@, "amount"@, "token"@]);
            assert("agreement_id"@.len() == 12);
            assert("to"@.len() == 2);
            assert("amount"@.len() == 6);
            assert("token"@.len() == 5);
            assert(all_distinct(field_names(s@.fields)));
            assert(s@.topics[0] == snake_case(s@.name));
            assert(forall|i: int| 0 <= i < s@.topics.len() ==> is_symbol(#[trigger] s@.topics[i]));
            assert(forall|i: int| 0 <= i < s@.fields.len() ==>
                is_symbol(#[trigger] s@.fields[i].0) && s@.fields[i].0.len() <= 30);
        }
        s
    }

    /// The topics this event is published with: its event-name topic, then
    /// the schema version.
    pub fn topics(&self) -> (t: Vec<&'static str>)
        ensures
            topic_views(t@) == Self::spec_schema().topics,
    {
        let t = vec!["payment_received_event", SCHEMA_VERSION];
        assert(topic_views(t@) =~= Self::spec_schema().topics);
        t
    }

    /// The data map this event is published with: one entry per field,
    /// keyed by the field name, in ascending key order.
    pub fn data(&self) -> (d: Vec<(&'static str, FieldValue)>)
        ensures
            d@.len() == 4,
            d@[0].0@ == "agreement_id"@,
            d@[0].1 == FieldValue::U128(self.agreement_id),
            d@[1].0@ == "amount"@,
            d@[1].1 == FieldValue::I128(self.amount),
            d@[2].0@ == "to"@,
            d@[2].1 == FieldValue::Address(self.to),
            d@[3].0@ == "token"@,
            d@[3].1 == FieldValue::Address(self.token),
            data_conforms(entry_views(d@), Self::spec_schema().fields),
    {
        proof {
            reveal_strlit("agreement_id");
            reveal_strlit("to");
            reveal_strlit("amount");
            reveal_strlit("token");
        }
        let d = vec![
            ("agreement_id", FieldValue::U128(self.agreement_id)),
            ("amount", FieldValue::I128(self.amount)),
            ("to", FieldValue::Address(self.to.clone())),
            ("token", FieldValue::Address(self.token.clone())),
        ];
        proof {
            let e = entry_views(d@);
            let f = Self::spec_schema().fields;
            reveal_with_fuel(strictly_ascending, 4);
            reveal_with_fuel(lex_lt, 4);
            assert(field_names(e) =~= seq!["agreement_id"@, "amount"@, "to"@, "token"@]);
            assert(e[0] == f[0]);
            assert(e[1] == f[2]);
            assert(e[2] == f[1]);
            assert(e[3] == f[3]);
        }
        d
    }
}

/// A storage migration of the contract was applied.
#[derive(Clone, Debug)]
pub struct ContractMigratedEvent {
    pub from_version: u32,
    pub to_version: u32,
}

impl ContractMigratedEvent {
    /// The schema of this event.
    pub open spec fn spec_schema() -> EventSchemaView {
        EventSchemaView {
            name: "ContractMigratedEvent"@,
            topics: seq!["contract_migrated_event"@, "event_schema_v1"@],
            fields: seq![
                ("from_version"@, FieldType::U32),
                ("to_version"@, FieldType::U32),
            ],
        }
    }

    /// The schema of this event: its name, its topics and its fields in
    /// declaration order.
    pub fn schema() -> (s: EventSchema)
        ensures
            s@ == Self::spec_schema(),
            well_formed_schema(s@),
    {
        proof {
            reveal_strlit("ContractMigratedEvent");
            reveal_strlit("contract_migrated_event");
            reveal_strlit("event_schema_v1");
            reveal_strlit("from_version");
            reveal_strlit("to_version");
            reveal_with_fuel(snake_case, 22);
        }
        let s = EventSchema {
            name: "ContractMigratedEvent",
            topics: vec!["contract_migrated_event", SCHEMA_VERSION],
            fields: vec![
                FieldSchema { name: "from_version", ty: FieldType::U32 },
                FieldSchema { name: "to_version", ty: FieldType::U32 },
            ],
        };
        proof {
            assert(s@.topics =~= Self::spec_schema().topics);
            assert(s@.fields =~= Self::spec_schema().fields);
            assert(field_names(s@.fields) =~= seq!["from_version"@, "to_version"@]);
            assert("from_version"@.len() == 12);
            assert("to_version"@.len() == 10);
            assert(all_distinct(field_names(s@.fields)));
            assert(s@.topics[0] == snake_case(s@.name));
            assert(forall|i: int| 0 <= i < s@.topics.len() ==> is_symbol(#[trigger] s@.topics[i]));
            assert(forall|i: int| 0 <= i < s@.fields.len() ==>
                is_symbol(#[trigger] s@.fields[i].0) && s@.fields[i].0.len() <= 30);
        }
        s
    }

    /// The topics this event is published with: its event-name topic, then
    /// the schema version.
    pub fn topics(&self) -> (t: Vec<&'static str>)
        ensures
            topic_views(t@) == Self::spec_schema().topics,
    {
        let t = vec!["contract_migrated_event", SCHEMA_VERSION];
        assert(topic_views(t@) =~= Self::spec_schema().topics);
        t
    }

    /// The data map this event is published with: one entry per field,
    /// keyed by the field name, in ascending key order.
    pub fn data(&self) -> (d: Vec<(&'static str, FieldValue)>)
        ensures
            d@.len() == 2,
            d@[0].0@ == "from_version"@,
            d@[0].1 == FieldValue::U32(self.from_version),
            d@[1].0@ == "to_version"@,
            d@[1].1 == FieldValue::U32(self.to_version),
            data_conforms(entry_views(d@), Self::spec_schema().fields),
    {
        proof {
            reveal_strlit("from_version");
            reveal_strlit("to_version");
        }
        let d = vec![
            ("from_version", FieldValue::U32(self.from_version)),
            ("to_version", FieldValue::U32(self.to_version)),
        ];
        proof {
            let e = entry_views(d@);
            let f = Self::spec_schema().fields;
            reveal_with_fuel(strictly_ascending, 2);
            reveal_with_fuel(lex_lt, 2);
            assert(field_names(e) =~= seq!["from_version"@, "to_version"@]);
            assert(e[0] == f[0]);
            assert(e[1] == f[1]);
        }
        d
    }
}

/// The arbiter was set.
#[derive(Clone, Debug)]
pub struct ArbiterSetEvent {
    pub arbiter: soroban_sdk::Address,
}

impl ArbiterSetEvent {
    /// The schema of this event.
    pub open spec fn spec_schema() -> EventSchemaView {
        EventSchemaView {
            name: "ArbiterSetEvent"@,
            topics: seq!["arbiter_set_event"@, "event_schema_v1"@],
            fields: seq![
                ("arbiter"@, FieldType::Address),
            ],
        }
    }

    /// The schema of this event: its name, its topics and its fields in
    /// declaration order.
    pub fn schema() -> (s: EventSchema)
        ensures
            s@ == Self::spec_schema(),
            well_formed_schema(s@),
    {
        proof {
            reveal_strlit("ArbiterSetEvent");
            reveal_strlit("arbiter_set_event");
            reveal_strlit("event_schema_v1");
            reveal_strlit("arbiter");
            reveal_with_fuel(snake_case, 16);
        }
        let s = EventSchema {
            name: "ArbiterSetEvent",
            topics: vec!["arbiter_set_event", SCHEMA_VERSION],
            fields: vec![
                FieldSchema { name: "arbiter", ty: FieldType::Address },
            ],
        };
        proof {
            assert(s@.topics =~= Self::spec_schema().topics);
            assert(s@.fields =~= Self::spec_schema().fields);
            assert(field_names(s@.fields) =~= seq!["arbiter"@]);
            assert("arbiter"@.len() == 7);
            assert(all_distinct(field_names(s@.fields)));
            assert(s@.topics[0] == snake_case(s@.name));
            assert(forall|i: int| 0 <= i < s@.topics.len() ==> is_symbol(#[trigger] s@.topics[i]));
            assert(forall|i: int| 0 <= i < s@.fields.len() ==>
                is_symbol(#[trigger] s@.fields[i].0) && s@.fields[i].0.len() <= 30);
        }
        s
    }

    /// The topics this event is published with: its event-name topic, then
    /// the schema version.
    pub fn topics(&self) -> (t: Vec<&'static str>)
        ensures
            topic_views(t@) == Self::spec_schema().topics,
    {
        let t = vec!["arbiter_set_event", SCHEMA_VERSION];
        assert(topic_views(t@) =~= Self::spec_schema().topics);
        t
    }

    /// The data map this event is published with: one entry per field,
    /// keyed by the field name, in ascending key order.
    pub fn data(&self) -> (d: Vec<(&'static str, FieldValue)>)
        ensures
            d@.len() == 1,
            d@[0].0@ == "arbiter"@,
            d@[0].1 == FieldValue::Address(self.arbiter),
            data_conforms(entry_views(d@), Self::spec_schema().fields),
    {
        proof {
            reveal_strlit("arbiter");
        }
        let d = vec![
            ("arbiter", FieldValue::Address(self.arbiter.clone())),
        ];
        proof {
            let e = entry_views(d@);
            let f = Self::spec_schema().fields;
            reveal_with_fuel(strictly_ascending, 1);
            reveal_with_fuel(lex_lt, 2);
            assert(field_names(e) =~= seq!["arbiter"@]);
            assert(e[0] == f[0]);
        }
        d
    }
}

/// A dispute was raised on an agreement.
#[derive(Clone, Debug)]
pub struct DisputeRaisedEvent {
    pub agreement_id: u128,
}

impl DisputeRaisedEvent {
    /// The schema of this event.
    pub open spec fn spec_schema() -> EventSchemaView {
        EventSchemaView {
            name: "DisputeRaisedEvent"@,
            topics: seq!["dispute_raised_event"@, "event_schema_v1"@],
            fields: seq![
                ("agreement_id"@, FieldType::U128),
            ],
        }
    }

    /// The schema of this event: its name, its topics and its fields in
    /// declaration order.
    pub fn schema() -> (s: EventSchema)
        ensures
            s@ == Self::spec_schema(),
            well_formed_schema(s@),
    {
        proof {
            reveal_strlit("DisputeRaisedEvent");
            reveal_strlit("dispute_raised_event");
            reveal_strlit("event_schema_v1");
            reveal_strlit("agreement_id");
            reveal_with_fuel(snake_case, 19);
        }
        let s = EventSchema {
            name: "DisputeRaisedEvent",
            topics: vec!["dispute_raised_event", SCHEMA_VERSION],
            fields: vec![
                FieldSchema { name: "agreement_id", ty: FieldType::U128 },
            ],
        };
        proof {
            assert(s@.topics =~= Self::spec_schema().topics);
            assert(s@.fields =~= Self::spec_schema().fields);
            assert(field_names(s@.fields) =~= seq!["agreement_id"@]);
            assert("agreement_id"@.len() == 12);
            assert(all_distinct(field_names(s@.fields)));
            assert(s@.topics[0] == snake_case(s@.name));
            assert(forall|i: int| 0 <= i < s@.topics.len() ==> is_symbol(#[trigger] s@.topics[i]));
            assert(forall|i: int| 0 <= i < s@.fields.len() ==>
                is_symbol(#[trigger] s@.fields[i].0) && s@.fields[i].0.len() <= 30);
        }
        s
    }

    /// The topics this event is published with: its event-name topic, then
    /// the schema version.
    pub fn topics(&self) -> (t: Vec<&'static str>)
        ensures
            topic_views(t@) == Self::spec_schema().topics,
    {
        let t = vec!["dispute_raised_event", SCHEMA_VERSION];
        assert(topic_views(t@) =~= Self::spec_schema().topics);
        t
    }

    /// The data map this event is published with: one entry per field,
    /// keyed by the field name, in ascending key order.
    pub fn data(&self) -> (d: Vec<(&'static str, FieldValue)>)
        ensures
            d@.len() == 1,
            d@[0].0@ == "agreement_id"@,
            d@[0].1 == FieldValue::U128(self.agreement_id),
            data_conforms(entry_views(d@), Self::spec_schema().fields),
    {
        proof {
            reveal_strlit("agreement_id");
        }
        let d = vec![
            ("agreement_id", FieldValue::U128(self.agreement_id)),
        ];
        proof {
            let e = entry_views(d@);
            let f = Self::spec_schema().fields;
            reveal_with_fuel(strictly_ascending, 1);
            reveal_with_fuel(lex_lt, 2);
            assert(field_names(e) =~= seq!["agreement_id"@]);
            assert(e[0] == f[0]);
        }
        d
    }
}

/// A dispute was resolved, splitting the funds between the contributor and the employer.
#[derive(Clone, Debug)]
pub struct DisputeResolvedEvent {
    pub agreement_id: u128,
    pub pay_contributor: i128,
    pub refund_employer: i128,
}

impl DisputeResolvedEvent {
    /// The schema of this event.
    pub open spec fn spec_schema() -> EventSchemaView {
        EventSchemaView {
            name: "DisputeResolvedEvent"@,
            topics: seq!["dispute_resolved_event"@, "event_schema_v1"@],
            fields: seq![
                ("agreement_id"@, FieldType::U128),
                ("pay_contributor"@, FieldType::I128),
                ("refund_employer"@, FieldType::I128),
            ],
        }
    }

    /// The schema of this event: its name, its topics and its fields in
    /// declaration order.
    pub fn schema() -> (s: EventSchema)
        ensures
            s@ == Self::spec_schema(),
            well_formed_schema(s@),
    {
        proof {
            reveal_strlit("DisputeResolvedEvent");
            reveal_strlit("dispute_resolved_event");
            reveal_strlit("event_schema_v1");
            reveal_strlit("agreement_id");
            reveal_strlit("pay_contributor");
            reveal_strlit("refund_employer");
            reveal_with_fuel(snake_case, 21);
        }
        let s = EventSchema {
            name: "DisputeResolvedEvent",
            topics: vec!["dispute_resolved_event", SCHEMA_VERSION],
            fields: vec![
                FieldSchema { name: "agreement_id", ty: FieldType::U128 },
                FieldSchema { name: "pay_contributor", ty: FieldType::I128 },
                FieldSchema { name: "refund_employer", ty: FieldType::I128 },
            ],
        };
        proof {
            assert(s@.topics =~= Self::spec_schema().topics);
            assert(s@.fields =~= Self::spec_schema().fields);
            assert(field_names(s@.fields) =~= seq![
                "agreement_id"@,
                "pay_contributor"@,
                "refund_employer"@,
            ]);
            assert("agreement_id"@.len() == 12);
            assert("pay_contributor"@.len() == 15);
            assert("refund_employer"@.len() == 15);
            assert("pay_contributor"@[0] != "refund_employer"@[0]);
            assert(all_distinct(field_names(s@.fields)));
            assert(s@.topics[0] == snake_case(s@.name));
            assert(forall|i: int| 0 <= i < s@.topics.len() ==> is_symbol(#[trigger] s@.topics[i]));
            assert(forall|i: int| 0 <= i < s@.fields.len() ==>
                is_symbol(#[trigger] s@.fields[i].0) && s@.fields[i].0.len() <= 30);
        }
        s
    }

    /// The topics this event is published with: its event-name topic, then
    /// the schema version.
    pub fn topics(&self) -> (t: Vec<&'static str>)
        ensures
            topic_views(t@) == Self::spec_schema().topics,
    {
        let t = vec!["dispute_resolved_event", SCHEMA_VERSION];
        assert(topic_views(t@) =~= Self::spec_schema().topics);
        t
    }

    /// The data map this event is published with: one entry per field,
    /// keyed by the field name, in ascending key order.
    pub fn data(&self) -> (d: Vec<(&'static str, FieldValue)>)
        ensures
            d@.len() == 3,
            d@[0].0@ == "agreement_id"@,
            d@[0].1 == FieldValue::U128(self.agreement_id),
            d@[1].0@ == "pay_contributor"@,
            d@[1].1 == FieldValue::I128(self.pay_contributor),
            d@[2].0@ == "refund_employer"@,
            d@[2].1 == FieldValue::I128(self.refund_employer),
            data_conforms(entry_views(d@), Self::spec_schema().fields),
    {
        proof {
            reveal_strlit("agreement_id");
            reveal_strlit("pay_contributor");
            reveal_strlit("refund_employer");
        }
        let d = vec![
            ("agreement_id", FieldValue::U128(self.agreement_id)),
            ("pay_contributor", FieldValue::I128(self.pay_contributor)),
            ("refund_employer", FieldValue::I128(self.refund_employer)),
        ];
        proof {
            let e = entry_views(d@);
            let f = Self::spec_schema().fields;
            reveal_with_fuel(strictly_ascending, 3);
            reveal_with_fuel(lex_lt, 2);
            assert(field_names(e) =~= seq![
                "agreement_id"@,
                "pay_contributor"@,
                "refund_employer"@,
            ]);
            assert(e[0] == f[0]);
            assert(e[1] == f[1]);
            assert(e[2] == f[2]);
        }
        d
    }
}

/// An agreement was cancelled.
#[derive(Clone, Debug)]
pub struct AgreementCancelledEvent {
    pub agreement_id: u128,
}

impl AgreementCancelledEvent {
    /// The schema of this event.
    pub open spec fn spec_schema() -> EventSchemaView {
        EventSchemaView {
            name: "AgreementCancelledEvent"@,
            topics: seq!["agreement_cancelled_event"@, "event_schema_v1"@],
            fields: seq![
                ("agreement_id"@, FieldType::U128),
            ],
        }
    }

    /// The schema of this event: its name, its topics and its fields in
    /// declaration order.
    pub fn schema() -> (s: EventSchema)
        ensures
            s@ == Self::spec_schema(),
            well_formed_schema(s@),
    {
        proof {
            reveal_strlit("AgreementCancelledEvent");
            reveal_strlit("agreement_cancelled_event");
            reveal_strlit("event_schema_v1");
            reveal_strlit("agreement_id");
            reveal_with_fuel(snake_case, 24);
        }
        let s = EventSchema {
            name: "AgreementCancelledEvent",
            topics: vec!["agreement_cancelled_event", SCHEMA_VERSION],
            fields: vec![
                FieldSchema { name: "agreement_id", ty: FieldType::U128 },
            ],
        };
        proof {
            assert(s@.topics =~= Self::spec_schema().topics);
            assert(s@.fields =~= Self::spec_schema().fields);
            assert(field_names(s@.fields) =~= seq!["agreement_id"@]);
            assert("agreement_id"@.len() == 12);
            assert(all_distinct(field_names(s@.fields)));
            assert(s@.topics[0] == snake_case(s@.name));
            assert(forall|i: int| 0 <= i < s@.topics.len() ==> is_symbol(#[trigger] s@.topics[i]));
            assert(forall|i: int| 0 <= i < s@.fields.len() ==>
                is_symbol(#[trigger] s@.fields[i].0) && s@.fields[i].0.len() <= 30);
        }
        s
    }

    /// The topics this event is published with: its event-name topic, then
    /// the schema version.
    pub fn topics(&self) -> (t: Vec<&'static str>)
        ensures
            topic_views(t@) == Self::spec_schema().topics,
    {
        let t = vec!["agreement_cancelled_event", SCHEMA_VERSION];
        assert(topic_views(t@) =~= Self::spec_schema().topics);
        t
    }

    /// The data map this event is published with: one entry per field,
    /// keyed by the field name, in ascending key order.
    pub fn data(&self) -> (d: Vec<(&'static str, FieldValue)>)
        ensures
            d@.len() == 1,
            d@[0].0@ == "agreement_id"@,
            d@[0].1 == FieldValue::U128(self.agreement_id),
            data_conforms(entry_views(d@), Self::spec_schema().fields),
    {
        proof {
            reveal_strlit("agreement_id");
        }
        let d = vec![
            ("agreement_id", FieldValue::U128(self.agreement_id)),
        ];
        proof {
            let e = entry_views(d@);
            let f = Self::spec_schema().fields;
            reveal_with_fuel(strictly_ascending, 1);
            reveal_with_fuel(lex_lt, 2);
            assert(field_names(e) =~= seq!["agreement_id"@]);
            assert(e[0] == f[0]);
        }
        d
    }
}

/// The grace period of an agreement was finalized.
#[derive(Clone, Debug)]
pub struct GracePeriodFinalizedEvent {
    pub agreement_id: u128,
}

impl GracePeriodFinalizedEvent {
    /// The schema of this event.
    pub open spec fn spec_schema() -> EventSchemaView {
        EventSchemaView {
            name: "GracePeriodFinalizedEvent"@,
            topics: seq!["grace_period_finalized_event"@, "event_schema_v1"@],
            fields: seq![
                ("agreement_id"@, FieldType::U128),
            ],
        }
    }

    /// The schema of this event: its name, its topics and its fields in
    /// declaration order.
    pub fn schema() -> (s: EventSchema)
        ensures
            s@ == Self::spec_schema(),
            well_formed_schema(s@),
    {
        proof {
            reveal_strlit("GracePeriodFinalizedEvent");
            reveal_strlit("grace_period_finalized_event");
            reveal_strlit("event_schema_v1");
            reveal_strlit("agreement_id");
            reveal_with_fuel(snake_case, 26);
        }
        let s = EventSchema {
            name: "GracePeriodFinalizedEvent",
            topics: vec!["grace_period_finalized_event", SCHEMA_VERSION],
            fields: vec![
                FieldSchema { name: "agreement_id", ty: FieldType::U128 },
            ],
        };
        proof {
            assert(s@.topics =~= Self::spec_schema().topics);
            assert(s@.fields =~= Self::spec_schema().fields);
            assert(field_names(s@.fields) =~= seq!["agreement_id"@]);
            assert("agreement_id"@.len() == 12);
            assert(all_distinct(field_names(s@.fields)));
            assert(s@.topics[0] == snake_case(s@.name));
            assert(forall|i: int| 0 <= i < s@.topics.len() ==> is_symbol(#[trigger] s@.topics[i]));
            assert(forall|i: int| 0 <= i < s@.fields.len() ==>
                is_symbol(#[trigger] s@.fields[i].0) && s@.fields[i].0.len() <= 30);
        }
        s
    }

    /// The topics this event is published with: its event-name topic, then
    /// the schema version.
    pub fn topics(&self) -> (t: Vec<&'static str>)
        ensures
            topic_views(t@) == Self::spec_schema().topics,
    {
        let t = vec!["grace_period_finalized_event", SCHEMA_VERSION];
        assert(topic_views(t@) =~= Self::spec_schema().topics);
        t
    }

    /// The data map this event is published with: one entry per field,
    /// keyed by the field name, in ascending key order.
    pub fn data(&self) -> (d: Vec<(&'static str, FieldValue)>)
        ensures
            d@.len() == 1,
            d@[0].0@ == "agreement_id"@,
            d@[0].1 == FieldValue::U128(self.agreement_id),
            data_conforms(entry_views(d@), Self::spec_schema().fields),
    {
        proof {
            reveal_strlit("agreement_id");
        }
        let d = vec![
            ("agreement_id", FieldValue::U128(self.agreement_id)),
        ];
        proof {
            let e = entry_views(d@);
            let f = Self::spec_schema().fields;
            reveal_with_fuel(strictly_ascending, 1);
            reveal_with_fuel(lex_lt, 2);
            assert(field_names(e) =~= seq!["agreement_id"@]);
            assert(e[0] == f[0]);
        }
        d
    }
}

/// The grace period of an agreement was extended (audit trail for employer or owner).
#[derive(Clone, Debug)]
pub struct GracePeriodExtendedEvent {
    pub agreement_id: u128,
    /// Seconds added by this call.
    pub additional_seconds: u64,
    /// Total extra seconds stored after this call (excluding base `grace_period_seconds`).
    pub total_extension_seconds: u64,
    /// True if the contract owner authorized the call; false if the employer did.
    pub extended_by_owner: bool,
}

impl GracePeriodExtendedEvent {
    /// The schema of this event.
    pub open spec fn spec_schema() -> EventSchemaView {
        EventSchemaView {
            name: "GracePeriodExtendedEvent"@,
            topics: seq!["grace_period_extended_event"@, "event_schema_v1"@],
            fields: seq![
                ("agreement_id"@, FieldType::U128),
                ("additional_seconds"@, FieldType::U64),
                ("total_extension_seconds"@, FieldType::U64),
                ("extended_by_owner"@, FieldType::Bool),
            ],
        }
    }

    /// The schema of this event: its name, its topics and its fields in
    /// declaration order.
    pub fn schema() -> (s: EventSchema)
        ensures
            s@ == Self::spec_schema(),
            well_formed_schema(s@),
    {
        proof {
            reveal_strlit("GracePeriodExtendedEvent");
            reveal_strlit("grace_period_extended_event");
            reveal_strlit("event_schema_v1");
            reveal_strlit("agreement_id");
            reveal_strlit("additional_seconds");
            reveal_strlit("total_extension_seconds");
            reveal_strlit("extended_by_owner");
            reveal_with_fuel(snake_case, 25);
        }
        let s = EventSchema {
            name: "GracePeriodExtendedEvent",
            topics: vec!["grace_period_extended_event", SCHEMA_VERSION],
            fields: vec![
                FieldSchema { name: "agreement_id", ty: FieldType::U128 },
                FieldSchema { name: "additional_seconds", ty: FieldType::U64 },
                FieldSchema { name: "total_extension_seconds", ty: FieldType::U64 },
                FieldSchema { name: "extended_by_owner", ty: FieldType::Bool },
            ],
        };
        proof {
            assert(s@.topics =~= Self::spec_schema().topics);
            assert(s@.fields =~= Self::spec_schema().fields);
            assert(field_names(s@.fields) =~= seq![
                "agreement_id"@,
                "additional_seconds"@,
                "total_extension_seconds"@,
                "extended_by_owner"@,
            ]);
            assert("agreement_id"@.len() == 12);
            assert("additional_seconds"@.len() == 18);
            assert("total_extension_seconds"@.len() == 23);
            assert("extended_by_owner"@.len() == 17);
            assert(all_distinct(field_names(s@.fields)));
            assert(s@.topics[0] == snake_case(s@.name));
            assert(forall|i: int| 0 <= i < s@.topics.len() ==> is_symbol(#[trigger] s@.topics[i]));
            assert(forall|i: int| 0 <= i < s@.fields.len() ==>
                is_symbol(#[trigger] s@.fields[i].0) && s@.fields[i].0.len() <= 30);
        }
        s
    }

    /// The topics this event is published with: its event-name topic, then
    /// the schema version.
    pub fn topics(&self) -> (t: Vec<&'static str>)
        ensures
            topic_views(t@) == Self::spec_schema().topics,
    {
        let t = vec!["grace_period_extended_event", SCHEMA_VERSION];
        assert(topic_views(t@) =~= Self::spec_schema().topics);
        t
    }

    /// The data map this event is published with: one entry per field,
    /// keyed by the field name, in ascending key order.
    pub fn data(&self) -> (d: Vec<(&'static str, FieldValue)>)
        ensures
            d@.len() == 4,
            d@[0].0@ == "additional_seconds"@,
            d@[0].1 == FieldValue::U64(self.additional_seconds),
            d@[1].0@ == "agreement_id"@,
            d@[1].1 == FieldValue::U128(self.agreement_id),
            d@[2].0@ == "extended_by_owner"@,
            d@[2].1 == FieldValue::Bool(self.extended_by_owner),
            d@[3].0@ == "total_extension_seconds"@,
            d@[3].1 == FieldValue::U64(self.total_extension_seconds),
            data_conforms(entry_views(d@), Self::spec_schema().fields),
    {
        proof {
            reveal_strlit("agreement_id");
            reveal_strlit("additional_seconds");
            reveal_strlit("total_extension_seconds");
            reveal_strlit("extended_by_owner");
        }
        let d = vec![
            ("additional_seconds", FieldValue::U64(self.additional_seconds)),
            ("agreement_id", FieldValue::U128(self.agreement_id)),
            ("extended_by_owner", FieldValue::Bool(self.extended_by_owner)),
            ("total_extension_seconds", FieldValue::U64(self.total_extension_seconds)),
        ];
        proof {
            let e = entry_views(d@);
            let f = Self::spec_schema().fields;
            reveal_with_fuel(strictly_ascending, 4);
            reveal_with_fuel(lex_lt, 3);
            assert(field_names(e) =~= seq![
                "additional_seconds"@,
                "agreement_id"@,
                "extended_by_owner"@,
                "total_extension_seconds"@,
            ]);
            assert(e[0] == f[1]);
            assert(e[1] == f[0]);
            assert(e[2] == f[3]);
            assert(e[3] == f[2]);
        }
        d
    }
}

/// Payroll was claimed for several employees in one batch.
#[derive(Clone, Debug)]
pub struct BatchPayrollClaimedEvent {
    pub agreement_id: u128,
    pub total_claimed: i128,
    pub successful_claims: u32,
    pub failed_claims: u32,
}

impl BatchPayrollClaimedEvent {
    /// The schema of this event.
    pub open spec fn spec_schema() -> EventSchemaView {
        EventSchemaView {
            name: "BatchPayrollClaimedEvent"@,
            topics: seq!["batch_payroll_claimed_event"@, "event_schema_v1"@],
            fields: seq![
                ("agreement_id"@, FieldType::U128),
                ("total_claimed"@, FieldType::I128),
                ("successful_claims"@, FieldType::U32),
                ("failed_claims"@, FieldType::U32),
            ],
        }
    }

    /// The schema of this event: its name, its topics and its fields in
    /// declaration order.
    pub fn schema() -> (s: EventSchema)
        ensures
            s@ == Self::spec_schema(),
            well_formed_schema(s@),
    {
        proof {
            reveal_strlit("BatchPayrollClaimedEvent");
            reveal_strlit("batch_payroll_claimed_event");
            reveal_strlit("event_schema_v1");
            reveal_strlit("agreement_id");
            reveal_strlit("total_claimed");
            reveal_strlit("successful_claims");
            reveal_strlit("failed_claims");
            reveal_with_fuel(snake_case, 25);
        }
        let s = EventSchema {
            name: "BatchPayrollClaimedEvent",
            topics: vec!["batch_payroll_claimed_event", SCHEMA_VERSION],
            fields: vec![
                FieldSchema { name: "agreement_id", ty: FieldType::U128 },
                FieldSchema { name: "total_claimed", ty: FieldType::I128 },
                FieldSchema { name: "successful_claims", ty: FieldType::U32 },
                FieldSchema { name: "failed_claims", ty: FieldType::U32 },
            ],
        };
        proof {
            assert(s@.topics =~= Self::spec_schema().topics);
            assert(s@.fields =~= Self::spec_schema().fields);
            assert(field_names(s@.fields) =~= seq![
                "agreement_id"@,
                "total_claimed"@,
                "successful_claims"@,
                "failed_claims"@,
            ]);
            assert("agreement_id"@.len() == 12);
            assert("total_claimed"@.len() == 13);
            assert("successful_claims"@.len() == 17);
            assert("failed_claims"@.len() == 13);
            assert("total_claimed"@[0] != "failed_claims"@[0]);
            assert(all_distinct(field_names(s@.fields)));
            assert(s@.topics[0] == snake_case(s@.name));
            assert(forall|i: int| 0 <= i < s@.topics.len() ==> is_symbol(#[trigger] s@.topics[i]));
            assert(forall|i: int| 0 <= i < s@.fields.len() ==>
                is_symbol(#[trigger] s@.fields[i].0) && s@.fields[i].0.len() <= 30);
        }
        s
    }

    /// The topics this event is published with: its event-name topic, then
    /// the schema version.
    pub fn topics(&self) -> (t: Vec<&'static str>)
        ensures
            topic_views(t@) == Self::spec_schema().topics,
    {
        let t = vec!["batch_payroll_claimed_event", SCHEMA_VERSION];
        assert(topic_views(t@) =~= Self::spec_schema().topics);
        t
    }

    /// The data map this event is published with: one entry per field,
    /// keyed by the field name, in ascending key order.
    pub fn data(&self) -> (d: Vec<(&'static str, FieldValue)>)
        ensures
            d@.len() == 4,
            d@[0].0@ == "agreement_id"@,
            d@[0].1 == FieldValue::U128(self.agreement_id),
            d@[1].0@ == "failed_claims"@,
            d@[1].1 == FieldValue::U32(self.failed_claims),
            d@[2].0@ == "successful_claims"@,
            d@[2].1 == FieldValue::U32(self.successful_claims),
            d@[3].0@ == "total_claimed"@,
            d@[3].1 == FieldValue::I128(self.total_claimed),
            data_conforms(entry_views(d@), Self::spec_schema().fields),
    {
        proof {
            reveal_strlit("agreement_id");
            reveal_strlit("total_claimed");
            reveal_strlit("successful_claims");
            reveal_strlit("failed_claims");
        }
        let d = vec![
            ("agreement_id", FieldValue::U128(self.agreement_id)),
            ("failed_claims", FieldValue::U32(self.failed_claims)),
            ("successful_claims", FieldValue::U32(self.successful_claims)),
            ("total_claimed", FieldValue::I128(self.total_claimed)),
        ];
        proof {
            let e = entry_views(d@);
            let f = Self::spec_schema().fields;
            reveal_with_fuel(strictly_ascending, 4);
            reveal_with_fuel(lex_lt, 2);
            assert(field_names(e) =~= seq![
                "agreement_id"@,
                "failed_claims"@,
                "successful_claims"@,
                "total_claimed"@,
            ]);
            assert(e[0] == f[0]);
            assert(e[1] == f[3]);
            assert(e[2] == f[2]);
            assert(e[3] == f[1]);
        }
        d
    }
}

/// Several milestones were claimed in one batch.
#[derive(Clone, Debug)]
pub struct BatchMilestoneClaimedEvent {
    pub agreement_id: u128,
    pub total_claimed: i128,
    pub successful_claims: u32,
    pub failed_claims: u32,
}

impl BatchMilestoneClaimedEvent {
    /// The schema of this event.
    pub open spec fn spec_schema() -> EventSchemaView {
        EventSchemaView {
            name: "BatchMilestoneClaimedEvent"@,
            topics: seq!["batch_milestone_claimed_event"@, "event_schema_v1"@],
            fields: seq![
                ("agreement_id"@, FieldType::U128),
                ("total_claimed"@, FieldType::I128),
                ("successful_claims"@, FieldType::U32),
                ("failed_claims"@, FieldType::U32),
            ],
        }
    }

    /// The schema of this event: its name, its topics and its fields in
    /// declaration order.
    pub fn schema() -> (s: EventSchema)
        ensures
            s@ == Self::spec_schema(),
            well_formed_schema(s@),
    {
        proof {
            reveal_strlit("BatchMilestoneClaimedEvent");
            reveal_strlit("batch_milestone_claimed_event");
            reveal_strlit("event_schema_v1");
            reveal_strlit("agreement_id");
            reveal_strlit("total_claimed");
            reveal_strlit("successful_claims");
            reveal_strlit("failed_claims");
            reveal_with_fuel(snake_case, 27);
        }
        let s = EventSchema {
            name: "BatchMilestoneClaimedEvent",
            topics: vec!["batch_milestone_claimed_event", SCHEMA_VERSION],
            fields: vec![
                FieldSchema { name: "agreement_id", ty: FieldType::U128 },
                FieldSchema { name: "total_claimed", ty: FieldType::I128 },
                FieldSchema { name: "successful_claims", ty: FieldType::U32 },
                FieldSchema { name: "failed_claims", ty: FieldType::U32 },
            ],
        };
        proof {
            assert(s@.topics =~= Self::spec_schema().topics);
            assert(s@.fields =~= Self::spec_schema().fields);
            assert(field_names(s@.fields) =~= seq![
                "agreement_id"@,
                "total_claimed"@,
                "successful_claims"@,
                "failed_claims"@,
            ]);
            assert("agreement_id"@.len() == 12);
            assert("total_claimed"@.len() == 13);
            assert("successful_claims"@.len() == 17);
            assert("failed_claims"@.len() == 13);
            assert("total_claimed"@[0] != "failed_claims"@[0]);
            assert(all_distinct(field_names(s@.fields)));
            assert(s@.topics[0] == snake_case(s@.name));
            assert(forall|i: int| 0 <= i < s@.topics.len() ==> is_symbol(#[trigger] s@.topics[i]));
            assert(forall|i: int| 0 <= i < s@.fields.len() ==>
                is_symbol(#[trigger] s@.fields[i].0) && s@.fields[i].0.len() <= 30);
        }
        s
    }

    /// The topics this event is published with: its event-name topic, then
    /// the schema version.
    pub fn topics(&self) -> (t: Vec<&'static str>)
        ensures
            topic_views(t@) == Self::spec_schema().topics,
    {
        let t = vec!["batch_milestone_claimed_event", SCHEMA_VERSION];
        assert(topic_views(t@) =~= Self::spec_schema().topics);
        t
    }

    /// The data map this event is published with: one entry per field,
    /// keyed by the field name, in ascending key order.
    pub fn data(&self) -> (d: Vec<(&'static str, FieldValue)>)
        ensures
            d@.len() == 4,
            d@[0].0@ == "agreement_id"@,
            d@[0].1 == FieldValue::U128(self.agreement_id),
            d@[1].0@ == "failed_claims"@,
            d@[1].1 == FieldValue::U32(self.failed_claims),
            d@[2].0@ == "successful_claims"@,
            d@[2].1 == FieldValue::U32(self.successful_claims),
            d@[3].0@ == "total_claimed"@,
            d@[3].1 == FieldValue::I128(self.total_claimed),
            data_conforms(entry_views(d@), Self::spec_schema().fields),
    {
        proof {
            reveal_strlit("agreement_id");
            reveal_strlit("total_claimed");
            reveal_strlit("successful_claims");
            reveal_strlit("failed_claims");
        }
        let d = vec![
            ("agreement_id", FieldValue::U128(self.agreement_id)),
            ("failed_claims", FieldValue::U32(self.failed_claims)),
            ("successful_claims", FieldValue::U32(self.successful_claims)),
            ("total_claimed", FieldValue::I128(self.total_claimed)),
        ];
        proof {
            let e = entry_views(d@);
            let f = Self::spec_schema().fields;
            reveal_with_fuel(strictly_ascending, 4);
            reveal_with_fuel(lex_lt, 2);
            assert(field_names(e) =~= seq![
                "agreement_id"@,
                "failed_claims"@,
                "successful_claims"@,
                "total_claimed"@,
            ]);
            assert(e[0] == f[0]);
            assert(e[1] == f[3]);
            assert(e[2] == f[2]);
            assert(e[3] == f[1]);
        }
        d
    }
}

/// A milestone agreement was funded by its employer.
///
/// Emitted when an employer deposits tokens for a milestone agreement;
/// `total_escrow_balance` is the accounted balance after the deposit.
#[derive(Clone, Debug)]
pub struct MilestoneFundedEvent {
    pub agreement_id: u128,
    pub from: soroban_sdk::Address,
    pub amount: i128,
    pub total_escrow_balance: i128,
}

impl MilestoneFundedEvent {
    /// The schema of this event.
    pub open spec fn spec_schema() -> EventSchemaView {
        EventSchemaView {
            name: "MilestoneFundedEvent"@,
            topics: seq!["milestone_funded_event"@, "event_schema_v1"@],
            fields: seq![
                ("agreement_id"@, FieldType::U128),
                ("from"@, FieldType::Address),
                ("amount"@, FieldType::I128),
                ("total_escrow_balance"@, FieldType::I128),
            ],
        }
    }

    /// The schema of this event: its name, its topics and its fields in
    /// declaration order.
    pub fn schema() -> (s: EventSchema)
        ensures
            s@ == Self::spec_schema(),
            well_formed_schema(s@),
    {
        proof {
            reveal_strlit("MilestoneFundedEvent");
            reveal_strlit("milestone_funded_event");
            reveal_strlit("event_schema_v1");
            reveal_strlit("agreement_id");
            reveal_strlit("from");
            reveal_strlit("amount");
            reveal_strlit("total_escrow_balance");
            reveal_with_fuel(snake_case, 21);
        }
        let s = EventSchema {
            name: "MilestoneFundedEvent",
            topics: vec!["milestone_funded_event", SCHEMA_VERSION],
            fields: vec![
                FieldSchema { name: "agreement_id", ty: FieldType::U128 },
                FieldSchema { name: "from", ty: FieldType::Address },
                FieldSchema { name: "amount", ty: FieldType::I128 },
                FieldSchema { name: "total_escrow_balance", ty: FieldType::I128 },
            ],
        };
        proof {
            assert(s@.topics =~= Self::spec_schema().topics);
            assert(s@.fields =~= Self::spec_schema().fields);
            assert(field_names(s@.fields) =~= seq![
                "agreement_id"@,
                "from"@,
                "amount"@,
                "total_escrow_balance"@,
            ]);
            assert("agreement_id"@.len() == 12);
            assert("from"@.len() == 4);
            assert("amount"@.len() == 6);
            assert("total_escrow_balance"@.len() == 20);
            assert(all_distinct(field_names(s@.fields)));
            assert(s@.topics[0] == snake_case(s@.name));
            assert(forall|i: int| 0 <= i < s@.topics.len() ==> is_symbol(#[trigger] s@.topics[i]));
            assert(forall|i: int| 0 <= i < s@.fields.len() ==>
                is_symbol(#[trigger] s@.fields[i].0) && s@.fields[i].0.len() <= 30);
        }
        s
    }

    /// The topics this event is published with: its event-name topic, then
    /// the schema version.
    pub fn topics(&self) -> (t: Vec<&'static str>)
        ensures
            topic_views(t@) == Self::spec_schema().topics,
    {
        let t = vec!["milestone_funded_event", SCHEMA_VERSION];
        assert(topic_views(t@) =~= Self::spec_schema().topics);
        t
    }

    /// The data map this event is published with: one entry per field,
    /// keyed by the field name, in ascending key order.
    pub fn data(&self) -> (d: Vec<(&'static str, FieldValue)>)
        ensures
            d@.len() == 4,
            d@[0].0@ == "agreement_id"@,
            d@[0].1 == FieldValue::U128(self.agreement_id),
            d@[1].0@ == "amount"@,
            d@[1].1 == FieldValue::I128(self.amount),
            d@[2].0@ == "from"@,
            d@[2].1 == FieldValue::Address(self.from),
            d@[3].0@ == "total_escrow_balance"@,
            d@[3].1 == FieldValue::I128(self.total_escrow_balance),
            data_conforms(entry_views(d@), Self::spec_schema().fields),
    {
        proof {
            reveal_strlit("agreement_id");
            reveal_strlit("from");
            reveal_strlit("amount");
            reveal_strlit("total_escrow_balance");
        }
        let d = vec![
            ("agreement_id", FieldValue::U128(self.agreement_id)),
            ("amount", FieldValue::I128(self.amount)),
            ("from", FieldValue::Address(self.from.clone())),
            ("total_escrow_balance", FieldValue::I128(self.total_escrow_balance)),
        ];
        proof {
            let e = entry_views(d@);
            let f = Self::spec_schema().fields;
            reveal_with_fuel(strictly_ascending, 4);
            reveal_with_fuel(lex_lt, 3);
            assert(field_names(e) =~= seq![
                "agreement_id"@,
                "amount"@,
                "from"@,
                "total_escrow_balance"@,
            ]);
            assert(e[0] == f[0]);
            assert(e[1] == f[2]);
            assert(e[2] == f[1]);
            assert(e[3] == f[3]);
        }
        d
    }
}

/// An exchange rate was set, so off-chain indexers can track the rate
/// history and who performed each update.
#[derive(Clone, Debug)]
pub struct ExchangeRateUpdatedEvent {
    pub base: soroban_sdk::Address,
    pub quote: soroban_sdk::Address,
    pub new_rate: i128,
    /// Previous rate, or 0 if this is the first time the pair is set.
    pub prev_rate: i128,
    /// Address that called `set_exchange_rate`.
    pub updater: soroban_sdk::Address,
    /// Ledger timestamp when this event was emitted.
    pub updated_at: u64,
}

impl ExchangeRateUpdatedEvent {
    /// The schema of this event.
    pub open spec fn spec_schema() -> EventSchemaView {
        EventSchemaView {
            name: "ExchangeRateUpdatedEvent"@,
            topics: seq!["exchange_rate_updated_event"@, "event_schema_v1"@],
            fields: seq![
                ("base"@, FieldType::Address),
                ("quote"@, FieldType::Address),
                ("new_rate"@, FieldType::I128),
                ("prev_rate"@, FieldType::I128),
                ("updater"@, FieldType::Address),
                ("updated_at"@, FieldType::U64),
            ],
        }
    }

    /// The schema of this event: its name, its topics and its fields in
    /// declaration order.
    pub fn schema() -> (s: EventSchema)
        ensures
            s@ == Self::spec_schema(),
            well_formed_schema(s@),
    {
        proof {
            reveal_strlit("ExchangeRateUpdatedEvent");
            reveal_strlit("exchange_rate_updated_event");
            reveal_strlit("event_schema_v1");
            reveal_strlit("base");
            reveal_strlit("quote");
            reveal_strlit("new_rate");
            reveal_strlit("prev_rate");
            reveal_strlit("updater");
            reveal_strlit("updated_at");
            reveal_with_fuel(snake_case, 25);
        }
        let s = EventSchema {
            name: "ExchangeRateUpdatedEvent",
            topics: vec!["exchange_rate_updated_event", SCHEMA_VERSION],
            fields: vec![
                FieldSchema { name: "base", ty: FieldType::Address },
                FieldSchema { name: "quote", ty: FieldType::Address },
                FieldSchema { name: "new_rate", ty: FieldType::I128 },
                FieldSchema { name: "prev_rate", ty: FieldType::I128 },
                FieldSchema { name: "updater", ty: FieldType::Address },
                FieldSchema { name: "updated_at", ty: FieldType::U64 },
            ],
        };
        proof {
            assert(s@.topics =~= Self::spec_schema().topics);
            assert(s@.fields =~= Self::spec_schema().fields);
            assert(field_names(s@.fields) =~= seq![
                "base"@,
                "quote"@,
                "new_rate"@,
                "prev_rate"@,
                "updater"@,
                "updated_at"@,
            ]);
            assert("base"@.len() == 4);
            assert("quote"@.len() == 5);
            assert("new_rate"@.len() == 8);
            assert("prev_rate"@.len() == 9);
            assert("updater"@.len() == 7);
            assert("updated_at"@.len() == 10);
            assert(all_distinct(field_names(s@.fields)));
            assert(s@.topics[0] == snake_case(s@.name));
            assert(forall|i: int| 0 <= i < s@.topics.len() ==> is_symbol(#[trigger] s@.topics[i]));
            assert(forall|i: int| 0 <= i < s@.fields.len() ==>
                is_symbol(#[trigger] s@.fields[i].0) && s@.fields[i].0.len() <= 30);
        }
        s
    }

    /// The topics this event is published with: its event-name topic, then
    /// the schema version.
    pub fn topics(&self) -> (t: Vec<&'static str>)
        ensures
            topic_views(t@) == Self::spec_schema().topics,
    {
        let t = vec!["exchange_rate_updated_event", SCHEMA_VERSION];
        assert(topic_views(t@) =~= Self::spec_schema().topics);
        t
    }

    /// The data map this event is published with: one entry per field,
    /// keyed by the field name, in ascending key order.
    pub fn data(&self) -> (d: Vec<(&'static str, FieldValue)>)
        ensures
            d@.len() == 6,
            d@[0].0@ == "base"@,
            d@[0].1 == FieldValue::Address(self.base),
            d@[1].0@ == "new_rate"@,
            d@[1].1 == FieldValue::I128(self.new_rate),
            d@[2].0@ == "prev_rate"@,
            d@[2].1 == FieldValue::I128(self.prev_rate),
            d@[3].0@ == "quote"@,
            d@[3].1 == FieldValue::Address(self.quote),
            d@[4].0@ == "updated_at"@,
            d@[4].1 == FieldValue::U64(self.updated_at),
            d@[5].0@ == "updater"@,
            d@[5].1 == FieldValue::Address(self.updater),
            data_conforms(entry_views(d@), Self::spec_schema().fields),
    {
        proof {
            reveal_strlit("base");
            reveal_strlit("quote");
            reveal_strlit("new_rate");
            reveal_strlit("prev_rate");
            reveal_strlit("updater");
            reveal_strlit("updated_at");
        }
        let d = vec![
            ("base", FieldValue::Address(self.base.clone())),
            ("new_rate", FieldValue::I128(self.new_rate)),
            ("prev_rate", FieldValue::I128(self.prev_rate)),
            ("quote", FieldValue::Address(self.quote.clone())),
            ("updated_at", FieldValue::U64(self.updated_at)),
            ("updater", FieldValue::Address(self.updater.clone())),
        ];
        proof {
            let e = entry_views(d@);
            let f = Self::spec_schema().fields;
            reveal_with_fuel(strictly_ascending, 6);
            reveal_with_fuel(lex_lt, 8);
            assert(field_names(e) =~= seq![
                "base"@,
                "new_rate"@,
                "prev_rate"@,
                "quote"@,
                "updated_at"@,
                "updater"@,
            ]);
            assert(e[0] == f[0]);
            assert(e[1] == f[2]);
            assert(e[2] == f[3]);
            assert(e[3] == f[1]);
            assert(e[4] == f[5]);
            assert(e[5] == f[4]);
        }
        d
    }
}

/// The multisig approval configuration changed: the linked multisig
/// contract or its approval thresholds.
#[derive(Clone, Debug)]
pub struct MultisigConfigChangedEvent {
    pub caller: soroban_sdk::Address,
    pub multisig_contract: soroban_sdk::Address,
    pub old_large_threshold: i128,
    pub new_large_threshold: i128,
    pub old_dispute_threshold: i128,
    pub new_dispute_threshold: i128,
}

impl MultisigConfigChangedEvent {
    /// The schema of this event.
    pub open spec fn spec_schema() -> EventSchemaView {
        EventSchemaView {
            name: "MultisigConfigChangedEvent"@,
            topics: seq!["multisig_config_changed_event"@, "event_schema_v1"@],
            fields: seq![
                ("caller"@, FieldType::Address),
                ("multisig_contract"@, FieldType::Address),
                ("old_large_threshold"@, FieldType::I128),
                ("new_large_threshold"@, FieldType::I128),
                ("old_dispute_threshold"@, FieldType::I128),
                ("new_dispute_threshold"@, FieldType::I128),
            ],
        }
    }

    /// The schema of this event: its name, its topics and its fields in
    /// declaration order.
    pub fn schema() -> (s: EventSchema)
        ensures
            s@ == Self::spec_schema(),
            well_formed_schema(s@),
    {
        proof {
            reveal_strlit("MultisigConfigChangedEvent");
            reveal_strlit("multisig_config_changed_event");
            reveal_strlit("event_schema_v1");
            reveal_strlit("caller");
            reveal_strlit("multisig_contract");
            reveal_strlit("old_large_threshold");
            reveal_strlit("new_large_threshold");
            reveal_strlit("old_dispute_threshold");
            reveal_strlit("new_dispute_threshold");
            reveal_with_fuel(snake_case, 27);
        }
        let s = EventSchema {
            name: "MultisigConfigChangedEvent",
            topics: vec!["multisig_config_changed_event", SCHEMA_VERSION],
            fields: vec![
                FieldSchema { name: "caller", ty: FieldType::Address },
                FieldSchema { name: "multisig_contract", ty: FieldType::Address },
                FieldSchema { name: "old_large_threshold", ty: FieldType::I128 },
                FieldSchema { name: "new_large_threshold", ty: FieldType::I128 },
                FieldSchema { name: "old_dispute_threshold", ty: FieldType::I128 },
                FieldSchema { name: "new_dispute_threshold", ty: FieldType::I128 },
            ],
        };
        proof {
            assert(s@.topics =~= Self::spec_schema().topics);
            assert(s@.fields =~= Self::spec_schema().fields);
            assert(field_names(s@.fields) =~= seq![
                "caller"@,
                "multisig_contract"@,
                "old_large_threshold"@,
                "new_large_threshold"@,
                "old_dispute_threshold"@,
                "new_dispute_threshold"@,
            ]);
            assert("caller"@.len() == 6);
            assert("multisig_contract"@.len() == 17);
            assert("old_large_threshold"@.len() == 19);
            assert("new_large_threshold"@.len() == 19);
            assert("old_dispute_threshold"@.len() == 21);
            assert("new_dispute_threshold"@.len() == 21);
            assert("old_large_threshold"@[0] != "new_large_threshold"@[0]);
            assert("old_dispute_threshold"@[0] != "new_dispute_threshold"@[0]);
            assert(all_distinct(field_names(s@.fields)));
            assert(s@.topics[0] == snake_case(s@.name));
            assert(forall|i: int| 0 <= i < s@.topics.len() ==> is_symbol(#[trigger] s@.topics[i]));
            assert(forall|i: int| 0 <= i < s@.fields.len() ==>
                is_symbol(#[trigger] s@.fields[i].0) && s@.fields[i].0.len() <= 30);
        }
        s
    }

    /// The topics this event is published with: its event-name topic, then
    /// the schema version.
    pub fn topics(&self) -> (t: Vec<&'static str>)
        ensures
            topic_views(t@) == Self::spec_schema().topics,
    {
        let t = vec!["multisig_config_changed_event", SCHEMA_VERSION];
        assert(topic_views(t@) =~= Self::spec_schema().topics);
        t
    }

    /// The data map this event is published with: one entry per field,
    /// keyed by the field name, in ascending key order.
    pub fn data(&self) -> (d: Vec<(&'static str, FieldValue)>)
        ensures
            d@.len() == 6,
            d@[0].0@ == "caller"@,
            d@[0].1 == FieldValue::Address(self.caller),
            d@[1].0@ == "multisig_contract"@,
            d@[1].1 == FieldValue::Address(self.multisig_contract),
            d@[2].0@ == "new_dispute_threshold"@,
            d@[2].1 == FieldValue::I128(self.new_dispute_threshold),
            d@[3].0@ == "new_large_threshold"@,
            d@[3].1 == FieldValue::I128(self.new_large_threshold),
            d@[4].0@ == "old_dispute_threshold"@,
            d@[4].1 == FieldValue::I128(self.old_dispute_threshold),
            d@[5].0@ == "old_large_threshold"@,
            d@[5].1 == FieldValue::I128(self.old_large_threshold),
            data_conforms(entry_views(d@), Self::spec_schema().fields),
    {
        proof {
            reveal_strlit("caller");
            reveal_strlit("multisig_contract");
            reveal_strlit("old_large_threshold");
            reveal_strlit("new_large_threshold");
            reveal_strlit("old_dispute_threshold");
            reveal_strlit("new_dispute_threshold");
        }
        let d = vec![
            ("caller", FieldValue::Address(self.caller.clone())),
            ("multisig_contract", FieldValue::Address(self.multisig_contract.clone())),
            ("new_dispute_threshold", FieldValue::I128(self.new_dispute_threshold)),
            ("new_large_threshold", FieldValue::I128(self.new_large_threshold)),
            ("old_dispute_threshold", FieldValue::I128(self.old_dispute_threshold)),
            ("old_large_threshold", FieldValue::I128(self.old_large_threshold)),
        ];
        proof {
            let e = entry_views(d@);
            let f = Self::spec_schema().fields;
            reveal_with_fuel(strictly_ascending, 6);
            reveal_with_fuel(lex_lt, 6);
            assert(field_names(e) =~= seq![
                "caller"@,
                "multisig_contract"@,
                "new_dispute_threshold"@,
                "new_large_threshold"@,
                "old_dispute_threshold"@,
                "old_large_threshold"@,
            ]);
            assert(e[0] == f[0]);
            assert(e[1] == f[1]);
            assert(e[2] == f[5]);
            assert(e[3] == f[3]);
            assert(e[4] == f[4]);
            assert(e[5] == f[2]);
        }
        d
    }
}

/// A submitted milestone was rejected by the employer.
///
/// `rejected_by` is the employer at the time of rejection and `reason` the
/// justification given by the caller.
#[derive(Clone, Debug)]
pub struct MilestoneRejectedEvent {
    /// The milestone agreement that contains the rejected milestone.
    pub agreement_id: u128,
    /// 1-based identifier of the rejected milestone within the agreement.
    pub milestone_id: u32,
    /// The employer address that performed the rejection.
    pub rejected_by: soroban_sdk::Address,
    /// Mandatory free-text justification provided by the employer (must be
    /// non-empty and contain at least one non-whitespace character).
    pub reason: soroban_sdk::String,
}

impl MilestoneRejectedEvent {
    /// The schema of this event.
    pub open spec fn spec_schema() -> EventSchemaView {
        EventSchemaView {
            name: "MilestoneRejectedEvent"@,
            topics: seq!["milestone_rejected_event"@, "event_schema_v1"@],
            fields: seq![
                ("agreement_id"@, FieldType::U128),
                ("milestone_id"@, FieldType::U32),
                ("rejected_by"@, FieldType::Address),
                ("reason"@, FieldType::SorobanString),
            ],
        }
    }

    /// The schema of this event: its name, its topics and its fields in
    /// declaration order.
    pub fn schema() -> (s: EventSchema)
        ensures
            s@ == Self::spec_schema(),
            well_formed_schema(s@),
    {
        proof {
            reveal_strlit("MilestoneRejectedEvent");
            reveal_strlit("milestone_rejected_event");
            reveal_strlit("event_schema_v1");
            reveal_strlit("agreement_id");
            reveal_strlit("milestone_id");
            reveal_strlit("rejected_by");
            reveal_strlit("reason");
            reveal_with_fuel(snake_case, 23);
        }
        let s = EventSchema {
            name: "MilestoneRejectedEvent",
            topics: vec!["milestone_rejected_event", SCHEMA_VERSION],
            fields: vec![
                FieldSchema { name: "agreement_id", ty: FieldType::U128 },
                FieldSchema { name: "milestone_id", ty: FieldType::U32 },
                FieldSchema { name: "rejected_by", ty: FieldType::Address },
                FieldSchema { name: "reason", ty: FieldType::SorobanString },
            ],
        };
        proof {
            assert(s@.topics =~= Self::spec_schema().topics);
            assert(s@.fields =~= Self::spec_schema().fields);
            assert(field_names(s@.fields) =~= seq![
                "agreement_id"@,
                "milestone_id"@,
                "rejected_by"@,
                "reason"@,
            ]);
            assert("agreement_id"@.len() == 12);
            assert("milestone_id"@.len() == 12);
            assert("rejected_by"@.len() == 11);
            assert("reason"@.len() == 6);
            assert("agreement_id"@[0] != "milestone_id"@[0]);
            assert(all_distinct(field_names(s@.fields)));
            assert(s@.topics[0] == snake_case(s@.name));
            assert(forall|i: int| 0 <= i < s@.topics.len() ==> is_symbol(#[trigger] s@.topics[i]));
            assert(forall|i: int| 0 <= i < s@.fields.len() ==>
                is_symbol(#[trigger] s@.fields[i].0) && s@.fields[i].0.len() <= 30);
        }
        s
    }

    /// The topics this event is published with: its event-name topic, then
    /// the schema version.
    pub fn topics(&self) -> (t: Vec<&'static str>)
        ensures
            topic_views(t@) == Self::spec_schema().topics,
    {
        let t = vec!["milestone_rejected_event", SCHEMA_VERSION];
        assert(topic_views(t@) =~= Self::spec_schema().topics);
        t
    }

    /// The data map this event is published with: one entry per field,
    /// keyed by the field name, in ascending key order.
    pub fn data(&self) -> (d: Vec<(&'static str, FieldValue)>)
        ensures
            d@.len() == 4,
            d@[0].0@ == "agreement_id"@,
            d@[0].1 == FieldValue::U128(self.agreement_id),
            d@[1].0@ == "milestone_id"@,
            d@[1].1 == FieldValue::U32(self.milestone_id),
            d@[2].0@ == "reason"@,
            d@[2].1 == FieldValue::SorobanString(self.reason),
            d@[3].0@ == "rejected_by"@,
            d@[3].1 == FieldValue::Address(self.rejected_by),
            data_conforms(entry_views(d@), Self::spec_schema().fields),
    {
        proof {
            reveal_strlit("agreement_id");
            reveal_strlit("milestone_id");
            reveal_strlit("rejected_by");
            reveal_strlit("reason");
        }
        let d = vec![
            ("agreement_id", FieldValue::U128(self.agreement_id)),
            ("milestone_id", FieldValue::U32(self.milestone_id)),
            ("reason", FieldValue::SorobanString(self.reason.clone())),
            ("rejected_by", FieldValue::Address(self.rejected_by.clone())),
        ];
        proof {
            let e = entry_views(d@);
            let f = Self::spec_schema().fields;
            reveal_with_fuel(strictly_ascending, 4);
            reveal_with_fuel(lex_lt, 4);
            assert(field_names(e) =~= seq![
                "agreement_id"@,
                "milestone_id"@,
                "reason"@,
                "rejected_by"@,
            ]);
            assert(e[0] == f[0]);
            assert(e[1] == f[1]);
            assert(e[2] == f[3]);
            assert(e[3] == f[2]);
        }
        d
    }
}

/// A milestone expired without being claimed or rejected.
#[derive(Clone, Debug)]
pub struct MilestoneExpiredEvent {
    /// The milestone agreement that contains the expired milestone.
    pub agreement_id: u128,
    /// 1-based identifier of the expired milestone within the agreement.
    pub milestone_id: u32,
    /// The amount that was locked for this milestone and is now unreleased.
    /// Callers may use this to decide whether to fund a replacement milestone
    /// or cancel the agreement to recover unused escrow.
    pub locked_amount: i128,
    /// The address that triggered expiry (must be the agreement's employer).
    pub expired_by: soroban_sdk::Address,
}

impl MilestoneExpiredEvent {
    /// The schema of this event.
    pub open spec fn spec_schema() -> EventSchemaView {
        EventSchemaView {
            name: "MilestoneExpiredEvent"@,
            topics: seq!["milestone_expired_event"@, "event_schema_v1"@],
            fields: seq![
                ("agreement_id"@, FieldType::U128),
                ("milestone_id"@, FieldType::U32),
                ("locked_amount"@, FieldType::I128),
                ("expired_by"@, FieldType::Address),
            ],
        }
    }

    /// The schema of this event: its name, its topics and its fields in
    /// declaration order.
    pub fn schema() -> (s: EventSchema)
        ensures
            s@ == Self::spec_schema(),
            well_formed_schema(s@),
    {
        proof {
            reveal_strlit("MilestoneExpiredEvent");
            reveal_strlit("milestone_expired_event");
            reveal_strlit("event_schema_v1");
            reveal_strlit("agreement_id");
            reveal_strlit("milestone_id");
            reveal_strlit("locked_amount");
            reveal_strlit("expired_by");
            reveal_with_fuel(snake_case, 22);
        }
        let s = EventSchema {
            name: "MilestoneExpiredEvent",
            topics: vec!["milestone_expired_event", SCHEMA_VERSION],
            fields: vec![
                FieldSchema { name: "agreement_id", ty: FieldType::U128 },
                FieldSchema { name: "milestone_id", ty: FieldType::U32 },
                FieldSchema { name: "locked_amount", ty: FieldType::I128 },
                FieldSchema { name: "expired_by", ty: FieldType::Address },
            ],
        };
        proof {
            assert(s@.topics =~= Self::spec_schema().topics);
            assert(s@.fields =~= Self::spec_schema().fields);
            assert(field_names(s@.fields) =~= seq![
                "agreement_id"@,
                "milestone_id"@,
                "locked_amount"@,
                "expired_by"@,
            ]);
            assert("agreement_id"@.len() == 12);
            assert("milestone_id"@.len() == 12);
            assert("locked_amount"@.len() == 13);
            assert("expired_by"@.len() == 10);
            assert("agreement_id"@[0] != "milestone_id"@[0]);
            assert(all_distinct(field_names(s@.fields)));
            assert(s@.topics[0] == snake_case(s@.name));
            assert(forall|i: int| 0 <= i < s@.topics.len() ==> is_symbol(#[trigger] s@.topics[i]));
            assert(forall|i: int| 0 <= i < s@.fields.len() ==>
                is_symbol(#[trigger] s@.fields[i].0) && s@.fields[i].0.len() <= 30);
        }
        s
    }

    /// The topics this event is published with: its event-name topic, then
    /// the schema version.
    pub fn topics(&self) -> (t: Vec<&'static str>)
        ensures
            topic_views(t@) == Self::spec_schema().topics,
    {
        let t = vec!["milestone_expired_event", SCHEMA_VERSION];
        assert(topic_views(t@) =~= Self::spec_schema().topics);
        t
    }

    /// The data map this event is published with: one entry per field,
    /// keyed by the field name, in ascending key order.
    pub fn data(&self) -> (d: Vec<(&'static str, FieldValue)>)
        ensures
            d@.len() == 4,
            d@[0].0@ == "agreement_id"@,
            d@[0].1 == FieldValue::U128(self.agreement_id),
            d@[1].0@ == "expired_by"@,
            d@[1].1 == FieldValue::Address(self.expired_by),
            d@[2].0@ == "locked_amount"@,
            d@[2].1 == FieldValue::I128(self.locked_amount),
            d@[3].0@ == "milestone_id"@,
            d@[3].1 == FieldValue::U32(self.milestone_id),
            data_conforms(entry_views(d@), Self::spec_schema().fields),
    {
        proof {
            reveal_strlit("agreement_id");
            reveal_strlit("milestone_id");
            reveal_strlit("locked_amount");
            reveal_strlit("expired_by");
        }
        let d = vec![
            ("agreement_id", FieldValue::U128(self.agreement_id)),
            ("expired_by", FieldValue::Address(self.expired_by.clone())),
            ("locked_amount", FieldValue::I128(self.locked_amount)),
            ("milestone_id", FieldValue::U32(self.milestone_id)),
        ];
        proof {
            let e = entry_views(d@);
            let f = Self::spec_schema().fields;
            reveal_with_fuel(strictly_ascending, 4);
            reveal_with_fuel(lex_lt, 2);
            assert(field_names(e) =~= seq![
                "agreement_id"@,
                "expired_by"@,
                "locked_amount"@,
                "milestone_id"@,
            ]);
            assert(e[0] == f[0]);
            assert(e[1] == f[3]);
            assert(e[2] == f[2]);
            assert(e[3] == f[1]);
        }
        d
    }
}

/// All agreements of an employer were paused at once.
#[derive(Clone, Debug)]
pub struct BulkAgreementsPausedEvent {
    pub employer: soroban_sdk::Address,
    pub count: u32,
}

impl BulkAgreementsPausedEvent {
    /// The schema of this event.
    pub open spec fn spec_schema() -> EventSchemaView {
        EventSchemaView {
            name: "BulkAgreementsPausedEvent"@,
            topics: seq!["bulk_agreements_paused_event"@, "event_schema_v1"@],
            fields: seq![
                ("employer"@, FieldType::Address),
                ("count"@, FieldType::U32),
            ],
        }
    }

    /// The schema of this event: its name, its topics and its fields in
    /// declaration order.
    pub fn schema() -> (s: EventSchema)
        ensures
            s@ == Self::spec_schema(),
            well_formed_schema(s@),
    {
        proof {
            reveal_strlit("BulkAgreementsPausedEvent");
            reveal_strlit("bulk_agreements_paused_event");
            reveal_strlit("event_schema_v1");
            reveal_strlit("employer");
            reveal_strlit("count");
            reveal_with_fuel(snake_case, 26);
        }
        let s = EventSchema {
            name: "BulkAgreementsPausedEvent",
            topics: vec!["bulk_agreements_paused_event", SCHEMA_VERSION],
            fields: vec![
                FieldSchema { name: "employer", ty: FieldType::Address },
                FieldSchema { name: "count", ty: FieldType::U32 },
            ],
        };
        proof {
            assert(s@.topics =~= Self::spec_schema().topics);
            assert(s@.fields =~= Self::spec_schema().fields);
            assert(field_names(s@.fields) =~= seq!["employer"@, "count"@]);
            assert("employer"@.len() == 8);
            assert("count"@.len() == 5);
            assert(all_distinct(field_names(s@.fields)));
            assert(s@.topics[0] == snake_case(s@.name));
            assert(forall|i: int| 0 <= i < s@.topics.len() ==> is_symbol(#[trigger] s@.topics[i]));
            assert(forall|i: int| 0 <= i < s@.fields.len() ==>
                is_symbol(#[trigger] s@.fields[i].0) && s@.fields[i].0.len() <= 30);
        }
        s
    }

    /// The topics this event is published with: its event-name topic, then
    /// the schema version.
    pub fn topics(&self) -> (t: Vec<&'static str>)
        ensures
            topic_views(t@) == Self::spec_schema().topics,
    {
        let t = vec!["bulk_agreements_paused_event", SCHEMA_VERSION];
        assert(topic_views(t@) =~= Self::spec_schema().topics);
        t
    }

    /// The data map this event is published with: one entry per field,
    /// keyed by the field name, in ascending key order.
    pub fn data(&self) -> (d: Vec<(&'static str, FieldValue)>)
        ensures
            d@.len() == 2,
            d@[0].0@ == "count"@,
            d@[0].1 == FieldValue::U32(self.count),
            d@[1].0@ == "employer"@,
            d@[1].1 == FieldValue::Address(self.employer),
            data_conforms(entry_views(d@), Self::spec_schema().fields),
    {
        proof {
            reveal_strlit("employer");
            reveal_strlit("count");
        }
        let d = vec![
            ("count", FieldValue::U32(self.count)),
            ("employer", FieldValue::Address(self.employer.clone())),
        ];
        proof {
            let e = entry_views(d@);
            let f = Self::spec_schema().fields;
            reveal_with_fuel(strictly_ascending, 2);
            reveal_with_fuel(lex_lt, 2);
            assert(field_names(e) =~= seq!["count"@, "employer"@]);
            assert(e[0] == f[1]);
            assert(e[1] == f[0]);
        }
        d
    }
}

/// All agreements of an employer were resumed at once.
#[derive(Clone, Debug)]
pub struct BulkAgreementsUnpausedEvent {
    pub employer: soroban_sdk::Address,
    pub count: u32,
}

impl BulkAgreementsUnpausedEvent {
    /// The schema of this event.
    pub open spec fn spec_schema() -> EventSchemaView {
        EventSchemaView {
            name: "BulkAgreementsUnpausedEvent"@,
            topics: seq!["bulk_agreements_unpaused_event"@, "event_schema_v1"@],
            fields: seq![
                ("employer"@, FieldType::Address),
                ("count"@, FieldType::U32),
            ],
        }
    }

    /// The schema of this event: its name, its topics and its fields in
    /// declaration order.
    pub fn schema() -> (s: EventSchema)
        ensures
            s@ == Self::spec_schema(),
            well_formed_schema(s@),
    {
        proof {
            reveal_strlit("BulkAgreementsUnpausedEvent");
            reveal_strlit("bulk_agreements_unpaused_event");
            reveal_strlit("event_schema_v1");
            reveal_strlit("employer");
            reveal_strlit("count");
            reveal_with_fuel(snake_case, 28);
        }
        let s = EventSchema {
            name: "BulkAgreementsUnpausedEvent",
            topics: vec!["bulk_agreements_unpaused_event", SCHEMA_VERSION],
            fields: vec![
                FieldSchema { name: "employer", ty: FieldType::Address },
                FieldSchema { name: "count", ty: FieldType::U32 },
            ],
        };
        proof {
            assert(s@.topics =~= Self::spec_schema().topics);
            assert(s@.fields =~= Self::spec_schema().fields);
            assert(field_names(s@.fields) =~= seq!["employer"@, "count"@]);
            assert("employer"@.len() == 8);
            assert("count"@.len() == 5);
            assert(all_distinct(field_names(s@.fields)));
            assert(s@.topics[0] == snake_case(s@.name));
            assert(forall|i: int| 0 <= i < s@.topics.len() ==> is_symbol(#[trigger] s@.topics[i]));
            assert(forall|i: int| 0 <= i < s@.fields.len() ==>
                is_symbol(#[trigger] s@.fields[i].0) && s@.fields[i].0.len() <= 30);
        }
        s
    }

    /// The topics this event is published with: its event-name topic, then
    /// the schema version.
    pub fn topics(&self) -> (t: Vec<&'static str>)
        ensures
            topic_views(t@) == Self::spec_schema().topics,
    {
        let t = vec!["bulk_agreements_unpaused_event", SCHEMA_VERSION];
        assert(topic_views(t@) =~= Self::spec_schema().topics);
        t
    }

    /// The data map this event is published with: one entry per field,
    /// keyed by the field name, in ascending key order.
    pub fn data(&self) -> (d: Vec<(&'static str, FieldValue)>)
        ensures
            d@.len() == 2,
            d@[0].0@ == "count"@,
            d@[0].1 == FieldValue::U32(self.count),
            d@[1].0@ == "employer"@,
            d@[1].1 == FieldValue::Address(self.employer),
            data_conforms(entry_views(d@), Self::spec_schema().fields),
    {
        proof {
            reveal_strlit("employer");
            reveal_strlit("count");
        }
        let d = vec![
            ("count", FieldValue::U32(self.count)),
            ("employer", FieldValue::Address(self.employer.clone())),
        ];
        proof {
            let e = entry_views(d@);
            let f = Self::spec_schema().fields;
            reveal_with_fuel(strictly_ascending, 2);
            reveal_with_fuel(lex_lt, 2);
            assert(field_names(e) =~= seq!["count"@, "employer"@]);
            assert(e[0] == f[1]);
            assert(e[1] == f[0]);
        }
        d
    }
}

} // verus!
