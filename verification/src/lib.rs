//! Configuration-driven provisioning of ephemeral DynamoDB tables.
//!
//! A declarative schema ([`TableConfig`]) is translated into table-creation
//! plans, each table receiving a unique name for the current run; the
//! connector plan records the created names so they can be looked up and,
//! when asked for, deleted again.

mod config;
mod connector;
mod error;
mod plan;

pub use config::AttrType;
pub use config::TableAttr;
pub use config::TableAttrView;
pub use config::TableConfig;
pub use config::TableConfigView;
pub use config::TableGsi;
pub use config::TableGsiView;
pub use config::TableInfo;
pub use config::TableInfoView;
pub use config::TableLsi;
pub use config::TableLsiView;
pub use config::Throughput;
pub use config::default_aws_region;
pub use connector::ConnectorPlan;
pub use connector::ConnectorPlanView;
pub use connector::ProvisionedTable;
pub use connector::ProvisionedTableView;
pub use connector::is_id_char;
pub use connector::is_unique_name_for;
pub use connector::lookup_unique;
pub use connector::lemma_unique_names;
pub use connector::unique_names;
pub use connector::with_table_name;
pub use error::DynamoToolsError;
pub use plan::BillingPlan;
pub use plan::CreateTablePlan;
pub use plan::CreateTablePlanView;
pub use plan::GsiPlan;
pub use plan::GsiPlanView;
pub use plan::KeyKind;
pub use plan::KeySchemaEntry;
pub use plan::KeySchemaEntryView;
pub use plan::LsiPlan;
pub use plan::LsiPlanView;
pub use plan::ProjectionPlan;
pub use plan::ProjectionPlanView;
pub use plan::collect_key_attrs;
pub use plan::dedup_attrs;
pub use plan::distinct_attr_names;
pub use plan::gsi_key_attrs;
pub use plan::gsis_key_attrs;
pub use plan::has_attr_name;
pub use plan::index_of_attr_name;
pub use plan::is_last_binding;
pub use plan::key_attr_seq;
pub use plan::lemma_create_plan_attribute_definitions;
pub use plan::lemma_dedup_attrs_last_binding;
pub use plan::lemma_dedup_attrs_names;
pub use plan::lsis_key_attrs;
pub use plan::spec_billing;
pub use plan::spec_create_plan;
pub use plan::spec_gsi_plan;
pub use plan::spec_gsi_plans;
pub use plan::spec_key_schema;
pub use plan::spec_lsi_plan;
pub use plan::spec_lsi_plans;
pub use plan::spec_pk_entry;
pub use plan::spec_sk_entry;
pub use plan::table_key_attrs;
pub use plan::upsert_attr;
