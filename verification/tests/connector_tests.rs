use dynamodb_tools::AttrType;
use dynamodb_tools::ConnectorPlan;
use dynamodb_tools::DynamoToolsError;
use dynamodb_tools::TableAttr;
use dynamodb_tools::TableConfig;
use dynamodb_tools::TableInfo;

fn simple_info(base: &str) -> TableInfo {
    TableInfo {
        table_name: base.to_string(),
        pk: TableAttr {
            name: "id".to_string(),
            attr_type: AttrType::S,
        },
        sk: None,
        attrs: vec![],
        gsis: vec![],
        lsis: vec![],
        throughput: None,
        seed_data_file: None,
    }
}

fn local_config(tables: Vec<TableInfo>, delete_on_exit: bool) -> TableConfig {
    TableConfig::new(
        "us-east-1".to_string(),
        Some("http://localhost:8000".to_string()),
        delete_on_exit,
        tables,
    )
}

fn is_id_char(c: char) -> bool {
    c.is_ascii_digit() || ('a'..='v').contains(&c)
}

#[test]
fn prepared_table_gets_a_unique_suffixed_name() {
    let plan = ConnectorPlan::prepare(&local_config(vec![simple_info("simple_pk_test")], true));
    let name = plan
        .get_created_table_name("simple_pk_test")
        .expect("Table 'simple_pk_test' should have been planned");
    assert!(name.starts_with("simple_pk_test-"));
    assert_eq!(name.chars().count(), "simple_pk_test".len() + 21);
    assert!(name.chars().skip("simple_pk_test".len() + 1).all(is_id_char));
}

#[test]
fn two_runs_give_two_different_names() {
    let config = local_config(vec![simple_info("users")], true);
    let first = ConnectorPlan::prepare(&config);
    let second = ConnectorPlan::prepare(&config);
    let a = first.get_created_table_name("users").unwrap();
    let b = second.get_created_table_name("users").unwrap();
    assert_ne!(a, b);
}

#[test]
fn every_configured_table_is_planned_in_order() {
    let plan = ConnectorPlan::prepare(&local_config(
        vec![simple_info("multi_table_1"), simple_info("multi_table_2")],
        true,
    ));
    let names = plan.get_all_created_table_names();
    assert_eq!(names.len(), 2);
    assert!(names[0].starts_with("multi_table_1-"));
    assert!(names[1].starts_with("multi_table_2-"));

    let table1 = plan
        .get_created_table_name("multi_table_1")
        .expect("Table 'multi_table_1' should exist");
    assert!(table1.starts_with("multi_table_1-"));
    let table2 = plan
        .get_created_table_name("multi_table_2")
        .expect("Table 'multi_table_2' should exist");
    assert!(table2.starts_with("multi_table_2-"));
    assert_eq!(&names[0], table1);
    assert_eq!(&names[1], table2);
}

#[test]
fn empty_config_plans_no_tables() {
    let plan = ConnectorPlan::prepare(&local_config(vec![], false));
    assert!(plan.get_all_created_table_names().is_empty());
    assert!(plan.get_created_table_name("users").is_none());
}

#[test]
fn unknown_base_name_is_not_found() {
    let plan = ConnectorPlan::prepare(&local_config(vec![simple_info("users")], true));
    assert!(plan.get_created_table_name("orders").is_none());
}

#[test]
fn planned_name_carries_the_table_plan() {
    let plan = ConnectorPlan::prepare(&local_config(vec![simple_info("users")], true));
    assert_eq!(plan.tables.len(), 1);
    let table = &plan.tables[0];
    assert_eq!(table.base_name, "users");
    assert_eq!(table.plan.table_name, table.unique_name);
    assert_eq!(table.plan.key_schema.len(), 1);
    assert_eq!(table.plan.key_schema[0].attr_name, "id");
}

#[test]
fn delete_on_exit_needs_an_endpoint() {
    let without = ConnectorPlan::prepare(&TableConfig::new(
        "us-east-1".to_string(),
        None,
        true,
        vec![simple_info("users")],
    ));
    assert!(!without.delete_on_exit());
    let with = ConnectorPlan::prepare(&local_config(vec![simple_info("users")], true));
    assert!(with.delete_on_exit());
}

#[test]
fn names_to_delete_is_everything_or_nothing() {
    let keeping = ConnectorPlan::prepare(&local_config(vec![simple_info("users")], false));
    assert!(keeping.names_to_delete().is_empty());

    let deleting = ConnectorPlan::prepare(&local_config(vec![simple_info("users")], true));
    let doomed = deleting.names_to_delete();
    assert_eq!(doomed, deleting.get_all_created_table_names());
    assert_eq!(doomed.len(), 1);
}

#[test]
fn error_variants_carry_their_messages() {
    let e = DynamoToolsError::ConfigRead("dev.yml".to_string(), "no such file".to_string());
    assert!(matches!(e, DynamoToolsError::ConfigRead(p, _) if p == "dev.yml"));
    let e = DynamoToolsError::MissingField("table name".to_string());
    assert!(matches!(e, DynamoToolsError::MissingField(m) if m == "table name"));
    let e = DynamoToolsError::Internal("client accessed after drop".to_string());
    assert!(matches!(e, DynamoToolsError::Internal(_)));
}
