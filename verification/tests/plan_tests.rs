use dynamodb_tools::AttrType;
use dynamodb_tools::BillingPlan;
use dynamodb_tools::KeyKind;
use dynamodb_tools::ProjectionPlan;
use dynamodb_tools::TableAttr;
use dynamodb_tools::TableConfig;
use dynamodb_tools::TableGsi;
use dynamodb_tools::TableInfo;
use dynamodb_tools::TableLsi;
use dynamodb_tools::Throughput;
use dynamodb_tools::default_aws_region;

fn attr(name: &str, attr_type: AttrType) -> TableAttr {
    TableAttr { name: name.to_string(), attr_type }
}

fn users_info() -> TableInfo {
    TableInfo {
        table_name: "users".to_string(),
        pk: attr("pk", AttrType::S),
        sk: Some(attr("sk", AttrType::S)),
        attrs: vec![],
        gsis: vec![TableGsi {
            name: "users_gsi".to_string(),
            pk: attr("gsi_pk", AttrType::S),
            sk: Some(attr("gsi_sk", AttrType::N)),
            attrs: vec!["name".to_string()],
            throughput: None,
        }],
        lsis: vec![TableLsi {
            name: "users_lsi".to_string(),
            pk: attr("pk", AttrType::S),
            sk: attr("lsi_sk", AttrType::N),
            attrs: vec![],
        }],
        throughput: None,
        seed_data_file: None,
    }
}

#[test]
fn default_region_is_us_east_1() {
    assert_eq!(default_aws_region(), "us-east-1");
}

#[test]
fn new_config_without_endpoint_never_deletes_on_exit() {
    let config = TableConfig::new("us-east-1".to_string(), None, true, vec![]);
    assert!(!config.delete_on_exit);
    assert_eq!(config.region, "us-east-1");
    assert!(config.endpoint.is_none());
    assert!(config.tables.is_empty());
}

#[test]
fn new_config_with_endpoint_keeps_delete_on_exit() {
    let config = TableConfig::new(
        "us-east-1".to_string(),
        Some("http://localhost:8000".to_string()),
        true,
        vec![],
    );
    assert!(config.delete_on_exit);
    assert_eq!(config.endpoint.as_deref(), Some("http://localhost:8000"));
}

#[test]
fn key_schema_lists_pk_then_sk() {
    let plan = users_info().to_create_plan();
    assert_eq!(plan.table_name, "users");
    assert_eq!(plan.key_schema.len(), 2);
    assert_eq!(plan.key_schema[0].attr_name, "pk");
    assert_eq!(plan.key_schema[0].kind, KeyKind::Hash);
    assert_eq!(plan.key_schema[1].attr_name, "sk");
    assert_eq!(plan.key_schema[1].kind, KeyKind::Range);
}

#[test]
fn key_schema_of_pk_only_table_has_one_entry() {
    let mut info = users_info();
    info.sk = None;
    info.gsis = vec![];
    info.lsis = vec![];
    let plan = info.to_create_plan();
    assert_eq!(plan.key_schema.len(), 1);
    assert_eq!(plan.key_schema[0].attr_name, "pk");
    assert_eq!(plan.key_schema[0].kind, KeyKind::Hash);
}

#[test]
fn attribute_definitions_cover_all_key_attributes_once() {
    let plan = users_info().to_create_plan();
    let names: Vec<&str> = plan
        .attribute_definitions
        .iter()
        .map(|a| a.name.as_str())
        .collect();
    // First-occurrence order: table keys, GSI keys, LSI sort key.
    assert_eq!(names, vec!["pk", "sk", "gsi_pk", "gsi_sk", "lsi_sk"]);
    assert_eq!(plan.attribute_definitions[0].attr_type, AttrType::S);
    assert_eq!(plan.attribute_definitions[3].attr_type, AttrType::N);
}

#[test]
fn repeated_key_attribute_is_defined_once_with_last_type() {
    let mut info = users_info();
    // The GSI partition key reuses the table's sort key name with another type.
    info.gsis[0].pk = attr("sk", AttrType::B);
    let plan = info.to_create_plan();
    let names: Vec<&str> = plan
        .attribute_definitions
        .iter()
        .map(|a| a.name.as_str())
        .collect();
    assert_eq!(names, vec!["pk", "sk", "gsi_sk", "lsi_sk"]);
    // The later binding of "sk" wins.
    assert_eq!(plan.attribute_definitions[1].attr_type, AttrType::B);
}

#[test]
fn gsi_plan_keeps_keys_projection_and_throughput() {
    let mut info = users_info();
    info.gsis[0].throughput = Some(Throughput { read: 5, write: 3 });
    let plan = info.to_create_plan();
    assert_eq!(plan.global_secondary_indexes.len(), 1);
    let gsi = &plan.global_secondary_indexes[0];
    assert_eq!(gsi.index_name, "users_gsi");
    assert_eq!(gsi.key_schema.len(), 2);
    assert_eq!(gsi.key_schema[0].attr_name, "gsi_pk");
    assert_eq!(gsi.key_schema[0].kind, KeyKind::Hash);
    assert_eq!(gsi.key_schema[1].attr_name, "gsi_sk");
    assert_eq!(gsi.key_schema[1].kind, KeyKind::Range);
    match &gsi.projection {
        ProjectionPlan::Include(names) => assert_eq!(names, &vec!["name".to_string()]),
        ProjectionPlan::All => panic!("GSI projection should include the named attributes"),
    }
    assert_eq!(gsi.throughput, Some(Throughput { read: 5, write: 3 }));
}

#[test]
fn gsi_without_named_attributes_still_projects_include() {
    let mut info = users_info();
    info.gsis[0].attrs = vec![];
    let plan = info.to_create_plan();
    match &plan.global_secondary_indexes[0].projection {
        ProjectionPlan::Include(names) => assert!(names.is_empty()),
        ProjectionPlan::All => panic!("GSI projection is always of the Include kind"),
    }
}

#[test]
fn lsi_without_named_attributes_projects_all() {
    let plan = users_info().to_create_plan();
    assert_eq!(plan.local_secondary_indexes.len(), 1);
    let lsi = &plan.local_secondary_indexes[0];
    assert_eq!(lsi.index_name, "users_lsi");
    assert_eq!(lsi.key_schema.len(), 2);
    assert_eq!(lsi.key_schema[0].attr_name, "pk");
    assert_eq!(lsi.key_schema[0].kind, KeyKind::Hash);
    assert_eq!(lsi.key_schema[1].attr_name, "lsi_sk");
    assert_eq!(lsi.key_schema[1].kind, KeyKind::Range);
    assert!(matches!(lsi.projection, ProjectionPlan::All));
}

#[test]
fn lsi_with_named_attributes_projects_include() {
    let mut info = users_info();
    info.lsis[0].attrs = vec!["email".to_string()];
    let plan = info.to_create_plan();
    match &plan.local_secondary_indexes[0].projection {
        ProjectionPlan::Include(names) => assert_eq!(names, &vec!["email".to_string()]),
        ProjectionPlan::All => panic!("LSI with named attributes should project Include"),
    }
}

#[test]
fn gsi_without_sort_key_has_one_schema_entry() {
    let mut info = users_info();
    info.gsis[0].sk = None;
    let plan = info.to_create_plan();
    let gsi = &plan.global_secondary_indexes[0];
    assert_eq!(gsi.key_schema.len(), 1);
    assert_eq!(gsi.key_schema[0].attr_name, "gsi_pk");
    assert_eq!(gsi.key_schema[0].kind, KeyKind::Hash);
    let names: Vec<&str> = plan
        .attribute_definitions
        .iter()
        .map(|a| a.name.as_str())
        .collect();
    assert_eq!(names, vec!["pk", "sk", "gsi_pk", "lsi_sk"]);
}

#[test]
fn several_gsis_are_planned_in_order() {
    let mut info = users_info();
    info.gsis.push(TableGsi {
        name: "by_email".to_string(),
        pk: attr("email", AttrType::S),
        sk: None,
        attrs: vec![],
        throughput: None,
    });
    let plan = info.to_create_plan();
    assert_eq!(plan.global_secondary_indexes.len(), 2);
    assert_eq!(plan.global_secondary_indexes[0].index_name, "users_gsi");
    assert_eq!(plan.global_secondary_indexes[1].index_name, "by_email");
    let names: Vec<&str> = plan
        .attribute_definitions
        .iter()
        .map(|a| a.name.as_str())
        .collect();
    assert_eq!(names, vec!["pk", "sk", "gsi_pk", "gsi_sk", "email", "lsi_sk"]);
}

#[test]
fn index_keys_sharing_a_name_are_defined_once() {
    let mut info = users_info();
    // The LSI sort key reuses the GSI sort key's name with another type.
    info.lsis[0].sk = attr("gsi_sk", AttrType::S);
    let plan = info.to_create_plan();
    let names: Vec<&str> = plan
        .attribute_definitions
        .iter()
        .map(|a| a.name.as_str())
        .collect();
    assert_eq!(names, vec!["pk", "sk", "gsi_pk", "gsi_sk"]);
    // The LSI's later binding of "gsi_sk" wins.
    assert_eq!(plan.attribute_definitions[3].attr_type, AttrType::S);
}

#[test]
fn billing_defaults_to_pay_per_request() {
    let plan = users_info().to_create_plan();
    assert_eq!(plan.billing, BillingPlan::PayPerRequest);
}

#[test]
fn billing_uses_provisioned_throughput_when_given() {
    let mut info = users_info();
    info.throughput = Some(Throughput { read: 10, write: 2 });
    let plan = info.to_create_plan();
    assert_eq!(
        plan.billing,
        BillingPlan::Provisioned(Throughput { read: 10, write: 2 })
    );
}

#[test]
fn to_pk_and_to_sk_give_the_key_roles() {
    let a = attr("id", AttrType::S);
    let pk = a.to_pk();
    assert_eq!(pk.attr_name, "id");
    assert_eq!(pk.kind, KeyKind::Hash);
    let sk = a.to_sk();
    assert_eq!(sk.attr_name, "id");
    assert_eq!(sk.kind, KeyKind::Range);
}

#[test]
fn duplicate_copies_name_and_type() {
    let a = attr("id", AttrType::N);
    let b = a.duplicate();
    assert_eq!(b.name, "id");
    assert_eq!(b.attr_type, AttrType::N);
}
