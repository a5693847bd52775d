use show_tables::node::ShowTablesPlanNode;
use show_tables::plan::{Expr, Extension, LogicalPlan, UserDefinedNode};
use show_tables::recover::{PlanError, PyShowTables};
use show_tables::schema::{DFField, DFSchema};
use std::sync::Arc;

fn node_with(name: Option<&str>) -> ShowTablesPlanNode {
    ShowTablesPlanNode {
        schema: Arc::new(DFSchema::empty()),
        schema_name: name.map(|s| s.to_string()),
    }
}

fn wrap(node: ShowTablesPlanNode) -> LogicalPlan {
    LogicalPlan::Extension(Extension {
        node: UserDefinedNode::ShowTables(node),
    })
}

#[test]
fn inputs_and_expressions_are_empty() {
    let with_name = node_with(Some("foo"));
    let without_name = node_with(None);
    assert!(with_name.inputs().is_empty());
    assert!(with_name.expressions().is_empty());
    assert!(without_name.inputs().is_empty());
    assert!(without_name.expressions().is_empty());
}

#[test]
fn schema_returns_the_stored_schema() {
    let fields = vec![DFField {
        name: "table_name".to_string(),
        data_type: "Utf8".to_string(),
    }];
    let node = ShowTablesPlanNode {
        schema: Arc::new(DFSchema { fields }),
        schema_name: None,
    };
    let schema = node.schema();
    assert_eq!(schema.fields.len(), 1);
    assert_eq!(schema.fields[0].name, "table_name");
    assert_eq!(schema.fields[0].data_type, "Utf8");
}

#[test]
fn explain_with_schema_name() {
    let line = node_with(Some("foo")).fmt_for_explain();
    assert_eq!(line, "ShowTables: schema_name: Some(\"foo\")");
    assert_eq!(
        line,
        format!("ShowTables: schema_name: {:?}", Some("foo".to_string()))
    );
}

#[test]
fn explain_without_schema_name() {
    let line = node_with(None).fmt_for_explain();
    assert_eq!(line, "ShowTables: schema_name: None");
    let absent: Option<String> = None;
    assert_eq!(line, format!("ShowTables: schema_name: {:?}", absent));
}

#[test]
fn explain_with_empty_schema_name() {
    let line = node_with(Some("")).fmt_for_explain();
    assert_eq!(line, "ShowTables: schema_name: Some(\"\")");
}

#[test]
fn explain_escapes_special_characters() {
    let name = "a\"b\\c\nd\re\tf";
    let line = node_with(Some(name)).fmt_for_explain();
    assert_eq!(
        line,
        "ShowTables: schema_name: Some(\"a\\\"b\\\\c\\nd\\re\\tf\")"
    );
    assert_eq!(
        line,
        format!("ShowTables: schema_name: {:?}", Some(name.to_string()))
    );
}

#[test]
fn from_template_discards_non_empty_arguments() {
    let node = ShowTablesPlanNode {
        schema: Arc::new(DFSchema {
            fields: vec![DFField {
                name: "table_name".to_string(),
                data_type: "Utf8".to_string(),
            }],
        }),
        schema_name: Some("foo".to_string()),
    };
    let exprs = vec![
        Expr::Column("a".to_string()),
        Expr::Column("b".to_string()),
    ];
    let inputs = vec![
        LogicalPlan::EmptyRelation {
            schema: Arc::new(DFSchema::empty()),
        },
        wrap(node_with(None)),
    ];
    let rebuilt = node.from_template(&exprs, &inputs);
    assert_eq!(rebuilt.schema_name, Some("foo".to_string()));
    assert!(rebuilt.schema.fields.is_empty());
}

#[test]
fn from_template_keeps_absent_schema_name() {
    let rebuilt = node_with(None).from_template(&[], &[]);
    assert_eq!(rebuilt.schema_name, None);
    assert!(rebuilt.schema.fields.is_empty());
}

#[test]
fn round_trip_with_schema_name() {
    let wrapper = PyShowTables::try_from(wrap(node_with(Some("analytics")))).unwrap();
    assert_eq!(wrapper.get_schema_name(), "analytics");
}

#[test]
fn round_trip_without_schema_name() {
    let wrapper = PyShowTables::try_from(wrap(node_with(None))).unwrap();
    assert_eq!(wrapper.get_schema_name(), "");
}

#[test]
fn round_trip_collapses_empty_schema_name() {
    let wrapper = PyShowTables::try_from(wrap(node_with(Some("")))).unwrap();
    assert_eq!(wrapper.get_schema_name(), "");
}

#[test]
fn recovery_of_another_operator_kind_fails() {
    let plan = LogicalPlan::EmptyRelation {
        schema: Arc::new(DFSchema::empty()),
    };
    match PyShowTables::try_from(plan) {
        Ok(_) => panic!("recovery accepted a plan that is not a ShowTables node"),
        Err(PlanError::TypeMismatch { message }) => assert_eq!(message, "unexpected plan"),
    }
}

#[test]
fn empty_schema_has_no_fields() {
    assert!(DFSchema::empty().fields.is_empty());
}
