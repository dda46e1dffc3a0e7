//! Declarative table schemas: the plain data that a YAML configuration
//! carries, together with their ghost views.

use vstd::prelude::*;

verus! {

/// The DynamoDB scalar attribute types (string, number, binary).
#[derive(Clone, Copy, Debug, PartialEq, Eq, Structural)]
pub enum AttrType {
    /// String type.
    S,
    /// Number type.
    N,
    /// Binary type.
    B,
}

/// A single attribute definition: its name and scalar type.
#[derive(Clone, Debug)]
pub struct TableAttr {
    /// The name of the attribute.
    pub name: String,
    /// The scalar type of the attribute.
    pub attr_type: AttrType,
}

/// Ghost model of a [`TableAttr`].
#[verifier::ext_equal]
pub ghost struct TableAttrView {
    pub name: Seq<char>,
    pub attr_type: AttrType,
}

impl View for TableAttr {
    type V = TableAttrView;

    open spec fn view(&self) -> TableAttrView {
        TableAttrView { name: self.name@, attr_type: self.attr_type }
    }
}

impl DeepView for TableAttr {
    type V = TableAttrView;

    open spec fn deep_view(&self) -> TableAttrView {
        self@
    }
}

impl TableAttr {
    /// Returns a copy of this attribute with the same name and type.
    pub fn duplicate(&self) -> (r: TableAttr)
        ensures
            r@ == self@,
    {
        TableAttr { name: self.name.clone(), attr_type: self.attr_type }
    }
}

/// Provisioned throughput settings: read and write capacity units.
#[derive(Clone, Copy, Debug, PartialEq, Eq, Structural)]
pub struct Throughput {
    /// Read capacity units.
    pub read: i64,
    /// Write capacity units.
    pub write: i64,
}

impl View for Throughput {
    type V = Throughput;

    open spec fn view(&self) -> Throughput {
        *self
    }
}

impl DeepView for Throughput {
    type V = Throughput;

    open spec fn deep_view(&self) -> Throughput {
        *self
    }
}

/// A global secondary index definition.
#[derive(Clone, Debug)]
pub struct TableGsi {
    /// The name of the index.
    pub name: String,
    /// The partition key attribute of the index.
    pub pk: TableAttr,
    /// Optional sort key attribute of the index.
    pub sk: Option<TableAttr>,
    /// Non-key attributes projected into the index.
    pub attrs: Vec<String>,
    /// Optional provisioned throughput for the index.
    pub throughput: Option<Throughput>,
}

/// Ghost model of a [`TableGsi`].
#[verifier::ext_equal]
pub ghost struct TableGsiView {
    pub name: Seq<char>,
    pub pk: TableAttrView,
    pub sk: Option<TableAttrView>,
    pub attrs: Seq<Seq<char>>,
    pub throughput: Option<Throughput>,
}

impl View for TableGsi {
    type V = TableGsiView;

    open spec fn view(&self) -> TableGsiView {
        TableGsiView {
            name: self.name@,
            pk: self.pk@,
            sk: self.sk.deep_view(),
            attrs: self.attrs.deep_view(),
            throughput: self.throughput.deep_view(),
        }
    }
}

impl DeepView for TableGsi {
    type V = TableGsiView;

    open spec fn deep_view(&self) -> TableGsiView {
        self@
    }
}

/// A local secondary index definition.
#[derive(Clone, Debug)]
pub struct TableLsi {
    /// The name of the index.
    pub name: String,
    /// The partition key attribute (the same as the table's).
    pub pk: TableAttr,
    /// The sort key attribute of the index.
    pub sk: TableAttr,
    /// Non-key attributes projected into the index.
    pub attrs: Vec<String>,
}

/// Ghost model of a [`TableLsi`].
#[verifier::ext_equal]
pub ghost struct TableLsiView {
    pub name: Seq<char>,
    pub pk: TableAttrView,
    pub sk: TableAttrView,
    pub attrs: Seq<Seq<char>>,
}

impl View for TableLsi {
    type V = TableLsiView;

    open spec fn view(&self) -> TableLsiView {
        TableLsiView {
            name: self.name@,
            pk: self.pk@,
            sk: self.sk@,
            attrs: self.attrs.deep_view(),
        }
    }
}

impl DeepView for TableLsi {
    type V = TableLsiView;

    open spec fn deep_view(&self) -> TableLsiView {
        self@
    }
}

/// The schema of a single table: keys, extra attributes, indexes,
/// billing, and an optional seed-data source.
#[derive(Clone, Debug)]
pub struct TableInfo {
    /// The base name of the table; a unique suffix is appended on creation.
    pub table_name: String,
    /// The primary partition key attribute.
    pub pk: TableAttr,
    /// Optional primary sort key attribute.
    pub sk: Option<TableAttr>,
    /// Additional attribute definitions beyond the key attributes.
    pub attrs: Vec<TableAttr>,
    /// Global secondary index definitions.
    pub gsis: Vec<TableGsi>,
    /// Local secondary index definitions.
    pub lsis: Vec<TableLsi>,
    /// Optional provisioned throughput; pay-per-request billing when absent.
    pub throughput: Option<Throughput>,
    /// Optional path to a JSON file with items to seed after creation.
    pub seed_data_file: Option<String>,
}

/// Ghost model of a [`TableInfo`].
#[verifier::ext_equal]
pub ghost struct TableInfoView {
    pub table_name: Seq<char>,
    pub pk: TableAttrView,
    pub sk: Option<TableAttrView>,
    pub attrs: Seq<TableAttrView>,
    pub gsis: Seq<TableGsiView>,
    pub lsis: Seq<TableLsiView>,
    pub throughput: Option<Throughput>,
    pub seed_data_file: Option<Seq<char>>,
}

impl View for TableInfo {
    type V = TableInfoView;

    open spec fn view(&self) -> TableInfoView {
        TableInfoView {
            table_name: self.table_name@,
            pk: self.pk@,
            sk: self.sk.deep_view(),
            attrs: self.attrs.deep_view(),
            gsis: self.gsis.deep_view(),
            lsis: self.lsis.deep_view(),
            throughput: self.throughput.deep_view(),
            seed_data_file: self.seed_data_file.deep_view(),
        }
    }
}

impl DeepView for TableInfo {
    type V = TableInfoView;

    open spec fn deep_view(&self) -> TableInfoView {
        self@
    }
}

/// The whole configuration: where to connect, whether created tables are
/// deleted on drop, and the table schemas to manage.
#[derive(Clone, Debug)]
pub struct TableConfig {
    /// AWS region to target.
    pub region: String,
    /// Optional local endpoint URL; when set, the connector targets it
    /// with test credentials.
    pub endpoint: Option<String>,
    /// Whether tables created against a local endpoint are deleted when
    /// the connector is dropped.
    pub delete_on_exit: bool,
    /// The table schemas to be managed by the connector.
    pub tables: Vec<TableInfo>,
}

/// Ghost model of a [`TableConfig`].
#[verifier::ext_equal]
pub ghost struct TableConfigView {
    pub region: Seq<char>,
    pub endpoint: Option<Seq<char>>,
    pub delete_on_exit: bool,
    pub tables: Seq<TableInfoView>,
}

impl View for TableConfig {
    type V = TableConfigView;

    open spec fn view(&self) -> TableConfigView {
        TableConfigView {
            region: self.region@,
            endpoint: self.endpoint.deep_view(),
            delete_on_exit: self.delete_on_exit,
            tables: self.tables.deep_view(),
        }
    }
}

impl DeepView for TableConfig {
    type V = TableConfigView;

    open spec fn deep_view(&self) -> TableConfigView {
        self@
    }
}

/// The region used when a configuration names none.
pub fn default_aws_region() -> (r: String)
    ensures
        r@ == "us-east-1"@,
{
    "us-east-1".to_owned()
}

impl TableConfig {
    /// Builds a configuration from its parts. Deleting tables on exit is
    /// only honoured against an explicit (local) endpoint: without one,
    /// `delete_on_exit` is forced to `false`.
    pub fn new(
        region: String,
        endpoint: Option<String>,
        delete_on_exit: bool,
        tables: Vec<TableInfo>,
    ) -> (r: TableConfig)
        ensures
            r@.region == region@,
            r@.endpoint == endpoint.deep_view(),
            r@.tables == tables.deep_view(),
            r@.delete_on_exit == (endpoint is Some && delete_on_exit),
    {
        let delete_on_exit = if endpoint.is_some() {
            delete_on_exit
        } else {
            false
        };

        TableConfig { region, endpoint, delete_on_exit, tables }
    }
}

} // verus!
