//! The provisioning run: every configured table is planned under a fresh
//! unique name, and the created names are recorded so they can be looked up
//! by base name and, when deletion on exit is configured, deleted again.

use vstd::prelude::*;

use crate::config::TableConfig;
use crate::plan::CreateTablePlan;
use crate::plan::CreateTablePlanView;
use crate::plan::spec_create_plan;

verus! {

/// Whether `c` is a digit or one of the letters `a` through `v`: the
/// base32hex alphabet that generated ids are rendered in.
pub open spec fn is_id_char(c: char) -> bool {
    ('0' <= c && c <= '9') || ('a' <= c && c <= 'v')
}

/// Relies on xid::new and the Display impl of xid::Id: a generated id
/// renders as exactly 20 characters drawn from `0-9a-v`.
#[verifier::external_body]
fn fresh_id() -> (r: String)
    ensures
        r@.len() == 20,
        forall|i: int| 0 <= i < r@.len() ==> is_id_char(#[trigger] r@[i]),
{
    xid::new().to_string()
}

/// Relies on str's PartialEq: two string slices are equal exactly when
/// their character sequences are.
#[verifier::external_body]
fn str_equal(a: &str, b: &str) -> (r: bool)
    ensures
        r == (a@ == b@),
{
    a == b
}

/// Whether `unique` is a run-unique table name derived from `base`: the
/// base name, one dash, and 20 id characters.
pub open spec fn is_unique_name_for(unique: Seq<char>, base: Seq<char>) -> bool {
    &&& unique.len() == base.len() + 21
    &&& unique.subrange(0, base.len() as int) == base
    &&& unique[base.len() as int] == '-'
    &&& forall|i: int| base.len() + 1 <= i < unique.len() ==> is_id_char(#[trigger] unique[i])
}

/// Derives the name a table is created under in this run: the base name,
/// a dash, and a freshly generated id.
fn unique_table_name(base: &String) -> (r: String)
    ensures
        is_unique_name_for(r@, base@),
{
    let id = fresh_id();
    let mut r = base.clone();
    r.append("-");
    r.append(id.as_str());
    proof {
        reveal_strlit("-");
        assert(r@ =~= base@ + "-"@ + id@);
        assert(r@.subrange(0, base@.len() as int) =~= base@);
        assert(r@[base@.len() as int] == '-');
        assert forall|i: int| base@.len() + 1 <= i < r@.len() implies is_id_char(
            #[trigger] r@[i],
        ) by {
            assert(r@[i] == id@[i - base@.len() - 1]);
        }
    }
    r
}

/// One table of the run: the base name the schema gave, the unique name it
/// is created under, and the creation plan carrying that unique name.
#[derive(Debug)]
pub struct ProvisionedTable {
    /// The base name from the table's schema.
    pub base_name: String,
    /// The run-unique name the table is created under.
    pub unique_name: String,
    /// The creation plan, named by `unique_name`.
    pub plan: CreateTablePlan,
}

/// Ghost model of a [`ProvisionedTable`].
#[verifier::ext_equal]
pub ghost struct ProvisionedTableView {
    pub base_name: Seq<char>,
    pub unique_name: Seq<char>,
    pub plan: CreateTablePlanView,
}

impl View for ProvisionedTable {
    type V = ProvisionedTableView;

    open spec fn view(&self) -> ProvisionedTableView {
        ProvisionedTableView {
            base_name: self.base_name@,
            unique_name: self.unique_name@,
            plan: self.plan@,
        }
    }
}

impl DeepView for ProvisionedTable {
    type V = ProvisionedTableView;

    open spec fn deep_view(&self) -> ProvisionedTableView {
        self@
    }
}

/// The given plan under another table name.
pub open spec fn with_table_name(p: CreateTablePlanView, name: Seq<char>) -> CreateTablePlanView {
    CreateTablePlanView {
        table_name: name,
        key_schema: p.key_schema,
        attribute_definitions: p.attribute_definitions,
        global_secondary_indexes: p.global_secondary_indexes,
        local_secondary_indexes: p.local_secondary_indexes,
        billing: p.billing,
    }
}

/// The unique name recorded for the first table whose base name is `base`.
pub open spec fn lookup_unique(
    tables: Seq<ProvisionedTableView>,
    base: Seq<char>,
) -> Option<Seq<char>>
    decreases tables.len(),
{
    if tables.len() == 0 {
        None
    } else if tables[0].base_name == base {
        Some(tables[0].unique_name)
    } else {
        lookup_unique(tables.drop_first(), base)
    }
}

/// The unique names of all tables of the run, in order.
pub open spec fn unique_names(tables: Seq<ProvisionedTableView>) -> Seq<Seq<char>>
    decreases tables.len(),
{
    if tables.len() == 0 {
        Seq::<Seq<char>>::empty()
    } else {
        unique_names(tables.drop_last()).push(tables.last().unique_name)
    }
}

/// Law: the run's name list has one entry per table, in order — the name
/// at a position is that table's unique name.
pub proof fn lemma_unique_names(tables: Seq<ProvisionedTableView>)
    ensures
        unique_names(tables).len() == tables.len(),
        forall|i: int|
            0 <= i < tables.len() ==> unique_names(tables)[i] == tables[i].unique_name,
    decreases tables.len(),
{
    if tables.len() == 0 {
    } else {
        lemma_unique_names(tables.drop_last());
        assert(forall|i: int|
            0 <= i < tables.len() - 1 ==> tables.drop_last()[i] == tables[i]);
    }
}

proof fn lemma_lookup_unique_found(tables: Seq<ProvisionedTableView>, base: Seq<char>, i: int)
    requires
        0 <= i < tables.len(),
        tables[i].base_name == base,
        forall|k: int| 0 <= k < i ==> tables[k].base_name != base,
    ensures
        lookup_unique(tables, base) == Some(tables[i].unique_name),
    decreases i,
{
    if i == 0 {
    } else {
        assert(tables.drop_first()[i - 1] == tables[i]);
        assert(forall|k: int| 0 <= k < i - 1 ==> tables.drop_first()[k] == tables[k + 1]);
        lemma_lookup_unique_found(tables.drop_first(), base, i - 1);
    }
}

proof fn lemma_lookup_unique_missing(tables: Seq<ProvisionedTableView>, base: Seq<char>)
    requires
        forall|k: int| 0 <= k < tables.len() ==> tables[k].base_name != base,
    ensures
        lookup_unique(tables, base) is None,
    decreases tables.len(),
{
    if tables.len() == 0 {
    } else {
        assert(forall|k: int|
            0 <= k < tables.drop_first().len() ==> tables.drop_first()[k] == tables[k + 1]);
        lemma_lookup_unique_missing(tables.drop_first(), base);
    }
}

/// The decisions of a provisioning run: where to connect, which tables to
/// create and under which unique names, and whether to delete them again
/// when the run is over.
#[derive(Debug)]
pub struct ConnectorPlan {
    /// AWS region to target.
    pub region: String,
    /// Optional local endpoint URL.
    pub endpoint: Option<String>,
    /// Whether the created tables are deleted when the connector is dropped.
    pub delete_on_exit: bool,
    /// The tables of the run, in configuration order.
    pub tables: Vec<ProvisionedTable>,
}

/// Ghost model of a [`ConnectorPlan`].
#[verifier::ext_equal]
pub ghost struct ConnectorPlanView {
    pub region: Seq<char>,
    pub endpoint: Option<Seq<char>>,
    pub delete_on_exit: bool,
    pub tables: Seq<ProvisionedTableView>,
}

impl View for ConnectorPlan {
    type V = ConnectorPlanView;

    open spec fn view(&self) -> ConnectorPlanView {
        ConnectorPlanView {
            region: self.region@,
            endpoint: self.endpoint.deep_view(),
            delete_on_exit: self.delete_on_exit,
            tables: self.tables.deep_view(),
        }
    }
}

impl ConnectorPlan {
    /// Lays out the provisioning run for a configuration: one creation plan
    /// per configured table, each under a fresh unique name derived from
    /// its base name; deletion on exit is honoured only when an endpoint
    /// is configured.
    pub fn prepare(config: &TableConfig) -> (r: ConnectorPlan)
        ensures
            r@.region == config@.region,
            r@.endpoint == config@.endpoint,
            r@.delete_on_exit == (config@.endpoint is Some && config@.delete_on_exit),
            r@.tables.len() == config@.tables.len(),
            forall|i: int|
                0 <= i < r@.tables.len() ==> {
                    let t = #[trigger] r@.tables[i];
                    &&& t.base_name == config@.tables[i].table_name
                    &&& is_unique_name_for(t.unique_name, t.base_name)
                    &&& t.plan == with_table_name(
                        spec_create_plan(config@.tables[i]),
                        t.unique_name,
                    )
                },
    {
        let delete_on_exit = if config.endpoint.is_some() {
            config.delete_on_exit
        } else {
            false
        };

        let mut tables: Vec<ProvisionedTable> = Vec::new();
        let mut i: usize = 0;
        while i < config.tables.len()
            invariant
                i <= config.tables.len(),
                tables.deep_view().len() == i,
                forall|k: int|
                    0 <= k < i ==> {
                        let t = #[trigger] tables.deep_view()[k];
                        &&& t.base_name == config@.tables[k].table_name
                        &&& is_unique_name_for(t.unique_name, t.base_name)
                        &&& t.plan == with_table_name(
                            spec_create_plan(config@.tables[k]),
                            t.unique_name,
                        )
                    },
            decreases config.tables.len() - i,
        {
            let info = &config.tables[i];
            assert(info@ == config@.tables[i as int]);
            let unique_name = unique_table_name(&info.table_name);
            let mut plan = info.to_create_plan();
            plan.table_name = unique_name.clone();
            assert(plan@ =~= with_table_name(spec_create_plan(info@), unique_name@));
            let entry = ProvisionedTable {
                base_name: info.table_name.clone(),
                unique_name,
                plan,
            };
            let ghost pre = tables.deep_view();
            tables.push(entry);
            assert(tables.deep_view().len() == pre.len() + 1);
            assert(forall|k: int| 0 <= k < pre.len() ==> tables.deep_view()[k] == pre[k]);
            assert(tables.deep_view()[pre.len() as int] == entry@);
            assert forall|k: int|
                0 <= k < i + 1 implies {
                let t = #[trigger] tables.deep_view()[k];
                &&& t.base_name == config@.tables[k].table_name
                &&& is_unique_name_for(t.unique_name, t.base_name)
                &&& t.plan == with_table_name(spec_create_plan(config@.tables[k]), t.unique_name)
            } by {
                if k < i {
                    assert(tables.deep_view()[k] == pre[k]);
                } else {
                    assert(tables.deep_view()[k] == entry@);
                }
            }
            i = i + 1;
        }

        ConnectorPlan {
            region: config.region.clone(),
            endpoint: match &config.endpoint {
                Some(e) => Some(e.clone()),
                None => None,
            },
            delete_on_exit,
            tables,
        }
    }

    /// Whether the created tables are deleted when the run is over.
    pub fn delete_on_exit(&self) -> (r: bool)
        ensures
            r == self@.delete_on_exit,
    {
        self.delete_on_exit
    }

    /// The unique name the first table with base name `base` was planned
    /// under, or `None` when no configured table has that base name.
    pub fn get_created_table_name(&self, base: &str) -> (r: Option<&String>)
        ensures
            match r {
                Some(name) => lookup_unique(self@.tables, base@) == Some(name@),
                None => lookup_unique(self@.tables, base@) is None,
            },
    {
        let mut i: usize = 0;
        while i < self.tables.len()
            invariant
                i <= self.tables.len(),
                forall|k: int| 0 <= k < i ==> self@.tables[k].base_name != base@,
            decreases self.tables.len() - i,
        {
            if str_equal(self.tables[i].base_name.as_str(), base) {
                proof {
                    lemma_lookup_unique_found(self@.tables, base@, i as int);
                }
                return Some(&self.tables[i].unique_name);
            }
            i = i + 1;
        }
        proof {
            lemma_lookup_unique_missing(self@.tables, base@);
        }
        None
    }

    /// The unique names of all tables of the run, in configuration order.
    pub fn get_all_created_table_names(&self) -> (r: Vec<String>)
        ensures
            r.deep_view() == unique_names(self@.tables),
    {
        let mut out: Vec<String> = Vec::new();
        let mut i: usize = 0;
        while i < self.tables.len()
            invariant
                i <= self.tables.len(),
                out.deep_view() == unique_names(self@.tables.take(i as int)),
            decreases self.tables.len() - i,
        {
            let name = self.tables[i].unique_name.clone();
            assert(name@ == self@.tables[i as int].unique_name);
            let ghost pre = out.deep_view();
            out.push(name);
            proof {
                assert(self@.tables.take(i as int + 1).drop_last() =~= self@.tables.take(i as int));
                assert(self@.tables.take(i as int + 1).last() == self@.tables[i as int]);
                assert(out.deep_view() =~= pre.push(self@.tables[i as int].unique_name));
            }
            i = i + 1;
        }
        proof {
            assert(self@.tables.take(self.tables.len() as int) =~= self@.tables);
        }
        out
    }

    /// The names the run must delete when it is dropped: every created
    /// table when deletion on exit is configured, and none otherwise.
    pub fn names_to_delete(&self) -> (r: Vec<String>)
        ensures
            self@.delete_on_exit ==> r.deep_view() == unique_names(self@.tables),
            !self@.delete_on_exit ==> r.deep_view() == Seq::<Seq<char>>::empty(),
    {
        if self.delete_on_exit {
            self.get_all_created_table_names()
        } else {
            let r: Vec<String> = Vec::new();
            assert(r.deep_view() =~= Seq::<Seq<char>>::empty());
            r
        }
    }
}

} // verus!
