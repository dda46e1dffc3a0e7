//! Translation of a declarative table schema into a table-creation plan:
//! the exact request data (key schema, attribute definitions, indexes and
//! billing) that a CreateTable call is made from.

use vstd::pervasive::VecAdditionalExecFns;
use vstd::prelude::*;

use crate::config::TableAttr;
use crate::config::TableAttrView;
use crate::config::TableGsi;
use crate::config::TableGsiView;
use crate::config::TableInfo;
use crate::config::TableInfoView;
use crate::config::TableLsi;
use crate::config::TableLsiView;
use crate::config::Throughput;

verus! {

/// Whether a key-schema entry is the partition (hash) or the sort (range) key.
#[derive(Clone, Copy, Debug, PartialEq, Eq, Structural)]
pub enum KeyKind {
    /// The partition key of a table or index.
    Hash,
    /// The sort key of a table or index.
    Range,
}

/// One entry of a key schema: an attribute name and its key role.
#[derive(Clone, Debug)]
pub struct KeySchemaEntry {
    /// The name of the key attribute.
    pub attr_name: String,
    /// The role of the attribute in the key.
    pub kind: KeyKind,
}

/// Ghost model of a [`KeySchemaEntry`].
#[verifier::ext_equal]
pub ghost struct KeySchemaEntryView {
    pub attr_name: Seq<char>,
    pub kind: KeyKind,
}

impl View for KeySchemaEntry {
    type V = KeySchemaEntryView;

    open spec fn view(&self) -> KeySchemaEntryView {
        KeySchemaEntryView { attr_name: self.attr_name@, kind: self.kind }
    }
}

impl DeepView for KeySchemaEntry {
    type V = KeySchemaEntryView;

    open spec fn deep_view(&self) -> KeySchemaEntryView {
        self@
    }
}

/// How non-key attributes are projected into an index.
#[derive(Clone, Debug)]
pub enum ProjectionPlan {
    /// Project every attribute.
    All,
    /// Project only the named attributes besides the keys.
    Include(Vec<String>),
}

/// Ghost model of a [`ProjectionPlan`].
#[verifier::ext_equal]
pub ghost enum ProjectionPlanView {
    All,
    Include(Seq<Seq<char>>),
}

impl View for ProjectionPlan {
    type V = ProjectionPlanView;

    open spec fn view(&self) -> ProjectionPlanView {
        match self {
            ProjectionPlan::All => ProjectionPlanView::All,
            ProjectionPlan::Include(names) => ProjectionPlanView::Include(names.deep_view()),
        }
    }
}

impl DeepView for ProjectionPlan {
    type V = ProjectionPlanView;

    open spec fn deep_view(&self) -> ProjectionPlanView {
        self@
    }
}

/// How the table is billed: on demand, or by provisioned capacity.
#[derive(Clone, Copy, Debug, PartialEq, Eq, Structural)]
pub enum BillingPlan {
    /// Pay-per-request (on-demand) billing.
    PayPerRequest,
    /// Provisioned read and write capacity.
    Provisioned(Throughput),
}

/// The plan for one global secondary index.
#[derive(Clone, Debug)]
pub struct GsiPlan {
    /// The name of the index.
    pub index_name: String,
    /// The key schema of the index.
    pub key_schema: Vec<KeySchemaEntry>,
    /// The projection of the index.
    pub projection: ProjectionPlan,
    /// Optional provisioned throughput of the index.
    pub throughput: Option<Throughput>,
}

/// Ghost model of a [`GsiPlan`].
#[verifier::ext_equal]
pub ghost struct GsiPlanView {
    pub index_name: Seq<char>,
    pub key_schema: Seq<KeySchemaEntryView>,
    pub projection: ProjectionPlanView,
    pub throughput: Option<Throughput>,
}

impl View for GsiPlan {
    type V = GsiPlanView;

    open spec fn view(&self) -> GsiPlanView {
        GsiPlanView {
            index_name: self.index_name@,
            key_schema: self.key_schema.deep_view(),
            projection: self.projection@,
            throughput: self.throughput.deep_view(),
        }
    }
}

impl DeepView for GsiPlan {
    type V = GsiPlanView;

    open spec fn deep_view(&self) -> GsiPlanView {
        self@
    }
}

/// The plan for one local secondary index.
#[derive(Clone, Debug)]
pub struct LsiPlan {
    /// The name of the index.
    pub index_name: String,
    /// The key schema of the index.
    pub key_schema: Vec<KeySchemaEntry>,
    /// The projection of the index.
    pub projection: ProjectionPlan,
}

/// Ghost model of an [`LsiPlan`].
#[verifier::ext_equal]
pub ghost struct LsiPlanView {
    pub index_name: Seq<char>,
    pub key_schema: Seq<KeySchemaEntryView>,
    pub projection: ProjectionPlanView,
}

impl View for LsiPlan {
    type V = LsiPlanView;

    open spec fn view(&self) -> LsiPlanView {
        LsiPlanView {
            index_name: self.index_name@,
            key_schema: self.key_schema.deep_view(),
            projection: self.projection@,
        }
    }
}

impl DeepView for LsiPlan {
    type V = LsiPlanView;

    open spec fn deep_view(&self) -> LsiPlanView {
        self@
    }
}

/// Everything a CreateTable request is built from.
#[derive(Clone, Debug)]
pub struct CreateTablePlan {
    /// The name the table is created under.
    pub table_name: String,
    /// The key schema of the table.
    pub key_schema: Vec<KeySchemaEntry>,
    /// One definition per distinct key attribute of the table and its indexes.
    pub attribute_definitions: Vec<TableAttr>,
    /// Plans for the global secondary indexes.
    pub global_secondary_indexes: Vec<GsiPlan>,
    /// Plans for the local secondary indexes.
    pub local_secondary_indexes: Vec<LsiPlan>,
    /// How the table is billed.
    pub billing: BillingPlan,
}

/// Ghost model of a [`CreateTablePlan`].
#[verifier::ext_equal]
pub ghost struct CreateTablePlanView {
    pub table_name: Seq<char>,
    pub key_schema: Seq<KeySchemaEntryView>,
    pub attribute_definitions: Seq<TableAttrView>,
    pub global_secondary_indexes: Seq<GsiPlanView>,
    pub local_secondary_indexes: Seq<LsiPlanView>,
    pub billing: BillingPlan,
}

impl View for CreateTablePlan {
    type V = CreateTablePlanView;

    open spec fn view(&self) -> CreateTablePlanView {
        CreateTablePlanView {
            table_name: self.table_name@,
            key_schema: self.key_schema.deep_view(),
            attribute_definitions: self.attribute_definitions.deep_view(),
            global_secondary_indexes: self.global_secondary_indexes.deep_view(),
            local_secondary_indexes: self.local_secondary_indexes.deep_view(),
            billing: self.billing,
        }
    }
}

impl DeepView for CreateTablePlan {
    type V = CreateTablePlanView;

    open spec fn deep_view(&self) -> CreateTablePlanView {
        self@
    }
}

/// The key-schema entry that makes `a` a partition key.
pub open spec fn spec_pk_entry(a: TableAttrView) -> KeySchemaEntryView {
    KeySchemaEntryView { attr_name: a.name, kind: KeyKind::Hash }
}

/// The key-schema entry that makes `a` a sort key.
pub open spec fn spec_sk_entry(a: TableAttrView) -> KeySchemaEntryView {
    KeySchemaEntryView { attr_name: a.name, kind: KeyKind::Range }
}

/// The key schema of a partition key and an optional sort key.
pub open spec fn spec_key_schema(
    pk: TableAttrView,
    sk: Option<TableAttrView>,
) -> Seq<KeySchemaEntryView> {
    match sk {
        Some(s) => seq![spec_pk_entry(pk), spec_sk_entry(s)],
        None => seq![spec_pk_entry(pk)],
    }
}

/// The plan a global secondary index translates to: its keys, a projection
/// of exactly the named non-key attributes, and its throughput unchanged.
pub open spec fn spec_gsi_plan(g: TableGsiView) -> GsiPlanView {
    GsiPlanView {
        index_name: g.name,
        key_schema: spec_key_schema(g.pk, g.sk),
        projection: ProjectionPlanView::Include(g.attrs),
        throughput: g.throughput,
    }
}

/// The plan a local secondary index translates to: its keys, and a
/// projection of every attribute when no non-key attribute is named,
/// else of exactly the named ones.
pub open spec fn spec_lsi_plan(l: TableLsiView) -> LsiPlanView {
    LsiPlanView {
        index_name: l.name,
        key_schema: seq![spec_pk_entry(l.pk), spec_sk_entry(l.sk)],
        projection: if l.attrs.len() == 0 {
            ProjectionPlanView::All
        } else {
            ProjectionPlanView::Include(l.attrs)
        },
    }
}

impl TableAttr {
    /// This attribute as the partition key of a key schema.
    pub fn to_pk(&self) -> (r: KeySchemaEntry)
        ensures
            r@ == spec_pk_entry(self@),
    {
        KeySchemaEntry { attr_name: self.name.clone(), kind: KeyKind::Hash }
    }

    /// This attribute as the sort key of a key schema.
    pub fn to_sk(&self) -> (r: KeySchemaEntry)
        ensures
            r@ == spec_sk_entry(self@),
    {
        KeySchemaEntry { attr_name: self.name.clone(), kind: KeyKind::Range }
    }
}

/// Returns a copy of a list of names.
fn clone_names(v: &Vec<String>) -> (r: Vec<String>)
    ensures
        r.deep_view() == v.deep_view(),
{
    let mut out: Vec<String> = Vec::new();
    let mut i: usize = 0;
    while i < v.len()
        invariant
            i <= v.len(),
            out.deep_view() =~= v.deep_view().take(i as int),
        decreases v.len() - i,
    {
        let s = v[i].clone();
        let ghost pre = out.deep_view();
        out.push(s);
        assert(forall|k: int| 0 <= k < pre.len() ==> out.deep_view()[k] == pre[k]);
        assert(out.deep_view()[pre.len() as int] == s@);
        assert(out.deep_view() =~= v.deep_view().take(i as int + 1));
        i = i + 1;
    }
    assert(out.deep_view() =~= v.deep_view());
    out
}

/// The key schema of a partition key and an optional sort key.
fn build_key_schema(pk: &TableAttr, sk: &Option<TableAttr>) -> (r: Vec<KeySchemaEntry>)
    ensures
        r.deep_view() == spec_key_schema(pk@, sk.deep_view()),
{
    let mut ks: Vec<KeySchemaEntry> = Vec::new();
    ks.push(pk.to_pk());
    match sk {
        Some(s) => {
            ks.push(s.to_sk());
            assert(ks.deep_view() =~= spec_key_schema(pk@, sk.deep_view()));
        },
        None => {
            assert(ks.deep_view() =~= spec_key_schema(pk@, sk.deep_view()));
        },
    }
    ks
}

impl TableGsi {
    /// Translates this global secondary index into its plan.
    pub fn to_plan(&self) -> (r: GsiPlan)
        ensures
            r@ == spec_gsi_plan(self@),
    {
        let r = GsiPlan {
            index_name: self.name.clone(),
            key_schema: build_key_schema(&self.pk, &self.sk),
            projection: ProjectionPlan::Include(clone_names(&self.attrs)),
            throughput: self.throughput,
        };
        assert(r@ =~= spec_gsi_plan(self@));
        r
    }
}

impl TableLsi {
    /// Translates this local secondary index into its plan.
    pub fn to_plan(&self) -> (r: LsiPlan)
        ensures
            r@ == spec_lsi_plan(self@),
    {
        let mut ks: Vec<KeySchemaEntry> = Vec::new();
        ks.push(self.pk.to_pk());
        ks.push(self.sk.to_sk());
        let projection = if self.attrs.len() == 0 {
            ProjectionPlan::All
        } else {
            ProjectionPlan::Include(clone_names(&self.attrs))
        };
        let r = LsiPlan { index_name: self.name.clone(), key_schema: ks, projection };
        assert(r@.key_schema =~= spec_lsi_plan(self@).key_schema);
        assert(r@ =~= spec_lsi_plan(self@));
        r
    }
}

/// Whether some attribute in `s` has the name `name`.
pub open spec fn has_attr_name(s: Seq<TableAttrView>, name: Seq<char>) -> bool {
    exists|i: int| 0 <= i < s.len() && s[i].name == name
}

/// The least index of an attribute named `name` in `s`.
pub open spec fn index_of_attr_name(s: Seq<TableAttrView>, name: Seq<char>) -> int
    decreases s.len(),
{
    if s.len() == 0 {
        0
    } else if s[0].name == name {
        0
    } else {
        1 + index_of_attr_name(s.drop_first(), name)
    }
}

/// Binds `a` in `s`: replaces the entry that carries `a`'s name if one is
/// there, else appends `a`.
pub open spec fn upsert_attr(s: Seq<TableAttrView>, a: TableAttrView) -> Seq<TableAttrView> {
    if has_attr_name(s, a.name) {
        s.update(index_of_attr_name(s, a.name), a)
    } else {
        s.push(a)
    }
}

/// Folds a sequence of key attributes into one definition per name: names
/// appear in order of first occurrence, and each definition is the last
/// binding of its name.
pub open spec fn dedup_attrs(s: Seq<TableAttrView>) -> Seq<TableAttrView>
    decreases s.len(),
{
    if s.len() == 0 {
        Seq::<TableAttrView>::empty()
    } else {
        upsert_attr(dedup_attrs(s.drop_last()), s.last())
    }
}

proof fn lemma_index_of_first(s: Seq<TableAttrView>, name: Seq<char>, i: int)
    requires
        0 <= i < s.len(),
        s[i].name == name,
        forall|k: int| 0 <= k < i ==> s[k].name != name,
    ensures
        index_of_attr_name(s, name) == i,
    decreases i,
{
    if i == 0 {
    } else {
        assert(forall|k: int| 0 <= k < i - 1 ==> s.drop_first()[k].name != name);
        assert(s.drop_first()[i - 1].name == name);
        lemma_index_of_first(s.drop_first(), name, i - 1);
    }
}

proof fn lemma_dedup_attrs_push(s: Seq<TableAttrView>, a: TableAttrView)
    ensures
        dedup_attrs(s.push(a)) == upsert_attr(dedup_attrs(s), a),
{
    assert(s.push(a).drop_last() =~= s);
    assert(s.push(a).last() == a);
}

/// Binds `a` into the collected definitions: the definition of the same
/// name is replaced when one is there, else a copy of `a` is appended.
fn upsert_key_attr(out: &mut Vec<TableAttr>, a: &TableAttr)
    ensures
        final (out).deep_view() == upsert_attr(old(out).deep_view(), a@),
{
    let mut j: usize = 0;
    while j < out.len()
        invariant
            j <= out.len(),
            out == old(out),
            forall|k: int| 0 <= k < j ==> out.deep_view()[k].name != a@.name,
        decreases out.len() - j,
    {
        if out[j].name == a.name {
            let ghost pre = out.deep_view();
            proof {
                assert(pre[j as int].name == a@.name);
                assert(has_attr_name(pre, a@.name));
                lemma_index_of_first(pre, a@.name, j as int);
            }
            out.set(j, a.duplicate());
            assert(out.deep_view() =~= pre.update(j as int, a@));
            assert(out.deep_view() == upsert_attr(pre, a@));
            return ;
        }
        j = j + 1;
    }
    assert(!has_attr_name(out.deep_view(), a@.name));
    let ghost pre = out.deep_view();
    out.push(a.duplicate());
    assert(out.deep_view() =~= pre.push(a@));
}

/// The key attributes of the table itself: its partition key, then its
/// sort key when one is set.
pub open spec fn table_key_attrs(info: TableInfoView) -> Seq<TableAttrView> {
    match info.sk {
        Some(s) => seq![info.pk, s],
        None => seq![info.pk],
    }
}

/// The key attributes a global secondary index contributes: its partition
/// key, then its sort key when one is set.
pub open spec fn gsi_key_attrs(g: TableGsiView) -> Seq<TableAttrView> {
    match g.sk {
        Some(s) => seq![g.pk, s],
        None => seq![g.pk],
    }
}

/// The key attributes all global secondary indexes contribute, in order.
pub open spec fn gsis_key_attrs(gs: Seq<TableGsiView>) -> Seq<TableAttrView>
    decreases gs.len(),
{
    if gs.len() == 0 {
        Seq::<TableAttrView>::empty()
    } else {
        gsis_key_attrs(gs.drop_last()) + gsi_key_attrs(gs.last())
    }
}

/// The key attributes all local secondary indexes contribute: each one's
/// sort key (their partition key is the table's own, already counted).
pub open spec fn lsis_key_attrs(ls: Seq<TableLsiView>) -> Seq<TableAttrView>
    decreases ls.len(),
{
    if ls.len() == 0 {
        Seq::<TableAttrView>::empty()
    } else {
        lsis_key_attrs(ls.drop_last()).push(ls.last().sk)
    }
}

/// Every key attribute the table and its indexes name, in the order the
/// schema binds them: table keys, then each global index's keys, then each
/// local index's sort key.
pub open spec fn key_attr_seq(info: TableInfoView) -> Seq<TableAttrView> {
    table_key_attrs(info) + gsis_key_attrs(info.gsis) + lsis_key_attrs(info.lsis)
}

/// Gathers one attribute definition per distinct key-attribute name of the
/// table and its indexes; a later binding of a name replaces an earlier one.
pub fn collect_key_attrs(info: &TableInfo) -> (r: Vec<TableAttr>)
    ensures
        r.deep_view() == dedup_attrs(key_attr_seq(info@)),
{
    let mut out: Vec<TableAttr> = Vec::new();
    let ghost mut processed = Seq::<TableAttrView>::empty();

    assert(out.deep_view() =~= dedup_attrs(processed));

    upsert_key_attr(&mut out, &info.pk);
    proof {
        lemma_dedup_attrs_push(processed, info.pk@);
        processed = processed.push(info.pk@);
    }
    match &info.sk {
        Some(s) => {
            upsert_key_attr(&mut out, s);
            proof {
                lemma_dedup_attrs_push(processed, s@);
                processed = processed.push(s@);
            }
        },
        None => {},
    }
    assert(processed =~= table_key_attrs(info@));

    let mut i: usize = 0;
    while i < info.gsis.len()
        invariant
            i <= info.gsis.len(),
            out.deep_view() == dedup_attrs(processed),
            processed == table_key_attrs(info@) + gsis_key_attrs(info@.gsis.take(i as int)),
        decreases info.gsis.len() - i,
    {
        let g = &info.gsis[i];
        assert(g@ == info@.gsis[i as int]);
        upsert_key_attr(&mut out, &g.pk);
        proof {
            lemma_dedup_attrs_push(processed, g.pk@);
            processed = processed.push(g.pk@);
        }
        match &g.sk {
            Some(s) => {
                upsert_key_attr(&mut out, s);
                proof {
                    lemma_dedup_attrs_push(processed, s@);
                    processed = processed.push(s@);
                }
            },
            None => {},
        }
        proof {
            assert(info@.gsis.take(i as int + 1).drop_last() =~= info@.gsis.take(i as int));
            assert(info@.gsis.take(i as int + 1).last() == info@.gsis[i as int]);
            assert(gsis_key_attrs(info@.gsis.take(i as int + 1)) == gsis_key_attrs(
                info@.gsis.take(i as int),
            ) + gsi_key_attrs(info@.gsis[i as int]));
            assert(processed =~= table_key_attrs(info@) + gsis_key_attrs(
                info@.gsis.take(i as int + 1),
            ));
        }
        i = i + 1;
    }
    proof {
        assert(info@.gsis.take(info.gsis.len() as int) =~= info@.gsis);
    }

    let mut l: usize = 0;
    while l < info.lsis.len()
        invariant
            l <= info.lsis.len(),
            out.deep_view() == dedup_attrs(processed),
            processed == table_key_attrs(info@) + gsis_key_attrs(info@.gsis) + lsis_key_attrs(
                info@.lsis.take(l as int),
            ),
        decreases info.lsis.len() - l,
    {
        let li = &info.lsis[l];
        assert(li@ == info@.lsis[l as int]);
        upsert_key_attr(&mut out, &li.sk);
        proof {
            lemma_dedup_attrs_push(processed, li.sk@);
            processed = processed.push(li.sk@);
            assert(info@.lsis.take(l as int + 1).drop_last() =~= info@.lsis.take(l as int));
            assert(info@.lsis.take(l as int + 1).last() == info@.lsis[l as int]);
            assert(processed =~= table_key_attrs(info@) + gsis_key_attrs(info@.gsis)
                + lsis_key_attrs(info@.lsis.take(l as int + 1)));
        }
        l = l + 1;
    }
    proof {
        assert(info@.lsis.take(info.lsis.len() as int) =~= info@.lsis);
        assert(processed =~= key_attr_seq(info@));
    }
    out
}

/// Whether all attribute names in `s` are distinct.
pub open spec fn distinct_attr_names(s: Seq<TableAttrView>) -> bool {
    forall|i: int, j: int| 0 <= i < j < s.len() ==> s[i].name != s[j].name
}

proof fn lemma_index_of_found(s: Seq<TableAttrView>, name: Seq<char>)
    requires
        has_attr_name(s, name),
    ensures
        0 <= index_of_attr_name(s, name) < s.len(),
        s[index_of_attr_name(s, name)].name == name,
    decreases s.len(),
{
    if s[0].name == name {
    } else {
        let i = choose|i: int| 0 <= i < s.len() && s[i].name == name;
        assert(s.drop_first()[i - 1].name == name);
        lemma_index_of_found(s.drop_first(), name);
    }
}

proof fn lemma_has_attr_name_unlast(s: Seq<TableAttrView>, n: Seq<char>)
    requires
        s.len() > 0,
    ensures
        has_attr_name(s, n) <==> (has_attr_name(s.drop_last(), n) || s.last().name == n),
{
    if has_attr_name(s, n) {
        let i = choose|i: int| 0 <= i < s.len() && s[i].name == n;
        if i < s.len() - 1 {
            assert(s.drop_last()[i].name == n);
        }
    }
    if has_attr_name(s.drop_last(), n) {
        let i = choose|i: int| 0 <= i < s.drop_last().len() && s.drop_last()[i].name == n;
        assert(s[i].name == n);
    }
    if s.last().name == n {
        assert(s[s.len() - 1].name == n);
    }
}

/// Law: collecting the key attributes of a schema neither invents nor loses
/// a name. `dedup_attrs` holds exactly the attribute names of its input,
/// and each of them exactly once.
pub proof fn lemma_dedup_attrs_names(s: Seq<TableAttrView>)
    ensures
        distinct_attr_names(dedup_attrs(s)),
        forall|n: Seq<char>| has_attr_name(dedup_attrs(s), n) <==> has_attr_name(s, n),
    decreases s.len(),
{
    if s.len() == 0 {
    } else {
        let d = dedup_attrs(s.drop_last());
        let a = s.last();
        lemma_dedup_attrs_names(s.drop_last());
        if has_attr_name(d, a.name) {
            lemma_index_of_found(d, a.name);
            let idx = index_of_attr_name(d, a.name);
            let u = d.update(idx, a);
            assert(dedup_attrs(s) == u);
            assert forall|i: int| 0 <= i < u.len() implies u[i].name == d[i].name by {
                assert(d[idx].name == a.name);
            }
            assert forall|n: Seq<char>|
                has_attr_name(u, n) <==> has_attr_name(s, n) by {
                if has_attr_name(u, n) {
                    let i = choose|i: int| 0 <= i < u.len() && u[i].name == n;
                    assert(d[i].name == n);
                    lemma_has_attr_name_unlast(s, n);
                }
                if has_attr_name(s, n) {
                    lemma_has_attr_name_unlast(s, n);
                    if has_attr_name(s.drop_last(), n) {
                        let i = choose|i: int| 0 <= i < d.len() && d[i].name == n;
                        assert(u[i].name == n);
                    } else {
                        assert(u[idx].name == n);
                    }
                }
            }
        } else {
            let u = d.push(a);
            assert(dedup_attrs(s) == u);
            assert forall|i: int, j: int| 0 <= i < j < u.len() implies u[i].name != u[j].name by {
                if j == u.len() - 1 {
                    assert(!(exists|k: int| 0 <= k < d.len() && d[k].name == a.name));
                    assert(u[i] == d[i]);
                }
            }
            assert forall|n: Seq<char>|
                has_attr_name(u, n) <==> has_attr_name(s, n) by {
                lemma_has_attr_name_unlast(s, n);
                lemma_has_attr_name_unlast(u, n);
                assert(u.drop_last() =~= d);
            }
        }
    }
}

/// Whether `a` stands in `s` and no later entry of `s` binds `a`'s name
/// again: `a` is the binding of its name that wins.
pub open spec fn is_last_binding(s: Seq<TableAttrView>, a: TableAttrView) -> bool {
    exists|i: int|
        0 <= i < s.len() && s[i] == a && (forall|k: int| i < k < s.len() ==> s[k].name != a.name)
}

/// Law: every collected attribute definition is the last binding of its
/// name in the schema — when a name is bound twice, the later type wins.
pub proof fn lemma_dedup_attrs_last_binding(s: Seq<TableAttrView>)
    ensures
        forall|j: int|
            0 <= j < dedup_attrs(s).len() ==> #[trigger] is_last_binding(s, dedup_attrs(s)[j]),
    decreases s.len(),
{
    if s.len() == 0 {
    } else {
        let d = dedup_attrs(s.drop_last());
        let a = s.last();
        lemma_dedup_attrs_last_binding(s.drop_last());
        lemma_dedup_attrs_names(s.drop_last());
        let u = dedup_attrs(s);
        assert forall|j: int| 0 <= j < u.len() implies #[trigger] is_last_binding(s, u[j]) by {
            if has_attr_name(d, a.name) {
                lemma_index_of_found(d, a.name);
                let idx = index_of_attr_name(d, a.name);
                assert(u == d.update(idx, a));
                if j == idx {
                    assert(s[s.len() - 1] == a);
                    assert(is_last_binding(s, a));
                } else {
                    let e = d[j];
                    assert(u[j] == e);
                    assert(e.name != a.name);
                    lemma_last_binding_lift(s, e);
                }
            } else {
                assert(u == d.push(a));
                if j == d.len() {
                    assert(u[j] == a);
                    assert(s[s.len() - 1] == a);
                    assert(is_last_binding(s, a));
                } else {
                    let e = d[j];
                    assert(u[j] == e);
                    assert(!(exists|k: int| 0 <= k < d.len() && d[k].name == a.name));
                    assert(e.name != a.name);
                    lemma_last_binding_lift(s, e);
                }
            }
        }
    }
}

proof fn lemma_last_binding_lift(s: Seq<TableAttrView>, e: TableAttrView)
    requires
        s.len() > 0,
        is_last_binding(s.drop_last(), e),
        s.last().name != e.name,
    ensures
        is_last_binding(s, e),
{
    let i = choose|i: int|
        0 <= i < s.drop_last().len() && s.drop_last()[i] == e && (forall|k: int|
            i < k < s.drop_last().len() ==> s.drop_last()[k].name != e.name);
    assert(s[i] == e);
    assert forall|k: int| i < k < s.len() implies s[k].name != e.name by {
        if k < s.len() - 1 {
            assert(s.drop_last()[k].name != e.name);
        }
    }
}

/// The billing an optional throughput setting translates to: provisioned
/// capacity when one is given, else pay-per-request.
pub open spec fn spec_billing(t: Option<Throughput>) -> BillingPlan {
    match t {
        Some(tp) => BillingPlan::Provisioned(tp),
        None => BillingPlan::PayPerRequest,
    }
}

/// The plans of a list of global secondary indexes, in order.
pub open spec fn spec_gsi_plans(gs: Seq<TableGsiView>) -> Seq<GsiPlanView>
    decreases gs.len(),
{
    if gs.len() == 0 {
        Seq::<GsiPlanView>::empty()
    } else {
        spec_gsi_plans(gs.drop_last()).push(spec_gsi_plan(gs.last()))
    }
}

/// The plans of a list of local secondary indexes, in order.
pub open spec fn spec_lsi_plans(ls: Seq<TableLsiView>) -> Seq<LsiPlanView>
    decreases ls.len(),
{
    if ls.len() == 0 {
        Seq::<LsiPlanView>::empty()
    } else {
        spec_lsi_plans(ls.drop_last()).push(spec_lsi_plan(ls.last()))
    }
}

/// The full plan a table schema translates to.
pub open spec fn spec_create_plan(info: TableInfoView) -> CreateTablePlanView {
    CreateTablePlanView {
        table_name: info.table_name,
        key_schema: spec_key_schema(info.pk, info.sk),
        attribute_definitions: dedup_attrs(key_attr_seq(info)),
        global_secondary_indexes: spec_gsi_plans(info.gsis),
        local_secondary_indexes: spec_lsi_plans(info.lsis),
        billing: spec_billing(info.throughput),
    }
}

/// Law: a translated schema defines each key-attribute name exactly once,
/// it covers exactly the key attributes the schema names, and each
/// definition is the last binding of its name.
pub proof fn lemma_create_plan_attribute_definitions(info: TableInfoView)
    ensures
        distinct_attr_names(spec_create_plan(info).attribute_definitions),
        forall|n: Seq<char>|
            has_attr_name(spec_create_plan(info).attribute_definitions, n) <==> has_attr_name(
                key_attr_seq(info),
                n,
            ),
        forall|j: int|
            0 <= j < spec_create_plan(info).attribute_definitions.len()
                ==> #[trigger] is_last_binding(
                key_attr_seq(info),
                spec_create_plan(info).attribute_definitions[j],
            ),
{
    lemma_dedup_attrs_names(key_attr_seq(info));
    lemma_dedup_attrs_last_binding(key_attr_seq(info));
}

impl TableInfo {
    /// Translates this schema into the plan a CreateTable request is made
    /// from: the table's key schema, one attribute definition per distinct
    /// key name, the translated indexes, and the billing choice.
    pub fn to_create_plan(&self) -> (r: CreateTablePlan)
        ensures
            r@ == spec_create_plan(self@),
    {
        let attribute_definitions = collect_key_attrs(self);
        let key_schema = build_key_schema(&self.pk, &self.sk);

        let mut gsis: Vec<GsiPlan> = Vec::new();
        let mut i: usize = 0;
        while i < self.gsis.len()
            invariant
                i <= self.gsis.len(),
                gsis.deep_view() == spec_gsi_plans(self@.gsis.take(i as int)),
            decreases self.gsis.len() - i,
        {
            let p = self.gsis[i].to_plan();
            assert(p@ == spec_gsi_plan(self@.gsis[i as int]));
            let ghost pre = gsis.deep_view();
            gsis.push(p);
            proof {
                assert(self@.gsis.take(i as int + 1).drop_last() =~= self@.gsis.take(i as int));
                assert(self@.gsis.take(i as int + 1).last() == self@.gsis[i as int]);
                assert(gsis.deep_view() =~= pre.push(p@));
            }
            i = i + 1;
        }
        assert(self@.gsis.take(self.gsis.len() as int) =~= self@.gsis);

        let mut lsis: Vec<LsiPlan> = Vec::new();
        let mut l: usize = 0;
        while l < self.lsis.len()
            invariant
                l <= self.lsis.len(),
                lsis.deep_view() == spec_lsi_plans(self@.lsis.take(l as int)),
            decreases self.lsis.len() - l,
        {
            let p = self.lsis[l].to_plan();
            assert(p@ == spec_lsi_plan(self@.lsis[l as int]));
            let ghost pre = lsis.deep_view();
            lsis.push(p);
            proof {
                assert(self@.lsis.take(l as int + 1).drop_last() =~= self@.lsis.take(l as int));
                assert(self@.lsis.take(l as int + 1).last() == self@.lsis[l as int]);
                assert(lsis.deep_view() =~= pre.push(p@));
            }
            l = l + 1;
        }
        assert(self@.lsis.take(self.lsis.len() as int) =~= self@.lsis);

        let billing = match self.throughput {
            Some(tp) => BillingPlan::Provisioned(tp),
            None => BillingPlan::PayPerRequest,
        };

        let r = CreateTablePlan {
            table_name: self.table_name.clone(),
            key_schema,
            attribute_definitions,
            global_secondary_indexes: gsis,
            local_secondary_indexes: lsis,
            billing,
        };
        assert(r@ =~= spec_create_plan(self@));
        r
    }
}

} // verus!
