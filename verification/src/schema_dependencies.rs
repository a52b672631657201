//! Dependency graph of linked-record fields: each `multipleRecordLinks` field
//! of a table becomes an edge from its table to the table it links to, whose
//! record ids must be remapped after import.

use vstd::prelude::*;
use vstd::string::*;
use crate::schema_plan::{
    RestoreLinkedDependencyStep, RestoreSchemaDependencyGraph, SchemaPlanFieldInput,
    SchemaPlanTableInput,
};
use crate::text::{concat3, owned_or, str_equal, text_or};

verus! {

pub const LINKED_RECORD_FIELD_TYPE: &'static str = "multipleRecordLinks";
pub const NO_TABLE_ID: &'static str = "";
pub const EDGE_NOTE_FIELD: &'static str = "Field '";
pub const EDGE_NOTE_IN: &'static str = "' in '";
pub const EDGE_NOTE_LINKS_TO: &'static str = "' links to '";
pub const EDGE_NOTE_SUFFIX: &'static str = "'. Record IDs must be remapped after import.";
pub const RESOLUTION_NOTE: &'static str =
    "Linked record fields are deferred and applied after all tables and records are imported. Record IDs in link references are remapped from backup IDs to restored IDs.";

// ── Specification ────────────────────────────────────────────────────────────

/// Whether a field is a linked-record field.
pub open spec fn is_link_field(f: SchemaPlanFieldInput) -> bool {
    f.field_type@ == LINKED_RECORD_FIELD_TYPE@
}

/// The name of the first table with the given id, or the id itself when no
/// table has it.
pub open spec fn resolve_name(tables: Seq<SchemaPlanTableInput>, id: Seq<char>) -> Seq<char>
    decreases tables.len(),
{
    if tables.len() == 0 {
        id
    } else if tables[0].table_id@ == id {
        tables[0].table_name@
    } else {
        resolve_name(tables.drop_first(), id)
    }
}

/// The positions `(table, field)` of the linked-record fields among `fields`,
/// the fields of table `t`.
pub open spec fn field_links(t: int, fields: Seq<SchemaPlanFieldInput>) -> Seq<(int, int)>
    decreases fields.len(),
{
    if fields.len() == 0 {
        Seq::empty()
    } else if is_link_field(fields.last()) {
        field_links(t, fields.drop_last()).push((t, fields.len() - 1))
    } else {
        field_links(t, fields.drop_last())
    }
}

/// The positions of the linked-record fields of the first `n` tables, table
/// by table and field by field.
pub open spec fn table_links(tables: Seq<SchemaPlanTableInput>, n: int) -> Seq<(int, int)>
    decreases n,
{
    if n <= 0 {
        Seq::empty()
    } else {
        table_links(tables, n - 1) + field_links(n - 1, tables[n - 1].fields@)
    }
}

/// The target table id of a linked field (empty when none is given).
pub open spec fn target_id(f: SchemaPlanFieldInput) -> Seq<char> {
    text_or(f.linked_table_id, NO_TABLE_ID@)
}

/// The edge of linked field `f` of table `t`.
pub open spec fn edge_is(
    e: RestoreLinkedDependencyStep,
    t: SchemaPlanTableInput,
    f: SchemaPlanFieldInput,
    tables: Seq<SchemaPlanTableInput>,
) -> bool {
    let target_name = resolve_name(tables, target_id(f));
    &&& e.field_id@ == f.field_id@
    &&& e.field_name@ == f.field_name@
    &&& e.source_table_id@ == t.table_id@
    &&& e.source_table_name@ == t.table_name@
    &&& e.target_table_id@ == target_id(f)
    &&& e.target_table_name@ == target_name
    &&& e.remapping_required
    &&& e.note@ == EDGE_NOTE_FIELD@ + f.field_name@ + EDGE_NOTE_IN@ + t.table_name@
        + EDGE_NOTE_LINKS_TO@ + target_name + EDGE_NOTE_SUFFIX@
}

/// The edges are those of the linked fields at `links`, in order.
pub open spec fn edges_at(
    es: Seq<RestoreLinkedDependencyStep>,
    links: Seq<(int, int)>,
    tables: Seq<SchemaPlanTableInput>,
) -> bool {
    &&& es.len() == links.len()
    &&& forall|k: int| 0 <= k < es.len() ==> #[trigger] edge_is(es[k], tables[links[k].0],
        tables[links[k].0].fields@[links[k].1], tables)
}

/// Whether some edge links a table to itself.
pub open spec fn has_self_link(es: Seq<RestoreLinkedDependencyStep>) -> bool {
    exists|k: int| 0 <= k < es.len() && (#[trigger] es[k]).source_table_id@ == es[k].target_table_id@
}

/// Field `j` of table `t` is a linked-record field whose target is its own
/// table.
pub open spec fn links_to_own_table(tables: Seq<SchemaPlanTableInput>, t: int, j: int) -> bool {
    &&& 0 <= t < tables.len()
    &&& 0 <= j < tables[t].fields@.len()
    &&& tables[t].fields@[j].field_type@ == LINKED_RECORD_FIELD_TYPE@
    &&& text_or(tables[t].fields@[j].linked_table_id, NO_TABLE_ID@) == tables[t].table_id@
}

/// The positions listed for the fields of table `t` are exactly those of its
/// linked-record fields.
proof fn lemma_field_links_positions(t: int, fields: Seq<SchemaPlanFieldInput>)
    ensures
        forall|k: int| 0 <= k < field_links(t, fields).len() ==> {
            &&& (#[trigger] field_links(t, fields)[k]).0 == t
            &&& 0 <= field_links(t, fields)[k].1 < fields.len()
            &&& is_link_field(fields[field_links(t, fields)[k].1])
        },
        forall|j: int| 0 <= j < fields.len() && is_link_field(#[trigger] fields[j]) ==> exists|k: int|
            0 <= k < field_links(t, fields).len() && field_links(t, fields)[k] == (t, j),
    decreases fields.len(),
{
    if fields.len() > 0 {
        let fl = fields.drop_last();
        lemma_field_links_positions(t, fl);
        let sub = field_links(t, fl);
        let links = field_links(t, fields);
        assert forall|k: int| 0 <= k < links.len() implies {
            &&& (#[trigger] links[k]).0 == t
            &&& 0 <= links[k].1 < fields.len()
            &&& is_link_field(fields[links[k].1])
        } by {
            if k < sub.len() {
                assert(links[k] == sub[k]);
                assert(fl[sub[k].1] == fields[sub[k].1]);
            }
        }
        assert forall|j: int| 0 <= j < fields.len() && is_link_field(#[trigger] fields[j]) implies exists|k: int|
            0 <= k < links.len() && links[k] == (t, j) by {
            if j < fields.len() - 1 {
                assert(fl[j] == fields[j]);
                let k = choose|k: int| 0 <= k < sub.len() && sub[k] == (t, j);
                assert(links[k] == sub[k]);
            } else {
                assert(links[sub.len() as int] == (t, j));
            }
        }
    }
}

/// The positions listed for the first `n` tables are exactly those of their
/// linked-record fields.
proof fn lemma_table_links_positions(tables: Seq<SchemaPlanTableInput>, n: int)
    requires
        0 <= n <= tables.len(),
    ensures
        forall|k: int| 0 <= k < table_links(tables, n).len() ==> {
            &&& 0 <= (#[trigger] table_links(tables, n)[k]).0 < n
            &&& 0 <= table_links(tables, n)[k].1 < tables[table_links(tables, n)[k].0].fields@.len()
            &&& is_link_field(tables[table_links(tables, n)[k].0].fields@[table_links(tables, n)[k].1])
        },
        forall|t: int, j: int| 0 <= t < n && 0 <= j < tables[t].fields@.len()
            && is_link_field(#[trigger] tables[t].fields@[j]) ==> exists|k: int|
            0 <= k < table_links(tables, n).len() && table_links(tables, n)[k] == (t, j),
    decreases n,
{
    if n > 0 {
        lemma_table_links_positions(tables, n - 1);
        lemma_field_links_positions(n - 1, tables[n - 1].fields@);
        let sub = table_links(tables, n - 1);
        let fl = field_links(n - 1, tables[n - 1].fields@);
        let links = table_links(tables, n);
        assert(links == sub + fl);
        assert forall|k: int| 0 <= k < links.len() implies {
            &&& 0 <= (#[trigger] links[k]).0 < n
            &&& 0 <= links[k].1 < tables[links[k].0].fields@.len()
            &&& is_link_field(tables[links[k].0].fields@[links[k].1])
        } by {
            if k < sub.len() {
                assert(links[k] == sub[k]);
            } else {
                assert(links[k] == fl[k - sub.len()]);
            }
        }
        assert forall|t: int, j: int| 0 <= t < n && 0 <= j < tables[t].fields@.len()
            && is_link_field(#[trigger] tables[t].fields@[j]) implies exists|k: int|
            0 <= k < links.len() && links[k] == (t, j) by {
            if t < n - 1 {
                let k = choose|k: int| 0 <= k < sub.len() && sub[k] == (t, j);
                assert(links[k] == sub[k]);
            } else {
                assert(is_link_field(tables[n - 1].fields@[j]));
                let k = choose|k: int| 0 <= k < fl.len() && fl[k] == (t, j);
                assert(links[sub.len() + k] == fl[k]);
            }
        }
    }
}

/// The dependency graph of `tables` is circular exactly when some
/// linked-record field of some table links to that same table, at any
/// position.
pub proof fn lemma_circular_iff_some_table_links_itself(
    es: Seq<RestoreLinkedDependencyStep>,
    tables: Seq<SchemaPlanTableInput>,
)
    requires
        edges_at(es, table_links(tables, tables.len() as int), tables),
    ensures
        (exists|k: int| 0 <= k < es.len()
            && (#[trigger] es[k]).source_table_id@ == es[k].target_table_id@)
            <==> (exists|t: int, j: int| #[trigger] links_to_own_table(tables, t, j)),
        has_self_link(es) <==> (exists|t: int, j: int| #[trigger] links_to_own_table(tables, t, j)),
{
    let links = table_links(tables, tables.len() as int);
    lemma_table_links_positions(tables, tables.len() as int);
    if exists|k: int| 0 <= k < es.len() && (#[trigger] es[k]).source_table_id@ == es[k].target_table_id@ {
        let k = choose|k: int| 0 <= k < es.len() && (#[trigger] es[k]).source_table_id@ == es[k].target_table_id@;
        let t = links[k].0;
        let j = links[k].1;
        assert(edge_is(es[k], tables[t], tables[t].fields@[j], tables));
        assert(links_to_own_table(tables, t, j));
    }
    if exists|t: int, j: int| #[trigger] links_to_own_table(tables, t, j) {
        let (t, j) = choose|t: int, j: int| #[trigger] links_to_own_table(tables, t, j);
        assert(is_link_field(tables[t].fields@[j]));
        let k = choose|k: int| 0 <= k < links.len() && links[k] == (t, j);
        assert(edge_is(es[k], tables[links[k].0], tables[links[k].0].fields@[links[k].1], tables));
        assert(es[k].source_table_id@ == es[k].target_table_id@);
    }
}

// ── Helpers ──────────────────────────────────────────────────────────────────

/// The name of the first table with id `table_id`, or the id itself.
fn resolve_table_name(tables: &[SchemaPlanTableInput], table_id: &str) -> (r: String)
    ensures
        r@ == resolve_name(tables@, table_id@),
{
    let mut i: usize = 0;
    assert(tables@.skip(0) =~= tables@);
    while i < tables.len()
        invariant
            i <= tables@.len(),
            resolve_name(tables@.skip(i as int), table_id@) == resolve_name(tables@, table_id@),
        decreases tables.len() - i,
    {
        assert(tables@.skip(i as int)[0] == tables@[i as int]);
        assert(tables@.skip(i as int).drop_first() =~= tables@.skip(i as int + 1));
        if str_equal(tables[i].table_id.as_str(), table_id) {
            return tables[i].table_name.clone();
        }
        i = i + 1;
    }
    assert(tables@.skip(i as int).len() == 0);
    String::from_str(table_id)
}

fn make_edge(
    t: &SchemaPlanTableInput,
    f: &SchemaPlanFieldInput,
    tables: &[SchemaPlanTableInput],
) -> (e: RestoreLinkedDependencyStep)
    ensures
        edge_is(e, *t, *f, tables@),
{
    let target_table_id = owned_or(&f.linked_table_id, NO_TABLE_ID);
    let target_table_name = resolve_table_name(tables, target_table_id.as_str());
    let mut note = concat3(EDGE_NOTE_FIELD, f.field_name.as_str(), EDGE_NOTE_IN);
    note.append(t.table_name.as_str());
    note.append(EDGE_NOTE_LINKS_TO);
    note.append(target_table_name.as_str());
    note.append(EDGE_NOTE_SUFFIX);
    RestoreLinkedDependencyStep {
        field_id: f.field_id.clone(),
        field_name: f.field_name.clone(),
        source_table_id: t.table_id.clone(),
        source_table_name: t.table_name.clone(),
        target_table_id,
        target_table_name,
        remapping_required: true,
        note,
    }
}

/// Whether some edge links a table to itself.
fn any_self_link(edges: &Vec<RestoreLinkedDependencyStep>) -> (b: bool)
    ensures
        b == has_self_link(edges@),
        b == exists|k: int| 0 <= k < edges@.len()
            && (#[trigger] edges@[k]).source_table_id@ == edges@[k].target_table_id@,
{
    let mut i: usize = 0;
    while i < edges.len()
        invariant
            i <= edges@.len(),
            forall|k: int| 0 <= k < i ==> (#[trigger] edges@[k]).source_table_id@ != edges@[k].target_table_id@,
        decreases edges.len() - i,
    {
        if str_equal(edges[i].source_table_id.as_str(), edges[i].target_table_id.as_str()) {
            return true;
        }
        i = i + 1;
    }
    false
}

// ── Core function ────────────────────────────────────────────────────────────

/// Builds the dependency graph of the linked-record fields of `tables`.
///
/// Every `multipleRecordLinks` field becomes one edge, table by table and
/// field by field, from its table to the table it links to; the target's name
/// is that of the first table with the target id, or the id itself when no
/// table has it. Every edge requires record id remapping. The graph is
/// circular when some table links to itself.
pub fn build_dependency_graph(tables: &[SchemaPlanTableInput]) -> (graph: RestoreSchemaDependencyGraph)
    ensures
        edges_at(graph.edges@, table_links(tables@, tables@.len() as int), tables@),
        graph.has_circular_dependency == has_self_link(graph.edges@),
        graph.has_circular_dependency
            <==> (exists|t: int, j: int| #[trigger] links_to_own_table(tables@, t, j)),
        graph.resolution_note@ == RESOLUTION_NOTE@,
{
    let mut edges: Vec<RestoreLinkedDependencyStep> = Vec::new();
    let mut i: usize = 0;
    while i < tables.len()
        invariant
            i <= tables@.len(),
            edges_at(edges@, table_links(tables@, i as int), tables@),
        decreases tables.len() - i,
    {
        let table = &tables[i];
        let mut j: usize = 0;
        while j < table.fields.len()
            invariant
                i < tables@.len(),
                *table == tables@[i as int],
                j <= table.fields@.len(),
                edges_at(edges@, table_links(tables@, i as int)
                    + field_links(i as int, table.fields@.take(j as int)), tables@),
            decreases table.fields.len() - j,
        {
            let ghost before = table_links(tables@, i as int)
                + field_links(i as int, table.fields@.take(j as int));
            assert(table.fields@.take(j as int + 1).drop_last() =~= table.fields@.take(j as int));
            let field = &table.fields[j];
            if str_equal(field.field_type.as_str(), LINKED_RECORD_FIELD_TYPE) {
                let e = make_edge(table, field, tables);
                edges.push(e);
                assert(table_links(tables@, i as int) + field_links(i as int, table.fields@.take(j as int + 1))
                    =~= before.push((i as int, j as int)));
            } else {
                assert(table_links(tables@, i as int) + field_links(i as int, table.fields@.take(j as int + 1))
                    =~= before);
            }
            j = j + 1;
        }
        assert(table.fields@.take(table.fields@.len() as int) =~= table.fields@);
        assert(table_links(tables@, i as int + 1)
            =~= table_links(tables@, i as int) + field_links(i as int, tables@[i as int].fields@));
        i = i + 1;
    }
    let has_circular = any_self_link(&edges);
    proof {
        lemma_circular_iff_some_table_links_itself(edges@, tables@);
    }
    RestoreSchemaDependencyGraph {
        edges,
        has_circular_dependency: has_circular,
        resolution_note: String::from_str(RESOLUTION_NOTE),
    }
}

} // verus!
