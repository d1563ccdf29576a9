use vstd::prelude::*;
use crate::json::{elements, field, owned, owned_or, text_of, text_or, Json};
use crate::text::same_text;
use crate::shape::{ListItem, ListItemView, Shape, ShapeView, Status, StatusView};

verus! {

/// The level of the Unity Catalog tree that an entry belongs to.
#[derive(Debug, Clone, Copy, PartialEq, Eq)]
pub enum EntryKind {
    Catalog,
    Schema,
    /// A table or a view; the `table_type` member tells which.
    Table,
    Volume,
}

/// The texts of a path of names.
pub open spec fn names(path: Seq<String>) -> Seq<Seq<char>> {
    path.map_values(|s: String| s@)
}

/// The CLI invocations that list one level of the tree: no path lists the
/// catalogs, `[catalog]` its schemas, and `[catalog, schema, ..]` that
/// schema's tables and its volumes (in this order).
pub open spec fn catalog_requests(path: Seq<Seq<char>>) -> Seq<Seq<Seq<char>>> {
    if path.len() == 0 {
        seq![seq!["catalogs"@, "list"@]]
    } else if path.len() == 1 {
        seq![seq!["schemas"@, "list"@, path[0]]]
    } else {
        seq![
            seq!["tables"@, "list"@, path[0], path[1]],
            seq!["volumes"@, "list"@, path[0], path[1]],
        ]
    }
}

/// The status text that marks an entry of a given kind.
pub open spec fn kind_text(v: Json, kind: EntryKind) -> Seq<char> {
    match kind {
        EntryKind::Catalog => "CATALOG"@,
        EntryKind::Schema => "SCHEMA"@,
        EntryKind::Volume => "VOLUME"@,
        EntryKind::Table => {
            let t = text_of(field(v, "table_type"@));
            if t == Some("VIEW"@) || t == Some("MATERIALIZED_VIEW"@) {
                "VIEW"@
            } else {
                "TABLE"@
            }
        },
    }
}

/// The list entry for one object of a catalog listing; its id is the full
/// name, or else the name.
pub open spec fn catalog_entry(v: Json, kind: EntryKind) -> ListItemView {
    ListItemView {
        name: text_or(v, "name"@, "unknown"@),
        status: StatusView::Unknown(kind_text(v, kind)),
        detail: text_of(field(v, "comment"@)),
        id: match text_of(field(v, "full_name"@)) {
            Some(f) => Some(f),
            None => text_of(field(v, "name"@)),
        },
        history: Seq::empty(),
    }
}

/// The entries for one listing response.
pub open spec fn catalog_entries(json: Json, kind: EntryKind) -> Seq<ListItemView> {
    elements(json).map_values(|v: Json| catalog_entry(v, kind))
}

/// The entries shown for a path, given the responses to
/// `catalog_requests(path)` in order.
pub open spec fn catalog_items(path: Seq<Seq<char>>, responses: Seq<Json>) -> Seq<ListItemView> {
    if path.len() == 0 {
        catalog_entries(responses[0], EntryKind::Catalog)
    } else if path.len() == 1 {
        catalog_entries(responses[0], EntryKind::Schema)
    } else {
        catalog_entries(responses[0], EntryKind::Table) + catalog_entries(
            responses[1],
            EntryKind::Volume,
        )
    }
}

fn texts(parts: Vec<&str>) -> (r: Vec<String>)
    ensures
        r@.map_values(|s: String| s@) == parts@.map_values(|a: &str| a@),
{
    let mut r: Vec<String> = Vec::new();
    for i in 0..parts.len()
        invariant
            r@.len() == i,
            forall|k: int| 0 <= k < i ==> #[trigger] r@[k]@ == parts@[k]@,
    {
        r.push(parts[i].to_owned());
    }
    assert(r@.map_values(|s: String| s@) =~= parts@.map_values(|a: &str| a@));
    r
}

/// The CLI invocations that list the level of the tree under `path`.
pub fn requests(path: &Vec<String>) -> (r: Vec<Vec<String>>)
    ensures
        r@.map_values(|a: Vec<String>| names(a@)) == catalog_requests(names(path@)),
{
    let ghost p = names(path@);
    let mut r: Vec<Vec<String>> = Vec::new();
    if path.len() == 0 {
        r.push(texts(vec!["catalogs", "list"]));
    } else if path.len() == 1 {
        r.push(texts(vec!["schemas", "list", path[0].as_str()]));
    } else {
        r.push(texts(vec!["tables", "list", path[0].as_str(), path[1].as_str()]));
        r.push(texts(vec!["volumes", "list", path[0].as_str(), path[1].as_str()]));
    }
    assert(r@.map_values(|a: Vec<String>| names(a@)) =~= catalog_requests(p)) by {
        assert forall|k: int| 0 <= k < r@.len() implies names(r@[k]@) =~= #[trigger] catalog_requests(
            p,
        )[k] by {}
    }
    r
}

fn kind_label(v: &Json, kind: EntryKind) -> (r: &'static str)
    ensures
        r@ == kind_text(*v, kind),
{
    match kind {
        EntryKind::Catalog => "CATALOG",
        EntryKind::Schema => "SCHEMA",
        EntryKind::Volume => "VOLUME",
        EntryKind::Table => match v.text_at("table_type") {
            Some(t) => {
                if same_text(t, "VIEW") || same_text(t, "MATERIALIZED_VIEW") {
                    "VIEW"
                } else {
                    "TABLE"
                }
            },
            None => "TABLE",
        },
    }
}

/// The list entry for one object of a listing of the given kind.
pub fn entry(v: &Json, kind: EntryKind) -> (r: ListItem)
    ensures
        r@ == catalog_entry(*v, kind),
{
    let r = ListItem {
        name: owned_or(v.text_at("name"), "unknown"),
        status: Status::Unknown(kind_label(v, kind).to_owned()),
        detail: owned(v.text_at("comment")),
        id: match v.text_at("full_name") {
            Some(f) => Some(f.to_owned()),
            None => owned(v.text_at("name")),
        },
        history: Vec::new(),
    };
    assert(r@.history =~= Seq::<StatusView>::empty());
    r
}

/// The entries of one listing response: one per element of the response
/// array, none when it is not an array.
pub fn items_of(json: &Json, kind: EntryKind) -> (r: Vec<ListItem>)
    ensures
        r@.map_values(|i: ListItem| i@) == catalog_entries(*json, kind),
{
    let mut items: Vec<ListItem> = Vec::new();
    match json.as_array() {
        Some(arr) => {
            for i in 0..arr.len()
                invariant
                    items@.len() == i,
                    forall|k: int| 0 <= k < i ==> #[trigger] items@[k]@ == catalog_entry(arr@[k], kind),
            {
                items.push(entry(&arr[i], kind));
            }
        },
        None => {},
    }
    assert(items@.map_values(|i: ListItem| i@) =~= catalog_entries(*json, kind));
    items
}

/// The catalog panel for `path`, given the responses to [`requests`] in
/// order. Where listing a schema's tables or volumes failed, its response is
/// taken as `null` and contributes no entries.
pub fn fetch(path: &Vec<String>, responses: &Vec<Json>) -> (r: Shape)
    requires
        responses@.len() == catalog_requests(names(path@)).len(),
    ensures
        r@ == ShapeView::List(catalog_items(names(path@), responses@)),
{
    let items = if path.len() == 0 {
        items_of(&responses[0], EntryKind::Catalog)
    } else if path.len() == 1 {
        items_of(&responses[0], EntryKind::Schema)
    } else {
        let mut tables = items_of(&responses[0], EntryKind::Table);
        let mut volumes = items_of(&responses[1], EntryKind::Volume);
        let ghost t = tables@;
        let ghost v = volumes@;
        tables.append(&mut volumes);
        assert(tables@.map_values(|i: ListItem| i@) =~= t.map_values(|i: ListItem| i@)
            + v.map_values(|i: ListItem| i@));
        tables
    };
    let r = Shape::List(items);
    assert(r@ == ShapeView::List(catalog_items(names(path@), responses@))) by {
        if let ShapeView::List(s) = r@ {
            assert(s =~= items@.map_values(|i: ListItem| i@));
        }
    }
    r
}

/// In a listing of a schema's tables, an entry is marked VIEW exactly when
/// its `table_type` is VIEW or MATERIALIZED_VIEW, and TABLE for any other
/// `table_type` or none; the name, detail and id do not depend on the kind.
pub proof fn lemma_table_kind(v: Json)
    ensures
        catalog_entry(v, EntryKind::Table).status == StatusView::Unknown("VIEW"@) <==> (text_of(
            field(v, "table_type"@),
        ) == Some("VIEW"@) || text_of(field(v, "table_type"@)) == Some("MATERIALIZED_VIEW"@)),
        catalog_entry(v, EntryKind::Table).status == StatusView::Unknown("VIEW"@)
            || catalog_entry(v, EntryKind::Table).status == StatusView::Unknown("TABLE"@),
        catalog_entry(v, EntryKind::Table).name == catalog_entry(v, EntryKind::Volume).name,
        catalog_entry(v, EntryKind::Table).detail == catalog_entry(v, EntryKind::Volume).detail,
        catalog_entry(v, EntryKind::Table).id == catalog_entry(v, EntryKind::Volume).id,
{
    reveal_strlit("VIEW");
    reveal_strlit("TABLE");
    assert("VIEW"@ != "TABLE"@) by {
        assert("VIEW"@.len() != "TABLE"@.len());
    }
}

/// Each kind of listing marks its entries with its own kind: catalogs with
/// CATALOG, schemas with SCHEMA and volumes with VOLUME, whatever the object
/// holds.
pub proof fn lemma_listing_kinds(v: Json)
    ensures
        catalog_entry(v, EntryKind::Catalog).status == StatusView::Unknown("CATALOG"@),
        catalog_entry(v, EntryKind::Schema).status == StatusView::Unknown("SCHEMA"@),
        catalog_entry(v, EntryKind::Volume).status == StatusView::Unknown("VOLUME"@),
{
}

/// At the level of a schema, the tables come first, one entry per table
/// object in order, each marked as the table kind law says; the volumes
/// follow.
pub proof fn lemma_schema_level_entries(path: Seq<Seq<char>>, responses: Seq<Json>, k: int)
    requires
        path.len() >= 2,
        responses.len() == 2,
        0 <= k < elements(responses[0]).len(),
    ensures
        catalog_items(path, responses).len() == elements(responses[0]).len() + elements(
            responses[1],
        ).len(),
        catalog_items(path, responses)[k] == catalog_entry(elements(responses[0])[k], EntryKind::Table),
        catalog_items(path, responses)[k].status == StatusView::Unknown("VIEW"@) <==> (text_of(
            field(elements(responses[0])[k], "table_type"@),
        ) == Some("VIEW"@) || text_of(field(elements(responses[0])[k], "table_type"@)) == Some(
            "MATERIALIZED_VIEW"@,
        )),
{
    lemma_table_kind(elements(responses[0])[k]);
}

} // verus!
