use vstd::prelude::*;
use crate::json::{array_of, elements, field, owned, owned_or, str_or, text_of, text_or, Json};
use crate::shape::{status_of_upper, uppercase, ListItem, ListItemView, StatusView, Shape, ShapeView, Status};

verus! {

/// The CLI arguments that list the workspace's SQL warehouses.
pub fn command() -> (r: Vec<&'static str>)
    ensures
        r@.map_values(|a: &str| a@) == seq!["warehouses"@, "list"@],
{
    let r = vec!["warehouses", "list"];
    assert(r@.map_values(|a: &str| a@) =~= seq!["warehouses"@, "list"@]);
    r
}

/// The warehouse objects of a response: a plain array, or else the array
/// under the `warehouses` member.
pub open spec fn warehouse_objects(json: Json) -> Seq<Json> {
    match array_of(json) {
        Some(items) => items,
        None => elements(field(json, "warehouses"@)),
    }
}

/// The list entry for one warehouse object; its cluster size is the detail.
pub open spec fn warehouse_item(w: Json) -> ListItemView {
    ListItemView {
        name: text_or(w, "name"@, ""@),
        status: status_of_upper(uppercase(text_or(w, "state"@, ""@))),
        detail: text_of(field(w, "cluster_size"@)),
        id: None,
        history: Seq::empty(),
    }
}

/// The list entries for a `warehouses list` response.
pub open spec fn warehouse_items(json: Json) -> Seq<ListItemView> {
    warehouse_objects(json).map_values(|w: Json| warehouse_item(w))
}

fn item(w: &Json) -> (r: ListItem)
    ensures
        r@ == warehouse_item(*w),
{
    let r = ListItem {
        name: owned_or(w.text_at("name"), ""),
        status: Status::from_str(str_or(w.text_at("state"), "")),
        detail: owned(w.text_at("cluster_size")),
        id: None,
        history: Vec::new(),
    };
    assert(r@.history =~= Seq::<StatusView>::empty());
    r
}

fn objects(json: &Json) -> (r: Option<&Vec<Json>>)
    ensures
        match r {
            Some(v) => v@ == warehouse_objects(*json),
            None => warehouse_objects(*json) == Seq::<Json>::empty(),
        },
{
    match json.as_array() {
        Some(arr) => Some(arr),
        None => match json.get("warehouses") {
            Some(inner) => inner.as_array(),
            None => None,
        },
    }
}

/// The warehouses panel for the output of [`command`]: one entry per
/// warehouse object.
pub fn fetch(json: &Json) -> (r: Shape)
    ensures
        r@ == ShapeView::List(warehouse_items(*json)),
{
    let mut items: Vec<ListItem> = Vec::new();
    match objects(json) {
        Some(arr) => {
            for i in 0..arr.len()
                invariant
                    items@.len() == i,
                    forall|k: int| 0 <= k < i ==> #[trigger] items@[k]@ == warehouse_item(arr@[k]),
            {
                items.push(item(&arr[i]));
            }
        },
        None => {},
    }
    let r = Shape::List(items);
    assert(r@ == ShapeView::List(warehouse_items(*json))) by {
        if let ShapeView::List(s) = r@ {
            assert(s =~= warehouse_items(*json));
        }
    }
    r
}

/// Each entry is read from the warehouse's own members alone: its name from
/// `name` (else empty), its status from the classification of `state`
/// (empty where absent), its detail from `cluster_size`; whatever else the
/// object holds does not matter. There is one entry per object, in order.
pub proof fn lemma_warehouse_item_reads_its_members(a: Json, b: Json, json: Json, k: int)
    ensures
        field(a, "state"@) == field(b, "state"@) ==> warehouse_item(a).status == warehouse_item(b).status,
        field(a, "name"@) == field(b, "name"@) ==> warehouse_item(a).name == warehouse_item(b).name,
        field(a, "cluster_size"@) == field(b, "cluster_size"@) ==> warehouse_item(a).detail == warehouse_item(b).detail,
        text_of(field(a, "state"@)) matches Some(t) ==> warehouse_item(a).status == status_of_upper(
            uppercase(t),
        ),
        text_of(field(a, "state"@)) is None ==> warehouse_item(a).status == status_of_upper(uppercase(""@)),
        text_of(field(a, "name"@)) matches Some(t) ==> warehouse_item(a).name == t,
        text_of(field(a, "name"@)) is None ==> warehouse_item(a).name == ""@,
        warehouse_item(a).detail == text_of(field(a, "cluster_size"@)),
        warehouse_items(json).len() == warehouse_objects(json).len(),
        0 <= k < warehouse_objects(json).len() ==> warehouse_items(json)[k] == warehouse_item(warehouse_objects(json)[k]),
{
}

} // verus!
