use vstd::prelude::*;
use crate::json::{elements, field, owned, owned_or, str_or, text_of, text_or, Json};
use crate::shape::{status_of_upper, uppercase, ListItem, ListItemView, StatusView, Shape, ShapeView, Status};

verus! {

/// The CLI arguments that list the workspace's clusters.
pub fn command() -> (r: Vec<&'static str>)
    ensures
        r@.map_values(|a: &str| a@) == seq!["clusters"@, "list"@],
{
    let r = vec!["clusters", "list"];
    assert(r@.map_values(|a: &str| a@) =~= seq!["clusters"@, "list"@]);
    r
}

/// The list entry for one cluster object.
pub open spec fn cluster_item(c: Json) -> ListItemView {
    ListItemView {
        name: text_or(c, "cluster_name"@, "unknown"@),
        status: status_of_upper(uppercase(text_or(c, "state"@, ""@))),
        detail: text_of(field(c, "cluster_id"@)),
        id: None,
        history: Seq::empty(),
    }
}

fn item(c: &Json) -> (r: ListItem)
    ensures
        r@ == cluster_item(*c),
{
    let r = ListItem {
        name: owned_or(c.text_at("cluster_name"), "unknown"),
        status: Status::from_str(str_or(c.text_at("state"), "")),
        detail: owned(c.text_at("cluster_id")),
        id: None,
        history: Vec::new(),
    };
    assert(r@.history =~= Seq::<StatusView>::empty());
    r
}

/// The list entries for a `clusters list` response.
pub open spec fn cluster_items(json: Json) -> Seq<ListItemView> {
    elements(json).map_values(|c: Json| cluster_item(c))
}

/// The clusters panel for the output of [`command`]: one entry per element
/// of the response array (none when the response is not an array).
pub fn fetch(json: &Json) -> (r: Shape)
    ensures
        r@ == ShapeView::List(cluster_items(*json)),
{
    let mut items: Vec<ListItem> = Vec::new();
    match json.as_array() {
        Some(arr) => {
            for i in 0..arr.len()
                invariant
                    items@.len() == i,
                    forall|k: int| 0 <= k < i ==> #[trigger] items@[k]@ == cluster_item(arr@[k]),
            {
                items.push(item(&arr[i]));
            }
        },
        None => {},
    }
    let r = Shape::List(items);
    assert(r@ == ShapeView::List(cluster_items(*json))) by {
        if let ShapeView::List(s) = r@ {
            assert(s =~= cluster_items(*json));
        }
    }
    r
}

/// Each entry is read from the cluster's own members alone: its name from
/// `cluster_name` (else unknown), its status from the classification of `state`
/// (empty where absent), its detail from `cluster_id`; whatever else the
/// object holds does not matter. There is one entry per object, in order.
pub proof fn lemma_cluster_item_reads_its_members(a: Json, b: Json, json: Json, k: int)
    ensures
        field(a, "state"@) == field(b, "state"@) ==> cluster_item(a).status == cluster_item(b).status,
        field(a, "cluster_name"@) == field(b, "cluster_name"@) ==> cluster_item(a).name == cluster_item(b).name,
        field(a, "cluster_id"@) == field(b, "cluster_id"@) ==> cluster_item(a).detail == cluster_item(b).detail,
        text_of(field(a, "state"@)) matches Some(t) ==> cluster_item(a).status == status_of_upper(
            uppercase(t),
        ),
        text_of(field(a, "state"@)) is None ==> cluster_item(a).status == status_of_upper(uppercase(""@)),
        text_of(field(a, "cluster_name"@)) matches Some(t) ==> cluster_item(a).name == t,
        text_of(field(a, "cluster_name"@)) is None ==> cluster_item(a).name == "unknown"@,
        cluster_item(a).detail == text_of(field(a, "cluster_id"@)),
        cluster_items(json).len() == elements(json).len(),
        0 <= k < elements(json).len() ==> cluster_items(json)[k] == cluster_item(elements(json)[k]),
{
}

} // verus!
