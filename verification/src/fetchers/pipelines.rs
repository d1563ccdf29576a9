use vstd::prelude::*;
use crate::json::{elements, field, owned, owned_or, str_or, text_of, text_or, Json};
use crate::shape::{status_of_upper, uppercase, ListItem, ListItemView, StatusView, Shape, ShapeView, Status};

verus! {

/// The CLI arguments that list the workspace's pipelines.
pub fn command() -> (r: Vec<&'static str>)
    ensures
        r@.map_values(|a: &str| a@) == seq!["pipelines"@, "list-pipelines"@],
{
    let r = vec!["pipelines", "list-pipelines"];
    assert(r@.map_values(|a: &str| a@) =~= seq!["pipelines"@, "list-pipelines"@]);
    r
}

/// The list entry for one pipeline object.
pub open spec fn pipeline_item(p: Json) -> ListItemView {
    ListItemView {
        name: text_or(p, "name"@, "unknown"@),
        status: status_of_upper(uppercase(text_or(p, "state"@, ""@))),
        detail: text_of(field(p, "pipeline_id"@)),
        id: None,
        history: Seq::empty(),
    }
}

/// The list entries for a `pipelines list-pipelines` response.
pub open spec fn pipeline_items(json: Json) -> Seq<ListItemView> {
    elements(json).map_values(|p: Json| pipeline_item(p))
}

fn item(p: &Json) -> (r: ListItem)
    ensures
        r@ == pipeline_item(*p),
{
    let r = ListItem {
        name: owned_or(p.text_at("name"), "unknown"),
        status: Status::from_str(str_or(p.text_at("state"), "")),
        detail: owned(p.text_at("pipeline_id")),
        id: None,
        history: Vec::new(),
    };
    assert(r@.history =~= Seq::<StatusView>::empty());
    r
}

/// The pipelines panel for the output of [`command`]: one entry per element
/// of the response array (none when the response is not an array).
pub fn fetch(json: &Json) -> (r: Shape)
    ensures
        r@ == ShapeView::List(pipeline_items(*json)),
{
    let mut items: Vec<ListItem> = Vec::new();
    match json.as_array() {
        Some(arr) => {
            for i in 0..arr.len()
                invariant
                    items@.len() == i,
                    forall|k: int| 0 <= k < i ==> #[trigger] items@[k]@ == pipeline_item(arr@[k]),
            {
                items.push(item(&arr[i]));
            }
        },
        None => {},
    }
    let r = Shape::List(items);
    assert(r@ == ShapeView::List(pipeline_items(*json))) by {
        if let ShapeView::List(s) = r@ {
            assert(s =~= pipeline_items(*json));
        }
    }
    r
}

/// Each entry is read from the pipeline's own members alone: its name from
/// `name` (else unknown), its status from the classification of `state`
/// (empty where absent), its detail from `pipeline_id`; whatever else the
/// object holds does not matter. There is one entry per object, in order.
pub proof fn lemma_pipeline_item_reads_its_members(a: Json, b: Json, json: Json, k: int)
    ensures
        field(a, "state"@) == field(b, "state"@) ==> pipeline_item(a).status == pipeline_item(b).status,
        field(a, "name"@) == field(b, "name"@) ==> pipeline_item(a).name == pipeline_item(b).name,
        field(a, "pipeline_id"@) == field(b, "pipeline_id"@) ==> pipeline_item(a).detail == pipeline_item(b).detail,
        text_of(field(a, "state"@)) matches Some(t) ==> pipeline_item(a).status == status_of_upper(
            uppercase(t),
        ),
        text_of(field(a, "state"@)) is None ==> pipeline_item(a).status == status_of_upper(uppercase(""@)),
        text_of(field(a, "name"@)) matches Some(t) ==> pipeline_item(a).name == t,
        text_of(field(a, "name"@)) is None ==> pipeline_item(a).name == "unknown"@,
        pipeline_item(a).detail == text_of(field(a, "pipeline_id"@)),
        pipeline_items(json).len() == elements(json).len(),
        0 <= k < elements(json).len() ==> pipeline_items(json)[k] == pipeline_item(elements(json)[k]),
{
}

} // verus!
