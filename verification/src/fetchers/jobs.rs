use vstd::prelude::*;
use crate::json::{elements, field, owned_or, str_or, text_of, u64_of, Json, or_default};
use crate::shape::{status_of_upper, uppercase, ListItem, ListItemView, StatusView, Shape, ShapeView, Status};
use crate::text::{decimal, decimal_text};

verus! {

/// The CLI arguments that list the workspace's jobs.
pub fn command() -> (r: Vec<&'static str>)
    ensures
        r@.map_values(|a: &str| a@) == seq!["jobs"@, "list"@],
{
    let r = vec!["jobs", "list"];
    assert(r@.map_values(|a: &str| a@) =~= seq!["jobs"@, "list"@]);
    r
}

/// The list entry for one job object: its name and its status come from its
/// `settings`, its detail is its numeric id written in decimal.
pub open spec fn job_item(j: Json) -> ListItemView {
    let settings = field(j, "settings"@);
    ListItemView {
        name: or_default(text_of(field(settings, "name"@)), "unknown"@),
        status: status_of_upper(uppercase(or_default(text_of(field(settings, "format"@)), ""@))),
        detail: match u64_of(field(j, "job_id"@)) {
            Some(id) => Some(decimal(id as nat)),
            None => None,
        },
        id: None,
        history: Seq::empty(),
    }
}

/// The list entries for a `jobs list` response.
pub open spec fn job_items(json: Json) -> Seq<ListItemView> {
    elements(json).map_values(|j: Json| job_item(j))
}

fn settings_text<'a>(j: &'a Json, key: &str) -> (r: Option<&'a str>)
    ensures
        crate::json::opt_str(r) == text_of(field(field(*j, "settings"@), key@)),
{
    match j.get("settings") {
        Some(s) => s.text_at(key),
        None => None,
    }
}

fn item(j: &Json) -> (r: ListItem)
    ensures
        r@ == job_item(*j),
{
    let detail = match j.get("job_id") {
        Some(v) => match v.as_u64() {
            Some(id) => Some(decimal_text(id)),
            None => None,
        },
        None => None,
    };
    let r = ListItem {
        name: owned_or(settings_text(j, "name"), "unknown"),
        status: Status::from_str(str_or(settings_text(j, "format"), "")),
        detail,
        id: None,
        history: Vec::new(),
    };
    assert(r@.history =~= Seq::<StatusView>::empty());
    r
}

/// The jobs panel for the output of [`command`]: one entry per element of the
/// response array (none when the response is not an array).
pub fn fetch(json: &Json) -> (r: Shape)
    ensures
        r@ == ShapeView::List(job_items(*json)),
{
    let mut items: Vec<ListItem> = Vec::new();
    match json.as_array() {
        Some(arr) => {
            for i in 0..arr.len()
                invariant
                    items@.len() == i,
                    forall|k: int| 0 <= k < i ==> #[trigger] items@[k]@ == job_item(arr@[k]),
            {
                items.push(item(&arr[i]));
            }
        },
        None => {},
    }
    let r = Shape::List(items);
    assert(r@ == ShapeView::List(job_items(*json))) by {
        if let ShapeView::List(s) = r@ {
            assert(s =~= job_items(*json));
        }
    }
    r
}

/// Each entry is read from the job's own members alone: its name and its
/// status from its `settings` (`name`, else unknown; the classification of
/// `format`, empty where absent), its detail from `job_id` written in
/// decimal; whatever else the object holds does not matter. There is one
/// entry per object, in order.
pub proof fn lemma_job_item_reads_its_members(a: Json, b: Json, json: Json, k: int)
    ensures
        field(a, "settings"@) == field(b, "settings"@) ==> job_item(a).name == job_item(b).name
            && job_item(a).status == job_item(b).status,
        field(a, "job_id"@) == field(b, "job_id"@) ==> job_item(a).detail == job_item(b).detail,
        text_of(field(field(a, "settings"@), "format"@)) matches Some(t) ==> job_item(a).status
            == status_of_upper(uppercase(t)),
        text_of(field(field(a, "settings"@), "name"@)) matches Some(t) ==> job_item(a).name == t,
        u64_of(field(a, "job_id"@)) matches Some(n) ==> job_item(a).detail == Some(decimal(n as nat)),
        u64_of(field(a, "job_id"@)) is None ==> job_item(a).detail is None,
        job_items(json).len() == elements(json).len(),
        0 <= k < elements(json).len() ==> job_items(json)[k] == job_item(elements(json)[k]),
{
}

} // verus!
