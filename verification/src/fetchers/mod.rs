//! Turning the Databricks CLI's JSON responses into panel shapes. Each module
//! names the CLI command whose output it reads and maps that output.

pub mod catalog;
pub mod clusters;
pub mod current_user;
pub mod jobs;
pub mod pipelines;
pub mod warehouses;

use vstd::prelude::*;
use crate::app::Panel;
use crate::json::Json;
use crate::shape::{Shape, ShapeView};

verus! {

/// The CLI arguments of the listing shown in a panel.
pub open spec fn panel_command_of(panel: Panel) -> Seq<Seq<char>> {
    match panel {
        Panel::Clusters => seq!["clusters"@, "list"@],
        Panel::Jobs => seq!["jobs"@, "list"@],
        Panel::Pipelines => seq!["pipelines"@, "list-pipelines"@],
        Panel::Warehouses => seq!["warehouses"@, "list"@],
    }
}

/// What a panel shows for the output of its listing.
pub open spec fn panel_shape_of(panel: Panel, json: Json) -> ShapeView {
    match panel {
        Panel::Clusters => ShapeView::List(clusters::cluster_items(json)),
        Panel::Jobs => ShapeView::List(jobs::job_items(json)),
        Panel::Pipelines => ShapeView::List(pipelines::pipeline_items(json)),
        Panel::Warehouses => ShapeView::List(warehouses::warehouse_items(json)),
    }
}

/// The CLI arguments of the listing that fills a panel's slot.
pub fn panel_command(panel: Panel) -> (r: Vec<&'static str>)
    ensures
        r@.map_values(|a: &str| a@) == panel_command_of(panel),
{
    match panel {
        Panel::Clusters => clusters::command(),
        Panel::Jobs => jobs::command(),
        Panel::Pipelines => pipelines::command(),
        Panel::Warehouses => warehouses::command(),
    }
}

/// What a panel shows for the output of [`panel_command`].
pub fn panel_shape(panel: Panel, json: &Json) -> (r: Shape)
    ensures
        r@ == panel_shape_of(panel, *json),
{
    match panel {
        Panel::Clusters => clusters::fetch(json),
        Panel::Jobs => jobs::fetch(json),
        Panel::Pipelines => pipelines::fetch(json),
        Panel::Warehouses => warehouses::fetch(json),
    }
}

} // verus!
