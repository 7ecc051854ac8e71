//! The report as a static site: which resources get a detail, a raw and a
//! logs script, and the text of each script and of the index page. The
//! JSON inside the scripts is written by the caller.
use crate::report::{ResourceData, ResourceDataView, TriageMustGatherData};
use crate::resources::join3;
use crate::text::{decimal, usize_to_text};
use vstd::prelude::*;

verus! {

/// The lists of resources that get a detail and a raw script, in the order
/// they are written.
pub open spec fn site_lists(d: TriageMustGatherData) -> Seq<Seq<ResourceDataView>> {
    seq![
        d.overview.cluster_health.operators.deep_view(),
        d.overview.cluster_health.installed_operators.items.deep_view(),
        d.core.nodes.items.deep_view(),
        d.core.namespaces.items.deep_view(),
        d.core.events.items.deep_view(),
        d.compute.machines.items.deep_view(),
        d.compute.machine_health_checks.items.deep_view(),
        d.compute.machine_autoscalers.items.deep_view(),
        d.compute.control_plane_machine_sets.items.deep_view(),
        d.compute.machine_sets.items.deep_view(),
        d.compute.machine_configs.items.deep_view(),
        d.compute.machine_config_pools.items.deep_view(),
        d.compute.machine_configurations.items.deep_view(),
        d.security.cluster_roles.items.deep_view(),
        d.security.cluster_role_bindings.items.deep_view(),
        d.security.security_context_constraints.items.deep_view(),
        d.administration.cluster_settings.items.deep_view(),
        d.administration.namespaces.items.deep_view(),
        d.administration.resource_quotas.items.deep_view(),
        d.administration.limit_ranges.items.deep_view(),
        d.administration.custom_resource_definitions.items.deep_view(),
        d.administration.dynamic_plugins.items.deep_view(),
        d.core.workloads.pods.items.deep_view(),
        d.core.workloads.deployments.items.deep_view(),
        d.core.workloads.statefulsets.items.deep_view(),
        d.core.workloads.configmaps.items.deep_view(),
        d.core.workloads.secrets.items.deep_view(),
        d.core.workloads.daemonsets.items.deep_view(),
        d.core.workloads.jobs.items.deep_view(),
        d.core.workloads.cronjobs.items.deep_view(),
        d.core.workloads.replicasets.items.deep_view(),
        d.infrastructure.networking.routes.items.deep_view(),
        d.infrastructure.networking.services.items.deep_view(),
        d.infrastructure.networking.endpoints.items.deep_view(),
        d.infrastructure.networking.network_policies.items.deep_view(),
        d.infrastructure.networking.ingress_controllers.items.deep_view(),
        d.infrastructure.storage.pvcs.items.deep_view(),
        d.infrastructure.storage.pvs.items.deep_view(),
        d.infrastructure.storage.storage_classes.items.deep_view(),
        d.infrastructure.storage.volume_attachments.items.deep_view(),
        d.platform.virtualization.hyperconvergeds.items.deep_view(),
        d.platform.virtualization.kubevirts.items.deep_view(),
        d.platform.virtualization.virtual_machines.items.deep_view(),
        d.platform.virtualization.virtual_machine_instances.items.deep_view(),
        d.platform.virtualization.virtual_machine_pools.items.deep_view(),
        d.platform.virtualization.virtual_machine_exports.items.deep_view(),
        d.platform.virtualization.virtual_machine_clones.items.deep_view(),
        d.platform.virtualization.virtual_machine_snapshots.items.deep_view(),
        d.platform.virtualization.virtual_machine_snapshot_contents.items.deep_view(),
        d.platform.virtualization.virtual_machine_restores.items.deep_view(),
        d.platform.virtualization.data_volumes.items.deep_view(),
        d.platform.virtualization.data_sources.items.deep_view(),
        d.platform.virtualization.data_import_crons.items.deep_view(),
        d.platform.virtualization.instance_types.items.deep_view(),
        d.platform.virtualization.preferences.items.deep_view(),
    ]
}

/// The lists of resources that get a detail and a raw script, in order.
pub fn site_resource_lists<'a>(d: &'a TriageMustGatherData) -> (r: Vec<&'a Vec<ResourceData>>)
    ensures
        r@.map_values(|v: &Vec<ResourceData>| v.deep_view()) == site_lists(*d),
{
    let mut out: Vec<&'a Vec<ResourceData>> = Vec::new();
    out.push(&d.overview.cluster_health.operators);
    out.push(&d.overview.cluster_health.installed_operators.items);
    out.push(&d.core.nodes.items);
    out.push(&d.core.namespaces.items);
    out.push(&d.core.events.items);
    out.push(&d.compute.machines.items);
    out.push(&d.compute.machine_health_checks.items);
    out.push(&d.compute.machine_autoscalers.items);
    out.push(&d.compute.control_plane_machine_sets.items);
    out.push(&d.compute.machine_sets.items);
    out.push(&d.compute.machine_configs.items);
    out.push(&d.compute.machine_config_pools.items);
    out.push(&d.compute.machine_configurations.items);
    out.push(&d.security.cluster_roles.items);
    out.push(&d.security.cluster_role_bindings.items);
    out.push(&d.security.security_context_constraints.items);
    out.push(&d.administration.cluster_settings.items);
    out.push(&d.administration.namespaces.items);
    out.push(&d.administration.resource_quotas.items);
    out.push(&d.administration.limit_ranges.items);
    out.push(&d.administration.custom_resource_definitions.items);
    out.push(&d.administration.dynamic_plugins.items);
    out.push(&d.core.workloads.pods.items);
    out.push(&d.core.workloads.deployments.items);
    out.push(&d.core.workloads.statefulsets.items);
    out.push(&d.core.workloads.configmaps.items);
    out.push(&d.core.workloads.secrets.items);
    out.push(&d.core.workloads.daemonsets.items);
    out.push(&d.core.workloads.jobs.items);
    out.push(&d.core.workloads.cronjobs.items);
    out.push(&d.core.workloads.replicasets.items);
    out.push(&d.infrastructure.networking.routes.items);
    out.push(&d.infrastructure.networking.services.items);
    out.push(&d.infrastructure.networking.endpoints.items);
    out.push(&d.infrastructure.networking.network_policies.items);
    out.push(&d.infrastructure.networking.ingress_controllers.items);
    out.push(&d.infrastructure.storage.pvcs.items);
    out.push(&d.infrastructure.storage.pvs.items);
    out.push(&d.infrastructure.storage.storage_classes.items);
    out.push(&d.infrastructure.storage.volume_attachments.items);
    out.push(&d.platform.virtualization.hyperconvergeds.items);
    out.push(&d.platform.virtualization.kubevirts.items);
    out.push(&d.platform.virtualization.virtual_machines.items);
    out.push(&d.platform.virtualization.virtual_machine_instances.items);
    out.push(&d.platform.virtualization.virtual_machine_pools.items);
    out.push(&d.platform.virtualization.virtual_machine_exports.items);
    out.push(&d.platform.virtualization.virtual_machine_clones.items);
    out.push(&d.platform.virtualization.virtual_machine_snapshots.items);
    out.push(&d.platform.virtualization.virtual_machine_snapshot_contents.items);
    out.push(&d.platform.virtualization.virtual_machine_restores.items);
    out.push(&d.platform.virtualization.data_volumes.items);
    out.push(&d.platform.virtualization.data_sources.items);
    out.push(&d.platform.virtualization.data_import_crons.items);
    out.push(&d.platform.virtualization.instance_types.items);
    out.push(&d.platform.virtualization.preferences.items);
    assert(out@.map_values(|v: &Vec<ResourceData>| v.deep_view()) =~= site_lists(*d));
    out
}

/// Whether a resource gets a logs script.
pub fn writes_logs(resource: &ResourceData) -> (r: bool)
    ensures
        r == (resource@.logs_path is Some),
{
    match &resource.logs_path {
        Some(_) => true,
        None => false,
    }
}

/// The file name of a resource's scripts: its uid and `.js`.
pub open spec fn script_file_name(uid: Seq<char>) -> Seq<char> {
    uid + ".js"@
}

/// The file name of a resource's scripts.
pub fn script_file(uid: &str) -> (r: String)
    ensures
        r@ == script_file_name(uid@),
{
    let mut s = String::from_str(uid);
    s.append(".js");
    s
}

/// A script that records `json` under `uid` in the global table `table`.
pub open spec fn table_script(table: Seq<char>, uid: Seq<char>, json: Seq<char>) -> Seq<char> {
    "window."@ + table + " = window."@ + table + " || {};\nwindow."@ + table + "[\""@ + uid
        + "\"] = "@ + json + ";\n"@
}

/// Writes a script that records `json` under `uid` in a global table.
fn table_script_text(table: &str, uid: &str, json: &str) -> (r: String)
    ensures
        r@ == table_script(table@, uid@, json@),
{
    let mut s = join3("window.", table, " = window.");
    s.append(table);
    s.append(" || {};\nwindow.");
    s.append(table);
    s.append("[\"");
    s.append(uid);
    s.append("\"] = ");
    s.append(json);
    s.append(";\n");
    s
}

/// The detail script of a resource, given the JSON of the resource without
/// its raw text and logs.
pub fn detail_script(uid: &str, json: &str) -> (r: String)
    ensures
        r@ == table_script("__MGA_RESOURCE_DETAILS__"@, uid@, json@),
{
    table_script_text("__MGA_RESOURCE_DETAILS__", uid, json)
}

/// The raw script of a resource, given the JSON of its raw text.
pub fn raw_script(uid: &str, json: &str) -> (r: String)
    ensures
        r@ == table_script("__MGA_RESOURCE_RAW__"@, uid@, json@),
{
    table_script_text("__MGA_RESOURCE_RAW__", uid, json)
}

/// The logs script of a resource, given the JSON of its logs.
pub fn logs_script(uid: &str, json: &str) -> (r: String)
    ensures
        r@ == table_script("__MGA_RESOURCE_LOGS__"@, uid@, json@),
{
    table_script_text("__MGA_RESOURCE_LOGS__", uid, json)
}

/// The summary script, given the JSON of the summary data.
pub open spec fn summary_script_text(json: Seq<char>) -> Seq<char> {
    "window.__MGA_DATA__ = "@ + json + ";\n"@
}

/// The summary script.
pub fn summary_script(json: &str) -> (r: String)
    ensures
        r@ == summary_script_text(json@),
{
    join3("window.__MGA_DATA__ = ", json, ";\n")
}

/// The version the index page asks the assets under: the sum of their
/// lengths, wrapping.
pub open spec fn asset_version(js_len: usize, css_len: usize) -> Seq<char> {
    if js_len + css_len > usize::MAX {
        decimal(js_len + css_len - (usize::MAX + 1))
    } else {
        decimal(js_len + css_len)
    }
}

/// The index page of the site.
pub open spec fn index_page(js_len: usize, css_len: usize) -> Seq<char> {
    let v = asset_version(js_len, css_len);
    "<!DOCTYPE html>\n<html lang=\"en\">\n<head>\n    <meta charset=\"UTF-8\">\n    <meta name=\"viewport\" content=\"width=device-width, initial-scale=1.0\">\n    <title>Must-Gather Explorer</title>\n    <link rel=\"stylesheet\" href=\"assets/index.css?v="@
        + v
        + "\">\n</head>\n<body>\n    <div id=\"root\"></div>\n    <script src=\"data/summary.js\"></script>\n    <script src=\"assets/index.js?v="@
        + v + "\"></script>\n</body>\n</html>"@
}

/// Writes the index page of the site for assets of the given lengths.
pub fn site_index_html(js_len: usize, css_len: usize) -> (r: String)
    ensures
        r@ == index_page(js_len, css_len),
{
    let sum = js_len.wrapping_add(css_len);
    let v = usize_to_text(sum);
    let mut s = String::from_str(
        "<!DOCTYPE html>\n<html lang=\"en\">\n<head>\n    <meta charset=\"UTF-8\">\n    <meta name=\"viewport\" content=\"width=device-width, initial-scale=1.0\">\n    <title>Must-Gather Explorer</title>\n    <link rel=\"stylesheet\" href=\"assets/index.css?v=",
    );
    s.append(v.as_str());
    s.append(
        "\">\n</head>\n<body>\n    <div id=\"root\"></div>\n    <script src=\"data/summary.js\"></script>\n    <script src=\"assets/index.js?v=",
    );
    s.append(v.as_str());
    s.append("\"></script>\n</body>\n</html>");
    s
}

/// The one-page report: the styles, the data and the application inline.
pub open spec fn html_page(css: Seq<char>, json: Seq<char>, js: Seq<char>) -> Seq<char> {
    "<!DOCTYPE html>\n<html lang=\"en\">\n<head>\n    <meta charset=\"UTF-8\">\n    <meta name=\"viewport\" content=\"width=device-width, initial-scale=1.0\">\n    <title>Must-Gather Explorer</title>\n    <style>"@
        + css
        + "</style>\n</head>\n<body>\n    <div id=\"root\"></div>\n    <script id=\"must-gather-data\" type=\"application/json\">"@
        + json + "</script>\n    <script type=\"module\">"@ + js + "</script>\n</body>\n</html>"@
}

/// Writes the one-page report around the data's JSON.
pub fn html_page_text(css: &str, json: &str, js: &str) -> (r: String)
    ensures
        r@ == html_page(css@, json@, js@),
{
    let mut s = String::from_str(
        "<!DOCTYPE html>\n<html lang=\"en\">\n<head>\n    <meta charset=\"UTF-8\">\n    <meta name=\"viewport\" content=\"width=device-width, initial-scale=1.0\">\n    <title>Must-Gather Explorer</title>\n    <style>",
    );
    s.append(css);
    s.append(
        "</style>\n</head>\n<body>\n    <div id=\"root\"></div>\n    <script id=\"must-gather-data\" type=\"application/json\">",
    );
    s.append(json);
    s.append("</script>\n    <script type=\"module\">");
    s.append(js);
    s.append("</script>\n</body>\n</html>");
    s
}

} // verus!
