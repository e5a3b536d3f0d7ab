//! `Chart.yaml` metadata for a resource chart.

use vstd::prelude::*;

use crate::config::HelmConfig;
use crate::ir::IacResource;
use crate::model::{ChartDependency, ChartYaml};
use crate::naming::{kebab, to_kebab_case};

verus! {

/// The chart description: the resource's own, or `Helm chart for <name>`
/// when it has none.
pub open spec fn chart_description(r: IacResource) -> Seq<char> {
    if r.description@.len() == 0 {
        "Helm chart for "@ + r.name@
    } else {
        r.description@
    }
}

/// The views of (key, value) string pairs.
pub open spec fn pair_views(s: Seq<(String, String)>) -> Seq<(Seq<char>, Seq<char>)> {
    s.map_values(|p: (String, String)| (p.0@, p.1@))
}

/// The `Chart.yaml` of a resource: an application chart (API `v2`) named
/// after the kebab-case resource name, with the configured versions, one
/// dependency on the library chart, and the category, generated-marker and
/// provider annotations.
pub open spec fn is_chart_for(c: ChartYaml, r: IacResource, provider: Seq<char>, cfg: HelmConfig) -> bool {
    &&& c.api_version@ == "v2"@
    &&& c.name@ == kebab(r.name@)
    &&& c.description@ == chart_description(r)
    &&& c.chart_type@ == "application"@
    &&& c.version@ == cfg.default_chart_version@
    &&& c.app_version@ == cfg.default_app_version@
    &&& c.dependencies@.len() == 1
    &&& c.dependencies@[0].name@ == cfg.lib_chart_name@
    &&& c.dependencies@[0].version@ == cfg.lib_chart_version@
    &&& c.dependencies@[0].repository@ == cfg.lib_chart_repository@
    &&& pair_views(c.annotations@) == seq![
        ("pleme.io/category"@, r.category@),
        ("pleme.io/generated"@, "true"@),
        ("pleme.io/provider"@, provider),
    ]
}

/// Builds the `Chart.yaml` data of a resource from its provider and the
/// configuration.
pub fn build_chart_yaml(resource: &IacResource, provider_name: &str, config: &HelmConfig) -> (res: ChartYaml)
    ensures
        is_chart_for(res, *resource, provider_name@, *config),
{
    let chart_name = to_kebab_case(resource.name.as_str());
    let description = if resource.description.as_str().unicode_len() == 0 {
        let mut d = String::from_str("Helm chart for ");
        d.append(resource.name.as_str());
        d
    } else {
        resource.description.clone()
    };
    let mut annotations: Vec<(String, String)> = Vec::new();
    annotations.push((String::from_str("pleme.io/category"), resource.category.clone()));
    annotations.push((String::from_str("pleme.io/generated"), String::from_str("true")));
    annotations.push((String::from_str("pleme.io/provider"), String::from_str(provider_name)));
    assert(pair_views(annotations@) =~= seq![
        ("pleme.io/category"@, resource.category@),
        ("pleme.io/generated"@, "true"@),
        ("pleme.io/provider"@, provider_name@),
    ]);
    let mut dependencies: Vec<ChartDependency> = Vec::new();
    dependencies.push(ChartDependency {
        name: config.lib_chart_name.clone(),
        version: config.lib_chart_version.clone(),
        repository: config.lib_chart_repository.clone(),
    });
    ChartYaml {
        api_version: String::from_str("v2"),
        name: chart_name,
        description,
        chart_type: String::from_str("application"),
        version: config.default_chart_version.clone(),
        app_version: config.default_app_version.clone(),
        dependencies,
        annotations,
    }
}

} // verus!
