//! The layout of a generated chart: which files a resource's chart consists
//! of, where they go, and the default generators behind the generation
//! traits.

use vstd::prelude::*;

use crate::chart_gen::{is_chart_for, pair_views};
use crate::config::HelmConfig;
use crate::model::ChartYaml;
use crate::fluxcd_gen::{
    generate_helmrelease, generate_kustomization, helmrelease_text, kustomization_text, release_chart_name,
    release_file, FluxCdConfig,
};
use crate::ir::{ArtifactKind, GeneratedArtifact, IacResource};
use crate::naming::{dns1123_label, empty_label_message, kebab, to_kebab_case, validate_dns1123};
use crate::traits::{ChartGenerator, SchemaGenerator, TemplateGenerator, TestFileGenerator, ValuesGenerator};

verus! {

/// The contents of a resource's chart files, as the generators produced
/// them.
pub struct ChartContents {
    /// `Chart.yaml`.
    pub chart: String,
    /// `values.yaml`.
    pub values: String,
    /// `values.schema.json`.
    pub schema: String,
    /// `templates/_helpers.tpl`.
    pub helpers: String,
    /// Further templates: (file name under `templates/`, content).
    pub delegates: Vec<(String, String)>,
    /// `templates/prometheusrule.yaml`.
    pub prometheusrule: String,
    /// `templates/configmap.yaml` (left out when empty).
    pub configmap: String,
    /// `templates/secret.yaml` (left out when empty).
    pub secret: String,
    /// `tests/deployment_test.yaml`.
    pub test: String,
    /// The FluxCD HelmRelease, when FluxCD output is enabled.
    pub helmrelease: Option<String>,
}

/// The path, content and kind of an artifact.
pub open spec fn artifact_view(a: GeneratedArtifact) -> (Seq<char>, Seq<char>, ArtifactKind) {
    (a.path@, a.content@, a.kind)
}

/// The paths, contents and kinds of a sequence of artifacts.
pub open spec fn artifact_views(s: Seq<GeneratedArtifact>) -> Seq<(Seq<char>, Seq<char>, ArtifactKind)> {
    s.map_values(|a: GeneratedArtifact| artifact_view(a))
}

/// The delegate templates under `<base>/templates/`.
pub open spec fn delegate_entries(base: Seq<char>, ds: Seq<(String, String)>) -> Seq<(Seq<char>, Seq<char>, ArtifactKind)>
    decreases ds.len(),
{
    if ds.len() == 0 {
        Seq::empty()
    } else {
        delegate_entries(base, ds.drop_last()).push(
            (base + "/templates/"@ + ds.last().0@, ds.last().1@, ArtifactKind::Resource),
        )
    }
}

/// A file that is present only when its content is not empty.
pub open spec fn optional_entry(path: Seq<char>, content: Seq<char>) -> Seq<(Seq<char>, Seq<char>, ArtifactKind)> {
    if content.len() > 0 {
        seq![(path, content, ArtifactKind::Resource)]
    } else {
        Seq::empty()
    }
}

/// The files of the chart of the resource named `raw`, in order, under
/// `charts/<kebab-case name>`: Chart.yaml, values.yaml, values.schema.json,
/// the helpers, the delegate templates, the PrometheusRule, the ConfigMap and
/// Secret when not empty, the deployment test, and the FluxCD HelmRelease
/// (`fluxcd/` and the file the kustomization lists) when there is one.
pub open spec fn chart_layout(raw: Seq<char>, c: ChartContents) -> Seq<(Seq<char>, Seq<char>, ArtifactKind)> {
    let base = "charts/"@ + kebab(raw);
    seq![
        (base + "/Chart.yaml"@, c.chart@, ArtifactKind::Resource),
        (base + "/values.yaml"@, c.values@, ArtifactKind::Resource),
        (base + "/values.schema.json"@, c.schema@, ArtifactKind::Schema),
        (base + "/templates/_helpers.tpl"@, c.helpers@, ArtifactKind::Resource),
    ] + delegate_entries(base, c.delegates@) + seq![
        (base + "/templates/prometheusrule.yaml"@, c.prometheusrule@, ArtifactKind::Resource),
    ] + optional_entry(base + "/templates/configmap.yaml"@, c.configmap@)
        + optional_entry(base + "/templates/secret.yaml"@, c.secret@) + seq![
        (base + "/tests/deployment_test.yaml"@, c.test@, ArtifactKind::Test),
    ] + match c.helmrelease {
        Some(h) => seq![("fluxcd/"@ + release_file(raw), h@, ArtifactKind::Resource)],
        None => Seq::empty(),
    }
}

fn artifact(path: String, content: String, kind: ArtifactKind) -> (res: GeneratedArtifact)
    ensures
        artifact_view(res) == (path@, content@, kind),
{
    GeneratedArtifact { path, content, kind }
}

fn path_of(base: &str, rest: &str) -> (res: String)
    ensures
        res@ == base@ + rest@,
{
    let mut p = String::from_str(base);
    p.append(rest);
    p
}

fn push_artifact(out: &mut Vec<GeneratedArtifact>, a: GeneratedArtifact)
    ensures
        artifact_views(final(out)@) == artifact_views(old(out)@).push(artifact_view(a)),
{
    let ghost before = out@;
    out.push(a);
    assert(artifact_views(out@) =~= artifact_views(before).push(artifact_view(a)));
}

/// The artifacts of a resource's chart, laid out by [`chart_layout`]. A
/// name that normalises to no DNS-1123 label is refused with the
/// normalisation's message.
pub fn assemble_chart(resource_name: &str, contents: ChartContents) -> (res: Result<Vec<GeneratedArtifact>, String>)
    ensures
        res is Err <==> dns1123_label(resource_name@).len() == 0,
        match res {
            Ok(v) => artifact_views(v@) == chart_layout(resource_name@, contents),
            Err(msg) => msg@ == empty_label_message(resource_name@),
        },
{
    let name = match validate_dns1123(resource_name) {
        Ok(r) => String::from_str(r.name()),
        Err(e) => {
            return Err(e);
        },
    };
    assert(name@ == release_chart_name(resource_name@));
    let dir = to_kebab_case(resource_name);
    let ghost c = contents;
    let ChartContents { chart, values, schema, helpers, delegates, prometheusrule, configmap, secret, test, helmrelease } = contents;
    let base = path_of("charts/", dir.as_str());
    let mut out: Vec<GeneratedArtifact> = Vec::new();
    assert(artifact_views(out@) =~= Seq::empty());
    push_artifact(&mut out, artifact(path_of(base.as_str(), "/Chart.yaml"), chart, ArtifactKind::Resource));
    push_artifact(&mut out, artifact(path_of(base.as_str(), "/values.yaml"), values, ArtifactKind::Resource));
    push_artifact(&mut out, artifact(path_of(base.as_str(), "/values.schema.json"), schema, ArtifactKind::Schema));
    push_artifact(
        &mut out,
        artifact(path_of(base.as_str(), "/templates/_helpers.tpl"), helpers, ArtifactKind::Resource),
    );
    let ghost head = artifact_views(out@);
    let ghost ds = delegates@;
    let templates_base = path_of(base.as_str(), "/templates/");
    let mut k: usize = 0;
    while k < delegates.len()
        invariant
            0 <= k <= delegates.len(),
            ds == delegates@,
            templates_base@ == base@ + "/templates/"@,
            artifact_views(out@) == head + delegate_entries(base@, ds.take(k as int)),
        decreases delegates.len() - k,
    {
        assert(ds.take(k + 1).drop_last() =~= ds.take(k as int));
        assert((base@ + "/templates/"@) + ds[k as int].0@ =~= base@ + "/templates/"@ + ds[k as int].0@);
        push_artifact(
            &mut out,
            artifact(
                path_of(templates_base.as_str(), delegates[k].0.as_str()),
                delegates[k].1.clone(),
                ArtifactKind::Resource,
            ),
        );
        k = k + 1;
    }
    assert(ds.take(k as int) =~= ds);
    push_artifact(
        &mut out,
        artifact(path_of(base.as_str(), "/templates/prometheusrule.yaml"), prometheusrule, ArtifactKind::Resource),
    );
    if configmap.as_str().unicode_len() > 0 {
        push_artifact(
            &mut out,
            artifact(path_of(base.as_str(), "/templates/configmap.yaml"), configmap, ArtifactKind::Resource),
        );
    }
    if secret.as_str().unicode_len() > 0 {
        push_artifact(
            &mut out,
            artifact(path_of(base.as_str(), "/templates/secret.yaml"), secret, ArtifactKind::Resource),
        );
    }
    push_artifact(
        &mut out,
        artifact(path_of(base.as_str(), "/tests/deployment_test.yaml"), test, ArtifactKind::Test),
    );
    match helmrelease {
        Some(h) => {
            let p = path_of(path_of("fluxcd/helmrelease-", name.as_str()).as_str(), ".yaml");
            proof {
                reveal_strlit("fluxcd/helmrelease-");
                reveal_strlit("fluxcd/");
                reveal_strlit("helmrelease-");
            }
            assert(p@ =~= "fluxcd/"@ + release_file(resource_name@));
            push_artifact(&mut out, artifact(p, h, ArtifactKind::Resource));
        },
        None => {},
    }
    assert(artifact_views(out@) =~= chart_layout(resource_name@, c));
    Ok(out)
}

fn owned_delegates(ds: Vec<(&'static str, String)>) -> (res: Vec<(String, String)>)
    ensures
        pair_views(res@) == ds@.map_values(|p: (&'static str, String)| (p.0@, p.1@)),
{
    let mut out: Vec<(String, String)> = Vec::new();
    let mut k: usize = 0;
    while k < ds.len()
        invariant
            0 <= k <= ds.len(),
            pair_views(out@) == ds@.take(k as int).map_values(|p: (&'static str, String)| (p.0@, p.1@)),
        decreases ds.len() - k,
    {
        let ghost before = out@;
        out.push((String::from_str(ds[k].0), ds[k].1.clone()));
        assert(pair_views(out@) =~= pair_views(before).push((ds@[k as int].0@, ds@[k as int].1@)));
        assert(ds@.take(k + 1).map_values(|p: (&'static str, String)| (p.0@, p.1@)) =~= ds@.take(
            k as int,
        ).map_values(|p: (&'static str, String)| (p.0@, p.1@)).push((ds@[k as int].0@, ds@[k as int].1@)));
        k = k + 1;
    }
    assert(ds@.take(ds.len() as int) =~= ds@);
    out
}

/// The artifacts of a resource's chart: each generator is asked for its
/// file, given the resource (and, for `Chart.yaml`, the provider name), and
/// what it returns stands at that file's place in [`chart_layout`]; the
/// HelmRelease is there exactly when a FluxCD configuration is given. A
/// resource name that normalises to no DNS-1123 label is refused, as in
/// [`assemble_chart`].
pub fn generate_resource_artifacts(
    chart_gen: &dyn ChartGenerator,
    values_gen: &dyn ValuesGenerator,
    schema_gen: &dyn SchemaGenerator,
    template_gen: &dyn TemplateGenerator,
    test_gen: &dyn TestFileGenerator,
    fluxcd: Option<&FluxCdConfig>,
    resource: &IacResource,
    provider_name: &str,
) -> (res: Result<Vec<GeneratedArtifact>, String>)
    ensures
        res is Err <==> dns1123_label(resource.name@).len() == 0,
        match res {
            Ok(v) => exists|c: ChartContents|
                #![trigger chart_layout(resource.name@, c)]
                {
                    &&& artifact_views(v@) == chart_layout(resource.name@, c)
                    &&& chart_gen.chart_ok(*resource, provider_name@, c.chart@)
                    &&& values_gen.values_ok(*resource, c.values@)
                    &&& schema_gen.schema_ok(*resource, c.schema@)
                    &&& template_gen.helpers_ok(*resource, c.helpers@)
                    &&& template_gen.delegates_ok(pair_views(c.delegates@))
                    &&& template_gen.prometheusrule_ok(*resource, c.prometheusrule@)
                    &&& template_gen.configmap_ok(*resource, c.configmap@)
                    &&& template_gen.secret_ok(*resource, c.secret@)
                    &&& test_gen.test_ok(*resource, c.test@)
                    &&& (c.helmrelease is Some <==> fluxcd is Some)
                    &&& (fluxcd is Some ==> c.helmrelease->0@ == helmrelease_text(
                        release_chart_name(resource.name@),
                        *fluxcd->0,
                    ))
                },
            Err(msg) => msg@ == empty_label_message(resource.name@),
        },
{
    let chart = chart_gen.generate(resource, provider_name);
    let values = values_gen.generate(resource);
    let schema = schema_gen.generate(resource);
    let helpers = template_gen.helpers(resource);
    let delegates = owned_delegates(template_gen.delegate_templates());
    let prometheusrule = template_gen.prometheusrule(resource);
    let configmap = template_gen.configmap(resource);
    let secret = template_gen.secret(resource);
    let test = test_gen.generate(resource);
    let helmrelease = match fluxcd {
        Some(cfg) => Some(generate_helmrelease(resource, provider_name, cfg)),
        None => None,
    };
    let contents = ChartContents {
        chart,
        values,
        schema,
        helpers,
        delegates,
        prometheusrule,
        configmap,
        secret,
        test,
        helmrelease,
    };
    assemble_chart(resource.name.as_str(), contents)
}

/// The test artifacts of a resource: its deployment test under the
/// kebab-case chart directory.
pub fn test_artifacts(resource_name: &str, content: String) -> (res: Vec<GeneratedArtifact>)
    ensures
        artifact_views(res@) == seq![
            ("charts/"@ + kebab(resource_name@) + "/tests/deployment_test.yaml"@, content@, ArtifactKind::Test),
        ],
{
    let name = to_kebab_case(resource_name);
    let base = path_of("charts/", name.as_str());
    let mut out: Vec<GeneratedArtifact> = Vec::new();
    assert(artifact_views(out@) =~= Seq::empty());
    push_artifact(&mut out, artifact(path_of(base.as_str(), "/tests/deployment_test.yaml"), content, ArtifactKind::Test));
    assert(artifact_views(out@) =~= seq![
        ("charts/"@ + kebab(resource_name@) + "/tests/deployment_test.yaml"@, content@, ArtifactKind::Test),
    ]);
    out
}

/// The provider-level artifacts: with FluxCD output enabled, the
/// kustomization that lists the HelmRelease of every resource; nothing
/// otherwise.
pub fn provider_artifacts(fluxcd: Option<&FluxCdConfig>, resources: &[IacResource]) -> (res: Vec<GeneratedArtifact>)
    ensures
        artifact_views(res@) == if fluxcd is Some {
            seq![("fluxcd/kustomization.yaml"@, kustomization_text(resources@), ArtifactKind::Resource)]
        } else {
            Seq::empty()
        },
{
    let mut out: Vec<GeneratedArtifact> = Vec::new();
    assert(artifact_views(out@) =~= Seq::empty());
    if fluxcd.is_some() {
        let k = generate_kustomization(resources);
        push_artifact(&mut out, artifact(String::from_str("fluxcd/kustomization.yaml"), k, ArtifactKind::Resource));
        assert(artifact_views(out@) =~= seq![
            ("fluxcd/kustomization.yaml"@, kustomization_text(resources@), ArtifactKind::Resource),
        ]);
    }
    out
}

/// The chart's directory is named after the chart: whatever the generators
/// produce, `Chart.yaml` of a resource's chart lies at
/// `charts/<name>/Chart.yaml`, where `<name>` is the `name` that the
/// resource's `Chart.yaml` data declares.
pub proof fn chart_directory_is_chart_name(
    r: IacResource,
    provider: Seq<char>,
    cfg: HelmConfig,
    chart: ChartYaml,
    c: ChartContents,
)
    requires
        is_chart_for(chart, r, provider, cfg),
    ensures
        chart_layout(r.name@, c)[0].0 == "charts/"@ + chart.name@ + "/Chart.yaml"@,
        chart_layout(r.name@, c)[0].1 == c.chart@,
{
}

} // verus!
