//! FluxCD: a `HelmRelease` manifest per resource chart and a Kustomize
//! `kustomization.yaml` listing them, for GitOps deployment.

use vstd::prelude::*;
use vstd::relations::sorted_by;

use crate::ir::IacResource;
use crate::naming::{dns1123_label, kebab, to_kebab_case, trim_end_hyphens, validate_dns1123, Dns1123Result};
use crate::ordering::{lex_order, sort_strings, views};
use crate::text::{
    contains_text, decimal, lemma_contains_extend, lemma_contains_middle, lemma_contains_prepend, push_decimal,
};

verus! {

/// Configuration of HelmRelease generation.
#[derive(Debug, Clone)]
pub struct FluxCdConfig {
    /// Namespace of the HelmRelease (default `"akeyless-system"`).
    pub namespace: String,
    /// Name of the chart source (default `"helm-akeyless-gen"`).
    pub source_name: String,
    /// Namespace of the source (default `"flux-system"`).
    pub source_namespace: String,
    /// Kind of the source (default `"GitRepository"`).
    pub source_kind: String,
    /// Reconciliation interval (default `"5m"`).
    pub interval: String,
    /// Chart polling interval (default `"1h"`).
    pub chart_interval: String,
    /// Install and upgrade remediation retries (default `3`).
    pub retries: u32,
}

/// The default FluxCD configuration, field by field.
pub open spec fn is_default_fluxcd_config(c: FluxCdConfig) -> bool {
    &&& c.namespace@ == "akeyless-system"@
    &&& c.source_name@ == "helm-akeyless-gen"@
    &&& c.source_namespace@ == "flux-system"@
    &&& c.source_kind@ == "GitRepository"@
    &&& c.interval@ == "5m"@
    &&& c.chart_interval@ == "1h"@
    &&& c.retries == 3
}

impl Default for FluxCdConfig {
    fn default() -> (c: Self)
        ensures
            is_default_fluxcd_config(c),
    {
        FluxCdConfig {
            namespace: String::from_str("akeyless-system"),
            source_name: String::from_str("helm-akeyless-gen"),
            source_namespace: String::from_str("flux-system"),
            source_kind: String::from_str("GitRepository"),
            interval: String::from_str("5m"),
            chart_interval: String::from_str("1h"),
            retries: 3,
        }
    }
}

/// Generates FluxCD HelmRelease manifests.
pub trait FluxCdGenerator {
    /// The HelmRelease manifest for a resource.
    fn generate(&self, resource: &IacResource, provider_name: &str) -> String;
}

/// The chart name of a resource's release: its DNS-1123 label (cut to 63
/// characters), or its kebab-case name when normalisation leaves nothing.
pub open spec fn release_chart_name(raw: Seq<char>) -> Seq<char> {
    let l = dns1123_label(raw);
    if l.len() == 0 {
        kebab(raw)
    } else if l.len() <= 63 {
        l
    } else {
        trim_end_hyphens(l.take(63))
    }
}

/// The metadata and spec head of a HelmRelease for chart `n`.
pub open spec fn release_head(n: Seq<char>, c: FluxCdConfig) -> Seq<char> {
    "apiVersion: helm.toolkit.fluxcd.io/v2\n"@ + "kind: HelmRelease\n"@ + "metadata:\n"@ + "  name: "@
        + n + "\n"@ + "  namespace: "@ + c.namespace@ + "\n"@ + "spec:\n"@ + "  interval: "@
        + c.interval@ + "\n"@
}

/// The chart block of a HelmRelease for chart `n`.
pub open spec fn release_chart(n: Seq<char>, c: FluxCdConfig) -> Seq<char> {
    "  chart:\n"@ + "    spec:\n"@ + "      chart: charts/"@ + n + "\n"@ + "      sourceRef:\n"@
        + "        kind: "@ + c.source_kind@ + "\n"@ + "        name: "@ + c.source_name@ + "\n"@
        + "        namespace: "@ + c.source_namespace@ + "\n"@ + "      interval: "@
        + c.chart_interval@ + "\n"@
}

/// The remediation block (install or upgrade) of a HelmRelease.
pub open spec fn remediation(action: Seq<char>, retries: u32) -> Seq<char> {
    "  "@ + action + ":\n"@ + "    remediation:\n"@ + "      retries: "@ + decimal(retries as nat)
        + "\n"@
}

/// The HelmRelease manifest of chart `n`.
pub open spec fn helmrelease_text(n: Seq<char>, c: FluxCdConfig) -> Seq<char> {
    release_head(n, c) + release_chart(n, c) + remediation("install"@, c.retries) + remediation(
        "upgrade"@,
        c.retries,
    ) + "  values: {}\n"@
}

fn push_release_head(s: &mut String, n: &str, c: &FluxCdConfig)
    ensures
        final(s)@ == old(s)@ + release_head(n@, *c),
{
    let ghost start = s@;
    s.append("apiVersion: helm.toolkit.fluxcd.io/v2\n");
    s.append("kind: HelmRelease\n");
    s.append("metadata:\n");
    s.append("  name: ");
    s.append(n);
    s.append("\n");
    s.append("  namespace: ");
    s.append(c.namespace.as_str());
    s.append("\n");
    s.append("spec:\n");
    s.append("  interval: ");
    s.append(c.interval.as_str());
    s.append("\n");
    assert(s@ =~= start + release_head(n@, *c));
}

fn push_release_chart(s: &mut String, n: &str, c: &FluxCdConfig)
    ensures
        final(s)@ == old(s)@ + release_chart(n@, *c),
{
    let ghost start = s@;
    s.append("  chart:\n");
    s.append("    spec:\n");
    s.append("      chart: charts/");
    s.append(n);
    s.append("\n");
    s.append("      sourceRef:\n");
    s.append("        kind: ");
    s.append(c.source_kind.as_str());
    s.append("\n");
    s.append("        name: ");
    s.append(c.source_name.as_str());
    s.append("\n");
    s.append("        namespace: ");
    s.append(c.source_namespace.as_str());
    s.append("\n");
    s.append("      interval: ");
    s.append(c.chart_interval.as_str());
    s.append("\n");
    assert(s@ =~= start + release_chart(n@, *c));
}

fn push_remediation(s: &mut String, action: &str, retries: u32)
    ensures
        final(s)@ == old(s)@ + remediation(action@, retries),
{
    let ghost start = s@;
    s.append("  ");
    s.append(action);
    s.append(":\n");
    s.append("    remediation:\n");
    s.append("      retries: ");
    push_decimal(s, retries as u64);
    s.append("\n");
    assert(s@ =~= start + remediation(action@, retries));
}

/// The chart name of a resource's release.
pub fn release_name(name: &str) -> (res: String)
    ensures
        res@ == release_chart_name(name@),
{
    match validate_dns1123(name) {
        Ok(r) => {
            let n = r.name();
            String::from_str(n)
        },
        Err(_) => to_kebab_case(name),
    }
}

/// A FluxCD `HelmRelease` for a resource's chart, named after the chart,
/// sourced from the configured repository, with the configured intervals and
/// remediation retries and empty values.
pub fn generate_helmrelease(resource: &IacResource, provider_name: &str, config: &FluxCdConfig) -> (res: String)
    ensures
        res@ == helmrelease_text(release_chart_name(resource.name@), *config),
{
    let n = release_name(resource.name.as_str());
    let mut s = String::new();
    push_release_head(&mut s, n.as_str(), config);
    push_release_chart(&mut s, n.as_str(), config);
    push_remediation(&mut s, "install", config.retries);
    push_remediation(&mut s, "upgrade", config.retries);
    s.append("  values: {}\n");
    assert(s@ =~= helmrelease_text(n@, *config));
    s
}

/// The default generator, backed by a FluxCD configuration.
#[derive(Debug, Clone)]
pub struct DefaultFluxCdGenerator {
    /// The configuration used for generation.
    pub config: FluxCdConfig,
}

impl FluxCdGenerator for DefaultFluxCdGenerator {
    fn generate(&self, resource: &IacResource, provider_name: &str) -> (res: String)
        ensures
            res@ == helmrelease_text(release_chart_name(resource.name@), self.config),
    {
        generate_helmrelease(resource, provider_name, &self.config)
    }
}

/// The file of a resource's HelmRelease.
pub open spec fn release_file(raw: Seq<char>) -> Seq<char> {
    "helmrelease-"@ + release_chart_name(raw) + ".yaml"@
}

/// The HelmRelease files of a sequence of resources, in their order.
pub open spec fn release_files(rs: Seq<IacResource>) -> Seq<Seq<char>> {
    rs.map_values(|r: IacResource| release_file(r.name@))
}

/// The resource entries of a kustomization.
pub open spec fn entry_lines(files: Seq<Seq<char>>) -> Seq<char>
    decreases files.len(),
{
    if files.len() == 0 {
        Seq::empty()
    } else {
        entry_lines(files.drop_last()) + "  - "@ + files.last() + "\n"@
    }
}

/// A kustomization listing the HelmRelease files of `rs` in alphabetical
/// order.
pub open spec fn kustomization_text(rs: Seq<IacResource>) -> Seq<char> {
    "apiVersion: kustomize.config.k8s.io/v1beta1\n"@ + "kind: Kustomization\n"@ + "resources:\n"@
        + entry_lines(release_files(rs).sort_by(lex_order()))
}

/// A Kustomize `kustomization.yaml` listing the HelmRelease file of every
/// resource, sorted alphabetically so that the output is deterministic.
pub fn generate_kustomization(resources: &[IacResource]) -> (res: String)
    ensures
        res@ == kustomization_text(resources@),
{
    let mut files: Vec<String> = Vec::new();
    let mut i: usize = 0;
    while i < resources.len()
        invariant
            0 <= i <= resources.len(),
            views(files@) == release_files(resources@.take(i as int)),
        decreases resources.len() - i,
    {
        let n = release_name(resources[i].name.as_str());
        let mut f = String::from_str("helmrelease-");
        f.append(n.as_str());
        f.append(".yaml");
        let ghost before = views(files@);
        let ghost fv = f@;
        assert(fv == release_file(resources@[i as int].name@));
        files.push(f);
        assert(views(files@) =~= before.push(fv));
        assert(resources@.take(i + 1) =~= resources@.take(i as int).push(resources@[i as int]));
        assert(release_files(resources@.take(i + 1)) =~= release_files(resources@.take(i as int)).push(fv));
        i = i + 1;
    }
    assert(resources@.take(resources.len() as int) =~= resources@);
    let sorted = sort_strings(&files);
    let ghost sv = views(sorted@);
    let mut s = String::from_str("apiVersion: kustomize.config.k8s.io/v1beta1\n");
    s.append("kind: Kustomization\n");
    s.append("resources:\n");
    let ghost head = s@;
    let mut j: usize = 0;
    while j < sorted.len()
        invariant
            0 <= j <= sorted.len(),
            sv == views(sorted@),
            s@ == head + entry_lines(sv.take(j as int)),
        decreases sorted.len() - j,
    {
        assert(sv.take(j + 1).drop_last() =~= sv.take(j as int));
        assert(sv[j as int] == sorted@[j as int]@);
        s.append("  - ");
        s.append(sorted[j].as_str());
        s.append("\n");
        j = j + 1;
    }
    assert(sv.take(sorted.len() as int) =~= sv);
    s
}

/// A kustomization lists every HelmRelease file exactly as often as there
/// are resources giving it, in alphabetical order.
pub proof fn kustomization_entries_sorted(rs: Seq<IacResource>)
    ensures
        sorted_by(release_files(rs).sort_by(lex_order()), lex_order()),
        release_files(rs).sort_by(lex_order()).to_multiset() == release_files(rs).to_multiset(),
{
    crate::ordering::lex_is_total_ordering();
    release_files(rs).lemma_sort_by_ensures(lex_order());
}

proof fn lemma_in_release_0(n: Seq<char>, c: FluxCdConfig, t: Seq<char>)
    requires
        contains_text(release_head(n, c), t),
    ensures
        contains_text(helmrelease_text(n, c), t),
{
    lemma_contains_extend(release_head(n, c), release_chart(n, c), t);
    lemma_contains_extend(release_head(n, c) + release_chart(n, c), remediation("install"@, c.retries), t);
    lemma_contains_extend(release_head(n, c) + release_chart(n, c) + remediation("install"@, c.retries), remediation("upgrade"@, c.retries), t);
    lemma_contains_extend(release_head(n, c) + release_chart(n, c) + remediation("install"@, c.retries) + remediation("upgrade"@, c.retries), "  values: {}\n"@, t);
}

proof fn lemma_in_release_1(n: Seq<char>, c: FluxCdConfig, t: Seq<char>)
    requires
        contains_text(release_chart(n, c), t),
    ensures
        contains_text(helmrelease_text(n, c), t),
{
    lemma_contains_prepend(release_head(n, c), release_chart(n, c), t);
    lemma_contains_extend(release_head(n, c) + release_chart(n, c), remediation("install"@, c.retries), t);
    lemma_contains_extend(release_head(n, c) + release_chart(n, c) + remediation("install"@, c.retries), remediation("upgrade"@, c.retries), t);
    lemma_contains_extend(release_head(n, c) + release_chart(n, c) + remediation("install"@, c.retries) + remediation("upgrade"@, c.retries), "  values: {}\n"@, t);
}

proof fn lemma_in_release_2(n: Seq<char>, c: FluxCdConfig, t: Seq<char>)
    requires
        contains_text(remediation("install"@, c.retries), t),
    ensures
        contains_text(helmrelease_text(n, c), t),
{
    lemma_contains_prepend(release_head(n, c) + release_chart(n, c), remediation("install"@, c.retries), t);
    lemma_contains_extend(release_head(n, c) + release_chart(n, c) + remediation("install"@, c.retries), remediation("upgrade"@, c.retries), t);
    lemma_contains_extend(release_head(n, c) + release_chart(n, c) + remediation("install"@, c.retries) + remediation("upgrade"@, c.retries), "  values: {}\n"@, t);
}

proof fn lemma_in_release_3(n: Seq<char>, c: FluxCdConfig, t: Seq<char>)
    requires
        contains_text(remediation("upgrade"@, c.retries), t),
    ensures
        contains_text(helmrelease_text(n, c), t),
{
    lemma_contains_prepend(release_head(n, c) + release_chart(n, c) + remediation("install"@, c.retries), remediation("upgrade"@, c.retries), t);
    lemma_contains_extend(release_head(n, c) + release_chart(n, c) + remediation("install"@, c.retries) + remediation("upgrade"@, c.retries), "  values: {}\n"@, t);
}

proof fn lemma_release_holds_name(n: Seq<char>, c: FluxCdConfig)
    ensures
        contains_text(helmrelease_text(n, c), "  name: "@ + n + "\n"@),
{
    let t = "  name: "@ + n + "\n"@;
    assert(release_head(n, c) =~= ("apiVersion: helm.toolkit.fluxcd.io/v2\n"@ + "kind: HelmRelease\n"@ + "metadata:\n"@) + t + ("  namespace: "@ + c.namespace@ + "\n"@ + "spec:\n"@ + "  interval: "@ + c.interval@ + "\n"@));
    lemma_contains_middle("apiVersion: helm.toolkit.fluxcd.io/v2\n"@ + "kind: HelmRelease\n"@ + "metadata:\n"@, t, "  namespace: "@ + c.namespace@ + "\n"@ + "spec:\n"@ + "  interval: "@ + c.interval@ + "\n"@);
    lemma_in_release_0(n, c, t);
}

proof fn lemma_release_holds_namespace(n: Seq<char>, c: FluxCdConfig)
    ensures
        contains_text(helmrelease_text(n, c), "  namespace: "@ + c.namespace@ + "\n"@),
{
    let t = "  namespace: "@ + c.namespace@ + "\n"@;
    assert(release_head(n, c) =~= ("apiVersion: helm.toolkit.fluxcd.io/v2\n"@ + "kind: HelmRelease\n"@ + "metadata:\n"@ + "  name: "@ + n + "\n"@) + t + ("spec:\n"@ + "  interval: "@ + c.interval@ + "\n"@));
    lemma_contains_middle("apiVersion: helm.toolkit.fluxcd.io/v2\n"@ + "kind: HelmRelease\n"@ + "metadata:\n"@ + "  name: "@ + n + "\n"@, t, "spec:\n"@ + "  interval: "@ + c.interval@ + "\n"@);
    lemma_in_release_0(n, c, t);
}

proof fn lemma_release_holds_interval(n: Seq<char>, c: FluxCdConfig)
    ensures
        contains_text(helmrelease_text(n, c), "  interval: "@ + c.interval@ + "\n"@),
{
    let t = "  interval: "@ + c.interval@ + "\n"@;
    assert(release_head(n, c) =~= ("apiVersion: helm.toolkit.fluxcd.io/v2\n"@ + "kind: HelmRelease\n"@ + "metadata:\n"@ + "  name: "@ + n + "\n"@ + "  namespace: "@ + c.namespace@ + "\n"@ + "spec:\n"@) + t + (Seq::<char>::empty()));
    lemma_contains_middle("apiVersion: helm.toolkit.fluxcd.io/v2\n"@ + "kind: HelmRelease\n"@ + "metadata:\n"@ + "  name: "@ + n + "\n"@ + "  namespace: "@ + c.namespace@ + "\n"@ + "spec:\n"@, t, Seq::<char>::empty());
    lemma_in_release_0(n, c, t);
}

proof fn lemma_release_holds_chart(n: Seq<char>, c: FluxCdConfig)
    ensures
        contains_text(helmrelease_text(n, c), "      chart: charts/"@ + n + "\n"@),
{
    let t = "      chart: charts/"@ + n + "\n"@;
    assert(release_chart(n, c) =~= ("  chart:\n"@ + "    spec:\n"@) + t + ("      sourceRef:\n"@ + "        kind: "@ + c.source_kind@ + "\n"@ + "        name: "@ + c.source_name@ + "\n"@ + "        namespace: "@ + c.source_namespace@ + "\n"@ + "      interval: "@ + c.chart_interval@ + "\n"@));
    lemma_contains_middle("  chart:\n"@ + "    spec:\n"@, t, "      sourceRef:\n"@ + "        kind: "@ + c.source_kind@ + "\n"@ + "        name: "@ + c.source_name@ + "\n"@ + "        namespace: "@ + c.source_namespace@ + "\n"@ + "      interval: "@ + c.chart_interval@ + "\n"@);
    lemma_in_release_1(n, c, t);
}

proof fn lemma_release_holds_kind(n: Seq<char>, c: FluxCdConfig)
    ensures
        contains_text(helmrelease_text(n, c), "        kind: "@ + c.source_kind@ + "\n"@),
{
    let t = "        kind: "@ + c.source_kind@ + "\n"@;
    assert(release_chart(n, c) =~= ("  chart:\n"@ + "    spec:\n"@ + "      chart: charts/"@ + n + "\n"@ + "      sourceRef:\n"@) + t + ("        name: "@ + c.source_name@ + "\n"@ + "        namespace: "@ + c.source_namespace@ + "\n"@ + "      interval: "@ + c.chart_interval@ + "\n"@));
    lemma_contains_middle("  chart:\n"@ + "    spec:\n"@ + "      chart: charts/"@ + n + "\n"@ + "      sourceRef:\n"@, t, "        name: "@ + c.source_name@ + "\n"@ + "        namespace: "@ + c.source_namespace@ + "\n"@ + "      interval: "@ + c.chart_interval@ + "\n"@);
    lemma_in_release_1(n, c, t);
}

proof fn lemma_release_holds_source(n: Seq<char>, c: FluxCdConfig)
    ensures
        contains_text(helmrelease_text(n, c), "        name: "@ + c.source_name@ + "\n"@),
{
    let t = "        name: "@ + c.source_name@ + "\n"@;
    assert(release_chart(n, c) =~= ("  chart:\n"@ + "    spec:\n"@ + "      chart: charts/"@ + n + "\n"@ + "      sourceRef:\n"@ + "        kind: "@ + c.source_kind@ + "\n"@) + t + ("        namespace: "@ + c.source_namespace@ + "\n"@ + "      interval: "@ + c.chart_interval@ + "\n"@));
    lemma_contains_middle("  chart:\n"@ + "    spec:\n"@ + "      chart: charts/"@ + n + "\n"@ + "      sourceRef:\n"@ + "        kind: "@ + c.source_kind@ + "\n"@, t, "        namespace: "@ + c.source_namespace@ + "\n"@ + "      interval: "@ + c.chart_interval@ + "\n"@);
    lemma_in_release_1(n, c, t);
}

proof fn lemma_release_holds_source_ns(n: Seq<char>, c: FluxCdConfig)
    ensures
        contains_text(helmrelease_text(n, c), "        namespace: "@ + c.source_namespace@ + "\n"@),
{
    let t = "        namespace: "@ + c.source_namespace@ + "\n"@;
    assert(release_chart(n, c) =~= ("  chart:\n"@ + "    spec:\n"@ + "      chart: charts/"@ + n + "\n"@ + "      sourceRef:\n"@ + "        kind: "@ + c.source_kind@ + "\n"@ + "        name: "@ + c.source_name@ + "\n"@) + t + ("      interval: "@ + c.chart_interval@ + "\n"@));
    lemma_contains_middle("  chart:\n"@ + "    spec:\n"@ + "      chart: charts/"@ + n + "\n"@ + "      sourceRef:\n"@ + "        kind: "@ + c.source_kind@ + "\n"@ + "        name: "@ + c.source_name@ + "\n"@, t, "      interval: "@ + c.chart_interval@ + "\n"@);
    lemma_in_release_1(n, c, t);
}

proof fn lemma_release_holds_chart_interval(n: Seq<char>, c: FluxCdConfig)
    ensures
        contains_text(helmrelease_text(n, c), "      interval: "@ + c.chart_interval@ + "\n"@),
{
    let t = "      interval: "@ + c.chart_interval@ + "\n"@;
    assert(release_chart(n, c) =~= ("  chart:\n"@ + "    spec:\n"@ + "      chart: charts/"@ + n + "\n"@ + "      sourceRef:\n"@ + "        kind: "@ + c.source_kind@ + "\n"@ + "        name: "@ + c.source_name@ + "\n"@ + "        namespace: "@ + c.source_namespace@ + "\n"@) + t + (Seq::<char>::empty()));
    lemma_contains_middle("  chart:\n"@ + "    spec:\n"@ + "      chart: charts/"@ + n + "\n"@ + "      sourceRef:\n"@ + "        kind: "@ + c.source_kind@ + "\n"@ + "        name: "@ + c.source_name@ + "\n"@ + "        namespace: "@ + c.source_namespace@ + "\n"@, t, Seq::<char>::empty());
    lemma_in_release_1(n, c, t);
}

proof fn lemma_release_holds_install(n: Seq<char>, c: FluxCdConfig)
    ensures
        contains_text(helmrelease_text(n, c), "  "@ + "install"@ + ":\n"@ + "    remediation:\n"@ + "      retries: "@ + decimal(c.retries as nat) + "\n"@),
{
    let t = "  "@ + "install"@ + ":\n"@ + "    remediation:\n"@ + "      retries: "@ + decimal(c.retries as nat) + "\n"@;
    assert(remediation("install"@, c.retries) =~= Seq::<char>::empty() + t + Seq::<char>::empty());
    lemma_contains_middle(Seq::<char>::empty(), t, Seq::<char>::empty());
    lemma_in_release_2(n, c, t);
}

proof fn lemma_release_holds_upgrade(n: Seq<char>, c: FluxCdConfig)
    ensures
        contains_text(helmrelease_text(n, c), "  "@ + "upgrade"@ + ":\n"@ + "    remediation:\n"@ + "      retries: "@ + decimal(c.retries as nat) + "\n"@),
{
    let t = "  "@ + "upgrade"@ + ":\n"@ + "    remediation:\n"@ + "      retries: "@ + decimal(c.retries as nat) + "\n"@;
    assert(remediation("upgrade"@, c.retries) =~= Seq::<char>::empty() + t + Seq::<char>::empty());
    lemma_contains_middle(Seq::<char>::empty(), t, Seq::<char>::empty());
    lemma_in_release_3(n, c, t);
}

/// A HelmRelease for chart `n` carries its configuration: it is named `n`,
/// lives in the configured namespace, reconciles at the configured interval,
/// points at `charts/<n>` in the configured source (kind, name, namespace)
/// polled at the configured chart interval, and retries install and upgrade
/// the configured number of times.
pub proof fn helmrelease_reflects_config(n: Seq<char>, c: FluxCdConfig)
    ensures
        contains_text(helmrelease_text(n, c), "  name: "@ + n + "\n"@),
        contains_text(helmrelease_text(n, c), "  namespace: "@ + c.namespace@ + "\n"@),
        contains_text(helmrelease_text(n, c), "  interval: "@ + c.interval@ + "\n"@),
        contains_text(helmrelease_text(n, c), "      chart: charts/"@ + n + "\n"@),
        contains_text(helmrelease_text(n, c), "        kind: "@ + c.source_kind@ + "\n"@),
        contains_text(helmrelease_text(n, c), "        name: "@ + c.source_name@ + "\n"@),
        contains_text(helmrelease_text(n, c), "        namespace: "@ + c.source_namespace@ + "\n"@),
        contains_text(helmrelease_text(n, c), "      interval: "@ + c.chart_interval@ + "\n"@),
        contains_text(helmrelease_text(n, c), "  "@ + "install"@ + ":\n"@ + "    remediation:\n"@ + "      retries: "@ + decimal(c.retries as nat) + "\n"@),
        contains_text(helmrelease_text(n, c), "  "@ + "upgrade"@ + ":\n"@ + "    remediation:\n"@ + "      retries: "@ + decimal(c.retries as nat) + "\n"@),
{
    lemma_release_holds_name(n, c);
    lemma_release_holds_namespace(n, c);
    lemma_release_holds_interval(n, c);
    lemma_release_holds_chart(n, c);
    lemma_release_holds_kind(n, c);
    lemma_release_holds_source(n, c);
    lemma_release_holds_source_ns(n, c);
    lemma_release_holds_chart_interval(n, c);
    lemma_release_holds_install(n, c);
    lemma_release_holds_upgrade(n, c);
}

} // verus!
