//! The generation steps as traits, so that each can be replaced, the
//! default attribute filter, and the stages of chart generation.

use vstd::prelude::*;

use crate::config::HelmConfig;
use crate::ir::{IacAttribute, IacResource};
use crate::naming::kebab;
use crate::template_gen::{
    delegate_text, generate_configmap_template, generate_deployment_template,
    generate_helpers_tpl, generate_hpa_template, generate_networkpolicy_template,
    generate_pdb_template, generate_podmonitor_template, generate_prometheusrule_template,
    generate_secret_template, generate_service_template, generate_serviceaccount_template,
    generate_servicemonitor_template, helpers_text, object_text, prometheusrule_text,
};
use crate::test_gen::{deployment_test_text, generate_deployment_test};
use crate::values_gen::{generate_values_yaml_with_config, values_text};

verus! {

/// An attribute that belongs in the ConfigMap and the `config:` values:
/// neither sensitive nor computed.
pub open spec fn is_config_attr(a: IacAttribute) -> bool {
    !a.sensitive && !a.computed
}

/// An attribute that belongs in the Secret and the `secrets:` values:
/// sensitive and not computed.
pub open spec fn is_secret_attr(a: IacAttribute) -> bool {
    a.sensitive && !a.computed
}

/// The attributes of `attrs` that are config (or, with `secret`, secret)
/// attributes, in the order in which they stand.
pub open spec fn select_attrs(attrs: Seq<IacAttribute>, secret: bool) -> Seq<IacAttribute>
    decreases attrs.len(),
{
    if attrs.len() == 0 {
        Seq::empty()
    } else {
        let rest = select_attrs(attrs.drop_last(), secret);
        let a = attrs.last();
        if (secret && is_secret_attr(a)) || (!secret && is_config_attr(a)) {
            rest.push(a)
        } else {
            rest
        }
    }
}

/// The config attributes of a resource, in order.
pub open spec fn config_attrs(r: IacResource) -> Seq<IacAttribute> {
    select_attrs(r.attributes@, false)
}

/// The secret attributes of a resource, in order.
pub open spec fn secret_attrs(r: IacResource) -> Seq<IacAttribute> {
    select_attrs(r.attributes@, true)
}

/// The attributes that a sequence of references points to.
pub open spec fn derefs(s: Seq<&IacAttribute>) -> Seq<IacAttribute> {
    s.map_values(|a: &IacAttribute| *a)
}

/// Splits a resource's attributes into config (non-sensitive) and secret
/// (sensitive) groups.
pub trait AttributeFilter {
    /// Attributes for the ConfigMap and the `config:` values section.
    fn config_attributes<'a>(&self, resource: &'a IacResource) -> Vec<&'a IacAttribute>;

    /// Attributes for the Secret and the `secrets:` values section.
    fn secret_attributes<'a>(&self, resource: &'a IacResource) -> Vec<&'a IacAttribute>;
}

/// The default filter: non-sensitive non-computed attributes are config,
/// sensitive non-computed attributes are secrets; computed ones are neither.
#[derive(Debug, Clone, Copy)]
pub struct DefaultAttributeFilter;

proof fn lemma_select_step(attrs: Seq<IacAttribute>, secret: bool, i: int)
    requires
        0 <= i < attrs.len(),
    ensures
        select_attrs(attrs.take(i + 1), secret) == if (secret && is_secret_attr(attrs[i])) || (!secret
            && is_config_attr(attrs[i])) {
            select_attrs(attrs.take(i), secret).push(attrs[i])
        } else {
            select_attrs(attrs.take(i), secret)
        },
{
    assert(attrs.take(i + 1).drop_last() =~= attrs.take(i));
}

/// The attributes of a resource selected by kind, as references.
fn select_refs<'a>(resource: &'a IacResource, secret: bool) -> (res: Vec<&'a IacAttribute>)
    ensures
        derefs(res@) == select_attrs(resource.attributes@, secret),
{
    let attrs = &resource.attributes;
    let mut out: Vec<&IacAttribute> = Vec::new();
    let mut i: usize = 0;
    while i < attrs.len()
        invariant
            0 <= i <= attrs.len(),
            derefs(out@) == select_attrs(attrs@.take(i as int), secret),
        decreases attrs.len() - i,
    {
        proof {
            lemma_select_step(attrs@, secret, i as int);
        }
        let a = &attrs[i];
        let keep = if secret {
            a.sensitive && !a.computed
        } else {
            !a.sensitive && !a.computed
        };
        if keep {
            let ghost before = out@;
            out.push(a);
            assert(derefs(out@) =~= derefs(before).push(*a));
        }
        i = i + 1;
    }
    assert(attrs@.take(attrs.len() as int) =~= attrs@);
    out
}

impl AttributeFilter for DefaultAttributeFilter {
    fn config_attributes<'a>(&self, resource: &'a IacResource) -> (res: Vec<&'a IacAttribute>)
        ensures
            derefs(res@) == config_attrs(*resource),
    {
        select_refs(resource, false)
    }

    fn secret_attributes<'a>(&self, resource: &'a IacResource) -> (res: Vec<&'a IacAttribute>)
        ensures
            derefs(res@) == secret_attrs(*resource),
    {
        select_refs(resource, true)
    }
}

/// Every attribute of the selected kind is kept by the selection.
pub proof fn lemma_select_keeps(attrs: Seq<IacAttribute>, secret: bool, j: int)
    requires
        0 <= j < attrs.len(),
        if secret {
            is_secret_attr(attrs[j])
        } else {
            is_config_attr(attrs[j])
        },
    ensures
        exists|k: int| 0 <= k < select_attrs(attrs, secret).len() && #[trigger] select_attrs(attrs, secret)[k] == attrs[j],
    decreases attrs.len(),
{
    let d = attrs.drop_last();
    let r = select_attrs(d, secret);
    if j == attrs.len() - 1 {
        assert(select_attrs(attrs, secret) == r.push(attrs[j]));
        assert(select_attrs(attrs, secret)[r.len() as int] == attrs[j]);
    } else {
        assert(d[j] == attrs[j]);
        lemma_select_keeps(d, secret, j);
        let k = choose|k: int| 0 <= k < r.len() && #[trigger] r[k] == d[j];
        assert(select_attrs(attrs, secret)[k] == r[k]);
    }
}

/// The number of attributes that are not computed.
pub open spec fn count_not_computed(attrs: Seq<IacAttribute>) -> nat
    decreases attrs.len(),
{
    if attrs.len() == 0 {
        0
    } else {
        count_not_computed(attrs.drop_last()) + if attrs.last().computed {
            0nat
        } else {
            1nat
        }
    }
}

/// The default filter partitions the attributes that are not computed: every
/// config attribute is neither sensitive nor computed, every secret attribute
/// is sensitive and not computed, and together they are all the non-computed
/// attributes, none counted twice.
pub proof fn default_filter_partitions(attrs: Seq<IacAttribute>)
    ensures
        forall|i: int|
            0 <= i < select_attrs(attrs, false).len() ==> !(#[trigger] select_attrs(attrs, false)[i]).sensitive
                && !select_attrs(attrs, false)[i].computed,
        forall|i: int|
            0 <= i < select_attrs(attrs, true).len() ==> (#[trigger] select_attrs(attrs, true)[i]).sensitive
                && !select_attrs(attrs, true)[i].computed,
        select_attrs(attrs, false).len() + select_attrs(attrs, true).len() == count_not_computed(attrs),
    decreases attrs.len(),
{
    if attrs.len() > 0 {
        default_filter_partitions(attrs.drop_last());
        let c0 = select_attrs(attrs.drop_last(), false);
        let s0 = select_attrs(attrs.drop_last(), true);
        let c = select_attrs(attrs, false);
        let s = select_attrs(attrs, true);
        assert forall|i: int| 0 <= i < c.len() implies is_config_attr(#[trigger] c[i]) by {
            if i < c0.len() {
                assert(c[i] == c0[i]);
            }
        }
        assert forall|i: int| 0 <= i < s.len() implies is_secret_attr(#[trigger] s[i]) by {
            if i < s0.len() {
                assert(s[i] == s0[i]);
            }
        }
    }
}

/// Generates `Chart.yaml` content.
pub trait ChartGenerator {
    /// Whether `out` is an acceptable `Chart.yaml` for the resource and
    /// provider; each implementation says what it produces
    /// (by default, any text).
    open spec fn chart_ok(&self, resource: IacResource, provider_name: Seq<char>, out: Seq<char>) -> bool {
        true
    }

    fn generate(&self, resource: &IacResource, provider_name: &str) -> (res: String)
        ensures
            self.chart_ok(*resource, provider_name@, res@),
    ;
}

/// Generates `values.yaml` content.
pub trait ValuesGenerator {
    /// Whether `out` is an acceptable `values.yaml` for the resource.
    open spec fn values_ok(&self, resource: IacResource, out: Seq<char>) -> bool {
        true
    }

    fn generate(&self, resource: &IacResource) -> (res: String)
        ensures
            self.values_ok(*resource, res@),
    ;
}

/// Generates `values.schema.json` content.
pub trait SchemaGenerator {
    /// Whether `out` is an acceptable `values.schema.json` for the resource.
    open spec fn schema_ok(&self, resource: IacResource, out: Seq<char>) -> bool {
        true
    }

    fn generate(&self, resource: &IacResource) -> (res: String)
        ensures
            self.schema_ok(*resource, res@),
    ;
}

/// Generates Helm template files.
pub trait TemplateGenerator {
    /// Whether `out`, (file name, content) pairs, is an acceptable set of
    /// delegate templates.
    open spec fn delegates_ok(&self, out: Seq<(Seq<char>, Seq<char>)>) -> bool {
        true
    }

    /// Whether `out` is an acceptable `_helpers.tpl` for the resource.
    open spec fn helpers_ok(&self, resource: IacResource, out: Seq<char>) -> bool {
        true
    }

    /// Whether `out` is an acceptable ConfigMap template for the resource.
    open spec fn configmap_ok(&self, resource: IacResource, out: Seq<char>) -> bool {
        true
    }

    /// Whether `out` is an acceptable Secret template for the resource.
    open spec fn secret_ok(&self, resource: IacResource, out: Seq<char>) -> bool {
        true
    }

    /// Whether `out` is an acceptable PrometheusRule template for the resource.
    open spec fn prometheusrule_ok(&self, resource: IacResource, out: Seq<char>) -> bool {
        true
    }

    /// The delegate templates: (file name, content) pairs.
    fn delegate_templates(&self) -> (res: Vec<(&'static str, String)>)
        ensures
            self.delegates_ok(res@.map_values(|p: (&'static str, String)| (p.0@, p.1@))),
    ;

    /// `_helpers.tpl` with the chart's helper definitions.
    fn helpers(&self, resource: &IacResource) -> (res: String)
        ensures
            self.helpers_ok(*resource, res@),
    ;

    /// The ConfigMap template (empty when there are no config attributes).
    fn configmap(&self, resource: &IacResource) -> (res: String)
        ensures
            self.configmap_ok(*resource, res@),
    ;

    /// The Secret template (empty when there are no secret attributes).
    fn secret(&self, resource: &IacResource) -> (res: String)
        ensures
            self.secret_ok(*resource, res@),
    ;

    /// The PrometheusRule template.
    fn prometheusrule(&self, resource: &IacResource) -> (res: String)
        ensures
            self.prometheusrule_ok(*resource, res@),
    ;
}

/// Generates helm-unittest test files.
pub trait TestFileGenerator {
    /// Whether `out` is an acceptable test file for the resource.
    open spec fn test_ok(&self, resource: IacResource, out: Seq<char>) -> bool {
        true
    }

    fn generate(&self, resource: &IacResource) -> (res: String)
        ensures
            self.test_ok(*resource, res@),
    ;
}

/// The default values generator, backed by a configuration.
#[derive(Debug, Clone)]
pub struct DefaultValuesGenerator {
    pub config: HelmConfig,
}

impl ValuesGenerator for DefaultValuesGenerator {
    open spec fn values_ok(&self, resource: IacResource, out: Seq<char>) -> bool {
        out == values_text(resource, self.config)
    }

    fn generate(&self, resource: &IacResource) -> (res: String)
        ensures
            res@ == values_text(*resource, self.config),
    {
        generate_values_yaml_with_config(resource, &self.config)
    }
}

/// The delegate templates: each file and the pleme-lib template it includes.
pub open spec fn delegate_files() -> Seq<(Seq<char>, Seq<char>)> {
    seq![
        ("deployment.yaml"@, delegate_text("deployment"@)),
        ("service.yaml"@, delegate_text("service"@)),
        ("serviceaccount.yaml"@, delegate_text("serviceaccount"@)),
        ("servicemonitor.yaml"@, delegate_text("servicemonitor"@)),
        ("networkpolicy.yaml"@, delegate_text("networkpolicy"@)),
        ("pdb.yaml"@, delegate_text("pdb"@)),
        ("hpa.yaml"@, delegate_text("hpa"@)),
        ("podmonitor.yaml"@, delegate_text("podmonitor"@)),
    ]
}

/// The default template generator.
#[derive(Debug, Clone, Copy)]
pub struct DefaultTemplateGenerator;

impl TemplateGenerator for DefaultTemplateGenerator {
    open spec fn delegates_ok(&self, out: Seq<(Seq<char>, Seq<char>)>) -> bool {
        out == delegate_files()
    }

    open spec fn helpers_ok(&self, resource: IacResource, out: Seq<char>) -> bool {
        out == helpers_text(kebab(resource.name@))
    }

    open spec fn configmap_ok(&self, resource: IacResource, out: Seq<char>) -> bool {
        out == object_text(kebab(resource.name@), config_attrs(resource), false)
    }

    open spec fn secret_ok(&self, resource: IacResource, out: Seq<char>) -> bool {
        out == object_text(kebab(resource.name@), secret_attrs(resource), true)
    }

    open spec fn prometheusrule_ok(&self, resource: IacResource, out: Seq<char>) -> bool {
        out == prometheusrule_text(kebab(resource.name@))
    }

    fn delegate_templates(&self) -> (res: Vec<(&'static str, String)>)
        ensures
            res@.map_values(|p: (&'static str, String)| (p.0@, p.1@)) == delegate_files(),
    {
        let mut v: Vec<(&'static str, String)> = Vec::new();
        v.push(("deployment.yaml", generate_deployment_template()));
        v.push(("service.yaml", generate_service_template()));
        v.push(("serviceaccount.yaml", generate_serviceaccount_template()));
        v.push(("servicemonitor.yaml", generate_servicemonitor_template()));
        v.push(("networkpolicy.yaml", generate_networkpolicy_template()));
        v.push(("pdb.yaml", generate_pdb_template()));
        v.push(("hpa.yaml", generate_hpa_template()));
        v.push(("podmonitor.yaml", generate_podmonitor_template()));
        assert(v@.map_values(|p: (&'static str, String)| (p.0@, p.1@)) =~= delegate_files());
        v
    }

    fn helpers(&self, resource: &IacResource) -> (res: String)
        ensures
            res@ == helpers_text(kebab(resource.name@)),
    {
        generate_helpers_tpl(resource)
    }

    fn configmap(&self, resource: &IacResource) -> (res: String)
        ensures
            res@ == object_text(kebab(resource.name@), config_attrs(*resource), false),
    {
        generate_configmap_template(resource)
    }

    fn secret(&self, resource: &IacResource) -> (res: String)
        ensures
            res@ == object_text(kebab(resource.name@), secret_attrs(*resource), true),
    {
        generate_secret_template(resource)
    }

    fn prometheusrule(&self, resource: &IacResource) -> (res: String)
        ensures
            res@ == prometheusrule_text(kebab(resource.name@)),
    {
        generate_prometheusrule_template(resource)
    }
}

/// The default test-file generator.
#[derive(Debug, Clone, Copy)]
pub struct DefaultTestFileGenerator;

impl TestFileGenerator for DefaultTestFileGenerator {
    open spec fn test_ok(&self, resource: IacResource, out: Seq<char>) -> bool {
        out == deployment_test_text(kebab(resource.name@))
    }

    fn generate(&self, resource: &IacResource) -> (res: String)
        ensures
            res@ == deployment_test_text(kebab(resource.name@)),
    {
        generate_deployment_test(resource)
    }
}

/// The stages of generating one chart, in order.
#[derive(Debug, Clone, Copy, PartialEq, Eq)]
pub enum GenerationStage {
    Init,
    ChartMetadata,
    Values,
    Schema,
    Templates,
    Tests,
    Done,
}

/// The position of a stage in the order of generation.
pub open spec fn stage_index(s: GenerationStage) -> nat {
    match s {
        GenerationStage::Init => 0,
        GenerationStage::ChartMetadata => 1,
        GenerationStage::Values => 2,
        GenerationStage::Schema => 3,
        GenerationStage::Templates => 4,
        GenerationStage::Tests => 5,
        GenerationStage::Done => 6,
    }
}

impl GenerationStage {
    /// Every stage, in order.
    pub const ALL: [GenerationStage; 7] = [
        GenerationStage::Init,
        GenerationStage::ChartMetadata,
        GenerationStage::Values,
        GenerationStage::Schema,
        GenerationStage::Templates,
        GenerationStage::Tests,
        GenerationStage::Done,
    ];

    /// The following stage; `None` after `Done`.
    pub fn next(&self) -> (res: Option<GenerationStage>)
        ensures
            match res {
                Some(t) => stage_index(t) == stage_index(*self) + 1,
                None => *self == GenerationStage::Done,
            },
    {
        match self {
            GenerationStage::Init => Some(GenerationStage::ChartMetadata),
            GenerationStage::ChartMetadata => Some(GenerationStage::Values),
            GenerationStage::Values => Some(GenerationStage::Schema),
            GenerationStage::Schema => Some(GenerationStage::Templates),
            GenerationStage::Templates => Some(GenerationStage::Tests),
            GenerationStage::Tests => Some(GenerationStage::Done),
            GenerationStage::Done => None,
        }
    }

    /// Whether generation has finished.
    pub fn is_done(&self) -> (res: bool)
        ensures
            res == (*self == GenerationStage::Done),
    {
        match self {
            GenerationStage::Done => true,
            _ => false,
        }
    }
}

/// The position of a stage determines the stage.
pub proof fn stage_index_injective(a: GenerationStage, b: GenerationStage)
    ensures
        stage_index(a) == stage_index(b) ==> a == b,
{
}

/// Every stage but `Done` has a successor one position later, and `Done`,
/// the last stage, is reached from `Init` in six steps.
pub proof fn stages_are_a_chain(s: GenerationStage)
    ensures
        stage_index(s) <= 6,
        stage_index(s) == 6 <==> s == GenerationStage::Done,
        stage_index(s) == 0 <==> s == GenerationStage::Init,
{
}

/// A template file `<stem>.yaml` that holds exactly
/// `{{- include "pleme-lib.<stem>" . }}` and a newline.
pub open spec fn includes_own_template(file: Seq<char>, content: Seq<char>) -> bool {
    exists|stem: Seq<char>|
        #![trigger stem + ".yaml"@]
        file == stem + ".yaml"@ && content == "{{- include \"pleme-lib."@ + stem + "\" . }}\n"@
}

/// Each delegate template of the default template generator includes the
/// pleme-lib template named after its own file.
pub proof fn delegates_include_their_own_template()
    ensures
        forall|k: int|
            0 <= k < delegate_files().len() ==> includes_own_template(
                #[trigger] delegate_files()[k].0,
                delegate_files()[k].1,
            ),
{
    reveal_strlit(".yaml");
    reveal_strlit("deployment");
    reveal_strlit("deployment.yaml");
    reveal_strlit("service");
    reveal_strlit("service.yaml");
    reveal_strlit("serviceaccount");
    reveal_strlit("serviceaccount.yaml");
    reveal_strlit("servicemonitor");
    reveal_strlit("servicemonitor.yaml");
    reveal_strlit("networkpolicy");
    reveal_strlit("networkpolicy.yaml");
    reveal_strlit("pdb");
    reveal_strlit("pdb.yaml");
    reveal_strlit("hpa");
    reveal_strlit("hpa.yaml");
    reveal_strlit("podmonitor");
    reveal_strlit("podmonitor.yaml");
    assert forall|k: int| 0 <= k < delegate_files().len() implies includes_own_template(
        #[trigger] delegate_files()[k].0,
        delegate_files()[k].1,
    ) by {
        if k == 0 {
            assert(delegate_files()[k].0 =~= "deployment"@ + ".yaml"@);
            assert(delegate_files()[k].1 =~= "{{- include \"pleme-lib."@ + "deployment"@ + "\" . }}\n"@);
        } else if k == 1 {
            assert(delegate_files()[k].0 =~= "service"@ + ".yaml"@);
            assert(delegate_files()[k].1 =~= "{{- include \"pleme-lib."@ + "service"@ + "\" . }}\n"@);
        } else if k == 2 {
            assert(delegate_files()[k].0 =~= "serviceaccount"@ + ".yaml"@);
            assert(delegate_files()[k].1 =~= "{{- include \"pleme-lib."@ + "serviceaccount"@ + "\" . }}\n"@);
        } else if k == 3 {
            assert(delegate_files()[k].0 =~= "servicemonitor"@ + ".yaml"@);
            assert(delegate_files()[k].1 =~= "{{- include \"pleme-lib."@ + "servicemonitor"@ + "\" . }}\n"@);
        } else if k == 4 {
            assert(delegate_files()[k].0 =~= "networkpolicy"@ + ".yaml"@);
            assert(delegate_files()[k].1 =~= "{{- include \"pleme-lib."@ + "networkpolicy"@ + "\" . }}\n"@);
        } else if k == 5 {
            assert(delegate_files()[k].0 =~= "pdb"@ + ".yaml"@);
            assert(delegate_files()[k].1 =~= "{{- include \"pleme-lib."@ + "pdb"@ + "\" . }}\n"@);
        } else if k == 6 {
            assert(delegate_files()[k].0 =~= "hpa"@ + ".yaml"@);
            assert(delegate_files()[k].1 =~= "{{- include \"pleme-lib."@ + "hpa"@ + "\" . }}\n"@);
        } else if k == 7 {
            assert(delegate_files()[k].0 =~= "podmonitor"@ + ".yaml"@);
            assert(delegate_files()[k].1 =~= "{{- include \"pleme-lib."@ + "podmonitor"@ + "\" . }}\n"@);
        }
    }
}

} // verus!
