//! helm-unittest suites for resource charts.

use vstd::prelude::*;

use crate::ir::IacResource;
use crate::naming::{kebab, to_kebab_case};
use crate::text::{contains_text, lemma_contains_middle};

verus! {

/// The header of the deployment test suite: the template under test and the
/// values it renders with.
pub open spec fn suite_header() -> Seq<char> {
    "templates:\n  - templates/deployment.yaml\nvalues:\n  - ../values.yaml\ntests:\n"@
}

/// The test case that checks the template renders a Deployment.
pub open spec fn kind_case() -> Seq<char> {
    "  - it: should render a Deployment\n    asserts:\n      - isKind:\n          of: Deployment\n"@
}

/// The test case that checks the Helm-managed label.
pub open spec fn labels_case() -> Seq<char> {
    "  - it: should set correct labels\n    asserts:\n      - isSubset:\n          path: metadata.labels\n          content:\n            app.kubernetes.io/managed-by: Helm\n"@
}

/// The test case that checks the pod runs as a non-root user.
pub open spec fn security_context_case() -> Seq<char> {
    "  - it: should enforce security context\n    asserts:\n      - equal:\n          path: spec.template.spec.securityContext.runAsNonRoot\n          value: true\n"@
}

/// The test case that checks the container has resource requests.
pub open spec fn requests_case() -> Seq<char> {
    "  - it: should set resource requests\n    asserts:\n      - isNotEmpty:\n          path: spec.template.spec.containers[0].resources.requests\n"@
}

/// The body of the deployment test suite, after its first line.
pub open spec fn deployment_test_body() -> Seq<char> {
    suite_header() + kind_case() + "\n"@ + labels_case() + "\n"@ + security_context_case() + "\n"@ + requests_case()
}

/// The deployment test suite of chart `n`: it checks that the deployment
/// template renders a Deployment with Helm-managed labels, a non-root
/// security context and resource requests.
pub open spec fn deployment_test_text(n: Seq<char>) -> Seq<char> {
    "suite: "@ + n + " deployment tests\n"@ + deployment_test_body()
}

/// A helm-unittest suite for the deployment template of a resource chart.
pub fn generate_deployment_test(resource: &IacResource) -> (res: String)
    ensures
        res@ == deployment_test_text(kebab(resource.name@)),
{
    let chart_name = to_kebab_case(resource.name.as_str());
    let mut s = String::from_str("suite: ");
    s.append(chart_name.as_str());
    s.append(" deployment tests\n");
    s.append("templates:\n  - templates/deployment.yaml\nvalues:\n  - ../values.yaml\ntests:\n");
    s.append("  - it: should render a Deployment\n    asserts:\n      - isKind:\n          of: Deployment\n");
    s.append("\n");
    s.append("  - it: should set correct labels\n    asserts:\n      - isSubset:\n          path: metadata.labels\n          content:\n            app.kubernetes.io/managed-by: Helm\n");
    s.append("\n");
    s.append("  - it: should enforce security context\n    asserts:\n      - equal:\n          path: spec.template.spec.securityContext.runAsNonRoot\n          value: true\n");
    s.append("\n");
    s.append("  - it: should set resource requests\n    asserts:\n      - isNotEmpty:\n          path: spec.template.spec.containers[0].resources.requests\n");
    assert(s@ =~= deployment_test_text(chart_name@));
    s
}

/// Every generated suite is named after its chart, tests the chart's
/// `templates/deployment.yaml` with the chart's `values.yaml`, and has the
/// four cases: the template renders a Deployment, the labels mark it as
/// managed by Helm, the pod must run as a non-root user
/// (`spec.template.spec.securityContext.runAsNonRoot` equals `true`), and
/// the container has resource requests.
pub proof fn deployment_test_checks(n: Seq<char>)
    ensures
        deployment_test_text(n).subrange(0, n.len() + 25int) == "suite: "@ + n + " deployment tests\n"@,
        contains_text(deployment_test_text(n), "templates:\n  - templates/deployment.yaml\nvalues:\n  - ../values.yaml\ntests:\n"@),
        contains_text(
            deployment_test_text(n),
            "  - it: should render a Deployment\n    asserts:\n      - isKind:\n          of: Deployment\n"@,
        ),
        contains_text(
            deployment_test_text(n),
            "  - it: should set correct labels\n    asserts:\n      - isSubset:\n          path: metadata.labels\n          content:\n            app.kubernetes.io/managed-by: Helm\n"@,
        ),
        contains_text(
            deployment_test_text(n),
            "  - it: should enforce security context\n    asserts:\n      - equal:\n          path: spec.template.spec.securityContext.runAsNonRoot\n          value: true\n"@,
        ),
        contains_text(
            deployment_test_text(n),
            "  - it: should set resource requests\n    asserts:\n      - isNotEmpty:\n          path: spec.template.spec.containers[0].resources.requests\n"@,
        ),
{
    reveal_strlit("suite: ");
    reveal_strlit(" deployment tests\n");
    let first = "suite: "@ + n + " deployment tests\n"@;
    assert(first.len() == n.len() + 25);
    let t = deployment_test_text(n);
    let nl = "\n"@;
    assert(t.subrange(0, n.len() + 25int) =~= first);
    assert(t =~= first + suite_header() + (kind_case() + nl + labels_case() + nl + security_context_case() + nl
        + requests_case()));
    lemma_contains_middle(first, suite_header(), kind_case() + nl + labels_case() + nl + security_context_case() + nl
        + requests_case());
    assert(t =~= (first + suite_header()) + kind_case() + (nl + labels_case() + nl + security_context_case() + nl
        + requests_case()));
    lemma_contains_middle(first + suite_header(), kind_case(), nl + labels_case() + nl + security_context_case() + nl
        + requests_case());
    assert(t =~= (first + suite_header() + kind_case() + nl) + labels_case() + (nl + security_context_case() + nl
        + requests_case()));
    lemma_contains_middle(first + suite_header() + kind_case() + nl, labels_case(), nl + security_context_case() + nl
        + requests_case());
    assert(t =~= (first + suite_header() + kind_case() + nl + labels_case() + nl) + security_context_case() + (nl
        + requests_case()));
    lemma_contains_middle(first + suite_header() + kind_case() + nl + labels_case() + nl, security_context_case(), nl
        + requests_case());
    assert(t =~= (first + suite_header() + kind_case() + nl + labels_case() + nl + security_context_case() + nl)
        + requests_case() + Seq::<char>::empty());
    lemma_contains_middle(first + suite_header() + kind_case() + nl + labels_case() + nl + security_context_case()
        + nl, requests_case(), Seq::<char>::empty());
}

} // verus!
