# helm_forge

Helm chart generation for infrastructure resources, verified with Verus.

A resource description (name, category, typed attributes) becomes the files
of a Helm chart that delegates to the `pleme-lib` library chart: `Chart.yaml`
data, `values.yaml`, a JSON schema for the values, the Helm templates
(helpers, delegating templates, ConfigMap, Secret, PrometheusRule), a
helm-unittest suite, and optionally FluxCD `HelmRelease` and kustomization
manifests.

## Layout

- `src/` — the verified library. Every text the generators produce is
  specified by a spec function over `Seq<char>`, and each generator's
  `ensures` states its output exactly. Modules:
  - `helm_ast`: the Helm template node model and its rendering;
  - `config`, `model`, `ir`, `json`: configuration, chart data, the resource
    description and a JSON value model;
  - `naming`: kebab/snake case and DNS-1123 label normalisation;
  - `template_gen`, `values_gen`, `schema_gen`, `type_map`, `chart_gen`,
    `test_gen`, `fluxcd_gen`: the generators;
  - `traits`: the generator traits, the default attribute filter and the
    generation stages;
  - `helm_backend`: where each file of a chart goes;
  - `text`, `ordering`: decimal text, brace facts, string ordering.
- `tests/` — tests of the library on concrete values.
- `app/` — the iac-forge `Backend` implementation: conversion from
  iac-forge's types, YAML and JSON serialisation with serde, and the
  backend builder with replaceable generators.
