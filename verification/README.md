# mga — OpenShift must-gather analyzer

`mga` reads an OKD/OpenShift must-gather, analyses the health of the
resources it holds and writes a triage report: a static site, or a single
HTML page, for a React frontend.

The analysis itself is a library verified with Verus: every public function
states what it returns in its `ensures`, and the properties that tie
functions together are proof functions (`lemma_*`) checked by Verus.

## Layout

- `src/` — the verified library
  - `yaml.rs`, `manifest.rs`: the YAML model and reading a manifest (or a
    `List` of them) from its text; `yaml_rust` does the parsing and printing.
  - `kinds/`: each resource kind read from its manifest (nodes, pods,
    workloads, storage, networking, machines, RBAC, events, generic
    resources) and the snapshot it yields.
  - `resources.rs`, `types.rs`: the shared resource model and the health
    analysis (issues, recommendations, score).
  - `analyzers/`: the health analyzers and the registry that dispatches to
    them.
  - `gather.rs`, `mustgather.rs`: where manifests lie in a must-gather, the
    search for its root, collection times, platform detection.
  - `order.rs`: the orders the report lists resources in, and a stable sort.
  - `report.rs`, `site.rs`: the report's data, its counts, and the scripts
    and pages of the static site.
  - `registry.rs`, `cli.rs`, `names.rs`, `text.rs`: the resource-type
    registry, output naming, and text helpers.
- `app/` — the program: command line, reading the must-gather from disk,
  unpacking archives, JSON and writing files.
- `tests/` — tests of the library on concrete inputs.
