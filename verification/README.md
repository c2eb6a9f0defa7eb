# rend3 device setup, verified

The rules by which a renderer sets itself up on a GPU, with their contracts
proved by Verus:

- `src/features.rs`: the feature flags each rendering profile requires, the
  optional ones taken when offered, and `check_features`. A `wgpu::Features`
  value is modelled as the set of its flag positions.
- `src/limits.rs`: the limits each profile requires, `check_limits` and the
  single-limit checks; the checks are a sequence, and the first one that fails
  is the one reported.
- `src/adapter.rs`: adapter information (vendor naming), `PotentialAdapter::new`
  (GPU-driven profile with fallback to CPU-driven), the match of a wanted
  device name, and the choice of the adapter to use.
- `src/compute.rs`: the labels of a compute routine's GPU objects.
- `src/error.rs`: profiles, limit kinds and setup errors.

`app/lib.rs` holds what talks to the GPU through wgpu: enumerating adapters,
creating the instance, device and queue (`create_iad`), and building a
compute routine's pipeline. It converts between wgpu's types and the
library's.
