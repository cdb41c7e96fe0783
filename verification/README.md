# larql_compute

Dispatch planning for a Vulkan compute backend of transformer inference.

- `src/` holds the verified library: workgroup and buffer geometry of every
  kernel, the per-position slicing of batched stages, the KV-cache
  bookkeeping, the routing of matrix products between CPU and GPU, and the
  per-layer plans of the fused layer and full-pipeline paths. Each plan is a
  plain value whose contract states every push constant, buffer size and grid
  dimension.
- `app/` records the plans into vulkano command buffers, owns the device,
  queue, allocators and buffers, and runs the floating-point CPU fallbacks.
- `tests/` exercises the plans on concrete shapes.
