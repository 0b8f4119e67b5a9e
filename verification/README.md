# amber_lume render passes

A Verus library holding the logic of the amber_lume renderer's passes that
can be stated over plain values:

- `layout`: byte images of GPU-visible records (words in `repr(C)` order,
  little-endian), with the proof that every word reads back.
- one module per pass family (`accumulate`, `ao`, `bloom`, `culling`,
  `debug_layer`, `depth`, `draw_sort`, `environment`, `frame_staging`,
  `gtao`, `hiz`, `ibl`, `main_pass`): push-constant blocks and records,
  their sizes, and the per-frame decisions of the passes.
- `recording` and `pass_recording`: the commands each pass records, in
  order (binds, clears, barriers, push constants, dispatches, draws); the
  culling passes' commands live in `culling`.
- `declarations` and `pass_declarations`: the images, buffers and
  acceleration structures each pass declares to the render graph, with the
  proofs that the resources their recordings fetch are declared, and the
  render targets of the graphics passes.
- `ao_graph`: the images ambient occlusion creates and the passes it adds.
- `pipeline_config`: the pipelines the passes ask for.
- `dispatch`, `mips`, `history`, `commands`, `draw_pool`, `blas`,
  `statistics`, `pass_registry`, `sequence`, `brdf_lut`, `vulkan`:
  workgroup counts, mip extents, ping-pong history images, command
  parameters, draw-pool regions, acceleration-structure builds and scratch
  layout, per-pass time statistics, the registry's frame and teardown
  order, runs of fallible steps that stop at the first failure, the
  bake-once lookup table, and the Vulkan values the library uses.

`app/` replays the library's command lists on a Vulkan command buffer with
`ash`, drives the registry's frame and teardown, and converts glam
matrices and `f32` settings into the bit patterns the library carries.
