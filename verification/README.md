# sgpu

A small GPU abstraction over Vulkan: buffers and images in bindless
descriptor arrays, command recording with per-thread command pools,
timeline-semaphore counters for synchronization, simplified barriers, and
swapchain presentation.

The library's decisions are verified with Verus and live in `src/`:

- `types.rs`: resource descriptions, flags, formats and the `Counter` that
  packs a queue and a timeline value.
- `barrier.rs`: the access table and how barriers fold accesses into
  synchronization masks and image layouts.
- `commands.rs`: queues, pipeline stages and the waits a command buffer records.
- `pools.rs`: counter polling, submission plans and the per-queue ring of
  command pools.
- `registry.rs`: the registries of live buffers, images and image views, and
  the image memory barrier of a view.
- `device.rs`: queue family selection, device selection and the extensions
  to enable.
- `swapchain.rs`: present mode, surface format, extent and image count
  choices, and the per-frame slots.
- `pipeline.rs`: rasterization pipeline state and SPIR-V words.

`app/` holds the driver calls around it (instance, device, queues,
swapchain, recording) and the types that carry floating point values.
`tests/` checks the library's values against the Vulkan headers and runs its
behaviour on concrete inputs.
