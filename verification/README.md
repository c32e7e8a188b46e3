# rusty_renderer

The verified core of a multi-backend (Vulkan, DirectX 12, wgpu) 3D renderer,
written in Verus.

- `src/` is the library, verified; its trusted items are the call of
  `str::to_lowercase` behind the pipeline factory, the call of bytemuck's
  `cast_slice` that lays out a scene's index list as bytes, and the call of
  `u32::from_ne_bytes` that finds the machine's byte order for SPIR-V words:
  - `backends/`: resource, binding and vertex descriptions, backend
    capabilities, the backend interfaces, and the decisions each backend takes
    before it calls its graphics API (memory types, usage and stage bits,
    device, swapchain and queue family choices, descriptor layouts, frame
    pacing, root parameters, descriptor heap offsets, DXGI formats, the commands
    recorded for a frame, when a frame may be captured, readback rows,
    texture upload checks).
  - `render_graph.rs`: passes, resources and shader registrations of a frame,
    and the commands a pass asks the backend to record.
  - `passes/`: the triangle, vertex buffer, forward and shadow map passes, and
    the buffers and index list declared for a scene's meshes.
  - `pipelines/`: the simple and forward pipelines, each building the render
    graph of a scene from the buffers the backend created for its meshes (the
    forward one with the scene's camera, lights, materials and textures), and
    the factory choosing a pipeline by name.
  - `config.rs`, `application/`, `camera.rs`: configuration rules, the
    application runner's steps, the event-loop decisions and screenshot names.
  - `words.rs`: how 32-bit words are laid out as bytes, for index buffers and
    SPIR-V code.
- `tests/` runs the library on concrete values.
- `app/` is the program around it: command-line parsing, logging, and the
  floating-point parts (camera matrices, vertices, clear colors). It does not
  render: the scene loader, the shader and resource managers and the GPU and
  window bindings are not part of this source tree, so after checking the
  configuration the program stops with an error saying the render engine is
  not included. Nothing in it calls the runner, the event loop, the frame
  plan or the pipelines.
