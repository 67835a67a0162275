# slime_sim

A slime-mould (Physarum) simulation: agents sense, turn, move and deposit
trails on the GPU, with an egui control panel and XML configuration files.

- `src/` is the verified library (Verus): the mixing hash that seeds agents
  and food clumps, spawn modes, title-to-file-name sanitising, configuration
  files as values (what is saved from the panel and what a file loads into
  it), the ordering of saved configurations, the decisions the panel and the
  frame loop take, and the ping-pong schedule of the GPU passes.
  Floating-point settings are carried by their bit patterns (`FloatBits`).
- `app/` is the program around it: the window and event loop (winit), the GPU
  work (wgpu), the panel widgets (egui), XML reading and writing (quick-xml
  with serde) and the floating-point geometry of agents and food maps.
  At run time it reads the WGSL shaders `update`, `diffuse`, `colour` and
  `blit` from a `shaders/` directory.
- `tests/` exercises the library.
