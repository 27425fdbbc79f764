# voxel

The verified core of a small Vulkan renderer, written in Verus.

- `src/` is the library. Every function in it is verified:
  - `arith_traits`, `vectors`, `vector2`–`vector4`, `point`: vectors and
    points generic over integer scalars, with their operators specified
    through vstd's operator specifications; `vector_laws` proves the
    algebraic laws (affine point/vector arithmetic, dot symmetry, cross
    product anti-commutativity and orthogonality, ...).
  - `queues`, `device`, `swapchain`, `instance`, `validation`, `setup`: the
    decisions taken while setting up Vulkan — which queue families to use,
    which physical devices qualify and in what order, which surface format,
    present mode and image count the swapchain gets, which instance
    extensions are missing, how validation messages are logged, how the
    outcomes of creating each frame's resources are gathered — and the
    setup errors. `api_version` holds the Vulkan versions requested. The few
    ash functions and constants these decisions use are called through small
    trusted wrappers whose contracts restate ash's definitions.
  - `shader`, `shader_macro`: the embedded-shader types and the input
    grammar of the `shaders!` macro.
- `app/` is the program around it: the window, every call into the Vulkan
  driver, the memory allocator and the Slang shader compiler, and the
  floating-point matrix type. It converts the driver's answers into the
  library's plain types and acts on what the library decides.
- `tests/` exercises the library on concrete values.
