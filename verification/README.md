# dst_heap

Descriptor-indexing helpers for shaders that use a bindless resource heap
(descriptor set `0`, binding `0`) and a bindless sampler heap (descriptor set
`1`, binding `0`).

- `src/` is the verified library: the heap layout constants, the image and
  sampler handles with the descriptor each one refers to, and element access
  to a resolved storage buffer, each with its contract; `src/shaders.rs` also
  proves the laws that relate them (the heaps never alias, images and storage
  buffers share one heap, a load after a store gives back the stored value).
- `app/` holds the shader-side accessors that reach a descriptor with inline
  SPIR-V assembly (`storage_buffer_from_u32`, image sampling, texel reads and
  writes). They run only on `target_arch = "spirv"` and panic elsewhere.
- `tests/` exercises the library on concrete values.
