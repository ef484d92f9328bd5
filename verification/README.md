# obscura_webgl

A software OpenGL-style renderer state machine, a small GLSL front end and
the TLS/connection helpers of a headless browser's network stack, written in
Verus. Every function in `src/` carries a contract that Verus proves, except
the two wrappers around the `brotli` crate in `src/net/boring_tls.rs`
(`brotli_compress`, `brotli_decompress`), whose contracts are trusted: they
state what the crate does and are not proved.

## Layout

- `src/gl_types.rs`, `src/math.rs`: the GL enums and object types, integer
  vectors, colours and lines.
- `src/gl_context.rs`: the context state, its construction, `init`, and the
  error flag (the first error is kept until it is queried).
- `src/gl_impl/`: the GL entry points. `objects.rs` holds the object tables
  (buffers, textures, vertex arrays, programs) and their name allocation;
  `state.rs` the enables, blend, stencil, depth and query state; `textures.rs`
  and `pixels.rs` texture uploads and pixel reads; `ext.rs` the
  library-specific extensions (user-owned data, direct back-buffer drawing).
- `src/gl_internal.rs` and `src/gl_internal/`: pixel and depth/stencil
  encodings with their read/write laws, the depth, stencil and logic-op
  tests, per-fragment processing, vertex attribute decoding and texture
  format conversion.
- `src/gl_glsl.rs`: the integer side of texture sampling (wrapping, texel
  addressing, texture lookup with its fallbacks).
- `src/pgl_ext.rs`: packed-RGBA conversion and grey-level blending.
- `src/glsl/`: the GLSL AST, the mapping from parsed syntax to the AST, and
  the compiler to stack-machine bytecode.
- `src/net/`: the Chrome TLS profile, certificate compression with brotli and
  the certificate-error override list of the HTTP connector.
- `app/`: what stays outside the verified library: floating-point
  rasterisation and sampling, the bytecode interpreter, the C API over raw
  pointers, GLSL parsing with the `glsl` crate, and the asynchronous TLS and
  HTTP plumbing.
- `tests/`: executable tests of the library.
