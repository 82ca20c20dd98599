# niri_color

The decision logic of a compositor's color management, verified with Verus: a receive-only
`wp-color-management-v1` server, and the blend space that HDR outputs are rendered in.

- `src/wire.rs`: numbers of the named transfer functions and primaries; the two trusted calls into
  the Wayland bindings.
- `src/description.rs`: image descriptions, of clients and of outputs, and what is told about them.
- `src/creator.rs`: a client puts an image description together.
- `src/manager.rs`: what is advertised, the requests on the other objects, and identities.
- `src/surface.rs`: the description attached to a surface.
- `src/blend.rs`: content colors, shader uniforms, texture program overrides.
- `src/laws.rs`: what holds across functions and runs of requests.
- `app/`: the Wayland dispatch and the GLES rendering around it, unverified.
