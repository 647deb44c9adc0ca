# rwig

Capture of the audio that another Windows process renders: a patch library is
injected into the target, hooks its audio client and render client, and talks to
the host over inter-process channels.

- `src/` is the library, verified with Verus: the decoding of the wave format
  layouts, the pointer-width rules that decide which patch library fits a target,
  the injector's checks, the interpretation of the patch's replies, the decisions
  of the message listener and of the capture stream's consumer, the simulated
  endpoint's bookkeeping of the render buffer, and the decoding of wide strings.
- `app/` holds what Verus does not see: the Windows calls, the channels and
  threads, the process-wide state, the hooks themselves, and the serde and
  thiserror forms of the library's types.
- `tests/` runs the library on concrete values.
