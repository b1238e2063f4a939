# riff

The decision logic of Riff, a Spotify client for GNOME, as a library verified
with Verus: link parsing, the page and sidebar models, card ordering and
filtering, the settings mappings, the credential cache, the API error policy,
the close-window and inhibit state machines, and the bug-report link.

Layout:

- `src/` — the verified library. Public functions carry contracts stating
  their results, except where nothing can be stated: the audio controllers,
  whose values live in atomics shared with other threads, and the
  constructors of models without fields. The laws that relate several
  functions are public proof functions (`law_*`).
- `tests/` — tests run against the compiled library.
- `app/` — the code around it that Verus does not check: floating-point sample
  processing, the keyring, the About dialog's system report and the translated
  notification texts.
