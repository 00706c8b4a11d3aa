# golem_tts

A durable text-to-speech component for Golem workers.

- `src/` is the library:
  - the data of the TTS interface (`types`) and the provider interface (`guest`);
  - the voices handed out by listings and lookups (`voice_results`, `voices`);
  - the inputs each call records and the requests its provider is handed (`records`);
  - the plan of each durable call: the call it is recorded as, its recorded
    input, its request (`plans`);
  - the durable-call protocol (`durability::step`), which says, live, that the
    provider is handed the planned request and one entry is appended, and, on
    replay, that the planned call's record is read back without calling the
    provider or recording;
  - the live halves and deliveries of each durable call (`durable_calls`),
    with a law per main call;
  - streams and stream creation (`streams`), and the interface served directly
    on top of a provider (`durable_tts`).
- `app/` performs the host side with `golem_rust`: it asks whether a call runs
  live, records entries and reads them back, following `durability::step`. It
  holds copies of the recorded types that carry `golem_rust`'s derives.
- `tests/` runs the library against an in-memory provider.
