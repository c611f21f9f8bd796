# coreaudio_host

The decisions of an audio host on CoreAudio, verified with Verus.

- `src/` is the verified library: which properties of the audio system are watched behind a
  stream, what becomes of a listener that cannot be registered, what each change that is noticed
  turns into, and how a stream is played, paused and monitored. Work that needs threads, channels
  or the audio system is named by state machines, which take what came of it and decide what is
  due next.
- `tests/` runs the library.
- `app/` is ordinary Rust around the library: threads, channels, locks, and the calls into macOS.
