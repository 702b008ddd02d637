# voice_input

The decision logic of the Qwen3-ASR voice-input window and of the `asr`
command, verified with Verus.

- `src/voice_input.rs`: the state machine. `VoiceInputApp::handle` takes a
  click, a key press or the outcome of an action and returns the next action
  (open or stop the microphone, run the recogniser, deliver the text); its
  contract is the spec function `step`.
- `src/view.rs`: what the window shows for a state.
- `src/model_dir.rs`: where the model directory is looked for.
- `src/cli.rs`: device choice, input checks and the report of `asr transcribe`.
- `src/laws.rs`: properties of the state machine over all states and events.
- `app/`: the program: command line, window drawing, microphone, recogniser,
  clipboard and keyboard injection, and resampling (floating point).
- `tests/`: concrete scenarios for each module.
