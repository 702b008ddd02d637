//! The voice-input state machine.
//!
//! The window hands every click and key press to [`VoiceInputApp`], which
//! answers with the next state and an [`Action`]: open the microphone, stop
//! it, run the recogniser on the recorded samples, or put the text on the
//! clipboard / type it into the focused window. The application performs the
//! action and hands its outcome back as an [`Event`] before the next input
//! event, as the handlers of a window run one after another. An input event
//! that arrives while an action is still outstanding is ignored, and so is an
//! outcome that no outstanding action awaits.

use vstd::prelude::*;
use vstd::string::*;

verus! {

/// Sample rate, in Hz, that the recogniser expects.
pub const TARGET_SAMPLE_RATE: u32 = 16000;

/// Language hint given to the recogniser.
pub const TRANSCRIPTION_LANGUAGE: &'static str = "ja";

/// Shown when the microphone could not be opened; followed by the error.
pub const DEVICE_ERROR_PREFIX: &'static str = "デバイスエラー: ";

/// Shown when the microphone opened but would not start; followed by the error.
pub const START_ERROR_PREFIX: &'static str = "録音開始エラー: ";

/// Shown when a recording holds no samples.
pub const EMPTY_RECORDING_MESSAGE: &'static str = "録音データが空です";

/// Shown while the recogniser runs.
pub const TRANSCRIBING_MESSAGE: &'static str = "文字起こし処理中...";

/// Shown when the recogniser fails; followed by the error.
pub const ASR_ERROR_PREFIX: &'static str = "ASRエラー: ";

/// How recording is started and stopped.
#[derive(Clone, Copy, Debug, PartialEq, Eq, Structural)]
pub enum InputMode {
    /// One action starts recording, the next stops it.
    Toggle,
    /// Recording runs while the `h` key is held.
    Hold,
}

/// Where the transcribed text goes.
#[derive(Clone, Copy, Debug, PartialEq, Eq, Structural)]
pub enum OutputMethod {
    /// Copied to the system clipboard.
    Clipboard,
    /// Typed into the focused window.
    DirectInput,
}

/// Where the microphone capture stands.
#[derive(Clone, Copy, Debug, PartialEq, Eq, Structural)]
pub enum Capture {
    /// No capture is held and no capture action is outstanding.
    Idle,
    /// A capture has been asked for; whether it started is not known yet.
    Opening,
    /// A capture is running.
    Running,
    /// The capture has been asked to stop; its samples are not known yet.
    Draining,
    /// The samples are with the recogniser; its answer is not known yet.
    Transcribing,
}

/// The step at which opening the microphone failed.
#[derive(Clone, Copy, Debug, PartialEq, Eq, Structural)]
pub enum CaptureFailure {
    /// No input device could be opened.
    Device,
    /// The device opened but its stream would not start.
    Start,
}

/// An input event of the window, or the outcome of an action.
#[derive(Clone, Debug, PartialEq, Eq)]
pub enum Event {
    /// The record button was clicked.
    RecordClicked,
    /// The input-mode button was clicked.
    ModeClicked,
    /// The output-method button was clicked.
    OutputClicked,
    /// The copy button was clicked.
    CopyClicked,
    /// The clear button was clicked.
    ClearClicked,
    /// A key went down, with the state of the control and shift modifiers.
    KeyDown { key: String, control: bool, shift: bool },
    /// A key went up.
    KeyUp { key: String },
    /// Outcome of [`Action::StartCapture`]: the capture runs.
    CaptureStarted,
    /// Outcome of [`Action::StartCapture`]: the capture failed with `message`.
    CaptureFailed { failure: CaptureFailure, message: String },
    /// Outcome of [`Action::StopCapture`]: whether any samples were recorded.
    CaptureStopped { has_samples: bool },
    /// Outcome of [`Action::Transcribe`]: the recognised text.
    Transcribed { text: String },
    /// Outcome of [`Action::Transcribe`]: the recogniser failed with `message`.
    TranscriptionFailed { message: String },
}

/// What the application is asked to do after an event.
#[derive(Clone, Debug, PartialEq, Eq)]
pub enum Action {
    /// Nothing.
    Nothing,
    /// Open the default microphone and start recording.
    StartCapture,
    /// Stop the running capture and collect its samples.
    StopCapture,
    /// Bring the collected samples to `sample_rate` and recognise them with
    /// the language hint `language`.
    Transcribe { sample_rate: u32, language: String },
    /// Deliver `text` by `method`.
    Output { method: OutputMethod, text: String },
}

/// Mathematical model of [`Event`].
pub enum EventView {
    RecordClicked,
    ModeClicked,
    OutputClicked,
    CopyClicked,
    ClearClicked,
    KeyDown { key: Seq<char>, control: bool, shift: bool },
    KeyUp { key: Seq<char> },
    CaptureStarted,
    CaptureFailed { failure: CaptureFailure, message: Seq<char> },
    CaptureStopped { has_samples: bool },
    Transcribed { text: Seq<char> },
    TranscriptionFailed { message: Seq<char> },
}

/// Mathematical model of [`Action`].
pub enum ActionView {
    Nothing,
    StartCapture,
    StopCapture,
    Transcribe { sample_rate: u32, language: Seq<char> },
    Output { method: OutputMethod, text: Seq<char> },
}

impl View for Event {
    type V = EventView;

    open spec fn view(&self) -> EventView {
        match self {
            Event::RecordClicked => EventView::RecordClicked,
            Event::ModeClicked => EventView::ModeClicked,
            Event::OutputClicked => EventView::OutputClicked,
            Event::CopyClicked => EventView::CopyClicked,
            Event::ClearClicked => EventView::ClearClicked,
            Event::KeyDown { key, control, shift } => EventView::KeyDown {
                key: key@,
                control: *control,
                shift: *shift,
            },
            Event::KeyUp { key } => EventView::KeyUp { key: key@ },
            Event::CaptureStarted => EventView::CaptureStarted,
            Event::CaptureFailed { failure, message } => EventView::CaptureFailed {
                failure: *failure,
                message: message@,
            },
            Event::CaptureStopped { has_samples } => EventView::CaptureStopped {
                has_samples: *has_samples,
            },
            Event::Transcribed { text } => EventView::Transcribed { text: text@ },
            Event::TranscriptionFailed { message } => EventView::TranscriptionFailed {
                message: message@,
            },
        }
    }
}

impl View for Action {
    type V = ActionView;

    open spec fn view(&self) -> ActionView {
        match self {
            Action::Nothing => ActionView::Nothing,
            Action::StartCapture => ActionView::StartCapture,
            Action::StopCapture => ActionView::StopCapture,
            Action::Transcribe { sample_rate, language } => ActionView::Transcribe {
                sample_rate: *sample_rate,
                language: language@,
            },
            Action::Output { method, text } => ActionView::Output { method: *method, text: text@ },
        }
    }
}

/// Mathematical model of [`VoiceInputApp`].
pub struct VoiceInputView {
    /// The transcribed text, or the last message.
    pub text: Seq<char>,
    /// Whether the window shows recording as on.
    pub is_recording: bool,
    pub input_mode: InputMode,
    pub output_method: OutputMethod,
    pub capture: Capture,
}

impl VoiceInputView {
    /// A capture that is being opened or runs is only ever there while
    /// recording is shown as on.
    pub open spec fn wf(self) -> bool {
        (self.capture == Capture::Opening || self.capture == Capture::Running) ==> self.is_recording
    }

    /// An action is outstanding.
    pub open spec fn busy(self) -> bool {
        ||| self.capture == Capture::Opening
        ||| self.capture == Capture::Draining
        ||| self.capture == Capture::Transcribing
    }
}

/// The state of a freshly opened window.
pub open spec fn initial_state() -> VoiceInputView {
    VoiceInputView {
        text: Seq::empty(),
        is_recording: false,
        input_mode: InputMode::Toggle,
        output_method: OutputMethod::Clipboard,
        capture: Capture::Idle,
    }
}

/// The other input mode.
pub open spec fn other_mode(m: InputMode) -> InputMode {
    match m {
        InputMode::Toggle => InputMode::Hold,
        InputMode::Hold => InputMode::Toggle,
    }
}

/// The other output method.
pub open spec fn other_method(m: OutputMethod) -> OutputMethod {
    match m {
        OutputMethod::Clipboard => OutputMethod::DirectInput,
        OutputMethod::DirectInput => OutputMethod::Clipboard,
    }
}

/// The message shown before the error of a failed capture.
pub open spec fn failure_prefix(f: CaptureFailure) -> Seq<char> {
    match f {
        CaptureFailure::Device => DEVICE_ERROR_PREFIX@,
        CaptureFailure::Start => START_ERROR_PREFIX@,
    }
}

/// Asks for a capture.
pub open spec fn start_recording_spec(s: VoiceInputView) -> (VoiceInputView, ActionView) {
    (VoiceInputView { capture: Capture::Opening, ..s }, ActionView::StartCapture)
}

/// Stops the capture if one runs; otherwise does nothing.
pub open spec fn stop_recording_spec(s: VoiceInputView) -> (VoiceInputView, ActionView) {
    if s.capture == Capture::Running {
        (VoiceInputView { capture: Capture::Draining, ..s }, ActionView::StopCapture)
    } else {
        (s, ActionView::Nothing)
    }
}

/// Stops recording when it is on, starts it when it is off, and flips the
/// recording flag either way.
pub open spec fn toggle_recording_spec(s: VoiceInputView) -> (VoiceInputView, ActionView) {
    if s.is_recording {
        let (t, a) = stop_recording_spec(s);
        (VoiceInputView { is_recording: false, ..t }, a)
    } else {
        let (t, a) = start_recording_spec(s);
        (VoiceInputView { is_recording: true, ..t }, a)
    }
}

/// Delivery of the text: nothing when it is empty.
pub open spec fn output_action(s: VoiceInputView) -> ActionView {
    if s.text.len() == 0 {
        ActionView::Nothing
    } else {
        ActionView::Output { method: s.output_method, text: s.text }
    }
}

/// Copy to the clipboard: the text goes to the clipboard whatever the
/// output method; nothing when it is empty.
pub open spec fn clipboard_copy_action(s: VoiceInputView) -> ActionView {
    if s.text.len() == 0 {
        ActionView::Nothing
    } else {
        ActionView::Output { method: OutputMethod::Clipboard, text: s.text }
    }
}

/// Sets the input mode and starts recording unless it is already on.
pub open spec fn start_in_mode_spec(s: VoiceInputView, mode: InputMode) -> (VoiceInputView, ActionView) {
    let s1 = VoiceInputView { input_mode: mode, ..s };
    if !s.is_recording {
        let (t, a) = start_recording_spec(s1);
        (VoiceInputView { is_recording: true, ..t }, a)
    } else {
        (s1, ActionView::Nothing)
    }
}

/// Key presses: with control held, `t` selects toggle mode and turns
/// recording on or off, `h` selects hold-to-talk and starts recording unless
/// it is on, `c` copies the text to the clipboard (or, with shift, clears
/// it) and `o` switches the output method. Everything else does nothing.
pub open spec fn key_down_spec(s: VoiceInputView, key: Seq<char>, control: bool, shift: bool) -> (
    VoiceInputView,
    ActionView,
) {
    if !control {
        (s, ActionView::Nothing)
    } else if key == seq!['t'] {
        toggle_recording_spec(VoiceInputView { input_mode: InputMode::Toggle, ..s })
    } else if key == seq!['h'] {
        start_in_mode_spec(s, InputMode::Hold)
    } else if key == seq!['c'] {
        if shift {
            (VoiceInputView { text: Seq::empty(), ..s }, ActionView::Nothing)
        } else {
            (s, clipboard_copy_action(s))
        }
    } else if key == seq!['o'] {
        (VoiceInputView { output_method: other_method(s.output_method), ..s }, ActionView::Nothing)
    } else {
        (s, ActionView::Nothing)
    }
}

/// Releasing `h` during hold-to-talk recording stops it.
pub open spec fn key_up_spec(s: VoiceInputView, key: Seq<char>) -> (VoiceInputView, ActionView) {
    if s.input_mode == InputMode::Hold && s.is_recording && key == seq!['h'] {
        let (t, a) = stop_recording_spec(s);
        (VoiceInputView { is_recording: false, ..t }, a)
    } else {
        (s, ActionView::Nothing)
    }
}

/// The mode button stops a running recording (leaving the recording flag as
/// it is) and switches the input mode.
pub open spec fn mode_click_spec(s: VoiceInputView) -> (VoiceInputView, ActionView) {
    let (t, a) = if s.is_recording {
        stop_recording_spec(s)
    } else {
        (s, ActionView::Nothing)
    };
    (VoiceInputView { input_mode: other_mode(s.input_mode), ..t }, a)
}

/// Whether the event comes from the window rather than from an action.
pub open spec fn is_input(e: EventView) -> bool {
    match e {
        EventView::RecordClicked => true,
        EventView::ModeClicked => true,
        EventView::OutputClicked => true,
        EventView::CopyClicked => true,
        EventView::ClearClicked => true,
        EventView::KeyDown { .. } => true,
        EventView::KeyUp { .. } => true,
        _ => false,
    }
}

/// The next state and the action asked for, after event `e` in state `s`.
pub open spec fn step(s: VoiceInputView, e: EventView) -> (VoiceInputView, ActionView) {
    if is_input(e) && s.busy() {
        (s, ActionView::Nothing)
    } else {
        match e {
            EventView::RecordClicked => toggle_recording_spec(s),
            EventView::ModeClicked => mode_click_spec(s),
            EventView::OutputClicked => (
                VoiceInputView { output_method: other_method(s.output_method), ..s },
                ActionView::Nothing,
            ),
            EventView::CopyClicked => (s, output_action(s)),
            EventView::ClearClicked => (VoiceInputView { text: Seq::empty(), ..s }, ActionView::Nothing),
            EventView::KeyDown { key, control, shift } => key_down_spec(s, key, control, shift),
            EventView::KeyUp { key } => key_up_spec(s, key),
            EventView::CaptureStarted => if s.capture == Capture::Opening {
                (VoiceInputView { capture: Capture::Running, ..s }, ActionView::Nothing)
            } else {
                (s, ActionView::Nothing)
            },
            EventView::CaptureFailed { failure, message } => if s.capture == Capture::Opening {
                (
                    VoiceInputView {
                        capture: Capture::Idle,
                        text: failure_prefix(failure) + message,
                        ..s
                    },
                    ActionView::Nothing,
                )
            } else {
                (s, ActionView::Nothing)
            },
            EventView::CaptureStopped { has_samples } => if s.capture == Capture::Draining {
                if has_samples {
                    (
                        VoiceInputView {
                            capture: Capture::Transcribing,
                            text: TRANSCRIBING_MESSAGE@,
                            ..s
                        },
                        ActionView::Transcribe {
                            sample_rate: TARGET_SAMPLE_RATE,
                            language: TRANSCRIPTION_LANGUAGE@,
                        },
                    )
                } else {
                    (
                        VoiceInputView {
                            capture: Capture::Idle,
                            text: EMPTY_RECORDING_MESSAGE@,
                            ..s
                        },
                        ActionView::Nothing,
                    )
                }
            } else {
                (s, ActionView::Nothing)
            },
            EventView::Transcribed { text } => if s.capture == Capture::Transcribing {
                (VoiceInputView { capture: Capture::Idle, text: text, ..s }, ActionView::Nothing)
            } else {
                (s, ActionView::Nothing)
            },
            EventView::TranscriptionFailed { message } => if s.capture == Capture::Transcribing {
                (
                    VoiceInputView {
                        capture: Capture::Idle,
                        text: ASR_ERROR_PREFIX@ + message,
                        ..s
                    },
                    ActionView::Nothing,
                )
            } else {
                (s, ActionView::Nothing)
            },
        }
    }
}

/// Whether `key` is the one-character key name `c`.
fn is_key(key: &str, c: char) -> (b: bool)
    ensures
        b == (key@ == seq![c]),
{
    if key.unicode_len() == 1 && key.get_char(0) == c {
        assert(key@ =~= seq![c]);
        true
    } else {
        false
    }
}

/// The state of the voice-input window.
pub struct VoiceInputApp {
    text: String,
    is_recording: bool,
    input_mode: InputMode,
    output_method: OutputMethod,
    capture: Capture,
}

impl View for VoiceInputApp {
    type V = VoiceInputView;

    closed spec fn view(&self) -> VoiceInputView {
        VoiceInputView {
            text: self.text@,
            is_recording: self.is_recording,
            input_mode: self.input_mode,
            output_method: self.output_method,
            capture: self.capture,
        }
    }
}

impl VoiceInputApp {
    #[verifier::type_invariant]
    spec fn inv(&self) -> bool {
        (self.capture == Capture::Opening || self.capture == Capture::Running) ==> self.is_recording
    }

    /// A window with no text, recording off, toggle mode and clipboard output.
    pub fn new() -> (app: VoiceInputApp)
        ensures
            app@ == initial_state(),
    {
        VoiceInputApp {
            text: String::new(),
            is_recording: false,
            input_mode: InputMode::Toggle,
            output_method: OutputMethod::Clipboard,
            capture: Capture::Idle,
        }
    }

    /// The transcribed text, or the last message.
    pub fn text(&self) -> (t: String)
        ensures
            t@ == self@.text,
    {
        self.text.clone()
    }

    /// Whether recording is shown as on.
    pub fn is_recording(&self) -> (b: bool)
        ensures
            b == self@.is_recording,
    {
        self.is_recording
    }

    /// The input mode.
    pub fn input_mode(&self) -> (m: InputMode)
        ensures
            m == self@.input_mode,
    {
        self.input_mode
    }

    /// The output method.
    pub fn output_method(&self) -> (m: OutputMethod)
        ensures
            m == self@.output_method,
    {
        self.output_method
    }

    /// Where the capture stands.
    pub fn capture(&self) -> (c: Capture)
        ensures
            c == self@.capture,
    {
        self.capture
    }

    /// Whether an action is outstanding.
    pub fn is_busy(&self) -> (b: bool)
        ensures
            b == self@.busy(),
    {
        match self.capture {
            Capture::Opening | Capture::Draining | Capture::Transcribing => true,
            _ => false,
        }
    }

    /// Asks for a capture; the caller has already turned recording on.
    fn start_recording(&mut self) -> (action: Action)
        requires
            old(self).is_recording,
        ensures
            (final(self)@, action@) == start_recording_spec(old(self)@),
    {
        proof {
            use_type_invariant(&*self);
        }
        self.capture = Capture::Opening;
        Action::StartCapture
    }

    /// Asks the running capture, if any, to stop.
    fn stop_recording(&mut self) -> (action: Action)
        ensures
            (final(self)@, action@) == stop_recording_spec(old(self)@),
    {
        proof {
            use_type_invariant(&*self);
        }
        if self.capture == Capture::Running {
            self.capture = Capture::Draining;
            Action::StopCapture
        } else {
            Action::Nothing
        }
    }

    /// Stops recording when it is on and starts it when it is off.
    fn toggle_recording(&mut self) -> (action: Action)
        requires
            !old(self)@.busy(),
        ensures
            (final(self)@, action@) == toggle_recording_spec(old(self)@),
    {
        proof {
            use_type_invariant(&*self);
        }
        if self.is_recording {
            let action = self.stop_recording();
            self.is_recording = false;
            action
        } else {
            self.is_recording = true;
            self.start_recording()
        }
    }

    /// Asks for the text to be delivered, unless it is empty.
    fn output_text(&self) -> (action: Action)
        ensures
            action@ == output_action(self@),
    {
        if self.text.as_str().is_empty() {
            Action::Nothing
        } else {
            Action::Output { method: self.output_method, text: self.text.clone() }
        }
    }

    /// Asks for the text to be put on the clipboard, unless it is empty.
    fn copy_to_clipboard(&self) -> (action: Action)
        ensures
            action@ == clipboard_copy_action(self@),
    {
        if self.text.as_str().is_empty() {
            Action::Nothing
        } else {
            Action::Output { method: OutputMethod::Clipboard, text: self.text.clone() }
        }
    }

    /// Selects `mode` and starts recording unless it is on.
    fn start_in_mode(&mut self, mode: InputMode) -> (action: Action)
        requires
            !old(self)@.busy(),
        ensures
            (final(self)@, action@) == start_in_mode_spec(old(self)@, mode),
    {
        proof {
            use_type_invariant(&*self);
        }
        self.input_mode = mode;
        if !self.is_recording {
            self.is_recording = true;
            self.start_recording()
        } else {
            Action::Nothing
        }
    }

    /// The record button: toggles recording.
    pub fn on_record_click(&mut self) -> (action: Action)
        ensures
            (final(self)@, action@) == step(old(self)@, EventView::RecordClicked),
    {
        proof {
            use_type_invariant(&*self);
        }
        if self.is_busy() {
            return Action::Nothing;
        }
        self.toggle_recording()
    }

    /// The mode button: stops a running recording and switches the input mode.
    pub fn on_mode_click(&mut self) -> (action: Action)
        ensures
            (final(self)@, action@) == step(old(self)@, EventView::ModeClicked),
    {
        proof {
            use_type_invariant(&*self);
        }
        if self.is_busy() {
            return Action::Nothing;
        }
        let action = if self.is_recording {
            self.stop_recording()
        } else {
            Action::Nothing
        };
        self.input_mode = match self.input_mode {
            InputMode::Toggle => InputMode::Hold,
            InputMode::Hold => InputMode::Toggle,
        };
        action
    }

    /// The output button: switches the output method.
    pub fn on_output_click(&mut self) -> (action: Action)
        ensures
            (final(self)@, action@) == step(old(self)@, EventView::OutputClicked),
    {
        proof {
            use_type_invariant(&*self);
        }
        if self.is_busy() {
            return Action::Nothing;
        }
        self.output_method = match self.output_method {
            OutputMethod::Clipboard => OutputMethod::DirectInput,
            OutputMethod::DirectInput => OutputMethod::Clipboard,
        };
        Action::Nothing
    }

    /// The copy button: delivers the text by the output method.
    pub fn on_copy_click(&self) -> (action: Action)
        ensures
            (self@, action@) == step(self@, EventView::CopyClicked),
    {
        if self.is_busy() {
            return Action::Nothing;
        }
        self.output_text()
    }

    /// The clear button: empties the text.
    pub fn on_clear_click(&mut self) -> (action: Action)
        ensures
            (final(self)@, action@) == step(old(self)@, EventView::ClearClicked),
    {
        proof {
            use_type_invariant(&*self);
        }
        if self.is_busy() {
            return Action::Nothing;
        }
        self.text = String::new();
        Action::Nothing
    }

    /// A key press, with the state of the control and shift modifiers.
    pub fn on_key_down(&mut self, key: &str, control: bool, shift: bool) -> (action: Action)
        ensures
            (final(self)@, action@) == step(
                old(self)@,
                EventView::KeyDown { key: key@, control, shift },
            ),
    {
        proof {
            use_type_invariant(&*self);
        }
        if self.is_busy() || !control {
            return Action::Nothing;
        }
        if is_key(key, 't') {
            self.input_mode = InputMode::Toggle;
            self.toggle_recording()
        } else if is_key(key, 'h') {
            self.start_in_mode(InputMode::Hold)
        } else if is_key(key, 'c') {
            if shift {
                self.text = String::new();
                Action::Nothing
            } else {
                self.copy_to_clipboard()
            }
        } else if is_key(key, 'o') {
            self.output_method = match self.output_method {
                OutputMethod::Clipboard => OutputMethod::DirectInput,
                OutputMethod::DirectInput => OutputMethod::Clipboard,
            };
            Action::Nothing
        } else {
            Action::Nothing
        }
    }

    /// A key release.
    pub fn on_key_up(&mut self, key: &str) -> (action: Action)
        ensures
            (final(self)@, action@) == step(old(self)@, EventView::KeyUp { key: key@ }),
    {
        proof {
            use_type_invariant(&*self);
        }
        if self.is_busy() {
            return Action::Nothing;
        }
        if self.input_mode == InputMode::Hold && self.is_recording && is_key(key, 'h') {
            let action = self.stop_recording();
            self.is_recording = false;
            action
        } else {
            Action::Nothing
        }
    }

    /// The capture asked for has started.
    pub fn on_capture_started(&mut self) -> (action: Action)
        ensures
            (final(self)@, action@) == step(old(self)@, EventView::CaptureStarted),
    {
        proof {
            use_type_invariant(&*self);
        }
        if self.capture == Capture::Opening {
            self.capture = Capture::Running;
        }
        Action::Nothing
    }

    /// The capture asked for could not be started.
    pub fn on_capture_failed(&mut self, failure: CaptureFailure, message: &str) -> (action: Action)
        ensures
            (final(self)@, action@) == step(
                old(self)@,
                EventView::CaptureFailed { failure, message: message@ },
            ),
    {
        proof {
            use_type_invariant(&*self);
        }
        if self.capture == Capture::Opening {
            let prefix = match failure {
                CaptureFailure::Device => DEVICE_ERROR_PREFIX,
                CaptureFailure::Start => START_ERROR_PREFIX,
            };
            self.capture = Capture::Idle;
            self.text = prefix.to_owned().concat(message);
        }
        Action::Nothing
    }

    /// The capture has stopped; `has_samples` tells whether it recorded any.
    pub fn on_capture_stopped(&mut self, has_samples: bool) -> (action: Action)
        ensures
            (final(self)@, action@) == step(
                old(self)@,
                EventView::CaptureStopped { has_samples },
            ),
    {
        proof {
            use_type_invariant(&*self);
        }
        if self.capture != Capture::Draining {
            return Action::Nothing;
        }
        if has_samples {
            self.capture = Capture::Transcribing;
            self.text = TRANSCRIBING_MESSAGE.to_owned();
            Action::Transcribe {
                sample_rate: TARGET_SAMPLE_RATE,
                language: TRANSCRIPTION_LANGUAGE.to_owned(),
            }
        } else {
            self.capture = Capture::Idle;
            self.text = EMPTY_RECORDING_MESSAGE.to_owned();
            Action::Nothing
        }
    }

    /// The recogniser has produced `text`.
    pub fn on_transcribed(&mut self, text: String) -> (action: Action)
        ensures
            (final(self)@, action@) == step(old(self)@, EventView::Transcribed { text: text@ }),
    {
        proof {
            use_type_invariant(&*self);
        }
        if self.capture == Capture::Transcribing {
            self.capture = Capture::Idle;
            self.text = text;
        }
        Action::Nothing
    }

    /// The recogniser failed with `message`.
    pub fn on_transcription_failed(&mut self, message: &str) -> (action: Action)
        ensures
            (final(self)@, action@) == step(
                old(self)@,
                EventView::TranscriptionFailed { message: message@ },
            ),
    {
        proof {
            use_type_invariant(&*self);
        }
        if self.capture == Capture::Transcribing {
            self.capture = Capture::Idle;
            self.text = ASR_ERROR_PREFIX.to_owned().concat(message);
        }
        Action::Nothing
    }

    /// Handles one event.
    pub fn handle(&mut self, event: Event) -> (action: Action)
        ensures
            (final(self)@, action@) == step(old(self)@, event@),
            final(self)@.wf(),
    {
        proof {
            use_type_invariant(&*self);
        }
        let action = match event {
            Event::RecordClicked => self.on_record_click(),
            Event::ModeClicked => self.on_mode_click(),
            Event::OutputClicked => self.on_output_click(),
            Event::CopyClicked => self.on_copy_click(),
            Event::ClearClicked => self.on_clear_click(),
            Event::KeyDown { key, control, shift } => self.on_key_down(key.as_str(), control, shift),
            Event::KeyUp { key } => self.on_key_up(key.as_str()),
            Event::CaptureStarted => self.on_capture_started(),
            Event::CaptureFailed { failure, message } => self.on_capture_failed(
                failure,
                message.as_str(),
            ),
            Event::CaptureStopped { has_samples } => self.on_capture_stopped(has_samples),
            Event::Transcribed { text } => self.on_transcribed(text),
            Event::TranscriptionFailed { message } => self.on_transcription_failed(
                message.as_str(),
            ),
        };
        proof {
            use_type_invariant(&*self);
        }
        action
    }
}

} // verus!
