//! Properties of the voice-input state machine and of the model lookup
//! that hold over all states and inputs.

use vstd::prelude::*;
use crate::model_dir::{candidate_dirs, flag_at, model_dir_choice, path_join, CACHE_SNAPSHOT_DIR};
use crate::view::{body_of, PLACEHOLDER};
use crate::voice_input::{
    clipboard_copy_action, failure_prefix, is_input, other_method, other_mode, output_action, step,
    toggle_recording_spec, ActionView, Capture, CaptureFailure, EventView, InputMode, OutputMethod,
    VoiceInputView, ASR_ERROR_PREFIX, DEVICE_ERROR_PREFIX, EMPTY_RECORDING_MESSAGE, START_ERROR_PREFIX,
    TARGET_SAMPLE_RATE, TRANSCRIBING_MESSAGE, TRANSCRIPTION_LANGUAGE,
};

verus! {

/// Whether `e` is an outcome that a capture in state `c` is waiting for.
pub open spec fn awaits(c: Capture, e: EventView) -> bool {
    match e {
        EventView::CaptureStarted => c == Capture::Opening,
        EventView::CaptureFailed { .. } => c == Capture::Opening,
        EventView::CaptureStopped { .. } => c == Capture::Draining,
        EventView::Transcribed { .. } => c == Capture::Transcribing,
        EventView::TranscriptionFailed { .. } => c == Capture::Transcribing,
        _ => false,
    }
}

/// Every event keeps a well-formed state well formed: a capture is only
/// opening or running while recording is shown as on.
pub proof fn lemma_step_preserves_wf(s: VoiceInputView, e: EventView)
    requires
        s.wf(),
    ensures
        step(s, e).0.wf(),
{
}

/// An action that needs an answer is asked for exactly when the capture
/// moves into the state that waits for that answer.
pub proof fn lemma_actions_match_capture(s: VoiceInputView, e: EventView)
    requires
        s.wf(),
    ensures
        ({
            let (t, a) = step(s, e);
            &&& a is StartCapture <==> (t.capture == Capture::Opening && s.capture != Capture::Opening)
            &&& a is StopCapture <==> (t.capture == Capture::Draining && s.capture != Capture::Draining)
            &&& a is Transcribe <==> (t.capture == Capture::Transcribing && s.capture
                != Capture::Transcribing)
            &&& a is StartCapture ==> s.capture == Capture::Idle
            &&& a is StopCapture ==> s.capture == Capture::Running
            &&& a is Transcribe ==> s.capture == Capture::Draining
        }),
{
}

/// While an action is outstanding, input from the window changes nothing
/// and asks for nothing.
pub proof fn lemma_input_ignored_while_busy(s: VoiceInputView, e: EventView)
    requires
        s.busy(),
        is_input(e),
    ensures
        step(s, e) == (s, ActionView::Nothing),
{
}

/// An outcome that no outstanding action waits for changes nothing.
pub proof fn lemma_unawaited_outcome_ignored(s: VoiceInputView, e: EventView)
    requires
        !is_input(e),
        !awaits(s.capture, e),
    ensures
        step(s, e) == (s, ActionView::Nothing),
{
}

/// The one-letter key names of the shortcuts differ from one another.
pub proof fn lemma_shortcut_keys_differ()
    ensures
        seq!['t'] != seq!['h'],
        seq!['t'] != seq!['c'],
        seq!['t'] != seq!['o'],
        seq!['h'] != seq!['c'],
        seq!['h'] != seq!['o'],
        seq!['c'] != seq!['o'],
{
    assert(seq!['t'][0] != seq!['h'][0]);
    assert(seq!['t'][0] != seq!['c'][0]);
    assert(seq!['t'][0] != seq!['o'][0]);
    assert(seq!['h'][0] != seq!['c'][0]);
    assert(seq!['h'][0] != seq!['o'][0]);
    assert(seq!['c'][0] != seq!['o'][0]);
}

/// The copy button never changes the state; it delivers the text by the
/// current output method, and asks for nothing when the text is empty.
pub proof fn lemma_copy(s: VoiceInputView)
    requires
        !s.busy(),
    ensures
        step(s, EventView::CopyClicked) == (s, output_action(s)),
        s.text.len() == 0 ==> step(s, EventView::CopyClicked).1 == ActionView::Nothing,
        s.text.len() > 0 ==> step(s, EventView::CopyClicked).1 == (ActionView::Output {
            method: s.output_method,
            text: s.text,
        }),
{
}

/// Control-c without shift never changes the state; it puts the text on the
/// clipboard whatever the output method, and asks for nothing when the text
/// is empty.
pub proof fn lemma_control_c_copies_to_clipboard(s: VoiceInputView)
    requires
        !s.busy(),
    ensures
        step(s, EventView::KeyDown { key: seq!['c'], control: true, shift: false }) == (
            s,
            clipboard_copy_action(s),
        ),
        s.text.len() == 0 ==> step(
            s,
            EventView::KeyDown { key: seq!['c'], control: true, shift: false },
        ).1 == ActionView::Nothing,
        s.text.len() > 0 ==> step(
            s,
            EventView::KeyDown { key: seq!['c'], control: true, shift: false },
        ).1 == (ActionView::Output { method: OutputMethod::Clipboard, text: s.text }),
{
    lemma_shortcut_keys_differ();
}

/// Clearing (button, or control-shift-c) empties the text, changes nothing
/// else, and leaves the placeholder on view.
pub proof fn lemma_clear(s: VoiceInputView)
    requires
        !s.busy(),
    ensures
        step(s, EventView::ClearClicked) == (
            VoiceInputView { text: Seq::empty(), ..s },
            ActionView::Nothing,
        ),
        step(s, EventView::KeyDown { key: seq!['c'], control: true, shift: true }) == step(
            s,
            EventView::ClearClicked,
        ),
        body_of(step(s, EventView::ClearClicked).0) == PLACEHOLDER@,
{
    lemma_shortcut_keys_differ();
}

/// Switching the output method (button or control-o) twice gives back the
/// state one started from; once, it changes only the method.
pub proof fn lemma_output_switch_twice(s: VoiceInputView)
    requires
        !s.busy(),
    ensures
        step(s, EventView::OutputClicked).0 == (VoiceInputView {
            output_method: other_method(s.output_method),
            ..s
        }),
        step(step(s, EventView::OutputClicked).0, EventView::OutputClicked).0 == s,
        step(s, EventView::KeyDown { key: seq!['o'], control: true, shift: false }) == step(
            s,
            EventView::OutputClicked,
        ),
        step(
            step(s, EventView::KeyDown { key: seq!['o'], control: true, shift: false }).0,
            EventView::KeyDown { key: seq!['o'], control: true, shift: false },
        ).0 == s,
{
    lemma_shortcut_keys_differ();
}

/// With nothing outstanding, the record button does exactly what toggling
/// the recording does: it stops a running capture when recording is on and
/// asks for one when it is off, flipping the recording flag either way.
pub proof fn lemma_record_click_toggles(s: VoiceInputView)
    requires
        !s.busy(),
    ensures
        step(s, EventView::RecordClicked) == toggle_recording_spec(s),
        step(s, EventView::RecordClicked).0.is_recording == !s.is_recording,
{
}

/// While recording is off, switching the input mode twice gives back the
/// state one started from.
pub proof fn lemma_mode_switch_twice(s: VoiceInputView)
    requires
        !s.busy(),
        !s.is_recording,
    ensures
        step(s, EventView::ModeClicked).0 == (VoiceInputView {
            input_mode: other_mode(s.input_mode),
            ..s
        }),
        step(step(s, EventView::ModeClicked).0, EventView::ModeClicked).0 == s,
{
}

/// Control-t selects toggle mode and turns recording on when it is off and
/// off when it is on, as the record button does.
pub proof fn lemma_control_t_toggles(s: VoiceInputView)
    requires
        !s.busy(),
    ensures
        step(s, EventView::KeyDown { key: seq!['t'], control: true, shift: false }) == step(
            VoiceInputView { input_mode: InputMode::Toggle, ..s },
            EventView::RecordClicked,
        ),
        step(s, EventView::KeyDown { key: seq!['t'], control: true, shift: false }).0.is_recording
            == !s.is_recording,
{
}

/// Key presses without the control key do nothing.
pub proof fn lemma_keys_need_control(s: VoiceInputView, key: Seq<char>, shift: bool)
    ensures
        step(s, EventView::KeyDown { key, control: false, shift }) == (s, ActionView::Nothing),
{
}

/// A toggle recording from start to end: the record button starts a
/// capture, the second click stops it, the samples go to the recogniser
/// with the `ja` hint at 16 kHz, and its text becomes the window's text;
/// recording is then off, nothing is outstanding, and the mode and output
/// method are as before.
pub proof fn lemma_toggle_recording_cycle(s: VoiceInputView, transcript: Seq<char>)
    requires
        s.wf(),
        s.capture == Capture::Idle,
        !s.is_recording,
    ensures
        ({
            let (s1, a1) = step(s, EventView::RecordClicked);
            let (s2, a2) = step(s1, EventView::CaptureStarted);
            let (s3, a3) = step(s2, EventView::RecordClicked);
            let (s4, a4) = step(s3, EventView::CaptureStopped { has_samples: true });
            let (s5, a5) = step(s4, EventView::Transcribed { text: transcript });
            &&& a1 == ActionView::StartCapture && s1.is_recording
            &&& a2 == ActionView::Nothing && s2.capture == Capture::Running
            &&& a3 == ActionView::StopCapture && !s3.is_recording
            &&& a4 == (ActionView::Transcribe {
                sample_rate: TARGET_SAMPLE_RATE,
                language: TRANSCRIPTION_LANGUAGE@,
            })
            &&& s4.text == TRANSCRIBING_MESSAGE@
            &&& a5 == ActionView::Nothing
            &&& s5 == (VoiceInputView { text: transcript, ..s })
        }),
{
}

/// Hold-to-talk from start to end: control-h starts a capture in hold
/// mode, releasing `h` stops it, and the recognised text becomes the
/// window's text, with recording off afterwards.
pub proof fn lemma_hold_to_talk_cycle(s: VoiceInputView, transcript: Seq<char>)
    requires
        s.wf(),
        s.capture == Capture::Idle,
        !s.is_recording,
    ensures
        ({
            let (s1, a1) = step(s, EventView::KeyDown { key: seq!['h'], control: true, shift: false });
            let (s2, a2) = step(s1, EventView::CaptureStarted);
            let (s3, a3) = step(s2, EventView::KeyUp { key: seq!['h'] });
            let (s4, a4) = step(s3, EventView::CaptureStopped { has_samples: true });
            let (s5, a5) = step(s4, EventView::Transcribed { text: transcript });
            &&& a1 == ActionView::StartCapture && s1.is_recording
            &&& s1.input_mode == InputMode::Hold
            &&& a2 == ActionView::Nothing && s2.capture == Capture::Running
            &&& a3 == ActionView::StopCapture && !s3.is_recording
            &&& a4 is Transcribe
            &&& a5 == ActionView::Nothing
            &&& s5 == (VoiceInputView { text: transcript, input_mode: InputMode::Hold, ..s })
        }),
{
    lemma_shortcut_keys_differ();
}

/// A capture that fails to open shows its error after the prefix of the
/// failing step and leaves recording shown as on with no capture held; the
/// next click of the record button turns recording off without asking for
/// anything.
pub proof fn lemma_failed_start(s: VoiceInputView, failure: CaptureFailure, message: Seq<char>)
    requires
        s.wf(),
        s.capture == Capture::Idle,
        !s.is_recording,
    ensures
        ({
            let (s1, a1) = step(s, EventView::RecordClicked);
            let (s2, a2) = step(s1, EventView::CaptureFailed { failure, message });
            let (s3, a3) = step(s2, EventView::RecordClicked);
            &&& a1 == ActionView::StartCapture
            &&& a2 == ActionView::Nothing
            &&& s2.text == failure_prefix(failure) + message
            &&& s2.capture == Capture::Idle && s2.is_recording
            &&& a3 == ActionView::Nothing
            &&& s3 == (VoiceInputView { is_recording: false, ..s2 })
        }),
{
}

/// A recording without samples is not sent to the recogniser: the window
/// says that the recording is empty and nothing stays outstanding.
pub proof fn lemma_empty_recording(s: VoiceInputView)
    requires
        s.capture == Capture::Draining,
    ensures
        step(s, EventView::CaptureStopped { has_samples: false }) == (
            VoiceInputView { capture: Capture::Idle, text: EMPTY_RECORDING_MESSAGE@, ..s },
            ActionView::Nothing,
        ),
{
}

/// A failing recogniser leaves its error, after the ASR prefix, as the text.
pub proof fn lemma_recogniser_failure(s: VoiceInputView, message: Seq<char>)
    requires
        s.capture == Capture::Transcribing,
    ensures
        step(s, EventView::TranscriptionFailed { message }) == (
            VoiceInputView { capture: Capture::Idle, text: ASR_ERROR_PREFIX@ + message, ..s },
            ActionView::Nothing,
        ),
{
}


/// The output button and control-o switch the output method from clipboard
/// to direct input and back, change nothing else, and never ask for any
/// delivery or other action.
pub proof fn lemma_output_switch_asks_nothing(s: VoiceInputView)
    requires
        !s.busy(),
    ensures
        ({
            let (t, a) = step(s, EventView::OutputClicked);
            &&& a == ActionView::Nothing
            &&& s.output_method == OutputMethod::Clipboard ==> t.output_method
                == OutputMethod::DirectInput
            &&& s.output_method == OutputMethod::DirectInput ==> t.output_method
                == OutputMethod::Clipboard
            &&& t.text == s.text && t.is_recording == s.is_recording
            &&& t.input_mode == s.input_mode && t.capture == s.capture
        }),
        ({
            let (t, a) = step(s, EventView::KeyDown { key: seq!['o'], control: true, shift: false });
            &&& a == ActionView::Nothing
            &&& s.output_method == OutputMethod::Clipboard ==> t.output_method
                == OutputMethod::DirectInput
            &&& s.output_method == OutputMethod::DirectInput ==> t.output_method
                == OutputMethod::Clipboard
            &&& t.text == s.text && t.is_recording == s.is_recording
            &&& t.input_mode == s.input_mode && t.capture == s.capture
        }),
{
    lemma_shortcut_keys_differ();
}

/// The record button with nothing outstanding: with recording off it turns
/// recording on and asks for a capture; with recording on it turns recording
/// off and stops the running capture, or asks for nothing when none runs.
/// The text, mode and output method stay.
pub proof fn lemma_record_click_transitions(s: VoiceInputView)
    requires
        s.wf(),
        !s.busy(),
    ensures
        !s.is_recording ==> step(s, EventView::RecordClicked) == (
            VoiceInputView { is_recording: true, capture: Capture::Opening, ..s },
            ActionView::StartCapture,
        ),
        s.is_recording && s.capture == Capture::Running ==> step(s, EventView::RecordClicked) == (
            VoiceInputView { is_recording: false, capture: Capture::Draining, ..s },
            ActionView::StopCapture,
        ),
        s.is_recording && s.capture == Capture::Idle ==> step(s, EventView::RecordClicked) == (
            VoiceInputView { is_recording: false, ..s },
            ActionView::Nothing,
        ),
{
}

/// The mode button with nothing outstanding switches toggle and hold mode,
/// leaves the recording flag, text and output method as they are, stops a
/// running capture, and asks for nothing when none runs.
pub proof fn lemma_mode_click_transitions(s: VoiceInputView)
    requires
        s.wf(),
        !s.busy(),
    ensures
        ({
            let (t, a) = step(s, EventView::ModeClicked);
            &&& s.input_mode == InputMode::Toggle ==> t.input_mode == InputMode::Hold
            &&& s.input_mode == InputMode::Hold ==> t.input_mode == InputMode::Toggle
            &&& t.is_recording == s.is_recording && t.text == s.text
            &&& t.output_method == s.output_method
            &&& s.capture == Capture::Running ==> t.capture == Capture::Draining && a
                == ActionView::StopCapture
            &&& s.capture == Capture::Idle ==> t.capture == Capture::Idle && a == ActionView::Nothing
        }),
{
}

/// Control-h with nothing outstanding selects hold mode; it turns recording
/// on and asks for a capture when recording is off, and changes nothing
/// else when it is on.
pub proof fn lemma_control_h_transitions(s: VoiceInputView)
    requires
        s.wf(),
        !s.busy(),
    ensures
        !s.is_recording ==> step(
            s,
            EventView::KeyDown { key: seq!['h'], control: true, shift: false },
        ) == (
            VoiceInputView {
                input_mode: InputMode::Hold,
                is_recording: true,
                capture: Capture::Opening,
                ..s
            },
            ActionView::StartCapture,
        ),
        s.is_recording ==> step(s, EventView::KeyDown { key: seq!['h'], control: true, shift: false })
            == (VoiceInputView { input_mode: InputMode::Hold, ..s }, ActionView::Nothing),
{
    lemma_shortcut_keys_differ();
}

/// Releasing a key does something only when it is `h`, hold mode is on and
/// recording is on: then recording turns off and a running capture is
/// stopped.
pub proof fn lemma_key_up_transitions(s: VoiceInputView, key: Seq<char>)
    requires
        s.wf(),
        !s.busy(),
    ensures
        (key != seq!['h'] || s.input_mode == InputMode::Toggle || !s.is_recording) ==> step(
            s,
            EventView::KeyUp { key },
        ) == (s, ActionView::Nothing),
        (key == seq!['h'] && s.input_mode == InputMode::Hold && s.capture == Capture::Running)
            ==> step(s, EventView::KeyUp { key }) == (
            VoiceInputView { is_recording: false, capture: Capture::Draining, ..s },
            ActionView::StopCapture,
        ),
        (key == seq!['h'] && s.input_mode == InputMode::Hold && s.is_recording && s.capture
            == Capture::Idle) ==> step(s, EventView::KeyUp { key }) == (
            VoiceInputView { is_recording: false, ..s },
            ActionView::Nothing,
        ),
{
}

/// The outcomes of the capture and the recogniser, each in the state that
/// waits for it: a started capture runs; a failed one is dropped and its
/// error shown after the prefix of the failing step; stopped samples go to
/// the recogniser at 16 kHz with the `ja` hint while a progress message
/// shows; a recognised text becomes the window's text. Recording flag, mode
/// and output method stay.
pub proof fn lemma_outcome_transitions(s: VoiceInputView, message: Seq<char>, text: Seq<char>)
    ensures
        s.capture == Capture::Opening ==> step(s, EventView::CaptureStarted) == (
            VoiceInputView { capture: Capture::Running, ..s },
            ActionView::Nothing,
        ),
        s.capture == Capture::Opening ==> step(
            s,
            EventView::CaptureFailed { failure: CaptureFailure::Device, message },
        ) == (
            VoiceInputView { capture: Capture::Idle, text: DEVICE_ERROR_PREFIX@ + message, ..s },
            ActionView::Nothing,
        ),
        s.capture == Capture::Opening ==> step(
            s,
            EventView::CaptureFailed { failure: CaptureFailure::Start, message },
        ) == (
            VoiceInputView { capture: Capture::Idle, text: START_ERROR_PREFIX@ + message, ..s },
            ActionView::Nothing,
        ),
        s.capture == Capture::Draining ==> step(s, EventView::CaptureStopped { has_samples: true })
            == (
            VoiceInputView { capture: Capture::Transcribing, text: TRANSCRIBING_MESSAGE@, ..s },
            ActionView::Transcribe { sample_rate: 16000, language: TRANSCRIPTION_LANGUAGE@ },
        ),
        s.capture == Capture::Transcribing ==> step(s, EventView::Transcribed { text }) == (
            VoiceInputView { capture: Capture::Idle, text, ..s },
            ActionView::Nothing,
        ),
{
}

/// The cached snapshot is preferred whenever it has a configuration file,
/// and no directory is chosen when none of the candidates has one.
pub proof fn lemma_model_dir_preference(home: Seq<char>, has_config: Seq<bool>, windows: bool)
    ensures
        flag_at(has_config, 0) ==> model_dir_choice(home, has_config, windows) == Some(
            path_join(home, CACHE_SNAPSHOT_DIR@, windows),
        ),
        (!flag_at(has_config, 0) && !flag_at(has_config, 1) && !flag_at(has_config, 2))
            ==> model_dir_choice(home, has_config, windows) is None,
        model_dir_choice(home, has_config, windows) matches Some(d) ==> candidate_dirs(
            home,
            windows,
        ).contains(d),
{
    let c = candidate_dirs(home, windows);
    if flag_at(has_config, 0) {
        assert(c[0] == path_join(home, CACHE_SNAPSHOT_DIR@, windows));
    }
    if model_dir_choice(home, has_config, windows) is Some {
        let d = model_dir_choice(home, has_config, windows)->0;
        if d == c[0] {
            assert(c.contains(d));
        } else if d == c[1] {
            assert(c.contains(d));
        } else {
            assert(c[2] == d);
            assert(c.contains(d));
        }
    }
}

} // verus!
