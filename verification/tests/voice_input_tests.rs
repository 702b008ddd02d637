use voice_input::voice_input::{
    Action, Capture, CaptureFailure, Event, InputMode, OutputMethod, VoiceInputApp,
};

fn key_down(key: &str, control: bool, shift: bool) -> Event {
    Event::KeyDown { key: key.to_string(), control, shift }
}

fn transcribe_action() -> Action {
    Action::Transcribe { sample_rate: 16000, language: "ja".to_string() }
}

#[test]
fn new_window_starts_idle() {
    let app = VoiceInputApp::new();
    assert_eq!(app.text(), "");
    assert!(!app.is_recording());
    assert_eq!(app.input_mode(), InputMode::Toggle);
    assert_eq!(app.output_method(), OutputMethod::Clipboard);
    assert_eq!(app.capture(), Capture::Idle);
    assert!(!app.is_busy());
}

#[test]
fn toggle_recording_cycle_sets_transcript() {
    let mut app = VoiceInputApp::new();
    assert_eq!(app.handle(Event::RecordClicked), Action::StartCapture);
    assert!(app.is_recording());
    assert_eq!(app.capture(), Capture::Opening);
    assert_eq!(app.handle(Event::CaptureStarted), Action::Nothing);
    assert_eq!(app.capture(), Capture::Running);
    assert_eq!(app.handle(Event::RecordClicked), Action::StopCapture);
    assert!(!app.is_recording());
    assert_eq!(app.handle(Event::CaptureStopped { has_samples: true }), transcribe_action());
    assert_eq!(app.text(), "文字起こし処理中...");
    assert_eq!(
        app.handle(Event::Transcribed { text: "こんにちは".to_string() }),
        Action::Nothing
    );
    assert_eq!(app.text(), "こんにちは");
    assert_eq!(app.capture(), Capture::Idle);
    assert!(!app.is_recording());
}

#[test]
fn hold_to_talk_cycle() {
    let mut app = VoiceInputApp::new();
    assert_eq!(app.handle(key_down("h", true, false)), Action::StartCapture);
    assert_eq!(app.input_mode(), InputMode::Hold);
    assert!(app.is_recording());
    assert_eq!(app.handle(Event::CaptureStarted), Action::Nothing);
    // releasing another key does nothing
    assert_eq!(app.handle(Event::KeyUp { key: "t".to_string() }), Action::Nothing);
    assert!(app.is_recording());
    assert_eq!(app.handle(Event::KeyUp { key: "h".to_string() }), Action::StopCapture);
    assert!(!app.is_recording());
    assert_eq!(app.handle(Event::CaptureStopped { has_samples: true }), transcribe_action());
    app.handle(Event::Transcribed { text: "hello".to_string() });
    assert_eq!(app.text(), "hello");
    assert_eq!(app.input_mode(), InputMode::Hold);
}

#[test]
fn key_up_in_toggle_mode_does_not_stop() {
    let mut app = VoiceInputApp::new();
    assert_eq!(app.handle(key_down("t", true, false)), Action::StartCapture);
    app.handle(Event::CaptureStarted);
    assert_eq!(app.handle(Event::KeyUp { key: "h".to_string() }), Action::Nothing);
    assert!(app.is_recording());
    assert_eq!(app.capture(), Capture::Running);
}

#[test]
fn control_t_turns_recording_off_again() {
    let mut app = VoiceInputApp::new();
    app.handle(key_down("h", true, false));
    app.handle(Event::CaptureStarted);
    assert_eq!(app.handle(key_down("t", true, false)), Action::StopCapture);
    assert_eq!(app.input_mode(), InputMode::Toggle);
    assert!(!app.is_recording());
    assert_eq!(app.capture(), Capture::Draining);
    assert_eq!(app.handle(Event::CaptureStopped { has_samples: true }), transcribe_action());
    app.handle(Event::Transcribed { text: "t".to_string() });
    assert_eq!(app.handle(key_down("t", true, false)), Action::StartCapture);
    assert!(app.is_recording());
}

#[test]
fn control_h_while_recording_only_sets_mode() {
    let mut app = VoiceInputApp::new();
    app.handle(key_down("t", true, false));
    app.handle(Event::CaptureStarted);
    assert_eq!(app.handle(key_down("h", true, false)), Action::Nothing);
    assert_eq!(app.input_mode(), InputMode::Hold);
    assert!(app.is_recording());
    assert_eq!(app.capture(), Capture::Running);
}

#[test]
fn keys_without_control_do_nothing() {
    let mut app = VoiceInputApp::new();
    for k in ["t", "h", "c", "o", "x"] {
        assert_eq!(app.handle(key_down(k, false, false)), Action::Nothing);
        assert_eq!(app.handle(key_down(k, false, true)), Action::Nothing);
    }
    assert!(!app.is_recording());
    assert_eq!(app.output_method(), OutputMethod::Clipboard);
    assert_eq!(app.input_mode(), InputMode::Toggle);
}

#[test]
fn unknown_control_key_does_nothing() {
    let mut app = VoiceInputApp::new();
    assert_eq!(app.handle(key_down("x", true, false)), Action::Nothing);
    assert_eq!(app.handle(key_down("tt", true, false)), Action::Nothing);
    assert!(!app.is_recording());
}

#[test]
fn failed_device_shows_error_and_next_click_stops() {
    let mut app = VoiceInputApp::new();
    assert_eq!(app.handle(Event::RecordClicked), Action::StartCapture);
    assert_eq!(
        app.handle(Event::CaptureFailed {
            failure: CaptureFailure::Device,
            message: "no input device".to_string(),
        }),
        Action::Nothing
    );
    assert_eq!(app.text(), "デバイスエラー: no input device");
    assert_eq!(app.capture(), Capture::Idle);
    assert!(app.is_recording());
    assert_eq!(app.handle(Event::RecordClicked), Action::Nothing);
    assert!(!app.is_recording());
    assert_eq!(app.text(), "デバイスエラー: no input device");
}

#[test]
fn failed_start_shows_start_error() {
    let mut app = VoiceInputApp::new();
    app.handle(key_down("t", true, false));
    app.handle(Event::CaptureFailed { failure: CaptureFailure::Start, message: "busy".to_string() });
    assert_eq!(app.text(), "録音開始エラー: busy");
}

#[test]
fn empty_recording_is_not_transcribed() {
    let mut app = VoiceInputApp::new();
    app.handle(Event::RecordClicked);
    app.handle(Event::CaptureStarted);
    app.handle(Event::RecordClicked);
    assert_eq!(app.handle(Event::CaptureStopped { has_samples: false }), Action::Nothing);
    assert_eq!(app.text(), "録音データが空です");
    assert_eq!(app.capture(), Capture::Idle);
}

#[test]
fn recogniser_failure_shows_error() {
    let mut app = VoiceInputApp::new();
    app.handle(Event::RecordClicked);
    app.handle(Event::CaptureStarted);
    app.handle(Event::RecordClicked);
    app.handle(Event::CaptureStopped { has_samples: true });
    assert_eq!(
        app.handle(Event::TranscriptionFailed { message: "decode".to_string() }),
        Action::Nothing
    );
    assert_eq!(app.text(), "ASRエラー: decode");
    assert_eq!(app.capture(), Capture::Idle);
}

#[test]
fn mode_click_stops_recording_but_keeps_flag() {
    let mut app = VoiceInputApp::new();
    app.handle(Event::RecordClicked);
    app.handle(Event::CaptureStarted);
    assert_eq!(app.handle(Event::ModeClicked), Action::StopCapture);
    assert_eq!(app.input_mode(), InputMode::Hold);
    assert!(app.is_recording());
    assert_eq!(app.capture(), Capture::Draining);
}

#[test]
fn mode_click_twice_restores_mode() {
    let mut app = VoiceInputApp::new();
    assert_eq!(app.handle(Event::ModeClicked), Action::Nothing);
    assert_eq!(app.input_mode(), InputMode::Hold);
    assert_eq!(app.handle(Event::ModeClicked), Action::Nothing);
    assert_eq!(app.input_mode(), InputMode::Toggle);
}

#[test]
fn output_switch_by_button_and_key() {
    let mut app = VoiceInputApp::new();
    app.handle(Event::OutputClicked);
    assert_eq!(app.output_method(), OutputMethod::DirectInput);
    app.handle(Event::OutputClicked);
    assert_eq!(app.output_method(), OutputMethod::Clipboard);
    assert_eq!(app.handle(key_down("o", true, false)), Action::Nothing);
    assert_eq!(app.output_method(), OutputMethod::DirectInput);
}

#[test]
fn copy_with_empty_text_does_nothing() {
    let app = VoiceInputApp::new();
    assert_eq!(app.on_copy_click(), Action::Nothing);
}

#[test]
fn copy_delivers_text_by_method() {
    let mut app = VoiceInputApp::new();
    app.handle(Event::RecordClicked);
    app.handle(Event::CaptureStarted);
    app.handle(Event::RecordClicked);
    app.handle(Event::CaptureStopped { has_samples: true });
    app.handle(Event::Transcribed { text: "abc".to_string() });
    assert_eq!(
        app.handle(Event::CopyClicked),
        Action::Output { method: OutputMethod::Clipboard, text: "abc".to_string() }
    );
    app.handle(Event::OutputClicked);
    assert_eq!(
        app.handle(Event::CopyClicked),
        Action::Output { method: OutputMethod::DirectInput, text: "abc".to_string() }
    );
    assert_eq!(app.text(), "abc");
}

#[test]
fn control_c_copies_to_clipboard_in_every_mode() {
    let mut app = VoiceInputApp::new();
    assert_eq!(app.handle(key_down("c", true, false)), Action::Nothing);
    app.handle(Event::RecordClicked);
    app.handle(Event::CaptureStarted);
    app.handle(Event::RecordClicked);
    app.handle(Event::CaptureStopped { has_samples: true });
    app.handle(Event::Transcribed { text: "abc".to_string() });
    assert_eq!(
        app.handle(key_down("c", true, false)),
        Action::Output { method: OutputMethod::Clipboard, text: "abc".to_string() }
    );
    app.handle(Event::OutputClicked);
    assert_eq!(app.output_method(), OutputMethod::DirectInput);
    assert_eq!(
        app.handle(key_down("c", true, false)),
        Action::Output { method: OutputMethod::Clipboard, text: "abc".to_string() }
    );
    assert_eq!(app.text(), "abc");
    assert_eq!(app.output_method(), OutputMethod::DirectInput);
}

#[test]
fn clear_by_button_and_key() {
    let mut app = VoiceInputApp::new();
    app.handle(Event::RecordClicked);
    app.handle(Event::CaptureFailed { failure: CaptureFailure::Device, message: "x".to_string() });
    assert!(!app.text().is_empty());
    assert_eq!(app.handle(key_down("c", true, true)), Action::Nothing);
    assert_eq!(app.text(), "");
    app.handle(Event::RecordClicked);
    app.handle(Event::RecordClicked);
    app.handle(Event::CaptureFailed { failure: CaptureFailure::Device, message: "y".to_string() });
    assert_eq!(app.text(), "デバイスエラー: y");
    assert_eq!(app.handle(Event::ClearClicked), Action::Nothing);
    assert_eq!(app.text(), "");
}

#[test]
fn input_ignored_while_busy() {
    let mut app = VoiceInputApp::new();
    app.handle(Event::RecordClicked);
    assert!(app.is_busy());
    assert_eq!(app.handle(Event::RecordClicked), Action::Nothing);
    assert_eq!(app.handle(Event::ModeClicked), Action::Nothing);
    assert_eq!(app.handle(Event::OutputClicked), Action::Nothing);
    assert_eq!(app.handle(key_down("o", true, false)), Action::Nothing);
    assert_eq!(app.handle(Event::KeyUp { key: "h".to_string() }), Action::Nothing);
    assert_eq!(app.input_mode(), InputMode::Toggle);
    assert_eq!(app.output_method(), OutputMethod::Clipboard);
    assert_eq!(app.capture(), Capture::Opening);
}

#[test]
fn unawaited_outcomes_ignored() {
    let mut app = VoiceInputApp::new();
    assert_eq!(app.handle(Event::CaptureStarted), Action::Nothing);
    assert_eq!(app.capture(), Capture::Idle);
    assert_eq!(app.handle(Event::CaptureStopped { has_samples: true }), Action::Nothing);
    assert_eq!(app.handle(Event::Transcribed { text: "x".to_string() }), Action::Nothing);
    assert_eq!(app.text(), "");
    assert!(!app.is_recording());
}

#[test]
fn direct_methods_agree_with_handle() {
    let mut a = VoiceInputApp::new();
    let mut b = VoiceInputApp::new();
    assert_eq!(a.on_record_click(), b.handle(Event::RecordClicked));
    assert_eq!(a.on_capture_started(), b.handle(Event::CaptureStarted));
    assert_eq!(a.on_key_down("c", true, true), b.handle(key_down("c", true, true)));
    assert_eq!(a.on_mode_click(), b.handle(Event::ModeClicked));
    assert_eq!(a.on_capture_stopped(true), b.handle(Event::CaptureStopped { has_samples: true }));
    assert_eq!(
        a.on_transcribed("z".to_string()),
        b.handle(Event::Transcribed { text: "z".to_string() })
    );
    assert_eq!(a.text(), b.text());
    assert_eq!(a.on_output_click(), b.handle(Event::OutputClicked));
    assert_eq!(a.on_clear_click(), b.handle(Event::ClearClicked));
    assert_eq!(a.on_key_up("h"), b.handle(Event::KeyUp { key: "h".to_string() }));
    assert_eq!(a.output_method(), b.output_method());
    assert_eq!(a.input_mode(), b.input_mode());
    assert_eq!(a.is_recording(), b.is_recording());
}

#[test]
fn capture_failed_and_transcription_failed_methods() {
    let mut app = VoiceInputApp::new();
    app.on_record_click();
    assert_eq!(app.on_capture_failed(CaptureFailure::Start, "e"), Action::Nothing);
    assert_eq!(app.text(), "録音開始エラー: e");
    assert_eq!(app.on_transcription_failed("f"), Action::Nothing);
    assert_eq!(app.text(), "録音開始エラー: e");
}
