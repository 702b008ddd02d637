use voice_input::view::view_model;
use voice_input::voice_input::{CaptureFailure, Event, VoiceInputApp};

#[test]
fn fresh_window_view() {
    let app = VoiceInputApp::new();
    let vm = view_model(&app);
    assert_eq!(vm.title, "abrust");
    assert_eq!(vm.body, "文字起こし結果がここに表示されます...");
    assert_eq!(vm.record_label, "● 録音");
    assert_eq!(vm.record_color, 0xa6e3a1);
    assert_eq!(vm.clear_label, "クリア");
    assert_eq!(vm.mode_label, "録音: トグル");
    assert_eq!(vm.output_label, "出力: クリップボード");
    assert_eq!(vm.copy_label, "コピー");
    assert_eq!(
        vm.shortcuts,
        "Ctrl+T: トグル  |  Ctrl+H: ホールド  |  Ctrl+C: コピー  |  Ctrl+Shift+C: クリア  |  Ctrl+O: 出力切替"
    );
}

#[test]
fn recording_window_view() {
    let mut app = VoiceInputApp::new();
    app.handle(Event::ModeClicked);
    app.handle(Event::OutputClicked);
    app.handle(Event::RecordClicked);
    app.handle(Event::CaptureFailed { failure: CaptureFailure::Device, message: "e".to_string() });
    let vm = view_model(&app);
    assert_eq!(vm.body, "デバイスエラー: e");
    assert_eq!(vm.record_label, "■ 停止");
    assert_eq!(vm.record_color, 0xf38ba8);
    assert_eq!(vm.mode_label, "録音: ホールド");
    assert_eq!(vm.output_label, "出力: 直接入力");
}
