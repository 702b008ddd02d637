use voice_input::cli::{
    check_transcribe_inputs, gui_device, select_device, transcription_report, Backend,
    DeviceChoice,
};

#[test]
fn device_for_each_backend() {
    assert_eq!(select_device(Backend::Torch, true), DeviceChoice::Gpu(0));
    assert_eq!(select_device(Backend::Torch, false), DeviceChoice::Cpu);
    assert_eq!(select_device(Backend::Mlx, false), DeviceChoice::Gpu(0));
    assert_eq!(select_device(Backend::Plain, true), DeviceChoice::Cpu);
}

#[test]
fn gui_device_uses_cuda_only() {
    assert_eq!(gui_device(Backend::Torch, true), DeviceChoice::Gpu(0));
    assert_eq!(gui_device(Backend::Torch, false), DeviceChoice::Cpu);
    assert_eq!(gui_device(Backend::Mlx, true), DeviceChoice::Cpu);
    assert_eq!(gui_device(Backend::Plain, true), DeviceChoice::Cpu);
}

#[test]
fn missing_model_reported_first() {
    assert_eq!(
        check_transcribe_inputs("m", false, "a.wav", false),
        Err("Model directory not found: m".to_string())
    );
    assert_eq!(
        check_transcribe_inputs("m", true, "a.wav", false),
        Err("Audio file not found: a.wav".to_string())
    );
    assert_eq!(check_transcribe_inputs("m", true, "a.wav", true), Ok(()));
}

#[test]
fn report_has_two_lines() {
    assert_eq!(
        transcription_report("English", "Thank you."),
        "Language: English\nText: Thank you."
    );
    assert_eq!(transcription_report("Chinese", "你好世界"), "Language: Chinese\nText: 你好世界");
}
