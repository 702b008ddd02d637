//! Decisions of the `asr` command: the compute device, the checks made
//! before a transcription, and the report printed after it.

use vstd::prelude::*;
use vstd::string::*;

verus! {

/// Prefix of the error for a missing model directory; followed by the path.
pub const MODEL_DIR_NOT_FOUND: &'static str = "Model directory not found: ";

/// Prefix of the error for a missing audio file; followed by the path.
pub const AUDIO_FILE_NOT_FOUND: &'static str = "Audio file not found: ";

/// Message of the voice-input window when no model directory is found.
pub const GUI_MODEL_DIR_MISSING: &'static str =
    "モデルディレクトリが見つかりません。models/qwen3-asr-0.6b に配置するか、HFキャッシュを確認してください";

/// Message of the voice-input window when the model does not load.
pub const GUI_MODEL_LOAD_FAILED: &'static str = "モデルの読み込みに失敗しました";

/// The tensor backend the program was built with.
#[derive(Clone, Copy, Debug, PartialEq, Eq, Structural)]
pub enum Backend {
    /// libtorch, with CUDA when a device is available.
    Torch,
    /// Apple MLX on the Metal GPU.
    Mlx,
    /// No accelerated backend.
    Plain,
}

/// The device the model runs on.
#[derive(Clone, Copy, Debug, PartialEq, Eq, Structural)]
pub enum DeviceChoice {
    Cpu,
    /// The GPU with this index.
    Gpu(u32),
}

/// The device of the `transcribe` command: the first CUDA device under
/// libtorch when CUDA is available, the GPU under MLX, else the CPU.
pub open spec fn device_for(backend: Backend, cuda_available: bool) -> DeviceChoice {
    match backend {
        Backend::Torch => if cuda_available {
            DeviceChoice::Gpu(0)
        } else {
            DeviceChoice::Cpu
        },
        Backend::Mlx => DeviceChoice::Gpu(0),
        Backend::Plain => DeviceChoice::Cpu,
    }
}

/// The device of the voice-input window: the first CUDA device under
/// libtorch when CUDA is available, else the CPU.
pub open spec fn gui_device_for(backend: Backend, cuda_available: bool) -> DeviceChoice {
    if backend == Backend::Torch && cuda_available {
        DeviceChoice::Gpu(0)
    } else {
        DeviceChoice::Cpu
    }
}

/// Chooses the device of the `transcribe` command; `cuda_available` is what
/// libtorch reports (ignored by the other backends).
pub fn select_device(backend: Backend, cuda_available: bool) -> (device: DeviceChoice)
    ensures
        device == device_for(backend, cuda_available),
{
    match backend {
        Backend::Torch => {
            if cuda_available {
                DeviceChoice::Gpu(0)
            } else {
                DeviceChoice::Cpu
            }
        },
        Backend::Mlx => DeviceChoice::Gpu(0),
        Backend::Plain => DeviceChoice::Cpu,
    }
}

/// Chooses the device of the voice-input window.
pub fn gui_device(backend: Backend, cuda_available: bool) -> (device: DeviceChoice)
    ensures
        device == gui_device_for(backend, cuda_available),
{
    match backend {
        Backend::Torch => {
            if cuda_available {
                DeviceChoice::Gpu(0)
            } else {
                DeviceChoice::Cpu
            }
        },
        _ => DeviceChoice::Cpu,
    }
}

/// The outcome of the checks before a transcription: the model directory
/// must exist, then the audio file.
pub open spec fn input_check(
    model_path: Seq<char>,
    model_exists: bool,
    audio_path: Seq<char>,
    audio_exists: bool,
) -> Result<(), Seq<char>> {
    if !model_exists {
        Err(MODEL_DIR_NOT_FOUND@ + model_path)
    } else if !audio_exists {
        Err(AUDIO_FILE_NOT_FOUND@ + audio_path)
    } else {
        Ok(())
    }
}

/// Checks the paths of a transcription, given whether each exists; the
/// error names the first path that is missing.
pub fn check_transcribe_inputs(
    model_path: &str,
    model_exists: bool,
    audio_path: &str,
    audio_exists: bool,
) -> (res: Result<(), String>)
    ensures
        match res {
            Ok(()) => input_check(model_path@, model_exists, audio_path@, audio_exists) == Ok::<
                (),
                Seq<char>,
            >(()),
            Err(e) => input_check(model_path@, model_exists, audio_path@, audio_exists) == Err::<
                (),
                Seq<char>,
            >(e@),
        },
{
    if !model_exists {
        Err(MODEL_DIR_NOT_FOUND.to_owned().concat(model_path))
    } else if !audio_exists {
        Err(AUDIO_FILE_NOT_FOUND.to_owned().concat(audio_path))
    } else {
        Ok(())
    }
}

/// The two lines printed after a transcription.
pub open spec fn report_of(language: Seq<char>, text: Seq<char>) -> Seq<char> {
    "Language: "@ + language + seq!['\n'] + "Text: "@ + text
}

/// The report of a transcription: the detected language, then the text,
/// on two lines.
pub fn transcription_report(language: &str, text: &str) -> (report: String)
    ensures
        report@ == report_of(language@, text@),
{
    proof {
        reveal_strlit("\n");
    }
    "Language: ".to_owned().concat(language).concat("\n").concat("Text: ").concat(text)
}

} // verus!
