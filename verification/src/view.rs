//! What the voice-input window shows for a state.

use vstd::prelude::*;
use vstd::string::*;
use crate::voice_input::{InputMode, OutputMethod, VoiceInputApp, VoiceInputView};

verus! {

/// Title of the window.
pub const TITLE: &'static str = "abrust";

/// Shown in place of the text while there is none.
pub const PLACEHOLDER: &'static str = "文字起こし結果がここに表示されます...";

/// Label of the record button while recording is on.
pub const STOP_LABEL: &'static str = "■ 停止";

/// Label of the record button while recording is off.
pub const RECORD_LABEL: &'static str = "● 録音";

/// Colour (0xRRGGBB) of the record button while recording is on.
pub const STOP_COLOR: u32 = 0xf38ba8;

/// Colour (0xRRGGBB) of the record button while recording is off.
pub const RECORD_COLOR: u32 = 0xa6e3a1;

/// Label of the clear button.
pub const CLEAR_LABEL: &'static str = "クリア";

/// Label of the mode button in toggle mode.
pub const TOGGLE_MODE_LABEL: &'static str = "録音: トグル";

/// Label of the mode button in hold mode.
pub const HOLD_MODE_LABEL: &'static str = "録音: ホールド";

/// Label of the output button for clipboard output.
pub const CLIPBOARD_OUTPUT_LABEL: &'static str = "出力: クリップボード";

/// Label of the output button for direct input.
pub const DIRECT_OUTPUT_LABEL: &'static str = "出力: 直接入力";

/// Label of the copy button.
pub const COPY_LABEL: &'static str = "コピー";

/// The line that lists the keyboard shortcuts.
pub const SHORTCUTS: &'static str =
    "Ctrl+T: トグル  |  Ctrl+H: ホールド  |  Ctrl+C: コピー  |  Ctrl+Shift+C: クリア  |  Ctrl+O: 出力切替";

/// Everything the window draws that depends on text.
#[derive(Clone, Debug, PartialEq, Eq)]
pub struct ViewModel {
    pub title: String,
    pub body: String,
    pub record_label: String,
    pub record_color: u32,
    pub clear_label: String,
    pub mode_label: String,
    pub output_label: String,
    pub copy_label: String,
    pub shortcuts: String,
}

/// Mathematical model of [`ViewModel`].
pub struct ViewModelView {
    pub title: Seq<char>,
    pub body: Seq<char>,
    pub record_label: Seq<char>,
    pub record_color: u32,
    pub clear_label: Seq<char>,
    pub mode_label: Seq<char>,
    pub output_label: Seq<char>,
    pub copy_label: Seq<char>,
    pub shortcuts: Seq<char>,
}

impl View for ViewModel {
    type V = ViewModelView;

    open spec fn view(&self) -> ViewModelView {
        ViewModelView {
            title: self.title@,
            body: self.body@,
            record_label: self.record_label@,
            record_color: self.record_color,
            clear_label: self.clear_label@,
            mode_label: self.mode_label@,
            output_label: self.output_label@,
            copy_label: self.copy_label@,
            shortcuts: self.shortcuts@,
        }
    }
}

/// The text area shows the text, or the placeholder while there is none.
pub open spec fn body_of(s: VoiceInputView) -> Seq<char> {
    if s.text.len() == 0 {
        PLACEHOLDER@
    } else {
        s.text
    }
}

/// What the window shows in state `s`.
pub open spec fn view_model_of(s: VoiceInputView) -> ViewModelView {
    ViewModelView {
        title: TITLE@,
        body: body_of(s),
        record_label: if s.is_recording {
            STOP_LABEL@
        } else {
            RECORD_LABEL@
        },
        record_color: if s.is_recording {
            STOP_COLOR
        } else {
            RECORD_COLOR
        },
        clear_label: CLEAR_LABEL@,
        mode_label: match s.input_mode {
            InputMode::Toggle => TOGGLE_MODE_LABEL@,
            InputMode::Hold => HOLD_MODE_LABEL@,
        },
        output_label: match s.output_method {
            OutputMethod::Clipboard => CLIPBOARD_OUTPUT_LABEL@,
            OutputMethod::DirectInput => DIRECT_OUTPUT_LABEL@,
        },
        copy_label: COPY_LABEL@,
        shortcuts: SHORTCUTS@,
    }
}

/// What the window shows for `app`.
pub fn view_model(app: &VoiceInputApp) -> (vm: ViewModel)
    ensures
        vm@ == view_model_of(app@),
{
    let text = app.text();
    let recording = app.is_recording();
    let body = if text.as_str().is_empty() {
        PLACEHOLDER.to_owned()
    } else {
        text
    };
    ViewModel {
        title: TITLE.to_owned(),
        body,
        record_label: if recording {
            STOP_LABEL.to_owned()
        } else {
            RECORD_LABEL.to_owned()
        },
        record_color: if recording {
            STOP_COLOR
        } else {
            RECORD_COLOR
        },
        clear_label: CLEAR_LABEL.to_owned(),
        mode_label: match app.input_mode() {
            InputMode::Toggle => TOGGLE_MODE_LABEL.to_owned(),
            InputMode::Hold => HOLD_MODE_LABEL.to_owned(),
        },
        output_label: match app.output_method() {
            OutputMethod::Clipboard => CLIPBOARD_OUTPUT_LABEL.to_owned(),
            OutputMethod::DirectInput => DIRECT_OUTPUT_LABEL.to_owned(),
        },
        copy_label: COPY_LABEL.to_owned(),
        shortcuts: SHORTCUTS.to_owned(),
    }
}

} // verus!
