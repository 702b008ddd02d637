//! Properties of what the window shows, of the model lookup, of the device
//! choice and of the checks of the command line, over all inputs.

use vstd::prelude::*;
use crate::cli::{
    device_for, gui_device_for, input_check, report_of, Backend, DeviceChoice,
    AUDIO_FILE_NOT_FOUND, MODEL_DIR_NOT_FOUND,
};
use crate::model_dir::{
    candidate_dirs, flag_at, home_dir_of, is_bare_drive, is_separator, is_verbatim, model_dir_choice, path_join,
    windows_home_dir_of, with_backslashes, CACHE_SNAPSHOT_DIR, CURRENT_DIR, LOCAL_LARGE_MODEL_DIR,
    LOCAL_SMALL_MODEL_DIR,
};
use crate::view::{
    view_model_of, CLEAR_LABEL, CLIPBOARD_OUTPUT_LABEL, COPY_LABEL, DIRECT_OUTPUT_LABEL,
    HOLD_MODE_LABEL, PLACEHOLDER, RECORD_COLOR, RECORD_LABEL, SHORTCUTS, STOP_COLOR, STOP_LABEL,
    TITLE, TOGGLE_MODE_LABEL,
};
use crate::voice_input::{InputMode, OutputMethod, VoiceInputView};

verus! {

/// The text area shows the text whenever there is any, whatever else the
/// state holds, and the placeholder only when there is none; the record
/// button shows stop (in its colour) exactly while recording is on; the
/// mode and output buttons name the current mode and method; the title, the
/// clear and copy labels and the shortcut line never change.
pub proof fn lemma_view_follows_state(s: VoiceInputView)
    ensures
        s.text.len() > 0 ==> view_model_of(s).body == s.text,
        s.text.len() == 0 ==> view_model_of(s).body == PLACEHOLDER@,
        s.is_recording ==> view_model_of(s).record_label == STOP_LABEL@ && view_model_of(
            s,
        ).record_color == STOP_COLOR,
        !s.is_recording ==> view_model_of(s).record_label == RECORD_LABEL@ && view_model_of(
            s,
        ).record_color == RECORD_COLOR,
        s.input_mode == InputMode::Toggle ==> view_model_of(s).mode_label == TOGGLE_MODE_LABEL@,
        s.input_mode == InputMode::Hold ==> view_model_of(s).mode_label == HOLD_MODE_LABEL@,
        s.output_method == OutputMethod::Clipboard ==> view_model_of(s).output_label
            == CLIPBOARD_OUTPUT_LABEL@,
        s.output_method == OutputMethod::DirectInput ==> view_model_of(s).output_label
            == DIRECT_OUTPUT_LABEL@,
        view_model_of(s).title == TITLE@ && view_model_of(s).clear_label == CLEAR_LABEL@,
        view_model_of(s).copy_label == COPY_LABEL@ && view_model_of(s).shortcuts == SHORTCUTS@,
{
}

/// Two states with the same text show the same text area.
pub proof fn lemma_body_depends_on_text_only(s: VoiceInputView, t: VoiceInputView)
    requires
        s.text == t.text,
    ensures
        view_model_of(s).body == view_model_of(t).body,
{
}

/// The model directory is the first candidate whose configuration file
/// exists: the cache snapshot under the home directory, else the local
/// 0.6B directory, else the local 1.7B directory; none when no candidate
/// has one. Extra flags beyond the three candidates change nothing. The
/// candidates are those three, in that order.
pub proof fn lemma_model_dir_first_with_config(
    home: Seq<char>,
    has_config: Seq<bool>,
    windows: bool,
)
    ensures
        flag_at(has_config, 0) ==> model_dir_choice(home, has_config, windows) == Some(
            path_join(home, CACHE_SNAPSHOT_DIR@, windows),
        ),
        !flag_at(has_config, 0) && flag_at(has_config, 1) ==> model_dir_choice(
            home,
            has_config,
            windows,
        ) == Some(LOCAL_SMALL_MODEL_DIR@),
        !flag_at(has_config, 0) && !flag_at(has_config, 1) && flag_at(has_config, 2)
            ==> model_dir_choice(home, has_config, windows) == Some(LOCAL_LARGE_MODEL_DIR@),
        model_dir_choice(home, has_config, windows) is None <==> (!flag_at(has_config, 0)
            && !flag_at(has_config, 1) && !flag_at(has_config, 2)),
        has_config.len() > 3 ==> model_dir_choice(home, has_config, windows) == model_dir_choice(
            home,
            has_config.subrange(0, 3),
            windows,
        ),
        candidate_dirs(home, windows).len() == 3,
        candidate_dirs(home, windows)[0] == path_join(home, CACHE_SNAPSHOT_DIR@, windows),
        candidate_dirs(home, windows)[1] == LOCAL_SMALL_MODEL_DIR@,
        candidate_dirs(home, windows)[2] == LOCAL_LARGE_MODEL_DIR@,
{
}

/// A GPU is chosen only under libtorch with CUDA available or under MLX,
/// and then it is GPU 0; without an accelerated backend the CPU is used.
/// The window uses a GPU only under libtorch with CUDA available.
pub proof fn lemma_device_choice(backend: Backend, cuda_available: bool)
    ensures
        device_for(Backend::Plain, cuda_available) == DeviceChoice::Cpu,
        device_for(Backend::Mlx, cuda_available) == DeviceChoice::Gpu(0),
        device_for(Backend::Torch, true) == DeviceChoice::Gpu(0),
        device_for(Backend::Torch, false) == DeviceChoice::Cpu,
        device_for(backend, cuda_available) is Gpu ==> device_for(backend, cuda_available)
            == DeviceChoice::Gpu(0) && (backend == Backend::Mlx || (backend == Backend::Torch
            && cuda_available)),
        gui_device_for(backend, cuda_available) is Gpu <==> (backend == Backend::Torch
            && cuda_available),
        gui_device_for(backend, cuda_available) is Gpu ==> gui_device_for(backend, cuda_available)
            == DeviceChoice::Gpu(0),
{
}

/// A missing model directory is reported, with its path, whatever the audio
/// file; a missing audio file is reported, with its path, when the model
/// directory exists; the check passes exactly when both exist.
pub proof fn lemma_input_check(
    model_path: Seq<char>,
    model_exists: bool,
    audio_path: Seq<char>,
    audio_exists: bool,
)
    ensures
        !model_exists ==> input_check(model_path, model_exists, audio_path, audio_exists) == Err::<
            (),
            Seq<char>,
        >(MODEL_DIR_NOT_FOUND@ + model_path),
        model_exists && !audio_exists ==> input_check(
            model_path,
            model_exists,
            audio_path,
            audio_exists,
        ) == Err::<(), Seq<char>>(AUDIO_FILE_NOT_FOUND@ + audio_path),
        input_check(model_path, model_exists, audio_path, audio_exists) is Ok <==> (model_exists
            && audio_exists),
{
}

/// The report begins with `Language: ` and the language and ends with
/// `Text: ` and the text, the two parts on separate lines.
pub proof fn lemma_report_lines(language: Seq<char>, text: Seq<char>)
    ensures
        report_of(language, text) == ("Language: "@ + language) + (seq!['\n'] + ("Text: "@
            + text)),
        report_of(language, text).subrange(0, ("Language: "@.len() + language.len()) as int)
            == "Language: "@ + language,
        report_of(language, text)[("Language: "@.len() + language.len()) as int] == '\n',
{
    let r = report_of(language, text);
    assert(r == ("Language: "@ + language) + (seq!['\n'] + ("Text: "@ + text)));
    assert(r.subrange(0, ("Language: "@.len() + language.len()) as int) =~= "Language: "@ + language);
}

/// The home directory is the variable that holds it when it is set, and
/// the current directory otherwise; on Windows `USERPROFILE` comes first,
/// then `HOMEDRIVE` followed by `HOMEPATH` when both are set.
pub proof fn lemma_home_dir(
    home: Option<Seq<char>>,
    profile: Option<Seq<char>>,
    drive: Option<Seq<char>>,
    path: Option<Seq<char>>,
)
    ensures
        home matches Some(h) ==> home_dir_of(home) == h,
        home is None ==> home_dir_of(home) == CURRENT_DIR@,
        profile matches Some(p) ==> windows_home_dir_of(profile, drive, path) == p,
        (profile is None && drive is Some && path is Some) ==> windows_home_dir_of(
            profile,
            drive,
            path,
        ) == drive->0 + path->0,
        (profile is None && (drive is None || path is None)) ==> windows_home_dir_of(
            profile,
            drive,
            path,
        ) == CURRENT_DIR@,
{
}

/// Outside Windows verbatim paths, a join keeps the base as it is, puts
/// `rel` at the end unchanged, and puts at most one separator of the
/// platform between them: none exactly when the base is empty, already ends
/// with a separator, or (on Windows) is a bare drive.
pub proof fn lemma_join_keeps_both_parts(base: Seq<char>, rel: Seq<char>, windows: bool)
    requires
        !(windows && is_verbatim(base)),
    ensures
        ({
            let j = path_join(base, rel, windows);
            let no_sep = base.len() == 0 || is_separator(base.last(), windows) || (windows
                && is_bare_drive(base));
            &&& j.subrange(0, base.len() as int) == base
            &&& j.subrange(j.len() - rel.len(), j.len() as int) == rel
            &&& no_sep ==> j.len() == base.len() + rel.len()
            &&& !no_sep ==> j.len() == base.len() + 1 + rel.len()
            &&& !no_sep && windows ==> j[base.len() as int] == '\\'
            &&& !no_sep && !windows ==> j[base.len() as int] == '/'
        }),
{
    let j = path_join(base, rel, windows);
    assert(j.subrange(0, base.len() as int) =~= base);
    assert(j.subrange(j.len() - rel.len(), j.len() as int) =~= rel);
}

/// On Windows a verbatim base yields a path that begins with the base's
/// first four characters `\\?\` and ends with `rel` written with `\` only.
pub proof fn lemma_verbatim_join_ends_with_rel(base: Seq<char>, rel: Seq<char>)
    requires
        is_verbatim(base),
        crate::model_dir::verbatim_prefix_len(base) <= base.len(),
    ensures
        ({
            let j = path_join(base, rel, true);
            &&& j.subrange(0, 4) == base.subrange(0, 4)
            &&& j.subrange(j.len() - rel.len(), j.len() as int) == with_backslashes(rel)
        }),
{
    let k = crate::model_dir::verbatim_prefix_len(base);
    let j = path_join(base, rel, true);
    assert(k >= 4) by {
        lemma_verbatim_prefix_at_least_four(base);
    }
    assert(j.subrange(0, 4) =~= base.subrange(0, 4));
    assert(j.subrange(j.len() - rel.len(), j.len() as int) =~= with_backslashes(rel));
}

/// The prefix of a verbatim path spans at least its `\\?\`.
pub proof fn lemma_verbatim_prefix_at_least_four(base: Seq<char>)
    requires
        is_verbatim(base),
    ensures
        crate::model_dir::verbatim_prefix_len(base) >= 4,
{
    lemma_piece_end_from(base, 4);
    if base.len() >= 8 && base[4] == 'U' && base[5] == 'N' && base[6] == 'C' && is_separator(
        base[7],
        true,
    ) {
        lemma_piece_end_from(base, 8);
        let server_end = crate::model_dir::piece_end(base, 8);
        if server_end != base.len() {
            lemma_piece_end_from(base, server_end + 1);
        }
    }
}

/// `piece_end` does not go back before `from`.
pub proof fn lemma_piece_end_from(s: Seq<char>, from: int)
    requires
        0 <= from,
    ensures
        crate::model_dir::piece_end(s, from) >= from || crate::model_dir::piece_end(s, from)
            == s.len(),
        from <= s.len() ==> crate::model_dir::piece_end(s, from) >= from,
    decreases s.len() - from,
{
    if from < s.len() && s[from] != '\\' {
        lemma_piece_end_from(s, from + 1);
    }
}

} // verus!
