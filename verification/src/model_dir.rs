//! Locating the model directory: the Hugging Face cache snapshot of the
//! 0.6B model under the home directory first, then two local directories.
//! Paths are joined by the rules of the target platform, Unix or Windows,
//! which the caller names.

use vstd::prelude::*;
use vstd::string::*;

verus! {

/// Path, relative to the home directory, of the cached 0.6B model snapshot.
pub const CACHE_SNAPSHOT_DIR: &'static str =
    ".cache/huggingface/hub/models--Qwen--Qwen3-ASR-0.6B/snapshots/5eb144179a02acc5e5ba31e748d22b0cf3e303b0";

/// Local directory of the 0.6B model, relative to the working directory.
pub const LOCAL_SMALL_MODEL_DIR: &'static str = "qwen3_asr_rs/Qwen3-ASR-0.6B";

/// Local directory of the 1.7B model, relative to the working directory.
pub const LOCAL_LARGE_MODEL_DIR: &'static str = "qwen3_asr_rs/Qwen3-ASR-1.7B";

/// Name of the file whose presence marks a directory as a model directory.
pub const CONFIG_FILE_NAME: &'static str = "config.json";

/// Directory used when no home directory is known.
pub const CURRENT_DIR: &'static str = ".";

/// Whether `c` separates path components: `/` everywhere, and `\` too on
/// Windows.
pub open spec fn is_separator(c: char, windows: bool) -> bool {
    c == '/' || (windows && c == '\\')
}

/// An ASCII letter, as a drive letter must be.
pub open spec fn is_ascii_letter(c: char) -> bool {
    ('a' <= c && c <= 'z') || ('A' <= c && c <= 'Z')
}

/// Position `i` of `s` begins a component.
pub open spec fn starts_segment(s: Seq<char>, i: int) -> bool {
    i == 0 || is_separator(s[i - 1], true)
}

/// The component that begins at `i` is `.` or `..`.
pub open spec fn dot_segment_at(s: Seq<char>, i: int) -> bool {
    s[i] == '.' && (i + 1 == s.len() || is_separator(s[i + 1], true) || (s[i + 1] == '.' && (i + 2
        == s.len() || is_separator(s[i + 2], true))))
}

/// A relative path made only of ordinary components, on every platform: it
/// is not empty, has no root, no drive, no empty component and no `.` or
/// `..` component.
pub open spec fn plain_relative(rel: Seq<char>) -> bool {
    &&& rel.len() > 0
    &&& !is_separator(rel[0], true)
    &&& !is_separator(rel.last(), true)
    &&& !(rel.len() >= 2 && is_ascii_letter(rel[0]) && rel[1] == ':')
    &&& forall|i: int|
        0 <= i < rel.len() - 1 && is_separator(#[trigger] rel[i], true) ==> !is_separator(
            rel[i + 1],
            true,
        )
    &&& forall|i: int| 0 <= i < rel.len() && #[trigger] starts_segment(rel, i) ==> !dot_segment_at(rel, i)
}

/// A Windows verbatim path: it begins with `\\?\`.
pub open spec fn is_verbatim(s: Seq<char>) -> bool {
    s.len() >= 4 && s[0] == '\\' && s[1] == '\\' && s[2] == '?' && s[3] == '\\'
}

/// A Windows path that is only a drive, such as `C:`.
pub open spec fn is_bare_drive(s: Seq<char>) -> bool {
    s.len() == 2 && is_ascii_letter(s[0]) && s[1] == ':'
}

/// The first position at or after `from` that holds `\`, or the length of
/// `s` when there is none.
pub open spec fn piece_end(s: Seq<char>, from: int) -> int
    decreases s.len() - from,
{
    if from < 0 || from >= s.len() {
        s.len() as int
    } else if s[from] == '\\' {
        from
    } else {
        piece_end(s, from + 1)
    }
}

/// The length of the prefix of a verbatim path: `\\?\UNC\server\share`
/// (the share when it is not empty), `\\?\C:` (when a separator or the end
/// follows), else `\\?\` and the text up to the next `\`.
pub open spec fn verbatim_prefix_len(s: Seq<char>) -> int {
    if s.len() >= 8 && s[4] == 'U' && s[5] == 'N' && s[6] == 'C' && is_separator(s[7], true) {
        let server_end = piece_end(s, 8);
        if server_end == s.len() {
            server_end
        } else {
            let share_end = piece_end(s, server_end + 1);
            if share_end > server_end + 1 {
                share_end
            } else {
                server_end
            }
        }
    } else if s.len() >= 6 && is_ascii_letter(s[4]) && s[5] == ':' && (s.len() == 6
        || is_separator(s[6], true)) {
        6
    } else {
        piece_end(s, 4)
    }
}

/// Reading `s` from the left: the `\`-separated pieces seen so far that are
/// not empty, joined by `\`, and whether a `\` has been seen since the last
/// kept character.
pub open spec fn squash_state(s: Seq<char>) -> (Seq<char>, bool)
    decreases s.len(),
{
    if s.len() == 0 {
        (Seq::empty(), false)
    } else {
        let (out, pending) = squash_state(s.drop_last());
        let c = s.last();
        if c == '\\' {
            (out, out.len() > 0)
        } else if pending {
            (out + seq!['\\', c], false)
        } else {
            (out.push(c), false)
        }
    }
}

/// The `\`-separated pieces of `s` that are not empty, joined by `\`.
pub open spec fn squash(s: Seq<char>) -> Seq<char> {
    squash_state(s).0
}

/// `s` with every `/` written as `\`.
pub open spec fn with_backslashes(s: Seq<char>) -> Seq<char> {
    s.map_values(|c: char| if c == '/' { '\\' } else { c })
}

/// Joining a plain relative path `rel` onto `base` as std's `Path::join`
/// does on Unix (`windows` false) or on Windows (`windows` true).
///
/// On Windows a verbatim base is rewritten: its prefix, then its non-empty
/// `\`-separated components and those of `rel`, each after a `\`. Otherwise
/// `rel` is appended, after a separator (`/` on Unix, `\` on Windows) unless
/// the base is empty, ends with a separator, or is a bare drive on Windows.
pub open spec fn path_join(base: Seq<char>, rel: Seq<char>, windows: bool) -> Seq<char> {
    if windows && is_verbatim(base) {
        let k = verbatim_prefix_len(base);
        let start = if k < base.len() && is_separator(base[k], true) {
            k + 1
        } else {
            k
        };
        let body = squash(base.subrange(start, base.len() as int));
        base.subrange(0, k) + seq!['\\'] + (if body.len() == 0 {
            body
        } else {
            body.push('\\')
        }) + with_backslashes(rel)
    } else if base.len() == 0 || is_separator(base.last(), windows) || (windows && is_bare_drive(
        base,
    )) {
        base + rel
    } else if windows {
        base + seq!['\\'] + rel
    } else {
        base + seq!['/'] + rel
    }
}

/// The two names this crate joins onto directories are plain relative paths.
pub proof fn lemma_fixed_names_plain()
    ensures
        plain_relative(CACHE_SNAPSHOT_DIR@),
        plain_relative(CONFIG_FILE_NAME@),
{
    reveal_strlit(
        ".cache/huggingface/hub/models--Qwen--Qwen3-ASR-0.6B/snapshots/5eb144179a02acc5e5ba31e748d22b0cf3e303b0",
    );
    reveal_strlit("config.json");
}

fn is_separator_char(c: char, windows: bool) -> (b: bool)
    ensures
        b == is_separator(c, windows),
{
    c == '/' || (windows && c == '\\')
}

fn is_ascii_letter_char(c: char) -> (b: bool)
    ensures
        b == is_ascii_letter(c),
{
    ('a' <= c && c <= 'z') || ('A' <= c && c <= 'Z')
}

/// The first position at or after `from` in `s` that holds `\`, or `n`.
fn find_piece_end(s: &str, n: usize, from: usize) -> (e: usize)
    requires
        n == s@.len(),
        from <= n,
    ensures
        e == piece_end(s@, from as int),
        from <= e <= n,
{
    let mut i = from;
    while i < n && s.get_char(i) != '\\'
        invariant
            n == s@.len(),
            from <= i <= n,
            piece_end(s@, i as int) == piece_end(s@, from as int),
        decreases n - i,
    {
        i = i + 1;
    }
    i
}

/// The length of the prefix of the verbatim path `s`.
fn find_verbatim_prefix_len(s: &str, n: usize) -> (k: usize)
    requires
        n == s@.len(),
        is_verbatim(s@),
    ensures
        k == verbatim_prefix_len(s@),
        k <= n,
{
    if n >= 8 && s.get_char(4) == 'U' && s.get_char(5) == 'N' && s.get_char(6) == 'C'
        && is_separator_char(s.get_char(7), true) {
        let server_end = find_piece_end(s, n, 8);
        if server_end == n {
            server_end
        } else {
            let share_end = find_piece_end(s, n, server_end + 1);
            if share_end > server_end + 1 {
                share_end
            } else {
                server_end
            }
        }
    } else if n >= 6 && is_ascii_letter_char(s.get_char(4)) && s.get_char(5) == ':' && (n == 6
        || is_separator_char(s.get_char(6), true)) {
        6
    } else {
        find_piece_end(s, n, 4)
    }
}

/// The non-empty `\`-separated pieces of `s` from position `from` on,
/// joined by `\`.
fn squash_from(s: &str, n: usize, from: usize) -> (out: String)
    requires
        n == s@.len(),
        from <= n,
    ensures
        out@ == squash(s@.subrange(from as int, n as int)),
{
    let mut out = String::new();
    let mut pending = false;
    let mut i = from;
    proof {
        reveal_strlit("\\");
        assert(s@.subrange(from as int, from as int) =~= Seq::<char>::empty());
    }
    while i < n
        invariant
            n == s@.len(),
            from <= i <= n,
            (out@, pending) == squash_state(s@.subrange(from as int, i as int)),
            "\\"@ == seq!['\\'],
        decreases n - i,
    {
        let c = s.get_char(i);
        proof {
            assert(s@.subrange(from as int, i + 1).drop_last() =~= s@.subrange(from as int, i as int));
        }
        if c == '\\' {
            pending = !out.as_str().is_empty();
        } else {
            if pending {
                out.append("\\");
            }
            let one = s.substring_char(i, i + 1);
            assert(one@ =~= seq![c]);
            out.append(one);
            pending = false;
            assert(out@ =~= squash_state(s@.subrange(from as int, i + 1)).0);
        }
        i = i + 1;
    }
    out
}

/// `s` with every `/` written as `\`.
fn backslashed(s: &str) -> (out: String)
    ensures
        out@ == with_backslashes(s@),
{
    let n = s.unicode_len();
    let mut out = String::new();
    let mut i: usize = 0;
    proof {
        reveal_strlit("\\");
        assert(with_backslashes(s@.subrange(0, 0)) =~= Seq::<char>::empty());
    }
    while i < n
        invariant
            n == s@.len(),
            i <= n,
            out@ == with_backslashes(s@.subrange(0, i as int)),
            "\\"@ == seq!['\\'],
        decreases n - i,
    {
        let c = s.get_char(i);
        if c == '/' {
            out.append("\\");
        } else {
            let one = s.substring_char(i, i + 1);
            assert(one@ =~= seq![c]);
            out.append(one);
        }
        assert(with_backslashes(s@.subrange(0, i + 1)) =~= with_backslashes(
            s@.subrange(0, i as int),
        ).push(if c == '/' {
            '\\'
        } else {
            c
        }));
        i = i + 1;
    }
    assert(s@.subrange(0, n as int) =~= s@);
    out
}

/// Joins the plain relative path `rel` onto `base` as `Path::join` does on
/// Unix (`windows` false) or Windows (`windows` true).
pub fn join_path(base: &str, rel: &str, windows: bool) -> (joined: String)
    requires
        plain_relative(rel@),
    ensures
        joined@ == path_join(base@, rel@, windows),
{
    proof {
        reveal_strlit("\\");
        reveal_strlit("/");
    }
    let n = base.unicode_len();
    if windows && n >= 4 && base.get_char(0) == '\\' && base.get_char(1) == '\\' && base.get_char(2)
        == '?' && base.get_char(3) == '\\' {
        let k = find_verbatim_prefix_len(base, n);
        let start = if k < n && is_separator_char(base.get_char(k), true) {
            k + 1
        } else {
            k
        };
        let body = squash_from(base, n, start);
        let mut out = base.substring_char(0, k).to_owned();
        out.append("\\");
        if !body.as_str().is_empty() {
            out.append(body.as_str());
            out.append("\\");
        }
        let tail = backslashed(rel);
        out.append(tail.as_str());
        out
    } else if n == 0 || is_separator_char(base.get_char(n - 1), windows) || (windows && n == 2
        && is_ascii_letter_char(base.get_char(0)) && base.get_char(1) == ':') {
        base.to_owned().concat(rel)
    } else if windows {
        base.to_owned().concat("\\").concat(rel)
    } else {
        base.to_owned().concat("/").concat(rel)
    }
}

/// The home directory on Unix-like systems: the value of `HOME` when it is
/// set, else the current directory.
pub open spec fn home_dir_of(home_var: Option<Seq<char>>) -> Seq<char> {
    match home_var {
        Some(h) => h,
        None => CURRENT_DIR@,
    }
}

/// The home directory on Windows: `USERPROFILE` when it is set, else
/// `HOMEDRIVE` followed by `HOMEPATH` when both are set, else the current
/// directory.
pub open spec fn windows_home_dir_of(
    user_profile: Option<Seq<char>>,
    home_drive: Option<Seq<char>>,
    home_path: Option<Seq<char>>,
) -> Seq<char> {
    match user_profile {
        Some(p) => p,
        None => match (home_drive, home_path) {
            (Some(d), Some(p)) => d + p,
            _ => CURRENT_DIR@,
        },
    }
}

/// The view of an optional string.
pub open spec fn opt_view(s: Option<String>) -> Option<Seq<char>> {
    match s {
        Some(v) => Some(v@),
        None => None,
    }
}

/// The home directory from the value of the `HOME` variable (`None` when it
/// is unset or not Unicode).
pub fn dirs_fallback(home_var: Option<String>) -> (home: String)
    ensures
        home@ == home_dir_of(opt_view(home_var)),
{
    match home_var {
        Some(h) => h,
        None => CURRENT_DIR.to_owned(),
    }
}

/// The home directory from the values of `USERPROFILE`, `HOMEDRIVE` and
/// `HOMEPATH` (each `None` when unset or not Unicode).
pub fn dirs_fallback_windows(
    user_profile: Option<String>,
    home_drive: Option<String>,
    home_path: Option<String>,
) -> (home: String)
    ensures
        home@ == windows_home_dir_of(
            opt_view(user_profile),
            opt_view(home_drive),
            opt_view(home_path),
        ),
{
    match user_profile {
        Some(p) => p,
        None => match (home_drive, home_path) {
            (Some(d), Some(p)) => d.concat(p.as_str()),
            _ => CURRENT_DIR.to_owned(),
        },
    }
}

/// The candidate model directories, in the order in which they are tried,
/// with paths joined as on Windows when `windows` holds.
pub open spec fn candidate_dirs(home: Seq<char>, windows: bool) -> Seq<Seq<char>> {
    seq![
        path_join(home, CACHE_SNAPSHOT_DIR@, windows),
        LOCAL_SMALL_MODEL_DIR@,
        LOCAL_LARGE_MODEL_DIR@,
    ]
}

/// The cached model snapshot under `home`, joined as on Windows when
/// `windows` holds.
pub fn model_dir_cache(home: &str, windows: bool) -> (dir: String)
    ensures
        dir@ == path_join(home@, CACHE_SNAPSHOT_DIR@, windows),
{
    proof {
        lemma_fixed_names_plain();
    }
    join_path(home, CACHE_SNAPSHOT_DIR, windows)
}

/// The candidate model directories for the home directory `home`, in order.
pub fn model_dir_candidates(home: &str, windows: bool) -> (dirs: Vec<String>)
    ensures
        dirs.len() == candidate_dirs(home@, windows).len(),
        forall|i: int|
            0 <= i < dirs.len() ==> #[trigger] dirs[i]@ == candidate_dirs(home@, windows)[i],
{
    let mut dirs: Vec<String> = Vec::new();
    dirs.push(model_dir_cache(home, windows));
    dirs.push(LOCAL_SMALL_MODEL_DIR.to_owned());
    dirs.push(LOCAL_LARGE_MODEL_DIR.to_owned());
    dirs
}

/// The file whose presence marks `dir` as a model directory, joined as on
/// Windows when `windows` holds.
pub fn config_file(dir: &str, windows: bool) -> (path: String)
    ensures
        path@ == path_join(dir@, CONFIG_FILE_NAME@, windows),
{
    proof {
        lemma_fixed_names_plain();
    }
    join_path(dir, CONFIG_FILE_NAME, windows)
}

/// Whether entry `i` of `flags` is present and true.
pub open spec fn flag_at(flags: Seq<bool>, i: int) -> bool {
    0 <= i < flags.len() && flags[i]
}

/// The first candidate directory whose configuration file exists, where
/// `has_config[i]` tells whether candidate `i` has one (a missing entry
/// counts as no).
pub open spec fn model_dir_choice(home: Seq<char>, has_config: Seq<bool>, windows: bool) -> Option<
    Seq<char>,
> {
    let dirs = candidate_dirs(home, windows);
    if flag_at(has_config, 0) {
        Some(dirs[0])
    } else if flag_at(has_config, 1) {
        Some(dirs[1])
    } else if flag_at(has_config, 2) {
        Some(dirs[2])
    } else {
        None
    }
}

/// Picks the model directory: the first of the candidates for `home`
/// whose configuration file exists, as `has_config` reports it; paths are
/// joined as on Windows when `windows` holds.
pub fn find_model_dir(home: &str, has_config: &Vec<bool>, windows: bool) -> (dir: Option<String>)
    ensures
        opt_view(dir) == model_dir_choice(home@, has_config@, windows),
{
    let n = has_config.len();
    if n > 0 && has_config[0] {
        Some(model_dir_cache(home, windows))
    } else if n > 1 && has_config[1] {
        Some(LOCAL_SMALL_MODEL_DIR.to_owned())
    } else if n > 2 && has_config[2] {
        Some(LOCAL_LARGE_MODEL_DIR.to_owned())
    } else {
        None
    }
}

} // verus!
