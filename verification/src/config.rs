//! The startup configuration: the shell, the working directory and the
//! background image, chosen from the settings and the environment.
use crate::binary64::Binary64;
use crate::settings::{HeaderMode, Settings, SettingsError, SettingsView, TerminalPadding, Theme};
use crate::text::{chars_of, copy_str, str_eq};
use vstd::prelude::*;

verus! {

broadcast use vstd::string::group_string_axioms;

/// The shell used when neither the settings nor `SHELL` name one.
pub const FALLBACK_SHELL: &'static str = "/bin/sh";

/// The background image setting that names the bundled image.
pub const DEFAULT_BACKGROUND_IMAGE_SETTING: &'static str = "builtin";

/// The environment variable that overrides the background image.
pub const BACKGROUND_IMAGE_ENV: &'static str = "ZTER_BACKGROUND_IMAGE";

/// The older name of `BACKGROUND_IMAGE_ENV`, read when it is unset.
pub const WALLPAPER_ENV: &'static str = "ZTER_WALLPAPER";

/// A string from the operating system: Unicode text, or bytes that are not
/// valid UTF-8.
#[derive(Clone, Debug, PartialEq)]
pub enum OsText {
    Unicode(String),
    NonUnicode(Vec<u8>),
}

impl OsText {
    pub open spec fn spec_is_empty(&self) -> bool {
        match self {
            OsText::Unicode(s) => s@.len() == 0,
            OsText::NonUnicode(b) => b@.len() == 0,
        }
    }

    pub fn is_empty(&self) -> (empty: bool)
        ensures
            empty == self.spec_is_empty(),
    {
        match self {
            OsText::Unicode(s) => s.as_str().is_empty(),
            OsText::NonUnicode(b) => b.len() == 0,
        }
    }

    /// The contents: text, or the bytes that are not UTF-8.
    pub open spec fn spec_view(&self) -> OsTextView {
        match self {
            OsText::Unicode(s) => OsTextView::Unicode(s@),
            OsText::NonUnicode(b) => OsTextView::NonUnicode(b@),
        }
    }
}

/// `OsText` in specifications.
pub enum OsTextView {
    Unicode(Seq<char>),
    NonUnicode(Seq<u8>),
}

/// Where the background image comes from.
#[derive(Clone, Debug, PartialEq)]
pub enum BackgroundImageSource {
    /// The image bundled with the program.
    Default,
    File(OsText),
}

/// Why the startup configuration could not be made.
#[derive(Debug, PartialEq)]
pub enum ConfigError {
    Settings(SettingsError),
    /// The current directory could not be read; holds the system's message.
    CurrentDirectory(String),
    /// The working directory is not valid UTF-8; holds its bytes.
    NonUnicodePath(Vec<u8>),
    NonUnicodeShell,
}

/// The shell to run: the configured shell, else `SHELL` when it is set and
/// not empty, else `FALLBACK_SHELL`. `SHELL` must be valid UTF-8.
pub open spec fn shell_choice(configured: Option<Seq<char>>, environment: Option<OsTextView>) -> Result<
    Seq<char>,
    (),
> {
    match configured {
        Some(s) => Ok(s),
        None => match environment {
            None => Ok("/bin/sh"@),
            Some(OsTextView::Unicode(s)) => if s.len() == 0 {
                Ok("/bin/sh"@)
            } else {
                Ok(s)
            },
            Some(OsTextView::NonUnicode(b)) => if b.len() == 0 {
                Ok("/bin/sh"@)
            } else {
                Err(())
            },
        },
    }
}

/// The shell to run; see `shell_choice`.
pub fn parse_shell(configured_shell: Option<&str>, environment_shell: Option<OsText>) -> (result:
    Result<String, ConfigError>)
    ensures
        match result {
            Ok(s) => shell_choice(
                match configured_shell {
                    Some(c) => Some(c@),
                    None => None,
                },
                match environment_shell {
                    Some(e) => Some(e.spec_view()),
                    None => None,
                },
            ) == Ok::<Seq<char>, ()>(s@),
            Err(e) => e == ConfigError::NonUnicodeShell && shell_choice(
                match configured_shell {
                    Some(c) => Some(c@),
                    None => None,
                },
                match environment_shell {
                    Some(e) => Some(e.spec_view()),
                    None => None,
                },
            ) is Err,
        },
{
    if let Some(shell) = configured_shell {
        return Ok(copy_str(shell));
    }
    match environment_shell {
        None => Ok(copy_str(FALLBACK_SHELL)),
        Some(shell) => if shell.is_empty() {
            Ok(copy_str(FALLBACK_SHELL))
        } else {
            match shell {
                OsText::Unicode(s) => Ok(s),
                OsText::NonUnicode(_) => Err(ConfigError::NonUnicodeShell),
            }
        },
    }
}

/// The text of a path, which must be valid UTF-8.
pub fn path_to_string(path: OsText) -> (result: Result<String, ConfigError>)
    ensures
        match path {
            OsText::Unicode(s) => result matches Ok(t) && t@ == s@,
            OsText::NonUnicode(b) => result == Err::<String, ConfigError>(
                ConfigError::NonUnicodePath(b),
            ),
        },
{
    match path {
        OsText::Unicode(s) => Ok(s),
        OsText::NonUnicode(b) => Err(ConfigError::NonUnicodePath(b)),
    }
}

/// Path components after the first that are all empty or `.`: what
/// `std::path::Path` skips when it compares paths.
pub open spec fn only_current_dirs(rest: Seq<char>) -> bool
    decreases rest.len(),
{
    if rest.len() == 0 {
        true
    } else if rest[0] == '/' {
        only_current_dirs(rest.drop_first())
    } else if rest[0] == '.' && (rest.len() == 1 || rest[1] == '/') {
        only_current_dirs(rest.drop_first())
    } else {
        false
    }
}

/// The path `p` equals the path `builtin` component by component.
pub open spec fn is_builtin_path(p: Seq<char>) -> bool {
    let name = "builtin"@;
    &&& p.len() >= name.len()
    &&& p.subrange(0, name.len() as int) == name
    &&& (p.len() == name.len() || (p[name.len() as int] == '/' && only_current_dirs(
        p.subrange(name.len() + 1int, p.len() as int),
    )))
}

/// Whether the path `p` names the bundled background image.
pub open spec fn names_default_image(p: OsTextView) -> bool {
    match p {
        OsTextView::Unicode(s) => is_builtin_path(s),
        OsTextView::NonUnicode(_) => false,
    }
}

/// Whether `path` equals the path `builtin`, as `std::path::Path` compares
/// paths: component by component, so that `builtin/` and `builtin/.` are
/// equal to it.
pub fn is_default_image_path(path: &OsText) -> (result: bool)
    ensures
        result == names_default_image(path.spec_view()),
{
    match path {
        OsText::NonUnicode(_) => false,
        OsText::Unicode(s) => {
            proof {
                reveal_strlit("builtin");
            }
            let chars = chars_of(s.as_str());
            let name = chars_of("builtin");
            if chars.len() < name.len() {
                return false;
            }
            let mut i: usize = 0;
            while i < name.len()
                invariant
                    path.spec_view() == OsTextView::Unicode(s@),
                    chars@ == s@,
                    name@ == "builtin"@,
                    name@.len() == 7,
                    name@.len() <= chars@.len(),
                    i <= name@.len(),
                    forall|j: int| 0 <= j < i ==> chars@[j] == name@[j],
                decreases name.len() - i,
            {
                if chars[i] != name[i] {
                    proof {
                        assert(s@.subrange(0, 7)[i as int] == s@[i as int]);
                    }
                    return false;
                }
                i = i + 1;
            }
            proof {
                assert(s@.subrange(0, 7) =~= "builtin"@);
            }
            if chars.len() == name.len() {
                return true;
            }
            if chars[7] != '/' {
                return false;
            }
            proof {
                assert(chars@.subrange(8, chars@.len() as int) =~= s@.subrange(8, s@.len() as int));
            }
            let n = chars.len();
            let mut k: usize = 8;
            proof {
                assert(s@.subrange(8, n as int) =~= chars@.subrange(8, n as int));
            }
            while k < n
                invariant
                    path.spec_view() == OsTextView::Unicode(s@),
                    chars@ == s@,
                    n == chars@.len(),
                    8 <= k <= n,
                    only_current_dirs(chars@.subrange(8, n as int)) == only_current_dirs(
                        chars@.subrange(k as int, n as int),
                    ),
                decreases n - k,
            {
                let c = chars[k];
                let ghost rest = chars@.subrange(k as int, n as int);
                assert(rest[0] == c);
                assert(rest.drop_first() =~= chars@.subrange(k + 1, n as int));
                if c == '/' {
                } else if c == '.' && (k + 1 == n || chars[k + 1] == '/') {
                    proof {
                        if k + 1 < n {
                            assert(rest[1] == chars@[k + 1]);
                        }
                    }
                } else {
                    proof {
                        if k + 1 < n {
                            assert(rest[1] == chars@[k + 1]);
                        }
                        assert(!only_current_dirs(rest));
                        reveal_strlit("builtin");
                        assert(chars@.subrange(8, n as int) =~= s@.subrange(8, s@.len() as int));
                    }
                    return false;
                }
                k = k + 1;
            }
            true
        },
    }
}

/// The background image path that applies: a set, empty override disables
/// the background image; a non-empty override replaces the setting.
pub open spec fn background_image_candidate_spec(
    configured: Option<Seq<char>>,
    override_value: Option<OsTextView>,
) -> Option<OsTextView> {
    match override_value {
        Some(v) => if (match v {
            OsTextView::Unicode(s) => s.len() == 0,
            OsTextView::NonUnicode(b) => b.len() == 0,
        }) {
            None
        } else {
            Some(v)
        },
        None => match configured {
            Some(c) => Some(OsTextView::Unicode(c)),
            None => None,
        },
    }
}

/// Where the background image comes from, given whether the candidate path
/// names a file: `builtin` and a path that names no file give the bundled
/// image.
pub open spec fn background_image_choice(candidate: Option<OsTextView>, is_file: bool) -> Option<
    BackgroundImageView,
> {
    match candidate {
        None => None,
        Some(p) => if names_default_image(p) || !is_file {
            Some(BackgroundImageView::Default)
        } else {
            Some(BackgroundImageView::File(p))
        },
    }
}

/// `BackgroundImageSource` in specifications.
pub enum BackgroundImageView {
    Default,
    File(OsTextView),
}

pub open spec fn source_view(source: Option<BackgroundImageSource>) -> Option<BackgroundImageView> {
    match source {
        None => None,
        Some(BackgroundImageSource::Default) => Some(BackgroundImageView::Default),
        Some(BackgroundImageSource::File(p)) => Some(BackgroundImageView::File(p.spec_view())),
    }
}

/// The background image path that applies (see
/// `background_image_candidate_spec`).
pub fn background_image_candidate(
    configured_background_image: Option<&str>,
    background_image_override: Option<OsText>,
) -> (candidate: Option<OsText>)
    ensures
        match candidate {
            Some(c) => background_image_candidate_spec(
                match configured_background_image {
                    Some(c) => Some(c@),
                    None => None,
                },
                match background_image_override {
                    Some(v) => Some(v.spec_view()),
                    None => None,
                },
            ) == Some(c.spec_view()),
            None => background_image_candidate_spec(
                match configured_background_image {
                    Some(c) => Some(c@),
                    None => None,
                },
                match background_image_override {
                    Some(v) => Some(v.spec_view()),
                    None => None,
                },
            ) is None,
        },
{
    match background_image_override {
        Some(value) => if value.is_empty() {
            None
        } else {
            Some(value)
        },
        None => match configured_background_image {
            Some(c) => Some(OsText::Unicode(copy_str(c))),
            None => None,
        },
    }
}

/// Whether the background image candidate must be checked to name a file:
/// it is set and is not `builtin`.
pub fn background_image_needs_file(candidate: &Option<OsText>) -> (needs: bool)
    ensures
        needs == match candidate {
            Some(p) => !names_default_image(p.spec_view()),
            None => false,
        },
{
    match candidate {
        Some(p) => !is_default_image_path(p),
        None => false,
    }
}

/// Where the background image comes from: the override or the setting, with
/// `builtin`, and a path that names no file, giving the bundled image.
/// `candidate_is_file` tells whether the path that applies (see
/// `background_image_candidate`) names a file.
pub fn parse_background_image(
    configured_background_image: Option<&str>,
    background_image_override: Option<OsText>,
    candidate_is_file: bool,
) -> (source: Option<BackgroundImageSource>)
    ensures
        source_view(source) == background_image_choice(
            background_image_candidate_spec(
                match configured_background_image {
                    Some(c) => Some(c@),
                    None => None,
                },
                match background_image_override {
                    Some(v) => Some(v.spec_view()),
                    None => None,
                },
            ),
            candidate_is_file,
        ),
{
    let candidate = background_image_candidate(
        configured_background_image,
        background_image_override,
    );
    match candidate {
        None => None,
        Some(path) => if is_default_image_path(&path) || !candidate_is_file {
            Some(BackgroundImageSource::Default)
        } else {
            Some(BackgroundImageSource::File(path))
        },
    }
}

/// The terminal's startup configuration.
#[derive(Clone, Debug, PartialEq)]
pub struct AppConfig {
    shell: String,
    working_directory: String,
    background_image: Option<BackgroundImageSource>,
    theme: Theme,
    header_mode: HeaderMode,
    font_family: String,
    font_size: Binary64,
    terminal_padding: TerminalPadding,
    scrollback_lines: i64,
    background_image_opacity: Binary64,
    window_opacity: Binary64,
}

/// `AppConfig` in specifications.
pub struct AppConfigView {
    pub shell: Seq<char>,
    pub working_directory: Seq<char>,
    pub background_image: Option<BackgroundImageView>,
    pub theme: Theme,
    pub header_mode: HeaderMode,
    pub font_family: Seq<char>,
    pub font_size: Binary64,
    pub padding: (u16, u16, u16, u16),
    pub scrollback_lines: i64,
    pub background_image_opacity: Binary64,
    pub window_opacity: Binary64,
}

impl View for AppConfig {
    type V = AppConfigView;

    closed spec fn view(&self) -> AppConfigView {
        AppConfigView {
            shell: self.shell@,
            working_directory: self.working_directory@,
            background_image: source_view(self.background_image),
            theme: self.theme,
            header_mode: self.header_mode,
            font_family: self.font_family@,
            font_size: self.font_size,
            padding: (
                self.terminal_padding.spec_top(),
                self.terminal_padding.spec_right(),
                self.terminal_padding.spec_bottom(),
                self.terminal_padding.spec_left(),
            ),
            scrollback_lines: self.scrollback_lines,
            background_image_opacity: self.background_image_opacity,
            window_opacity: self.window_opacity,
        }
    }
}

impl AppConfig {
    /// The configuration from the settings and the environment: `SHELL`, the
    /// current directory and the background image override.
    /// `background_image_is_file` tells whether the background image path
    /// that applies names a file (see `background_image_candidate`).
    pub fn from_values(
        settings: &Settings,
        environment_shell: Option<OsText>,
        working_directory: OsText,
        background_image_override: Option<OsText>,
        background_image_is_file: bool,
    ) -> (result: Result<AppConfig, ConfigError>)
        ensures
            match result {
                Ok(c) => {
                    &&& shell_choice(
                        settings@.shell,
                        match environment_shell {
                            Some(e) => Some(e.spec_view()),
                            None => None,
                        },
                    ) == Ok::<Seq<char>, ()>(c@.shell)
                    &&& working_directory.spec_view() == OsTextView::Unicode(c@.working_directory)
                    &&& c@.background_image == background_image_choice(
                        background_image_candidate_spec(
                            settings@.background_image,
                            match background_image_override {
                                Some(v) => Some(v.spec_view()),
                                None => None,
                            },
                        ),
                        background_image_is_file,
                    )
                    &&& c@.theme == settings@.theme
                    &&& c@.header_mode == match settings@.header_mode {
                        Some(m) => m,
                        None => HeaderMode::Full,
                    }
                    &&& c@.font_family == settings@.font_family
                    &&& c@.font_size == settings@.font_size
                    &&& c@.padding == (
                        settings@.padding_top,
                        settings@.padding_right,
                        settings@.padding_bottom,
                        settings@.padding_left,
                    )
                    &&& c@.scrollback_lines == settings@.scrollback_lines
                    &&& c@.background_image_opacity == settings@.background_image_opacity
                    &&& c@.window_opacity == settings@.window_opacity
                },
                Err(e) => {
                    ||| e == ConfigError::NonUnicodeShell && shell_choice(
                        settings@.shell,
                        match environment_shell {
                            Some(e) => Some(e.spec_view()),
                            None => None,
                        },
                    ) is Err
                    ||| shell_choice(
                        settings@.shell,
                        match environment_shell {
                            Some(e) => Some(e.spec_view()),
                            None => None,
                        },
                    ) is Ok && (working_directory matches OsText::NonUnicode(b)
                        && e == ConfigError::NonUnicodePath(b))
                },
            },
    {
        let shell = match parse_shell(settings.shell(), environment_shell) {
            Ok(s) => s,
            Err(e) => {
                return Err(e);
            },
        };
        let working_directory = match path_to_string(working_directory) {
            Ok(w) => w,
            Err(e) => {
                return Err(e);
            },
        };
        let background_image = parse_background_image(
            settings.background_image(),
            background_image_override,
            background_image_is_file,
        );
        let padding = settings.terminal_padding();
        Ok(
            AppConfig {
                shell,
                working_directory,
                background_image,
                theme: settings.theme(),
                header_mode: match settings.header_mode() {
                    Some(m) => m,
                    None => HeaderMode::Full,
                },
                font_family: copy_str(settings.font_family()),
                font_size: settings.font_size(),
                terminal_padding: padding,
                scrollback_lines: settings.scrollback_lines(),
                background_image_opacity: settings.background_image_opacity(),
                window_opacity: settings.window_opacity(),
            },
        )
    }

    pub fn shell(&self) -> (shell: &str)
        ensures
            shell@ == self@.shell,
    {
        self.shell.as_str()
    }

    pub fn working_directory(&self) -> (directory: &str)
        ensures
            directory@ == self@.working_directory,
    {
        self.working_directory.as_str()
    }

    pub fn background_image(&self) -> (source: Option<&BackgroundImageSource>)
        ensures
            source_view(
                match source {
                    Some(s) => Some(*s),
                    None => None,
                },
            ) == self@.background_image,
    {
        match &self.background_image {
            Some(s) => Some(s),
            None => None,
        }
    }

    pub fn theme(&self) -> (theme: Theme)
        ensures
            theme == self@.theme,
    {
        self.theme
    }

    /// The header mode to show: the selected one, else the full header.
    pub fn header_mode(&self) -> (mode: HeaderMode)
        ensures
            mode == self@.header_mode,
    {
        self.header_mode
    }

    pub fn font_family(&self) -> (family: &str)
        ensures
            family@ == self@.font_family,
    {
        self.font_family.as_str()
    }

    pub fn font_size(&self) -> (size: Binary64)
        ensures
            size == self@.font_size,
    {
        self.font_size
    }

    pub fn terminal_padding(&self) -> (padding: TerminalPadding)
        ensures
            (padding.spec_top(), padding.spec_right(), padding.spec_bottom(), padding.spec_left())
                == self@.padding,
    {
        self.terminal_padding
    }

    pub fn scrollback_lines(&self) -> (lines: i64)
        ensures
            lines == self@.scrollback_lines,
    {
        self.scrollback_lines
    }

    pub fn background_image_opacity(&self) -> (opacity: Binary64)
        ensures
            opacity == self@.background_image_opacity,
    {
        self.background_image_opacity
    }

    pub fn window_opacity(&self) -> (opacity: Binary64)
        ensures
            opacity == self@.window_opacity,
    {
        self.window_opacity
    }
}

} // verus!
