use vstd::prelude::*;
use vstd::string::*;

verus! {

/// The operating system family the tool runs on.
#[derive(Clone, Copy, Debug, PartialEq, Eq, Structural)]
pub enum Platform {
    Linux,
    OpenBsd,
    FreeBsd,
    NetBsd,
    Windows,
    MacOs,
    Other,
}

/// What delivery needs to know of the machine, read once per run.
#[derive(Clone, Copy, Debug, PartialEq, Eq, Structural)]
pub struct Environment {
    pub platform: Platform,
    /// Whether `DISPLAY` is set.
    pub display: bool,
    /// Whether `WAYLAND_DISPLAY` is set.
    pub wayland_display: bool,
}

/// The program that puts text on the clipboard.
#[derive(Clone, Copy, Debug, PartialEq, Eq, Structural)]
pub enum ClipboardBackend {
    /// `xclip -sel clip`
    X11,
    /// `wl-copy`
    Wayland,
    /// `clip`
    Windows,
    /// `pbcopy`
    MacOs,
}

/// Why a delivery cannot go ahead.
#[derive(Clone, Copy, Debug, PartialEq, Eq, Structural)]
pub enum DeliveryError {
    /// There is no result to pick from.
    NoResults,
    /// The platform has no known clipboard program.
    UnsupportedPlatform,
    /// A Unix-like platform with neither `DISPLAY` nor `WAYLAND_DISPLAY` set.
    NoDisplayServer,
}

pub open spec fn is_unix_like(p: Platform) -> bool {
    p == Platform::Linux || p == Platform::OpenBsd || p == Platform::FreeBsd || p
        == Platform::NetBsd
}

/// The platform that an operating system name, as Rust spells it, stands for.
pub open spec fn platform_of(os: Seq<char>) -> Platform {
    if os == "linux"@ {
        Platform::Linux
    } else if os == "openbsd"@ {
        Platform::OpenBsd
    } else if os == "freebsd"@ {
        Platform::FreeBsd
    } else if os == "netbsd"@ {
        Platform::NetBsd
    } else if os == "windows"@ {
        Platform::Windows
    } else if os == "macos"@ {
        Platform::MacOs
    } else {
        Platform::Other
    }
}

/// The clipboard program for an environment, or why there is none.
pub open spec fn backend_for(env: Environment) -> Result<ClipboardBackend, DeliveryError> {
    if is_unix_like(env.platform) {
        if env.display {
            Ok(ClipboardBackend::X11)
        } else if env.wayland_display {
            Ok(ClipboardBackend::Wayland)
        } else {
            Err(DeliveryError::NoDisplayServer)
        }
    } else if env.platform == Platform::Windows {
        Ok(ClipboardBackend::Windows)
    } else if env.platform == Platform::MacOs {
        Ok(ClipboardBackend::MacOs)
    } else {
        Err(DeliveryError::UnsupportedPlatform)
    }
}

/// Character-wise equality of two strings.
pub fn str_equal(a: &str, b: &str) -> (r: bool)
    ensures
        r == (a@ == b@),
{
    let n = a.unicode_len();
    if n != b.unicode_len() {
        return false;
    }
    let mut i: usize = 0;
    while i < n
        invariant
            n == a@.len(),
            n == b@.len(),
            i <= n,
            forall|j: int| 0 <= j < i ==> a@[j] == b@[j],
        decreases n - i,
    {
        if a.get_char(i) != b.get_char(i) {
            return false;
        }
        i = i + 1;
    }
    assert(a@ =~= b@);
    true
}

impl Platform {
    /// The platform named by an operating system name such as `"linux"`.
    pub fn from_os(os: &str) -> (r: Platform)
        ensures
            r == platform_of(os@),
    {
        if str_equal(os, "linux") {
            Platform::Linux
        } else if str_equal(os, "openbsd") {
            Platform::OpenBsd
        } else if str_equal(os, "freebsd") {
            Platform::FreeBsd
        } else if str_equal(os, "netbsd") {
            Platform::NetBsd
        } else if str_equal(os, "windows") {
            Platform::Windows
        } else if str_equal(os, "macos") {
            Platform::MacOs
        } else {
            Platform::Other
        }
    }
}

impl Environment {
    /// The environment of an operating system name and the presence of the two
    /// display variables.
    pub fn new(os: &str, display: bool, wayland_display: bool) -> (r: Environment)
        ensures
            r.platform == platform_of(os@),
            r.display == display,
            r.wayland_display == wayland_display,
    {
        Environment { platform: Platform::from_os(os), display, wayland_display }
    }
}

/// Picks the clipboard program: on a Unix-like platform the X11 one where
/// `DISPLAY` is set, else the Wayland one where `WAYLAND_DISPLAY` is set, else
/// none; the native one on Windows and macOS; none elsewhere.
pub fn select_backend(env: &Environment) -> (r: Result<ClipboardBackend, DeliveryError>)
    ensures
        r == backend_for(*env),
        is_unix_like(env.platform) && env.display ==> r == Ok::<ClipboardBackend, DeliveryError>(
            ClipboardBackend::X11,
        ),
        is_unix_like(env.platform) && !env.display && env.wayland_display ==> r == Ok::<
            ClipboardBackend,
            DeliveryError,
        >(ClipboardBackend::Wayland),
        is_unix_like(env.platform) && !env.display && !env.wayland_display ==> r == Err::<
            ClipboardBackend,
            DeliveryError,
        >(DeliveryError::NoDisplayServer),
        env.platform == Platform::Other ==> r == Err::<ClipboardBackend, DeliveryError>(
            DeliveryError::UnsupportedPlatform,
        ),
{
    match env.platform {
        Platform::Linux | Platform::OpenBsd | Platform::FreeBsd | Platform::NetBsd => {
            if env.display {
                Ok(ClipboardBackend::X11)
            } else if env.wayland_display {
                Ok(ClipboardBackend::Wayland)
            } else {
                Err(DeliveryError::NoDisplayServer)
            }
        },
        Platform::Windows => Ok(ClipboardBackend::Windows),
        Platform::MacOs => Ok(ClipboardBackend::MacOs),
        Platform::Other => Err(DeliveryError::UnsupportedPlatform),
    }
}

/// The program name of a clipboard backend.
pub open spec fn program_of(b: ClipboardBackend) -> Seq<char> {
    match b {
        ClipboardBackend::X11 => "xclip"@,
        ClipboardBackend::Wayland => "wl-copy"@,
        ClipboardBackend::Windows => "clip"@,
        ClipboardBackend::MacOs => "pbcopy"@,
    }
}

/// The arguments a clipboard backend is started with.
pub open spec fn arguments_of(b: ClipboardBackend) -> Seq<Seq<char>> {
    match b {
        ClipboardBackend::X11 => seq!["-sel"@, "clip"@],
        _ => Seq::empty(),
    }
}

impl ClipboardBackend {
    /// The program to start; it reads the text on its standard input.
    pub fn program(&self) -> (r: &'static str)
        ensures
            r@ == program_of(*self),
    {
        match self {
            ClipboardBackend::X11 => "xclip",
            ClipboardBackend::Wayland => "wl-copy",
            ClipboardBackend::Windows => "clip",
            ClipboardBackend::MacOs => "pbcopy",
        }
    }

    /// The arguments to start the program with.
    pub fn arguments(&self) -> (r: Vec<&'static str>)
        ensures
            r@.map_values(|s: &'static str| s@) == arguments_of(*self),
    {
        match self {
            ClipboardBackend::X11 => {
                let v = vec!["-sel", "clip"];
                assert(v@.map_values(|s: &'static str| s@) =~= arguments_of(*self));
                v
            },
            _ => {
                let v: Vec<&'static str> = Vec::new();
                assert(v@.map_values(|s: &'static str| s@) =~= arguments_of(*self));
                v
            },
        }
    }
}

} // verus!
