/// The system accent color and its sRGBA value, as the desktop reports them.
pub use mundy::{AccentColor, Srgba};
use vstd::prelude::*;

verus! {

/// How the user is moving through the interface.
#[derive(Clone, Copy, PartialEq, Eq, Debug, Hash, Structural)]
pub enum NavigationMode {
    NotKeyboard,
    Keyboard,
}

impl Default for NavigationMode {
    /// Pointer navigation until a key says otherwise.
    fn default() -> (r: Self)
        ensures
            r == NavigationMode::NotKeyboard,
    {
        NavigationMode::NotKeyboard
    }
}

/// The theme the operating system prefers.
#[derive(Clone, Copy, Debug, PartialEq, Eq, Structural)]
pub enum PreferredTheme {
    Light,
    Dark,
}

impl Default for PreferredTheme {
    /// Light, unless the system says otherwise.
    fn default() -> (r: Self)
        ensures
            r == PreferredTheme::Light,
    {
        PreferredTheme::Light
    }
}

/// Platform an app runs on.
#[derive(Debug, Clone, Copy, PartialEq, Eq, Structural)]
pub enum TargetPlatform {
    Windows,
    MacOs,
    Linux,
    Android,
    Ios,
    Unknown,
}

/// The platform that an operating system name (as `target_os` spells it) stands for.
pub open spec fn platform_of_os(os: Seq<char>) -> TargetPlatform {
    if os == "windows"@ {
        TargetPlatform::Windows
    } else if os == "macos"@ {
        TargetPlatform::MacOs
    } else if os == "linux"@ {
        TargetPlatform::Linux
    } else if os == "android"@ {
        TargetPlatform::Android
    } else if os == "ios"@ {
        TargetPlatform::Ios
    } else {
        TargetPlatform::Unknown
    }
}

impl TargetPlatform {
    pub open spec fn spec_is_desktop(self) -> bool {
        self is Windows || self is MacOs || self is Linux
    }

    pub open spec fn spec_is_mobile(self) -> bool {
        self is Android || self is Ios
    }

    /// The platform kept in the root context, otherwise the one that `os` names
    /// (see [`TargetPlatform::detect`]).
    pub fn get(root_context: Option<TargetPlatform>, os: &str) -> (r: Self)
        ensures
            r == (match root_context {
                Some(p) => p,
                None => platform_of_os(os@),
            }),
    {
        match root_context {
            Some(p) => p,
            None => Self::detect(os),
        }
    }

    /// Platform of a compile target, given its `target_os` name
    /// (`std::env::consts::OS` for the current one).
    pub fn detect(os: &str) -> (r: Self)
        ensures
            r == platform_of_os(os@),
    {
        if str_equals(os, "windows") {
            TargetPlatform::Windows
        } else if str_equals(os, "macos") {
            TargetPlatform::MacOs
        } else if str_equals(os, "linux") {
            TargetPlatform::Linux
        } else if str_equals(os, "android") {
            TargetPlatform::Android
        } else if str_equals(os, "ios") {
            TargetPlatform::Ios
        } else {
            TargetPlatform::Unknown
        }
    }

    pub fn is_desktop(&self) -> (r: bool)
        ensures
            r == self.spec_is_desktop(),
    {
        matches!(self, TargetPlatform::Windows | TargetPlatform::MacOs | TargetPlatform::Linux)
    }

    pub fn is_mobile(&self) -> (r: bool)
        ensures
            r == self.spec_is_mobile(),
    {
        matches!(self, TargetPlatform::Android | TargetPlatform::Ios)
    }
}

/// Whether two strings hold the same characters.
fn str_equals(a: &str, b: &str) -> (r: bool)
    ensures
        r == (a@ == b@),
{
    let n = a.unicode_len();
    if n != b.unicode_len() {
        return false;
    }
    let mut i: usize = 0;
    while i < n
        invariant
            n == a@.len(),
            n == b@.len(),
            i <= n,
            forall|j: int| 0 <= j < i ==> a@[j] == b@[j],
        decreases n - i,
    {
        if a.get_char(i) != b.get_char(i) {
            return false;
        }
        i = i + 1;
    }
    assert(a@ =~= b@);
    true
}

/// No platform is both a desktop and a mobile one.
pub proof fn lemma_desktop_and_mobile_exclusive(p: TargetPlatform)
    ensures
        !(p.spec_is_desktop() && p.spec_is_mobile()),
        p is Unknown <==> (!p.spec_is_desktop() && !p.spec_is_mobile()),
{
}

/// The five known names, and only they, name a platform: each platform comes from its
/// own `target_os` name alone, and every other name (`"emscripten"`, `"freebsd"`, `""`,
/// a name in other case) is Unknown.
pub proof fn lemma_platform_of_os_names(os: Seq<char>)
    ensures
        (platform_of_os(os) == TargetPlatform::Windows) <==> (os == "windows"@),
        (platform_of_os(os) == TargetPlatform::MacOs) <==> (os == "macos"@),
        (platform_of_os(os) == TargetPlatform::Linux) <==> (os == "linux"@),
        (platform_of_os(os) == TargetPlatform::Android) <==> (os == "android"@),
        (platform_of_os(os) == TargetPlatform::Ios) <==> (os == "ios"@),
        (platform_of_os(os) == TargetPlatform::Unknown) <==> (os != "windows"@ && os
            != "macos"@ && os != "linux"@ && os != "android"@ && os != "ios"@),
        platform_of_os(os).spec_is_desktop() <==> (os == "windows"@ || os == "macos"@ || os
            == "linux"@),
        platform_of_os(os).spec_is_mobile() <==> (os == "android"@ || os == "ios"@),
{
    reveal_strlit("windows");
    reveal_strlit("macos");
    reveal_strlit("linux");
    reveal_strlit("android");
    reveal_strlit("ios");
    assert("windows"@[0] != "android"@[0]);
    assert("macos"@[0] != "linux"@[0]);
    assert("windows"@.len() != "macos"@.len());
    assert("windows"@.len() != "linux"@.len());
    assert("windows"@.len() != "ios"@.len());
    assert("macos"@.len() != "android"@.len());
    assert("macos"@.len() != "ios"@.len());
    assert("linux"@.len() != "android"@.len());
    assert("linux"@.len() != "ios"@.len());
    assert("android"@.len() != "ios"@.len());
}

} // verus!
