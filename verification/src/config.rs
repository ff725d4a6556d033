use vstd::prelude::*;

verus! {

pub const CONFIG_VERSION: u64 = 1;

pub const COSMIC_THEME_DARK: &'static str = "COSMIC Dark";

pub const COSMIC_THEME_LIGHT: &'static str = "COSMIC Light";

/// Default icon sizes, in pixels.
pub const ICON_SIZE_LIST: u16 = 32;

pub const ICON_SIZE_LIST_CONDENSED: u16 = 48;

pub const ICON_SIZE_GRID: u16 = 64;

pub const ICON_SCALE_MAX: u16 = 5;

/// The theme the application follows.
#[derive(Clone, Copy, Debug, Eq, PartialEq, Structural)]
pub enum AppTheme {
    Dark,
    Light,
    System,
}

/// A sidebar favorite: one of the well-known user folders, or an
/// arbitrary path.
#[derive(Clone, Debug, Eq, PartialEq)]
pub enum Favorite {
    Home,
    Documents,
    Downloads,
    Music,
    Pictures,
    Videos,
    Path(String),
}

/// Relies on dirs::home_dir: the platform's home directory as the
/// environment defines it, converted to a string when it is valid
/// Unicode. The result depends on the environment, so nothing is
/// promised of it.
#[verifier::external_body]
fn xdg_home_dir() -> (r: Option<String>) {
    dirs::home_dir().and_then(|p| p.into_os_string().into_string().ok())
}

/// Relies on dirs::document_dir, as [`xdg_home_dir`] does on
/// dirs::home_dir.
#[verifier::external_body]
fn xdg_document_dir() -> (r: Option<String>) {
    dirs::document_dir().and_then(|p| p.into_os_string().into_string().ok())
}

/// Relies on dirs::download_dir, as [`xdg_home_dir`] does on
/// dirs::home_dir.
#[verifier::external_body]
fn xdg_download_dir() -> (r: Option<String>) {
    dirs::download_dir().and_then(|p| p.into_os_string().into_string().ok())
}

/// Relies on dirs::audio_dir, as [`xdg_home_dir`] does on
/// dirs::home_dir.
#[verifier::external_body]
fn xdg_audio_dir() -> (r: Option<String>) {
    dirs::audio_dir().and_then(|p| p.into_os_string().into_string().ok())
}

/// Relies on dirs::picture_dir, as [`xdg_home_dir`] does on
/// dirs::home_dir.
#[verifier::external_body]
fn xdg_picture_dir() -> (r: Option<String>) {
    dirs::picture_dir().and_then(|p| p.into_os_string().into_string().ok())
}

/// Relies on dirs::video_dir, as [`xdg_home_dir`] does on
/// dirs::home_dir.
#[verifier::external_body]
fn xdg_video_dir() -> (r: Option<String>) {
    dirs::video_dir().and_then(|p| p.into_os_string().into_string().ok())
}

/// Whether a resolved special folder equals `path`.
pub open spec fn special_matches(dir: Option<String>, path: String) -> bool {
    dir matches Some(d) && d@ == path@
}

/// Which favorite `path` is, given where the environment puts the six
/// special folders: the first special folder it equals, else the plain
/// path.
pub open spec fn favorite_for(
    path: String,
    home: Option<String>,
    documents: Option<String>,
    downloads: Option<String>,
    music: Option<String>,
    pictures: Option<String>,
    videos: Option<String>,
) -> Favorite {
    if special_matches(home, path) {
        Favorite::Home
    } else if special_matches(documents, path) {
        Favorite::Documents
    } else if special_matches(downloads, path) {
        Favorite::Downloads
    } else if special_matches(music, path) {
        Favorite::Music
    } else if special_matches(pictures, path) {
        Favorite::Pictures
    } else if special_matches(videos, path) {
        Favorite::Videos
    } else {
        Favorite::Path(path)
    }
}

fn opt_matches(dir: &Option<String>, path: &String) -> (r: bool)
    ensures
        r == special_matches(*dir, *path),
{
    match dir {
        Some(d) => *d == *path,
        None => false,
    }
}

impl Favorite {
    /// Classify `path` against the special folders the environment
    /// resolves. Ensures only what holds whatever the environment says:
    /// a plain-path result carries the given path unchanged; the exact
    /// choice for given folder locations is [`Favorite::from_path_with`].
    pub fn from_path(path: String) -> (r: Favorite)
        ensures
            r matches Favorite::Path(p) ==> p == path,
    {
        let home = xdg_home_dir();
        let documents = xdg_document_dir();
        let downloads = xdg_download_dir();
        let music = xdg_audio_dir();
        let pictures = xdg_picture_dir();
        let videos = xdg_video_dir();
        Self::from_path_with(path, home, documents, downloads, music, pictures, videos)
    }

    /// Classify `path` against explicitly given special folder
    /// locations: the first one it equals wins, else the plain path.
    pub fn from_path_with(
        path: String,
        home: Option<String>,
        documents: Option<String>,
        downloads: Option<String>,
        music: Option<String>,
        pictures: Option<String>,
        videos: Option<String>,
    ) -> (r: Favorite)
        ensures
            r == favorite_for(path, home, documents, downloads, music, pictures, videos),
    {
        if opt_matches(&home, &path) {
            Favorite::Home
        } else if opt_matches(&documents, &path) {
            Favorite::Documents
        } else if opt_matches(&downloads, &path) {
            Favorite::Downloads
        } else if opt_matches(&music, &path) {
            Favorite::Music
        } else if opt_matches(&pictures, &path) {
            Favorite::Pictures
        } else if opt_matches(&videos, &path) {
            Favorite::Videos
        } else {
            Favorite::Path(path)
        }
    }

    /// Where this favorite points. A plain path is returned unchanged;
    /// the special folders are wherever the environment puts them, so
    /// nothing more is promised of those.
    pub fn path_opt(&self) -> (r: Option<String>)
        ensures
            *self matches Favorite::Path(p) ==> r matches Some(q) && q == p,
    {
        match self {
            Favorite::Home => xdg_home_dir(),
            Favorite::Documents => xdg_document_dir(),
            Favorite::Downloads => xdg_download_dir(),
            Favorite::Music => xdg_audio_dir(),
            Favorite::Pictures => xdg_picture_dir(),
            Favorite::Videos => xdg_video_dir(),
            Favorite::Path(path) => Some(path.clone()),
        }
    }
}

/// Which of the two colour-scheme families is being edited or applied.
#[derive(Clone, Copy, Debug, Eq, Hash, PartialEq, Structural)]
pub enum ColorSchemeKind {
    Dark,
    Light,
}

/// Key of one saved colour scheme.
#[derive(Clone, Copy, Debug, Default, Eq, Hash, Ord, PartialEq, PartialOrd, Structural)]
pub struct ColorSchemeId(pub u64);

/// Key of one terminal profile.
#[derive(Clone, Copy, Debug, Default, Eq, Hash, Ord, PartialEq, PartialOrd, Structural)]
pub struct ProfileId(pub u64);

/// One terminal profile.
#[derive(Clone, Debug, Eq, PartialEq)]
pub struct Profile {
    pub name: String,
    pub command: String,
    pub syntax_theme_dark: String,
    pub syntax_theme_light: String,
    pub tab_title: String,
    pub working_directory: String,
    pub hold: bool,
}

impl Default for Profile {
    /// A fresh profile: placeholder name, the stock syntax themes, and
    /// everything else empty.
    fn default() -> (r: Profile)
        ensures
            r.name@ == "new-profile"@,
            r.command@ == Seq::<char>::empty(),
            r.syntax_theme_dark@ == "COSMIC Dark"@,
            r.syntax_theme_light@ == "COSMIC Light"@,
            r.tab_title@ == Seq::<char>::empty(),
            r.working_directory@ == Seq::<char>::empty(),
            r.hold == false,
    {
        Profile {
            name: String::from_str("new-profile"),
            command: String::new(),
            syntax_theme_dark: String::from_str(COSMIC_THEME_DARK),
            syntax_theme_light: String::from_str(COSMIC_THEME_LIGHT),
            tab_title: String::new(),
            working_directory: String::new(),
            hold: false,
        }
    }
}

/// A size given as a percentage of a base pixel value, scaled, floored,
/// and clamped to at least one pixel and at most `cap` times the base;
/// capped to what a 16-bit size can carry.
pub open spec fn scaled_percent(perc: int, pixel: int, cap: int) -> int {
    let raw = (perc * pixel) / 100;
    let hi = pixel * cap;
    let lo = if raw < 1 {
        1int
    } else {
        raw
    };
    let v = if lo > hi {
        hi
    } else {
        lo
    };
    if v > 65535 {
        65535int
    } else {
        v
    }
}

fn scale_percent(perc: u16, pixel: u16, cap: u16) -> (r: u16)
    requires
        pixel >= 1,
        cap >= 1,
    ensures
        r as int == scaled_percent(perc as int, pixel as int, cap as int),
{
    proof {
        assert((perc as int) * (pixel as int) <= 65535 * 65535) by (nonlinear_arith)
            requires
                perc <= 65535,
                pixel <= 65535,
        ;
        assert((pixel as int) * (cap as int) <= 65535 * 65535) by (nonlinear_arith)
            requires
                pixel <= 65535,
                cap <= 65535,
        ;
    }
    let raw: u64 = (perc as u64) * (pixel as u64) / 100;
    let hi: u64 = (pixel as u64) * (cap as u64);
    let lo: u64 = if raw < 1 {
        1
    } else {
        raw
    };
    let v: u64 = if lo > hi {
        hi
    } else {
        lo
    };
    if v > 65535 {
        65535
    } else {
        v as u16
    }
}

/// Desktop-mode options.
#[derive(Clone, Copy, Debug, Eq, Hash, PartialEq, Structural)]
pub struct DesktopConfig {
    /// Grid spacing as a percentage of the available space.
    pub grid_spacing: u16,
    /// Icon size as a percentage of the stock size.
    pub icon_size: u16,
    pub show_content: bool,
    pub show_mounted_drives: bool,
    pub show_trash: bool,
}

impl Default for DesktopConfig {
    fn default() -> (r: DesktopConfig)
        ensures
            r == (DesktopConfig {
                grid_spacing: 100u16,
                icon_size: 100u16,
                show_content: true,
                show_mounted_drives: false,
                show_trash: false,
            }),
    {
        DesktopConfig {
            grid_spacing: 100,
            icon_size: 100,
            show_content: true,
            show_mounted_drives: false,
            show_trash: false,
        }
    }
}

impl DesktopConfig {
    /// The grid spacing for `space` available pixels: the configured
    /// percentage of it, clamped as [`scaled_percent`] says.
    pub fn grid_spacing_for(&self, space: u16) -> (r: u16)
        requires
            space >= 1,
        ensures
            r as int == scaled_percent(self.grid_spacing as int, space as int, ICON_SCALE_MAX as int),
    {
        scale_percent(self.grid_spacing, space, ICON_SCALE_MAX)
    }
}

/// How a pane lists its entries.
#[derive(Clone, Copy, Debug, Eq, PartialEq, Structural)]
pub enum PaneView {
    Grid,
    List,
}

/// Icon zoom percentages for the list and grid views.
#[derive(Clone, Copy, Debug, Eq, PartialEq, Structural)]
pub struct IconSizes {
    pub list: u16,
    pub grid: u16,
}

impl Default for IconSizes {
    fn default() -> (r: IconSizes)
        ensures
            r == (IconSizes { list: 60u16, grid: 240u16 }),
    {
        IconSizes { list: 60, grid: 240 }
    }
}

impl IconSizes {
    /// The list-view icon size in pixels.
    pub fn list(&self) -> (r: u16)
        ensures
            r as int == scaled_percent(self.list as int, ICON_SIZE_LIST as int, ICON_SCALE_MAX as int),
    {
        scale_percent(self.list, ICON_SIZE_LIST, ICON_SCALE_MAX)
    }

    /// The condensed list-view icon size in pixels.
    pub fn list_condensed(&self) -> (r: u16)
        ensures
            r as int == scaled_percent(
                self.list as int,
                ICON_SIZE_LIST_CONDENSED as int,
                ICON_SCALE_MAX as int,
            ),
    {
        scale_percent(self.list, ICON_SIZE_LIST_CONDENSED, ICON_SCALE_MAX)
    }

    /// The grid-view icon size in pixels.
    pub fn grid(&self) -> (r: u16)
        ensures
            r as int == scaled_percent(self.grid as int, ICON_SIZE_GRID as int, ICON_SCALE_MAX as int),
    {
        scale_percent(self.grid, ICON_SIZE_GRID, ICON_SCALE_MAX)
    }
}

/// Options handed to the left pane's tabs.
#[derive(Clone, Copy, Debug, Eq, PartialEq, Structural)]
pub struct TabConfig1 {
    pub view: PaneView,
    /// Show folders before files.
    pub folders_first: bool,
    /// Show hidden files and folders.
    pub show_hidden: bool,
    /// Icon zoom.
    pub icon_sizes: IconSizes,
}

impl Default for TabConfig1 {
    fn default() -> (r: TabConfig1)
        ensures
            r == (TabConfig1 {
                view: PaneView::List,
                folders_first: true,
                show_hidden: false,
                icon_sizes: (IconSizes { list: 60u16, grid: 240u16 }),
            }),
    {
        TabConfig1 {
            view: PaneView::List,
            folders_first: true,
            show_hidden: false,
            icon_sizes: IconSizes::default(),
        }
    }
}

/// Options handed to the right pane's tabs.
#[derive(Clone, Copy, Debug, Eq, PartialEq, Structural)]
pub struct TabConfig2 {
    pub view: PaneView,
    /// Show folders before files.
    pub folders_first: bool,
    /// Show hidden files and folders.
    pub show_hidden: bool,
    /// Icon zoom.
    pub icon_sizes: IconSizes,
}

impl Default for TabConfig2 {
    fn default() -> (r: TabConfig2)
        ensures
            r == (TabConfig2 {
                view: PaneView::List,
                folders_first: true,
                show_hidden: false,
                icon_sizes: (IconSizes { list: 60u16, grid: 240u16 }),
            }),
    {
        TabConfig2 {
            view: PaneView::List,
            folders_first: true,
            show_hidden: false,
            icon_sizes: IconSizes::default(),
        }
    }
}

} // verus!
