//! Configuration: the settings, where the settings file lives, where the
//! window goes on the screen, and the decisions taken while loading and
//! saving the settings file.

use vstd::prelude::*;

verus! {

/// The screen corner that the window is placed against.
#[derive(Clone, Copy, Debug, PartialEq, Eq, Structural)]
pub enum WindowAnchor {
    TopLeft,
    TopRight,
    BottomRight,
    BottomLeft,
}

/// The settings of the monitor.
#[derive(Clone, Copy, Debug, PartialEq, Eq, Structural)]
pub struct Config {
    pub anchor: WindowAnchor,
    pub margin_x: i32,
    pub margin_y: i32,
    pub update_interval_cpu: u32,
    pub update_interval_disk: u32,
    pub update_interval_general: u32,
    pub update_interval_memory: u32,
    pub update_interval_process: u32,
}

/// The settings used when no settings file could be read.
pub open spec fn spec_default_config() -> Config {
    Config {
        anchor: WindowAnchor::TopRight,
        margin_x: 10,
        margin_y: 40,
        update_interval_cpu: 1,
        update_interval_disk: 10,
        update_interval_general: 60,
        update_interval_memory: 1,
        update_interval_process: 1,
    }
}

/// Whether a number fits in an `i32`.
pub open spec fn fits_i32(x: int) -> bool {
    i32::MIN <= x <= i32::MAX
}

/// Whether the anchor is at the left edge of the screen.
pub open spec fn anchored_left(anchor: WindowAnchor) -> bool {
    anchor == WindowAnchor::TopLeft || anchor == WindowAnchor::BottomLeft
}

/// Whether the anchor is at the top edge of the screen.
pub open spec fn anchored_top(anchor: WindowAnchor) -> bool {
    anchor == WindowAnchor::TopLeft || anchor == WindowAnchor::TopRight
}

impl Config {
    /// The settings used when no settings file could be read: top right
    /// corner, 10 and 40 pixels from the edges, and the default intervals.
    pub fn default_config() -> (config: Config)
        ensures
            config == spec_default_config(),
    {
        Config {
            anchor: WindowAnchor::TopRight,
            margin_x: 10,
            margin_y: 40,
            update_interval_cpu: 1,
            update_interval_disk: 10,
            update_interval_general: 60,
            update_interval_memory: 1,
            update_interval_process: 1,
        }
    }

    /// Whether the window position can be computed in `i32` arithmetic:
    /// the subtractions from the screen size that the anchor calls for stay
    /// in range.
    pub open spec fn position_in_range(
        self,
        window_width: i32,
        window_height: i32,
        screen_width: i32,
        screen_height: i32,
    ) -> bool {
        &&& !anchored_left(self.anchor) ==> fits_i32(screen_width - window_width) && fits_i32(
            screen_width - window_width - self.margin_x,
        )
        &&& !anchored_top(self.anchor) ==> fits_i32(screen_height - window_height) && fits_i32(
            screen_height - window_height - self.margin_y,
        )
    }

    /// The position of the window's top left corner for the given window and
    /// screen sizes.
    pub open spec fn spec_position(
        self,
        window_width: i32,
        window_height: i32,
        screen_width: i32,
        screen_height: i32,
    ) -> (int, int) {
        let x = if anchored_left(self.anchor) {
            self.margin_x as int
        } else {
            screen_width - window_width - self.margin_x
        };
        let y = if anchored_top(self.anchor) {
            self.margin_y as int
        } else {
            screen_height - window_height - self.margin_y
        };
        (x, y)
    }

    /// The position of the window's top left corner: on the anchored sides the
    /// window keeps the configured margins from the screen's edges.
    pub fn calculate_position(
        &self,
        window_width: i32,
        window_height: i32,
        screen_width: i32,
        screen_height: i32,
    ) -> (position: (i32, i32))
        requires
            self.position_in_range(window_width, window_height, screen_width, screen_height),
        ensures
            position.0 == self.spec_position(
                window_width,
                window_height,
                screen_width,
                screen_height,
            ).0,
            position.1 == self.spec_position(
                window_width,
                window_height,
                screen_width,
                screen_height,
            ).1,
            anchored_left(self.anchor) ==> position.0 == self.margin_x,
            !anchored_left(self.anchor) ==> position.0 + window_width + self.margin_x
                == screen_width,
            anchored_top(self.anchor) ==> position.1 == self.margin_y,
            !anchored_top(self.anchor) ==> position.1 + window_height + self.margin_y
                == screen_height,
    {
        match self.anchor {
            WindowAnchor::TopLeft => (self.margin_x, self.margin_y),
            WindowAnchor::TopRight => (
                screen_width - window_width - self.margin_x,
                self.margin_y,
            ),
            WindowAnchor::BottomRight => (
                screen_width - window_width - self.margin_x,
                screen_height - window_height - self.margin_y,
            ),
            WindowAnchor::BottomLeft => (
                self.margin_x,
                screen_height - window_height - self.margin_y,
            ),
        }
    }

    /// Resolves the settings file's path from the values of the environment
    /// variables `XDG_CONFIG_HOME` and `HOME` (`None` where a variable is not
    /// set), following the XDG base directory rules: an `XDG_CONFIG_HOME`
    /// that is an absolute path wins; an empty or relative one is ignored as
    /// if it were unset; then `~/.config` is used; else there is no path.
    pub fn get_config_path(xdg_config_home: Option<String>, home: Option<String>) -> (path:
        Option<String>)
        ensures
            match xdg_config_home {
                Some(dir) if is_absolute_path(dir@) => path is Some && path->0@ == dir@
                    + "/pomky/config.json"@,
                _ => match home {
                    Some(dir) => path is Some && path->0@ == dir@ + "/.config/pomky/config.json"@,
                    None => path is None,
                },
            },
            forall|dir: String|
                #![trigger dir@]
                xdg_config_home == Some(dir) && dir@.len() > 0 && dir@[0] == '/' ==> path is Some
                    && path->0@ == dir@ + "/pomky/config.json"@,
            forall|dir: String|
                #![trigger dir@]
                xdg_config_home == Some(dir) && (dir@.len() == 0 || dir@[0] != '/') ==> match home {
                    Some(h) => path is Some && path->0@ == h@ + "/.config/pomky/config.json"@,
                    None => path is None,
                },
            xdg_config_home is None ==> match home {
                Some(h) => path is Some && path->0@ == h@ + "/.config/pomky/config.json"@,
                None => path is None,
            },
    {
        if let Some(dir) = xdg_config_home {
            if !dir.as_str().is_empty() && dir.as_str().get_char(0) == '/' {
                return Some(dir.concat("/pomky/config.json"));
            }
        }
        match home {
            Some(dir) => Some(dir.concat("/.config/pomky/config.json")),
            None => None,
        }
    }
}

/// Only the anchor's side matters: two settings that differ only in their
/// anchor place the window at the same horizontal position when both anchors
/// are on the same side (left or right), and at the same vertical position
/// when both are on the same edge (top or bottom).
pub proof fn lemma_position_depends_on_anchor_side(
    c1: Config,
    c2: Config,
    window_width: i32,
    window_height: i32,
    screen_width: i32,
    screen_height: i32,
)
    requires
        c1.margin_x == c2.margin_x,
        c1.margin_y == c2.margin_y,
    ensures
        anchored_left(c1.anchor) == anchored_left(c2.anchor) ==> c1.spec_position(
            window_width,
            window_height,
            screen_width,
            screen_height,
        ).0 == c2.spec_position(window_width, window_height, screen_width, screen_height).0,
        anchored_top(c1.anchor) == anchored_top(c2.anchor) ==> c1.spec_position(
            window_width,
            window_height,
            screen_width,
            screen_height,
        ).1 == c2.spec_position(window_width, window_height, screen_width, screen_height).1,
{
}

/// Whether a path is absolute: not empty, and starting with `/`.
pub open spec fn is_absolute_path(path: Seq<char>) -> bool {
    path.len() > 0 && path[0] == '/'
}

/// A path counts as absolute exactly when its first character is `/`,
/// whatever the rest of it holds.
pub proof fn lemma_absolute_path_first_char(path: Seq<char>, rest: Seq<char>)
    ensures
        is_absolute_path(path) <==> path.len() > 0 && path[0] == '/',
        is_absolute_path(seq!['/'] + rest),
        !is_absolute_path(Seq::<char>::empty()),
{
    assert((seq!['/'] + rest)[0] == '/');
}

/// What happened last while loading the settings.
pub enum LoadEvent {
    /// The settings file's path was resolved, or could not be.
    PathResolved(Option<String>),
    /// Reading the settings succeeded with these settings, or failed.
    Parsed(Option<Config>),
    /// Writing the default settings file succeeded, or failed with this message.
    DefaultSaved(Result<(), String>),
}

/// What loading the settings does next.
pub enum LoadAction {
    /// Read settings from this path.
    Parse(String),
    /// Use these settings from now on; loading succeeded.
    Use(Config),
    /// Keep the default settings and write them to the settings file.
    SaveDefault,
    /// Loading succeeded with the default settings.
    Done,
    /// Loading failed with this message.
    Fail(String),
}

/// What happened last while saving the settings.
pub enum SaveEvent {
    /// Turning the settings into text succeeded, or failed.
    Serialized(bool),
    /// The settings file's path was resolved, or could not be.
    PathResolved(Option<String>),
    /// Creating the settings file succeeded, or failed.
    FileCreated(bool),
    /// Writing the text to the file succeeded, or failed with this message.
    Written(Result<(), String>),
}

/// What saving the settings does next.
pub enum SaveAction {
    /// Resolve the settings file's path.
    ResolvePath,
    /// Create the file's directories and then the file at this path.
    CreateFile(String),
    /// Write the text to the file.
    Write,
    /// Saving succeeded.
    Done,
    /// Saving failed with this message.
    Fail(String),
}

impl Config {
    /// The step of loading the settings that follows an event: read the
    /// resolved path, use what was read, or fall back to the defaults and
    /// write them out; a missing path or a failed write ends in an error.
    pub fn load_step(event: LoadEvent) -> (action: LoadAction)
        ensures
            match event {
                LoadEvent::PathResolved(None) => action matches LoadAction::Fail(m) && m@
                    == "Failed to locate config file"@,
                LoadEvent::PathResolved(Some(p)) => action matches LoadAction::Parse(q) && q@
                    == p@,
                LoadEvent::Parsed(Some(c)) => action == LoadAction::Use(c),
                LoadEvent::Parsed(None) => action == LoadAction::SaveDefault,
                LoadEvent::DefaultSaved(Ok(())) => action == LoadAction::Done,
                LoadEvent::DefaultSaved(Err(e)) => action matches LoadAction::Fail(m) && m@
                    == "Failed to create default configuration file.\n"@ + e@,
            },
    {
        match event {
            LoadEvent::PathResolved(None) => LoadAction::Fail(
                String::from_str("Failed to locate config file"),
            ),
            LoadEvent::PathResolved(Some(path)) => LoadAction::Parse(path),
            LoadEvent::Parsed(Some(config)) => LoadAction::Use(config),
            LoadEvent::Parsed(None) => LoadAction::SaveDefault,
            LoadEvent::DefaultSaved(Ok(())) => LoadAction::Done,
            LoadEvent::DefaultSaved(Err(err)) => {
                let mut message = String::from_str("Failed to create default configuration file.\n");
                message.append(err.as_str());
                LoadAction::Fail(message)
            },
        }
    }

    /// The step of saving the settings that follows an event: after the
    /// settings are turned into text, resolve the path, create the file and
    /// write it; each failure ends in its own message.
    pub fn save_step(event: SaveEvent) -> (action: SaveAction)
        ensures
            match event {
                SaveEvent::Serialized(false) => action matches SaveAction::Fail(m) && m@
                    == "Failed to serialize configuration data"@,
                SaveEvent::Serialized(true) => action == SaveAction::ResolvePath,
                SaveEvent::PathResolved(None) => action matches SaveAction::Fail(m) && m@
                    == "Failed to locate config file"@,
                SaveEvent::PathResolved(Some(p)) => action matches SaveAction::CreateFile(q)
                    && q@ == p@,
                SaveEvent::FileCreated(false) => action matches SaveAction::Fail(m) && m@
                    == "Failed to create configuration file"@,
                SaveEvent::FileCreated(true) => action == SaveAction::Write,
                SaveEvent::Written(Ok(())) => action == SaveAction::Done,
                SaveEvent::Written(Err(e)) => action matches SaveAction::Fail(m) && m@
                    == "Failed to save configuration file.\n"@ + e@,
            },
    {
        match event {
            SaveEvent::Serialized(false) => SaveAction::Fail(
                String::from_str("Failed to serialize configuration data"),
            ),
            SaveEvent::Serialized(true) => SaveAction::ResolvePath,
            SaveEvent::PathResolved(None) => SaveAction::Fail(
                String::from_str("Failed to locate config file"),
            ),
            SaveEvent::PathResolved(Some(path)) => SaveAction::CreateFile(path),
            SaveEvent::FileCreated(false) => SaveAction::Fail(
                String::from_str("Failed to create configuration file"),
            ),
            SaveEvent::FileCreated(true) => SaveAction::Write,
            SaveEvent::Written(Ok(())) => SaveAction::Done,
            SaveEvent::Written(Err(err)) => {
                let mut message = String::from_str("Failed to save configuration file.\n");
                message.append(err.as_str());
                SaveAction::Fail(message)
            },
        }
    }
}

} // verus!
