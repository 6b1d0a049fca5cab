//! The configuration of one run: a snapshot that is made once at start and
//! handed to every part that needs it.

use vstd::prelude::*;

verus! {

/// The options of one run.
#[derive(Clone, Copy, Debug, PartialEq, Eq, Structural)]
pub struct Config {
    /// Be verbose.
    pub verbose: bool,
    /// Act as a drop receiver instead of a drag source.
    pub target: bool,
    /// As a receiver, retain what was dropped so that it can be dragged out.
    pub keep: bool,
    /// Make the window resizable.
    pub resizable: bool,
    /// End the run after the first completed drag or drop.
    pub and_exit: bool,
    /// Show icons only, no labels.
    pub icons_only: bool,
    /// Load no thumbnails from images.
    pub disable_thumbnails: bool,
    /// Size of icons and thumbnails.
    pub icon_size: i32,
    /// Width of the window.
    pub content_width: i32,
    /// Height of the window.
    pub content_height: i32,
    /// Take further paths from standard input.
    pub from_stdin: bool,
    /// Show a control that drags all entries.
    pub all: bool,
    /// Show only the number of entries, and drag them together.
    pub all_compact: bool,
    /// Do not open a file when it is clicked.
    pub no_click: bool,
    /// Always show the base name of each file.
    pub basename: bool,
}

/// How the entries are shown.
#[derive(Clone, Copy, Debug, PartialEq, Eq, Structural)]
pub enum ViewMode {
    /// One element that stands for all entries.
    Compact,
    /// One row per entry, under a control that drags all of them.
    ListWithDragAll,
    /// One row per entry.
    List,
}

/// Why a configuration is refused.
#[derive(Clone, Copy, Debug, PartialEq, Eq, Structural)]
pub enum ConfigError {
    /// `keep` is set, but the run is no drop receiver.
    KeepWithoutTarget,
}

impl Default for Config {
    /// Every switch off, icons of 32 pixels, a window of 360 by 360.
    fn default() -> (config: Config)
        ensures
            config == Config::initial(),
    {
        Config {
            verbose: false,
            target: false,
            keep: false,
            resizable: false,
            and_exit: false,
            icons_only: false,
            disable_thumbnails: false,
            icon_size: 32,
            content_width: 360,
            content_height: 360,
            from_stdin: false,
            all: false,
            all_compact: false,
            no_click: false,
            basename: false,
        }
    }
}

impl Config {
    /// The configuration of a run that was given no option.
    pub open spec fn initial() -> Config {
        Config {
            verbose: false,
            target: false,
            keep: false,
            resizable: false,
            and_exit: false,
            icons_only: false,
            disable_thumbnails: false,
            icon_size: 32,
            content_width: 360,
            content_height: 360,
            from_stdin: false,
            all: false,
            all_compact: false,
            no_click: false,
            basename: false,
        }
    }

    /// The options fit together: only a drop receiver retains what it is given.
    pub open spec fn consistent(&self) -> bool {
        self.keep ==> self.target
    }

    /// Whether every drag carries the whole collection.
    pub open spec fn drags_all(&self) -> bool {
        self.all || self.all_compact
    }

    /// The view that these options ask for. The compact view goes before the
    /// control that drags all.
    pub open spec fn view_mode_spec(&self) -> ViewMode {
        if self.all_compact {
            ViewMode::Compact
        } else if self.all {
            ViewMode::ListWithDragAll
        } else {
            ViewMode::List
        }
    }

    /// Accepts the options that fit together, and says what is wrong with
    /// the others.
    pub fn check(&self) -> (checked: Result<(), ConfigError>)
        ensures
            checked is Ok <==> self.consistent(),
            checked is Err ==> checked == Err::<(), ConfigError>(ConfigError::KeepWithoutTarget),
    {
        if self.keep && !self.target {
            Err(ConfigError::KeepWithoutTarget)
        } else {
            Ok(())
        }
    }

    /// Whether the run takes drops: only a drop receiver does.
    pub fn receives_drops(&self) -> (receives: bool)
        ensures
            receives == self.target,
    {
        self.target
    }

    /// Whether every drag carries the whole collection.
    pub fn drag_all(&self) -> (all: bool)
        ensures
            all == self.drags_all(),
    {
        self.all || self.all_compact
    }

    /// The view that these options ask for.
    pub fn view_mode(&self) -> (mode: ViewMode)
        ensures
            mode == self.view_mode_spec(),
    {
        if self.all_compact {
            ViewMode::Compact
        } else if self.all {
            ViewMode::ListWithDragAll
        } else {
            ViewMode::List
        }
    }
}

} // verus!
