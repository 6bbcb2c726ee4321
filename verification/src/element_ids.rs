//! The ids and class names by which the player finds its elements.

use vstd::prelude::*;

verus! {

/// The ids of the elements the player is wired to.
#[derive(Debug, Clone, PartialEq, Eq)]
pub struct ElementIds {
    pub video_player: String,
    pub toggle_button: String,
    pub mute_button: String,
    pub fullscreen_button: String,
    pub menu_button: String,
    pub current_time: String,
    pub total_time: String,
    pub error_message: String,
    pub context_menu: String,
    pub playback_speed_menu: String,
}

/// The `class` attributes the player writes and the class names it selects
/// by.
#[derive(Debug, Clone, PartialEq, Eq)]
pub struct ElementClasses {
    pub context_menu: String,
    pub context_menu_show: String,
    pub playback_speed_menu: String,
    pub playback_speed_menu_show: String,
    pub speed_option: String,
    pub context_menu_item: String,
}

impl ElementClasses {
    /// The class names of the player's markup.
    pub fn new() -> (r: ElementClasses)
        ensures
            r.context_menu@ == "context-menu"@,
            r.context_menu_show@ == "context-menu show"@,
            r.playback_speed_menu@ == "playback-speed-menu"@,
            r.playback_speed_menu_show@ == "playback-speed-menu show"@,
            r.speed_option@ == "speed-option"@,
            r.context_menu_item@ == "context-menu-item"@,
    {
        ElementClasses {
            context_menu: String::from_str("context-menu"),
            context_menu_show: String::from_str("context-menu show"),
            playback_speed_menu: String::from_str("playback-speed-menu"),
            playback_speed_menu_show: String::from_str("playback-speed-menu show"),
            speed_option: String::from_str("speed-option"),
            context_menu_item: String::from_str("context-menu-item"),
        }
    }

    /// The `class` attribute of the context menu while it is hidden.
    pub fn context_menu(&self) -> (r: String)
        ensures
            r@ == self.context_menu@,
    {
        self.context_menu.clone()
    }

    /// The `class` attribute of the context menu while it is shown.
    pub fn context_menu_show(&self) -> (r: String)
        ensures
            r@ == self.context_menu_show@,
    {
        self.context_menu_show.clone()
    }

    /// The `class` attribute of the speed menu while it is hidden.
    pub fn playback_speed_menu(&self) -> (r: String)
        ensures
            r@ == self.playback_speed_menu@,
    {
        self.playback_speed_menu.clone()
    }

    /// The `class` attribute of the speed menu while it is shown.
    pub fn playback_speed_menu_show(&self) -> (r: String)
        ensures
            r@ == self.playback_speed_menu_show@,
    {
        self.playback_speed_menu_show.clone()
    }

    /// The class name of the options of the speed menu.
    pub fn speed_option(&self) -> (r: String)
        ensures
            r@ == self.speed_option@,
    {
        self.speed_option.clone()
    }

    /// The class name of the items of the context menu.
    pub fn context_menu_item(&self) -> (r: String)
        ensures
            r@ == self.context_menu_item@,
    {
        self.context_menu_item.clone()
    }
}

impl ElementIds {
    /// The ids as given, each in its place.
    pub fn new(
        video_player: String,
        toggle_button: String,
        mute_button: String,
        fullscreen_button: String,
        menu_button: String,
        current_time: String,
        total_time: String,
        error_message: String,
        context_menu: String,
        playback_speed_menu: String,
    ) -> (r: ElementIds)
        ensures
            r.video_player@ == video_player@,
            r.toggle_button@ == toggle_button@,
            r.mute_button@ == mute_button@,
            r.fullscreen_button@ == fullscreen_button@,
            r.menu_button@ == menu_button@,
            r.current_time@ == current_time@,
            r.total_time@ == total_time@,
            r.error_message@ == error_message@,
            r.context_menu@ == context_menu@,
            r.playback_speed_menu@ == playback_speed_menu@,
    {
        ElementIds {
            video_player,
            toggle_button,
            mute_button,
            fullscreen_button,
            menu_button,
            current_time,
            total_time,
            error_message,
            context_menu,
            playback_speed_menu,
        }
    }

    /// The id of the video element.
    pub fn video_player(&self) -> (r: String)
        ensures
            r@ == self.video_player@,
    {
        self.video_player.clone()
    }

    /// The id of the button that plays and pauses.
    pub fn toggle_button(&self) -> (r: String)
        ensures
            r@ == self.toggle_button@,
    {
        self.toggle_button.clone()
    }

    /// The id of the mute button.
    pub fn mute_button(&self) -> (r: String)
        ensures
            r@ == self.mute_button@,
    {
        self.mute_button.clone()
    }

    /// The id of the fullscreen button.
    pub fn fullscreen_button(&self) -> (r: String)
        ensures
            r@ == self.fullscreen_button@,
    {
        self.fullscreen_button.clone()
    }

    /// The id of the button that opens the context menu.
    pub fn menu_button(&self) -> (r: String)
        ensures
            r@ == self.menu_button@,
    {
        self.menu_button.clone()
    }

    /// The id of the element that shows the current time.
    pub fn current_time(&self) -> (r: String)
        ensures
            r@ == self.current_time@,
    {
        self.current_time.clone()
    }

    /// The id of the element that shows the duration.
    pub fn total_time(&self) -> (r: String)
        ensures
            r@ == self.total_time@,
    {
        self.total_time.clone()
    }

    /// The id of the element that shows the last failure.
    pub fn error_message(&self) -> (r: String)
        ensures
            r@ == self.error_message@,
    {
        self.error_message.clone()
    }

    /// The id of the context menu.
    pub fn context_menu(&self) -> (r: String)
        ensures
            r@ == self.context_menu@,
    {
        self.context_menu.clone()
    }

    /// The id of the speed menu.
    pub fn playback_speed_menu(&self) -> (r: String)
        ensures
            r@ == self.playback_speed_menu@,
    {
        self.playback_speed_menu.clone()
    }
}

} // verus!
