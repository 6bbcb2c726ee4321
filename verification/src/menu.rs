//! The two popup menus: where they are put, when they show, and how a click
//! elsewhere dismisses them.

use vstd::prelude::*;
use crate::dom::contains;
use crate::dom::get_element_by_id;
use crate::dom::has_class;
use crate::error::VideoError;
use crate::page::Page;
use crate::page::PageView;
use crate::surface::Step;
use crate::surface::failure_shown;
use crate::surface::note;
use crate::surface::show_failure;
use crate::surface::step_of;
use crate::surface::surface;
use crate::surface::surfaced;
use crate::text::push_signed_decimal;
use crate::text::signed_decimal;

verus! {

/// The style that puts a menu `top` pixels down and `left` pixels across,
/// written top first.
pub open spec fn top_left_style(top: int, left: int) -> Seq<char> {
    "top: "@ + signed_decimal(top) + "px; left: "@ + signed_decimal(left) + "px"@
}

/// The style that puts a menu `left` pixels across and `top` pixels down,
/// written left first.
pub open spec fn left_top_style(left: int, top: int) -> Seq<char> {
    "left: "@ + signed_decimal(left) + "px; top: "@ + signed_decimal(top) + "px;"@
}

/// Whether a menu with the `class` attribute `class` is visible: whether
/// the attribute lists the class `show`.
pub open spec fn menu_shown(class: Seq<char>) -> bool {
    has_class(class, "show"@)
}

impl PageView {
    /// Hiding both menus. Without either of them nothing changes; the
    /// speed menu is looked up first.
    pub open spec fn hide_menus(self) -> Step<()> {
        let entered = self.noted("Entering hide_menus()"@);
        match entered.locate("playbackSpeedMenu"@) {
            Err(e) => Step { page: entered, outcome: Err(e) },
            Ok(speed_menu) => match entered.locate("contextMenu"@) {
                Err(e) => Step { page: entered, outcome: Err(e) },
                Ok(context_menu) => Step {
                    page: entered.with_class(speed_menu, "playback-speed-menu"@).with_class(
                        context_menu,
                        "context-menu"@,
                    ),
                    outcome: Ok(()),
                },
            },
        }
    }

    /// Showing the context menu with the style `style` and hiding the speed
    /// menu. Without either of them nothing changes; the context menu is
    /// looked up first.
    pub open spec fn show_context_menu(self, style: Seq<char>) -> Step<()> {
        match self.locate("contextMenu"@) {
            Err(e) => Step { page: self, outcome: Err(e) },
            Ok(context_menu) => match self.locate("playbackSpeedMenu"@) {
                Err(e) => Step { page: self, outcome: Err(e) },
                Ok(speed_menu) => Step {
                    page: self.with_style(context_menu, style).with_class(
                        context_menu,
                        "context-menu show"@,
                    ).with_class(speed_menu, "playback-speed-menu"@),
                    outcome: Ok(()),
                },
            },
        }
    }

    /// Showing the speed menu with the style `style`.
    pub open spec fn show_speed_menu(self, style: Seq<char>) -> Step<()> {
        match self.locate("playbackSpeedMenu"@) {
            Err(e) => Step { page: self, outcome: Err(e) },
            Ok(speed_menu) => Step {
                page: self.with_style(speed_menu, style).with_class(
                    speed_menu,
                    "playback-speed-menu show"@,
                ),
                outcome: Ok(()),
            },
        }
    }

    /// Putting the context menu where the click was, moved down by the
    /// page's scroll offset, and hiding the speed menu.
    pub open spec fn position_context_menu(self, event_x: i32, event_y: i32) -> Step<()> {
        self.noted("Entering position_context_menu()"@).show_context_menu(top_left_style(event_y + self.scroll_y, event_x as int))
    }

    /// Putting the speed menu at the given point.
    pub open spec fn position_playback_speed_menu(self, event_x: i32, event_y: i32) -> Step<()> {
        self.noted("Entering position_playback_speed_menu()"@).show_speed_menu(top_left_style(event_y as int, event_x as int))
    }

    /// Putting the context menu at the given point and hiding the speed
    /// menu.
    pub open spec fn toggle_context_menu(self, x: i32, y: i32) -> Step<()> {
        self.noted("Entering toggle_context_menu()"@).show_context_menu(left_top_style(x as int, y as int))
    }

    /// Putting the speed menu at the given point.
    pub open spec fn toggle_playback_speed_menu(self, x: i32, y: i32) -> Step<()> {
        self.noted("Entering toggle_playback_speed_menu()"@).show_speed_menu(left_top_style(x as int, y as int))
    }

    /// Whether a click on `target` lands outside both menus: on an element
    /// of the document that neither menu contains.
    pub open spec fn outside_menus(self, context_menu: int, speed_menu: int, target: Option<
        usize,
    >) -> bool {
        match target {
            Some(t) => t < self.elements.len() && !self.contains(context_menu, t as int)
                && !self.contains(speed_menu, t as int),
            None => false,
        }
    }

    /// The page after a click on `target` has reached the document: both
    /// menus are hidden if the click landed outside them, and nothing
    /// changes otherwise.
    pub open spec fn dismiss_menus(self, context_menu: int, speed_menu: int, target: Option<
        usize,
    >) -> PageView {
        if 0 <= context_menu < self.elements.len() && 0 <= speed_menu < self.elements.len()
            && self.outside_menus(context_menu, speed_menu, target) {
            self.with_class(context_menu, "context-menu"@).with_class(
                speed_menu,
                "playback-speed-menu"@,
            )
        } else {
            self
        }
    }
}

fn top_left(top: i64, left: i64) -> (r: String)
    ensures
        r@ == top_left_style(top as int, left as int),
{
    let mut style = String::from_str("top: ");
    push_signed_decimal(&mut style, top);
    style.append("px; left: ");
    push_signed_decimal(&mut style, left);
    style.append("px");
    style
}

fn left_top(left: i64, top: i64) -> (r: String)
    ensures
        r@ == left_top_style(left as int, top as int),
{
    let mut style = String::from_str("left: ");
    push_signed_decimal(&mut style, left);
    style.append("px; top: ");
    push_signed_decimal(&mut style, top);
    style.append("px;");
    style
}

pub(crate) fn hide_menus_inner(page: &mut Page) -> (r: Result<(), VideoError>)
    ensures
        step_of(final(page), r) == old(page)@.hide_menus(),
{
    note(page, "Entering hide_menus()");
    let speed_menu = match get_element_by_id(page, "playbackSpeedMenu") {
        Ok(i) => i,
        Err(e) => {
            return Err(e);
        },
    };
    let context_menu = match get_element_by_id(page, "contextMenu") {
        Ok(i) => i,
        Err(e) => {
            return Err(e);
        },
    };
    page.set_class(speed_menu, "playback-speed-menu");
    page.set_class(context_menu, "context-menu");
    Ok(())
}

fn show_context_menu(page: &mut Page, style: String) -> (r: Result<(), VideoError>)
    ensures
        step_of(final(page), r) == old(page)@.show_context_menu(style@),
{
    let context_menu = match get_element_by_id(page, "contextMenu") {
        Ok(i) => i,
        Err(e) => {
            return Err(e);
        },
    };
    let speed_menu = match get_element_by_id(page, "playbackSpeedMenu") {
        Ok(i) => i,
        Err(e) => {
            return Err(e);
        },
    };
    page.set_style(context_menu, style);
    page.set_class(context_menu, "context-menu show");
    page.set_class(speed_menu, "playback-speed-menu");
    Ok(())
}

fn show_speed_menu(page: &mut Page, style: String) -> (r: Result<(), VideoError>)
    ensures
        step_of(final(page), r) == old(page)@.show_speed_menu(style@),
{
    match get_element_by_id(page, "playbackSpeedMenu") {
        Ok(speed_menu) => {
            page.set_style(speed_menu, style);
            page.set_class(speed_menu, "playback-speed-menu show");
            Ok(())
        },
        Err(e) => Err(e),
    }
}

/// Hides both menus.
///
/// The outcome goes through the error surface.
pub fn hide_menus(page: &mut Page) -> (r: Result<(), VideoError>)
    ensures
        step_of(final(page), r) == surfaced(old(page)@.hide_menus()),
{
    let outcome = hide_menus_inner(page);
    surface(page, outcome)
}

/// Shows the context menu at a click: `event_x` pixels across and `event_y`
/// pixels down, the latter moved by the page's vertical scroll offset. The
/// speed menu is hidden.
///
/// The outcome goes through the error surface.
pub fn position_context_menu(page: &mut Page, event_x: i32, event_y: i32) -> (r: Result<
    (),
    VideoError,
>)
    ensures
        step_of(final(page), r) == surfaced(old(page)@.position_context_menu(event_x, event_y)),
{
    note(page, "Entering position_context_menu()");
    let top: i64 = event_y as i64 + page.scroll_y as i64;
    let outcome = show_context_menu(page, top_left(top, event_x as i64));
    surface(page, outcome)
}

/// Shows the speed menu at a point: `event_x` pixels across and `event_y`
/// pixels down. The context menu stays as it is.
///
/// A failure is shown on the error surface; success leaves it alone.
pub fn position_playback_speed_menu(page: &mut Page, event_x: i32, event_y: i32) -> (r: Result<
    (),
    VideoError,
>)
    ensures
        step_of(final(page), r) == failure_shown(
            old(page)@.position_playback_speed_menu(event_x, event_y),
        ),
{
    note(page, "Entering position_playback_speed_menu()");
    let outcome = show_speed_menu(page, top_left(event_y as i64, event_x as i64));
    show_failure(page, outcome)
}

/// Shows the context menu at the point `x`, `y` and hides the speed menu.
///
/// The outcome goes through the error surface.
pub fn toggle_context_menu(page: &mut Page, x: i32, y: i32) -> (r: Result<(), VideoError>)
    ensures
        step_of(final(page), r) == surfaced(old(page)@.toggle_context_menu(x, y)),
{
    note(page, "Entering toggle_context_menu()");
    let outcome = show_context_menu(page, left_top(x as i64, y as i64));
    surface(page, outcome)
}

/// Shows the speed menu at the point `x`, `y`.
///
/// The outcome goes through the error surface.
pub fn toggle_playback_speed_menu(page: &mut Page, x: i32, y: i32) -> (r: Result<(), VideoError>)
    ensures
        step_of(final(page), r) == surfaced(old(page)@.toggle_playback_speed_menu(x, y)),
{
    note(page, "Entering toggle_playback_speed_menu()");
    let outcome = show_speed_menu(page, left_top(x as i64, y as i64));
    surface(page, outcome)
}

/// Handles a click that has reached the document: if it landed on an
/// element outside both menus, both are hidden; a click inside either
/// menu, or on no element, changes nothing.
pub fn dismiss_menus(page: &mut Page, context_menu: usize, speed_menu: usize, target: Option<usize>)
    ensures
        final(page)@ == old(page)@.dismiss_menus(context_menu as int, speed_menu as int, target),
{
    let n = page.elements.len();
    assert(n == page@.elements.len());
    if context_menu >= n || speed_menu >= n {
        return ;
    }
    match target {
        Some(t) => {
            if t < n && !contains(page, context_menu, t) && !contains(page, speed_menu, t) {
                page.set_class(context_menu, "context-menu");
                page.set_class(speed_menu, "playback-speed-menu");
            }
        },
        None => {},
    }
}

} // verus!
