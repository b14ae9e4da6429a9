//! What the requests to windows come to, said of the commands that they lead to and
//! of what is remembered.

use crate::dpi::{
    lemma_casts_keep_the_low_bits, lemma_sides_are_kept, lemma_sizes_are_kept, PhysicalPosition,
    PhysicalSize, Size,
};
use crate::float::{lemma_range_by_bits, Float64};
use crate::monitor::{
    display_size, displays, monitor_at, only_video_mode, AppSnapshot, MonitorHandle,
};
use crate::theme::{lemma_packing_keeps_each_part, mode_of, Rgba, Theme};
use crate::window::{
    commands_for, created_after, first_commands, inner_place, is_planned, is_refused, outer_extent,
    outer_place, planned_window, seen, window_after, OHOSWindowKind,
    PlatformSpecificWindowBuilderAttributes, Window, WindowAttributes, WindowCommand, WindowPlan,
    WindowRequest,
};
use vstd::prelude::*;

verus! {

/// The window has the given number and the bridge to it is there.
pub open spec fn is_at(window: Window, id: i64) -> bool {
    window.client_ready && window.window_id == Some(id)
}

/// A request to move a window, main or floating, leads to one command, which moves it to
/// the place that is asked for.
pub proof fn lemma_move_goes_where_asked(window: Window, id: i64, place: PhysicalPosition<i32>)
    requires
        is_at(window, id),
    ensures
        ({
            let commands = commands_for(window, WindowRequest::SetOuterPosition(place));
            &&& commands.len() == 1
            &&& commands[0] matches WindowCommand::MoveTo { window_id, x, y } && window_id == id
                && x == place.x && y == place.y
        }),
{
}

/// Saving the place of a window and setting it again asks for the place that the window
/// has.
pub proof fn lemma_saved_place_is_restored(window: Window, id: i64, app: AppSnapshot)
    requires
        is_at(window, id),
    ensures
        ({
            let commands = commands_for(
                window,
                WindowRequest::SetOuterPosition(outer_place(app)),
            );
            &&& commands.len() == 1
            &&& commands[0] matches WindowCommand::MoveTo { window_id, x, y } && window_id == id
                && x == app.window_rect.left && y == app.window_rect.top
        }),
{
}

/// A request to resize a window, main or floating, leads to one command, which gives it
/// the size that is asked for, up to the largest that can be had.
pub proof fn lemma_resize_gives_the_size_asked(
    window: Window,
    id: i64,
    size: PhysicalSize<u32>,
    scaled: PhysicalSize<i32>,
)
    requires
        is_at(window, id),
    ensures
        ({
            let commands = commands_for(window, WindowRequest::SetInnerSize(Size::Physical(size)));
            &&& commands.len() == 1
            &&& commands[0] matches WindowCommand::Resize { window_id, width, height } && {
                &&& window_id == id
                &&& width == if size.width <= i32::MAX {
                    size.width as int
                } else {
                    i32::MAX as int
                }
                &&& height == if size.height <= i32::MAX {
                    size.height as int
                } else {
                    i32::MAX as int
                }
            }
        }),
        ({
            let commands = commands_for(window, WindowRequest::SetInnerSize(Size::Scaled(scaled)));
            &&& commands.len() == 1
            &&& commands[0] matches WindowCommand::Resize { window_id, width, height } && window_id
                == id && width == scaled.width && height == scaled.height
        }),
{
    lemma_sizes_are_kept(size, scaled);
}

/// A window is shown by restoring it first, and hidden as it is minimized: the same
/// command and the same memory.
pub proof fn lemma_hiding_is_minimizing(window: Window, id: i64)
    requires
        is_at(window, id),
    ensures
        commands_for(window, WindowRequest::SetVisible(false)) == seq![
            WindowCommand::Minimize { window_id: id },
        ],
        commands_for(window, WindowRequest::SetMinimized(true)) == commands_for(
            window,
            WindowRequest::SetVisible(false),
        ),
        commands_for(window, WindowRequest::SetMinimized(false)) == seq![
            WindowCommand::Restore { window_id: id },
        ],
        commands_for(window, WindowRequest::SetVisible(true)) == commands_for(
            window,
            WindowRequest::SetMinimized(false),
        ) + seq![WindowCommand::Show { window_id: id }],
        forall|visible: bool|
            #[trigger] window_after(window, WindowRequest::SetVisible(visible)) == window_after(
                window,
                WindowRequest::SetMinimized(!visible),
            ),
{
}

/// Each of these requests leads, for every window, to one command that says what was
/// asked, addressed to the window.
pub proof fn lemma_requests_are_passed_on(window: Window, id: i64, on: bool)
    requires
        is_at(window, id),
    ensures
        commands_for(window, WindowRequest::SetMaximized(true)) == seq![
            WindowCommand::Maximize { window_id: id },
        ],
        commands_for(window, WindowRequest::SetMaximized(false)) == seq![
            WindowCommand::Recover { window_id: id },
        ],
        commands_for(window, WindowRequest::SetFullscreen(on)) == seq![
            WindowCommand::SetFullscreen { window_id: id, on },
        ],
        commands_for(window, WindowRequest::SetDecorations(on)) == seq![
            WindowCommand::SetDecorations { window_id: id, decorations: on },
        ],
        commands_for(window, WindowRequest::SetIgnoreCursorEvents(on)) == seq![
            WindowCommand::SetTouchable { window_id: id, touchable: !on },
        ],
{
}

/// The focus of each window but the main one is set as asked.
pub proof fn lemma_focus_of_other_windows_is_set(window: Window, id: i64, on: bool)
    requires
        is_at(window, id),
    ensures
        id > 0 ==> commands_for(window, WindowRequest::SetFocus) == seq![
            WindowCommand::Focus { window_id: id },
        ],
        id > 0 ==> commands_for(window, WindowRequest::SetFocusable(on)) == seq![
            WindowCommand::SetFocusable { window_id: id, focusable: on },
        ],
        id <= 0 ==> commands_for(window, WindowRequest::SetFocus).len() == 0,
        id <= 0 ==> commands_for(window, WindowRequest::SetFocusable(on)).len() == 0,
{
}

/// The number holds the color part by part: opacity, red, green and blue, from the
/// highest byte down.
pub open spec fn holds_color(number: u32, color: Rgba) -> bool {
    &&& number / 0x100_0000 == color.3
    &&& (number / 0x1_0000) % 0x100 == color.0
    &&& (number / 0x100) % 0x100 == color.1
    &&& number % 0x100 == color.2
}

/// The background of a window that is not transparent is set to the color that is asked
/// for, opaque white where none is; a transparent window gets no command.
pub proof fn lemma_background_is_the_color_asked(window: Window, id: i64, color: Option<Rgba>)
    requires
        is_at(window, id),
    ensures
        window.transparent ==> commands_for(
            window,
            WindowRequest::SetBackgroundColor(color),
        ).len() == 0,
        !window.transparent ==> {
            let commands = commands_for(window, WindowRequest::SetBackgroundColor(color));
            &&& commands.len() == 1
            &&& commands[0] matches WindowCommand::SetBackgroundColor { window_id, color: number }
                && window_id == id && holds_color(
                number,
                match color {
                    Some(color) => color,
                    None => (255u8, 255u8, 255u8, 255u8),
                },
            )
        },
{
    if let Some(color) = color {
        lemma_packing_keeps_each_part(color);
    }
}

/// A window without a bridge or without a number gets no command, whatever is asked, and
/// is not remembered as hidden or shown.
pub proof fn lemma_unreachable_window_gets_nothing(window: Window, request: WindowRequest)
    requires
        !window.client_ready || window.window_id is None,
    ensures
        commands_for(window, request).len() == 0,
        request is SetVisible ==> window_after(window, request) == window,
{
}

/// A theme is remembered and shown on the system, and leads to no command for the window.
pub proof fn lemma_theme_is_shown_and_remembered(window: Window, theme: Option<Theme>)
    ensures
        commands_for(window, WindowRequest::SetTheme(theme)).len() == 0,
        window_after(window, WindowRequest::SetTheme(theme)).theme is Dark <==> theme == Some(
            Theme::Dark,
        ),
        mode_of(theme).number() == 0 <==> theme == Some(Theme::Dark),
        mode_of(theme).number() == 1 <==> theme == Some(Theme::Light),
        mode_of(theme).number() == 2 <==> theme is None,
{
}

/// Each request changes what it says and leaves all else that is remembered as it was.
pub proof fn lemma_requests_change_only_what_they_say(window: Window, request: WindowRequest)
    ensures
        ({
            let after = window_after(window, request);
            &&& after.window_id == window.window_id
            &&& after.client_ready == window.client_ready
            &&& after.transparent == window.transparent
            &&& match request {
                WindowRequest::SetVisible(visible) => window.client_ready && window.window_id is Some
                    ==> after.minimized == !visible,
                WindowRequest::SetMinimized(minimized) => after.minimized == minimized,
                _ => after.minimized == window.minimized,
            }
            &&& match request {
                WindowRequest::SetMaximized(maximized) => after.maximized == maximized,
                WindowRequest::SetFullscreen(on) => after.maximized == on,
                _ => after.maximized == window.maximized,
            }
            &&& match request {
                WindowRequest::SetDecorations(decorations) => after.decorations == decorations,
                _ => after.decorations == window.decorations,
            }
            &&& !(request is SetTheme) ==> after.theme == window.theme
        }),
{
}

/// The application sees of a window what it last asked for, at once and whatever it asked
/// before.
pub proof fn lemma_requests_are_seen_at_once(window: Window, id: i64, on: bool, theme: Theme)
    requires
        is_at(window, id),
    ensures
        seen(window_after(window, WindowRequest::SetMinimized(on))).minimized == on,
        seen(window_after(window, WindowRequest::SetVisible(on))).minimized == !on,
        seen(window_after(window, WindowRequest::SetMaximized(on))).maximized == on,
        seen(window_after(window, WindowRequest::SetFullscreen(on))).maximized == on,
        seen(window_after(window, WindowRequest::SetDecorations(on))).decorated == on,
        seen(window_after(window, WindowRequest::SetTheme(Some(theme)))).theme == theme,
        seen(window_after(window, WindowRequest::SetTheme(None))).theme is Light,
        seen(window).window_id == Some(id),
{
}

/// A new window is seen as it was planned: not minimized, not maximized, light, and with
/// the decorations that were asked for.
pub proof fn lemma_new_window_is_seen_as_planned(
    attributes: WindowAttributes,
    platform: PlatformSpecificWindowBuilderAttributes,
    plan: WindowPlan,
    returned: Option<i64>,
    client_ready: bool,
)
    requires
        is_planned(attributes, platform, plan),
        planned_window(plan, returned, client_ready) is Some,
    ensures
        ({
            let seen = seen(planned_window(plan, returned, client_ready)->Some_0);
            &&& !seen.minimized
            &&& !seen.maximized
            &&& seen.theme is Light
            &&& seen.decorated == attributes.decorations
            &&& seen.window_id == if platform.window_kind == Some(OHOSWindowKind::Float) {
                returned
            } else {
                Some(0i64)
            }
        }),
{
}

/// A floating window is planned as asked, each part whatever the others are: the name is
/// the label, or else the title; the size and the place are those that are asked for, and
/// the default ones only where none is; decorations and transparency are kept; and the
/// background is clear for a transparent window and else the color that is asked for.
pub proof fn lemma_floating_window_is_planned_as_asked(
    attributes: WindowAttributes,
    platform: PlatformSpecificWindowBuilderAttributes,
    plan: WindowPlan,
)
    requires
        is_planned(attributes, platform, plan),
        platform.window_kind == Some(OHOSWindowKind::Float),
    ensures
        plan is Create,
        ({
            let params = plan->params;
            &&& attributes.position matches Some(place) ==> params.x == place.x && params.y
                == place.y
            &&& attributes.position is None ==> params.x == 100 && params.y == 100
            &&& attributes.inner_size matches Some(Size::Scaled(size)) ==> params.width
                == size.width && params.height == size.height
            &&& attributes.inner_size matches Some(Size::Physical(size)) ==> {
                &&& size.width <= i32::MAX ==> params.width == size.width
                &&& size.height <= i32::MAX ==> params.height == size.height
                &&& size.width > i32::MAX ==> params.width == i32::MAX
                &&& size.height > i32::MAX ==> params.height == i32::MAX
            }
            &&& attributes.inner_size is None ==> params.width == 800 && params.height == 600
            &&& platform.label matches Some(label) ==> params.name == label
            &&& platform.label is None ==> params.name == attributes.title
            &&& params.window_type == 8
            &&& params.decorations == attributes.decorations
            &&& params.transparent == attributes.transparent
            &&& attributes.transparent ==> params.background_color == Some(0u32)
            &&& !attributes.transparent && attributes.background_color is None
                ==> params.background_color is None
            &&& !attributes.transparent && attributes.background_color is Some
                ==> params.background_color is Some && holds_color(
                params.background_color->Some_0,
                attributes.background_color->Some_0,
            )
        }),
{
    if let Some(Size::Physical(size)) = attributes.inner_size {
        lemma_sizes_are_kept(size, PhysicalSize { width: 0, height: 0 });
    }
    if let Some(color) = attributes.background_color {
        lemma_packing_keeps_each_part(color);
    }
}

/// Two floating windows that are planned agree in each part in which what is asked of
/// them agrees.
pub proof fn lemma_parts_of_a_plan_are_independent(
    a: WindowAttributes,
    a_platform: PlatformSpecificWindowBuilderAttributes,
    a_plan: WindowPlan,
    b: WindowAttributes,
    b_platform: PlatformSpecificWindowBuilderAttributes,
    b_plan: WindowPlan,
)
    requires
        is_planned(a, a_platform, a_plan),
        is_planned(b, b_platform, b_plan),
        a_platform.window_kind == Some(OHOSWindowKind::Float),
        b_platform.window_kind == Some(OHOSWindowKind::Float),
    ensures
        a.position == b.position ==> a_plan->params.x == b_plan->params.x && a_plan->params.y
            == b_plan->params.y,
        a.inner_size == b.inner_size ==> a_plan->params.width == b_plan->params.width
            && a_plan->params.height == b_plan->params.height,
        a_platform.label == b_platform.label && a.title == b.title ==> a_plan->params.name
            == b_plan->params.name,
        a.decorations == b.decorations ==> a_plan->params.decorations
            == b_plan->params.decorations,
        a.transparent == b.transparent && a.background_color == b.background_color
            ==> a_plan->params.background_color == b_plan->params.background_color,
{
}

/// A window for which no floating one is asked takes the container, as it was asked to
/// look; it is refused exactly where another window has the container, and either way the
/// container is taken afterwards. A floating window is never refused and leaves the
/// container as it was.
pub proof fn lemma_main_window_takes_the_container(
    attributes: WindowAttributes,
    platform: PlatformSpecificWindowBuilderAttributes,
    plan: WindowPlan,
    created: bool,
)
    requires
        is_planned(attributes, platform, plan),
    ensures
        platform.window_kind != Some(OHOSWindowKind::Float) ==> {
            &&& plan == (WindowPlan::Reuse {
                decorations: attributes.decorations,
                transparent: attributes.transparent,
            })
            &&& is_refused(platform.window_kind, created) == created
            &&& created_after(platform.window_kind, created)
        },
        platform.window_kind == Some(OHOSWindowKind::Float) ==> {
            &&& plan is Create
            &&& !is_refused(platform.window_kind, created)
            &&& created_after(platform.window_kind, created) == created
        },
{
}

/// A window that comes of a plan has the number 0 in the container and else the number
/// that the system returned, looks as it was asked to, remembers nothing yet, and can be
/// reached if the bridge is there. Only a main window that is to have no decorations gets
/// a command, and only over the bridge.
pub proof fn lemma_window_comes_as_planned(
    attributes: WindowAttributes,
    platform: PlatformSpecificWindowBuilderAttributes,
    plan: WindowPlan,
    returned: Option<i64>,
    client_ready: bool,
)
    requires
        is_planned(attributes, platform, plan),
    ensures
        ({
            let main = platform.window_kind != Some(OHOSWindowKind::Float);
            let made = planned_window(plan, returned, client_ready);
            let commands = first_commands(plan, client_ready);
            &&& made is Some <==> main || returned is Some
            &&& made matches Some(window) ==> {
                &&& main ==> window.window_id == Some(0i64)
                &&& !main ==> window.window_id == returned
                &&& window.client_ready == client_ready
                &&& window.decorations == attributes.decorations
                &&& window.transparent == attributes.transparent
                &&& window.theme is Light
                &&& !window.minimized
                &&& !window.maximized
            }
            &&& main && !attributes.decorations && client_ready ==> commands == seq![
                WindowCommand::SetDecorations { window_id: 0, decorations: false },
            ]
            &&& !(main && !attributes.decorations && client_ready) ==> commands.len() == 0
        }),
{
}

/// The content lies in the window: its place differs from that of the window by its place
/// in the window.
pub proof fn lemma_content_is_placed_in_the_window(app: AppSnapshot)
    ensures
        inner_place(app).0 - outer_place(app).x == app.content_rect.left,
        inner_place(app).1 - outer_place(app).y == app.content_rect.top,
        outer_place(app).x == app.window_rect.left,
        outer_place(app).y == app.window_rect.top,
{
}

/// The outer size is that of the window once the system reports both its sides, and until
/// then that of the content.
pub proof fn lemma_outer_size_is_that_of_the_window(app: AppSnapshot)
    ensures
        app.window_rect.width > 0 && app.window_rect.height > 0 ==> outer_extent(app).width
            == app.window_rect.width && outer_extent(app).height == app.window_rect.height,
        !(app.window_rect.width > 0 && app.window_rect.height > 0) ==> {
            &&& (outer_extent(app).width - app.content_rect.width) % 0x1_0000_0000 == 0
            &&& (outer_extent(app).height - app.content_rect.height) % 0x1_0000_0000 == 0
        },
{
    lemma_casts_keep_the_low_bits(app.content_rect.width, 0);
    lemma_casts_keep_the_low_bits(app.content_rect.height, 0);
    if app.window_rect.width > 0 && app.window_rect.height > 0 {
        lemma_sides_are_kept(app.window_rect);
    }
}

/// The display has the size that the system tells, and where it tells none that of the
/// content. Its one video mode has that size, 32 bits for a point and the rate that the
/// system tells, modulo 2^16.
pub proof fn lemma_display_is_as_reported(app: AppSnapshot)
    ensures
        app.display_width > 0 && app.display_height > 0 ==> display_size(app)
            == (PhysicalSize { width: app.display_width, height: app.display_height }),
        !(app.display_width > 0 && app.display_height > 0) ==> {
            &&& (display_size(app).width - app.content_rect.width) % 0x1_0000_0000 == 0
            &&& (display_size(app).height - app.content_rect.height) % 0x1_0000_0000 == 0
        },
        ({
            let mode = only_video_mode(MonitorHandle { app });
            &&& mode.size == (display_size(app).width, display_size(app).height)
            &&& mode.bit_depth == 32
            &&& (app.refresh_rate - mode.refresh_rate) % 0x1_0000 == 0
            &&& mode.monitor == (MonitorHandle { app })
        }),
{
    lemma_casts_keep_the_low_bits(app.content_rect.width, 0);
    lemma_casts_keep_the_low_bits(app.content_rect.height, 0);
}

/// There is one display in every state of the system, and it is the one that is found at a
/// point.
pub proof fn lemma_there_is_one_display(app: AppSnapshot, x: Float64, y: Float64)
    ensures
        displays(app).len() == 1,
        displays(app)[0].app == app,
        monitor_at(app, x, y) is Some ==> monitor_at(app, x, y) == Some(displays(app)[0]),
{
}

/// A point is on the display exactly where the size of the display is known and each
/// coordinate lies from zero up to the side, not counting the side itself.
pub proof fn lemma_points_on_the_display(app: AppSnapshot, x: Float64, y: Float64)
    requires
        x.bits < 0x8000_0000_0000_0000,
        y.bits < 0x8000_0000_0000_0000,
        app.display_width > 0,
        app.display_height > 0,
    ensures
        monitor_at(app, x, y) is Some <==> x.bits < Float64::whole(app.display_width).bits
            && y.bits < Float64::whole(app.display_height).bits,
{
    lemma_range_by_bits(x, app.display_width);
    lemma_range_by_bits(y, app.display_height);
}

/// A point with a negative coordinate is not on the display, nor is any point where the
/// system does not tell the size of the display. Negative zero counts as zero.
pub proof fn lemma_points_off_the_display(app: AppSnapshot, x: Float64, y: Float64)
    ensures
        x.bits > 0x8000_0000_0000_0000 || y.bits > 0x8000_0000_0000_0000 ==> monitor_at(
            app,
            x,
            y,
        ) is None,
        app.display_width == 0 || app.display_height == 0 ==> monitor_at(app, x, y) is None,
        monitor_at(app, Float64 { bits: 0x8000_0000_0000_0000 }, y) == monitor_at(
            app,
            Float64 { bits: 0 },
            y,
        ),
        monitor_at(app, x, Float64 { bits: 0x8000_0000_0000_0000 }) == monitor_at(
            app,
            x,
            Float64 { bits: 0 },
        ),
{
    crate::float::lemma_negative_is_below_zero(x);
    crate::float::lemma_negative_is_below_zero(y);
}

} // verus!
