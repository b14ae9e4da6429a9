//! Windows: how they are made, what they remember, and the calls over the window
//! bridge that each request leads to.

use crate::dpi::{pixels, rect_size, PhysicalPosition, PhysicalSize, Rect, Size};
use crate::error::{ExternalError, HandleError, NotSupportedError, OsError};
use crate::float::Float64;
use crate::handle::ohos_display_handle;
use crate::ids::WindowId;
use crate::monitor::{displays, find_monitor, monitor_at, AppSnapshot, MonitorHandle, VideoMode};
use crate::state::{seen_cursor, seen_focused, PlatformState, PlatformView};
use crate::theme::{background, color_mode, mode_of, packed, rgba_to_ohos_color, Rgba, Theme};
use raw_window_handle::RawDisplayHandle;
use std::collections::VecDeque;
use vstd::prelude::*;

verus! {

/// Where a window is shown: in the container of the ability, of which there is
/// one, or in a floating window of its own. The container is the default; a
/// floating window has to be asked for.
#[derive(Clone, Copy, Debug, PartialEq, Eq)]
pub enum OHOSWindowKind {
    UIAbility,
    Float,
}

/// What the platform adds to the attributes of a window.
#[derive(Clone, Debug, PartialEq, Eq)]
pub struct PlatformSpecificWindowBuilderAttributes {
    pub label: Option<String>,
    pub window_kind: Option<OHOSWindowKind>,
}

impl Default for PlatformSpecificWindowBuilderAttributes {
    fn default() -> (r: PlatformSpecificWindowBuilderAttributes)
        ensures
            r.label is None,
            r.window_kind is None,
    {
        PlatformSpecificWindowBuilderAttributes { label: None, window_kind: None }
    }
}

/// What is asked of a new window, its position in physical pixels.
#[derive(Debug, PartialEq, Eq)]
pub struct WindowAttributes {
    pub title: String,
    pub inner_size: Option<Size>,
    pub position: Option<PhysicalPosition<i32>>,
    pub decorations: bool,
    pub transparent: bool,
    pub background_color: Option<Rgba>,
}

/// The types of windows that the system has.
#[derive(Clone, Copy, Debug, PartialEq, Eq)]
pub enum OHOSWindowType {
    TypeApp,
    TypeSystemAlert,
    TypeFloat,
    TypeDialog,
    TypeMain,
}

impl OHOSWindowType {
    /// The number that the system has for the type.
    pub open spec fn number(self) -> i32 {
        match self {
            OHOSWindowType::TypeApp => 0,
            OHOSWindowType::TypeSystemAlert => 1,
            OHOSWindowType::TypeFloat => 8,
            OHOSWindowType::TypeDialog => 16,
            OHOSWindowType::TypeMain => 32,
        }
    }

    /// The number that the system has for the type.
    pub fn code(self) -> (r: i32)
        ensures
            r == self.number(),
    {
        match self {
            OHOSWindowType::TypeApp => 0,
            OHOSWindowType::TypeSystemAlert => 1,
            OHOSWindowType::TypeFloat => 8,
            OHOSWindowType::TypeDialog => 16,
            OHOSWindowType::TypeMain => 32,
        }
    }
}

/// What the system is given to make a floating window.
#[derive(Clone, Debug, PartialEq, Eq)]
pub struct WindowCreateParams {
    pub name: String,
    pub window_type: i32,
    pub width: i32,
    pub height: i32,
    pub x: i32,
    pub y: i32,
    pub decorations: bool,
    pub transparent: bool,
    pub background_color: Option<u32>,
}

/// How a new window comes to be.
#[derive(Debug, PartialEq, Eq)]
pub enum WindowPlan {
    /// It takes the container of the ability.
    Reuse { decorations: bool, transparent: bool },
    /// The system makes a floating window.
    Create { params: WindowCreateParams },
}

/// A call over the window bridge.
#[derive(Clone, Copy, Debug, PartialEq, Eq)]
pub enum WindowCommand {
    Resize { window_id: i64, width: i64, height: i64 },
    MoveTo { window_id: i64, x: i64, y: i64 },
    Restore { window_id: i64 },
    Show { window_id: i64 },
    Minimize { window_id: i64 },
    Maximize { window_id: i64 },
    Recover { window_id: i64 },
    Focus { window_id: i64 },
    SetFocusable { window_id: i64, focusable: bool },
    SetFullscreen { window_id: i64, on: bool },
    SetDecorations { window_id: i64, decorations: bool },
    SetTouchable { window_id: i64, touchable: bool },
    SetBackgroundColor { window_id: i64, color: u32 },
}

/// How a window fills the display.
#[derive(Clone, Copy, Debug, PartialEq, Eq)]
pub enum Fullscreen {
    Exclusive(VideoMode),
    Borderless(Option<MonitorHandle>),
}

/// A window, as far as it is remembered.
#[derive(Clone, Copy, Debug, PartialEq, Eq)]
pub struct Window {
    /// The number of the window in the system: 0 for the main window. None for a
    /// view without a window of its own.
    pub window_id: Option<i64>,
    /// Whether the window bridge is there.
    pub client_ready: bool,
    pub maximized: bool,
    pub minimized: bool,
    pub theme: Theme,
    pub decorations: bool,
    /// Fixed when the window is made.
    pub transparent: bool,
}

/// A new window takes the container of the ability unless a floating window is
/// asked for.
pub open spec fn takes_container(kind: Option<OHOSWindowKind>) -> bool {
    match kind {
        Some(OHOSWindowKind::UIAbility) => true,
        Some(OHOSWindowKind::Float) => false,
        None => true,
    }
}

/// The window would take the container while another one has it.
pub open spec fn is_refused(kind: Option<OHOSWindowKind>, created: bool) -> bool {
    takes_container(kind) && created
}

/// Whether a window has the container once a new window is asked for.
pub open spec fn created_after(kind: Option<OHOSWindowKind>, created: bool) -> bool {
    created || takes_container(kind)
}

/// The number of a window that can be reached over the bridge.
pub open spec fn reachable(window: Window) -> Option<i64> {
    if window.client_ready {
        window.window_id
    } else {
        None
    }
}

/// What can be asked of a window.
#[derive(Clone, Copy, Debug, PartialEq, Eq)]
pub enum WindowRequest {
    SetInnerSize(Size),
    SetOuterPosition(PhysicalPosition<i32>),
    SetVisible(bool),
    SetFocus,
    SetFocusable(bool),
    SetMinimized(bool),
    SetMaximized(bool),
    SetFullscreen(bool),
    SetDecorations(bool),
    SetIgnoreCursorEvents(bool),
    SetBackgroundColor(Option<Rgba>),
    SetTheme(Option<Theme>),
}

/// The calls over the bridge that a request leads to, for a window that can be
/// reached. The system manages the focus of the main window, so the request is
/// dropped there. The platform cannot hide a window, so it is minimized. A
/// transparent window keeps its background; the background of any other is white
/// where no color is given.
pub open spec fn calls_for(
    window_id: i64,
    transparent: bool,
    request: WindowRequest,
) -> Seq<WindowCommand> {
    match request {
        WindowRequest::SetInnerSize(size) => seq![
            WindowCommand::Resize {
                window_id,
                width: pixels(size).width as i64,
                height: pixels(size).height as i64,
            },
        ],
        WindowRequest::SetOuterPosition(position) => seq![
            WindowCommand::MoveTo { window_id, x: position.x as i64, y: position.y as i64 },
        ],
        WindowRequest::SetVisible(true) => seq![
            WindowCommand::Restore { window_id },
            WindowCommand::Show { window_id },
        ],
        WindowRequest::SetVisible(false) => seq![WindowCommand::Minimize { window_id }],
        WindowRequest::SetFocus => if window_id > 0 {
            seq![WindowCommand::Focus { window_id }]
        } else {
            Seq::empty()
        },
        WindowRequest::SetFocusable(focusable) => if window_id > 0 {
            seq![WindowCommand::SetFocusable { window_id, focusable }]
        } else {
            Seq::empty()
        },
        WindowRequest::SetMinimized(true) => seq![WindowCommand::Minimize { window_id }],
        WindowRequest::SetMinimized(false) => seq![WindowCommand::Restore { window_id }],
        WindowRequest::SetMaximized(true) => seq![WindowCommand::Maximize { window_id }],
        WindowRequest::SetMaximized(false) => seq![WindowCommand::Recover { window_id }],
        WindowRequest::SetFullscreen(on) => seq![WindowCommand::SetFullscreen { window_id, on }],
        WindowRequest::SetDecorations(decorations) => seq![
            WindowCommand::SetDecorations { window_id, decorations },
        ],
        WindowRequest::SetIgnoreCursorEvents(ignore) => seq![
            WindowCommand::SetTouchable { window_id, touchable: !ignore },
        ],
        WindowRequest::SetBackgroundColor(color) => if transparent {
            Seq::empty()
        } else {
            seq![
                WindowCommand::SetBackgroundColor {
                    window_id,
                    color: match color {
                        Some(color) => packed(color),
                        None => 0xffff_ffff,
                    },
                },
            ]
        },
        WindowRequest::SetTheme(_) => Seq::empty(),
    }
}

/// The calls over the bridge that a request leads to: none for a window that
/// cannot be reached.
pub open spec fn commands_for(window: Window, request: WindowRequest) -> Seq<WindowCommand> {
    match reachable(window) {
        Some(window_id) => calls_for(window_id, window.transparent, request),
        None => Seq::empty(),
    }
}

/// What is remembered of a window after a request. Being hidden counts as being
/// minimized, if the window can be reached. Filling the display maximizes the
/// window, and undoing it recovers the window. Without a theme the light one is
/// remembered.
pub open spec fn window_after(window: Window, request: WindowRequest) -> Window {
    match request {
        WindowRequest::SetVisible(visible) => if reachable(window) is Some {
            Window { minimized: !visible, ..window }
        } else {
            window
        },
        WindowRequest::SetMinimized(minimized) => Window { minimized, ..window },
        WindowRequest::SetMaximized(maximized) => Window { maximized, ..window },
        WindowRequest::SetFullscreen(on) => Window { maximized: on, ..window },
        WindowRequest::SetDecorations(decorations) => Window { decorations, ..window },
        WindowRequest::SetTheme(Some(theme)) => Window { theme, ..window },
        WindowRequest::SetTheme(None) => Window { theme: Theme::Light, ..window },
        _ => window,
    }
}

/// The floating window that the attributes ask for: named by its label, or else
/// its title, 800 by 600 pixels at (100, 100) unless they say otherwise.
pub open spec fn float_params(
    attributes: WindowAttributes,
    platform: PlatformSpecificWindowBuilderAttributes,
    params: WindowCreateParams,
) -> bool {
    &&& params.name == (match platform.label {
        Some(label) => label,
        None => attributes.title,
    })
    &&& params.window_type == OHOSWindowType::TypeFloat.number()
    &&& (match attributes.inner_size {
        Some(size) => params.width == pixels(size).width && params.height == pixels(size).height,
        None => params.width == 800 && params.height == 600,
    })
    &&& (match attributes.position {
        Some(position) => params.x == position.x && params.y == position.y,
        None => params.x == 100 && params.y == 100,
    })
    &&& params.decorations == attributes.decorations
    &&& params.transparent == attributes.transparent
    &&& params.background_color == background(
        attributes.transparent,
        attributes.background_color,
    )
}

/// How a new window comes to be, where it is not refused.
pub open spec fn is_planned(
    attributes: WindowAttributes,
    platform: PlatformSpecificWindowBuilderAttributes,
    plan: WindowPlan,
) -> bool {
    if takes_container(platform.window_kind) {
        plan == (WindowPlan::Reuse {
            decorations: attributes.decorations,
            transparent: attributes.transparent,
        })
    } else {
        plan matches WindowPlan::Create { params } && float_params(attributes, platform, params)
    }
}

/// A new window.
pub open spec fn new_window(
    window_id: i64,
    client_ready: bool,
    decorations: bool,
    transparent: bool,
) -> Window {
    Window {
        window_id: Some(window_id),
        client_ready,
        maximized: false,
        minimized: false,
        theme: Theme::Light,
        decorations,
        transparent,
    }
}

/// The window that a plan leads to, given the number that the system returned
/// for a floating window, if it made one.
pub open spec fn planned_window(
    plan: WindowPlan,
    created: Option<i64>,
    client_ready: bool,
) -> Option<Window> {
    match plan {
        WindowPlan::Reuse { decorations, transparent } => Some(
            new_window(0, client_ready, decorations, transparent),
        ),
        WindowPlan::Create { params } => match created {
            Some(window_id) => Some(
                new_window(window_id, client_ready, params.decorations, params.transparent),
            ),
            None => None,
        },
    }
}

/// The commands for a new window: the main window has decorations to start with,
/// so they are taken off where it is to have none.
pub open spec fn first_commands(plan: WindowPlan, client_ready: bool) -> Seq<WindowCommand> {
    match plan {
        WindowPlan::Reuse { decorations, .. } => if !decorations && client_ready {
            seq![WindowCommand::SetDecorations { window_id: 0, decorations: false }]
        } else {
            Seq::empty()
        },
        WindowPlan::Create { .. } => Seq::empty(),
    }
}

/// What the application sees of a window when it asks.
pub struct Seen {
    pub window_id: Option<i64>,
    pub minimized: bool,
    pub maximized: bool,
    pub decorated: bool,
    pub theme: Theme,
}

/// What the application sees of a window.
pub open spec fn seen(window: Window) -> Seen {
    Seen {
        window_id: window.window_id,
        minimized: window.minimized,
        maximized: window.maximized,
        decorated: window.decorations,
        theme: window.theme,
    }
}

/// Where the content is on the display.
pub open spec fn inner_place(app: AppSnapshot) -> (int, int) {
    (
        app.window_rect.left + app.content_rect.left,
        app.window_rect.top + app.content_rect.top,
    )
}

/// Where the window is on the display.
pub open spec fn outer_place(app: AppSnapshot) -> PhysicalPosition<i32> {
    PhysicalPosition { x: app.window_rect.left, y: app.window_rect.top }
}

/// The size of the window with its title bar; that of the content until the system
/// reports the window.
pub open spec fn outer_extent(app: AppSnapshot) -> PhysicalSize<u32> {
    if app.window_rect.width > 0 && app.window_rect.height > 0 {
        rect_size(app.window_rect)
    } else {
        rect_size(app.content_rect)
    }
}

/// A single command.
fn one_command(command: WindowCommand) -> (r: Vec<WindowCommand>)
    ensures
        r@ == seq![command],
{
    let mut commands: Vec<WindowCommand> = Vec::new();
    commands.push(command);
    assert(commands@ =~= seq![command]);
    commands
}

/// What is not supported.
fn not_supported<R>() -> (r: Result<R, ExternalError>)
    ensures
        r == Err::<R, ExternalError>(ExternalError::NotSupported(NotSupportedError)),
{
    Err(ExternalError::NotSupported(NotSupportedError))
}

impl Window {
    /// Whether a new window of the given kind takes the container of the ability,
    /// or is refused it.
    pub fn is_main(kind: Option<OHOSWindowKind>) -> (r: bool)
        ensures
            r == takes_container(kind),
    {
        match kind {
            Some(OHOSWindowKind::UIAbility) => true,
            Some(OHOSWindowKind::Float) => false,
            None => true,
        }
    }

    /// Decides how a new window comes to be. The container of the ability is
    /// taken by the first window for which no floating one is asked, and refused
    /// to any other.
    pub fn plan(
        state: &mut PlatformState,
        attributes: WindowAttributes,
        platform: PlatformSpecificWindowBuilderAttributes,
    ) -> (r: Result<WindowPlan, OsError>)
        ensures
            r is Err <==> is_refused(platform.window_kind, old(state).ui_ability_created),
            r matches Ok(plan) ==> is_planned(attributes, platform, plan),
            final(state)@ == (PlatformView {
                ui_ability_created: created_after(
                    platform.window_kind,
                    old(state).ui_ability_created,
                ),
                ..old(state)@
            }),
    {
        if Window::is_main(platform.window_kind) {
            let taken = state.ui_ability_created;
            state.ui_ability_created = true;
            if taken {
                return Err(OsError);
            }
            return Ok(
                WindowPlan::Reuse {
                    decorations: attributes.decorations,
                    transparent: attributes.transparent,
                },
            );
        }
        let background_color = rgba_to_ohos_color(
            attributes.transparent,
            attributes.background_color,
        );
        let size = match attributes.inner_size {
            Some(size) => size.to_pixels(),
            None => PhysicalSize { width: 800i32, height: 600i32 },
        };
        let position = match attributes.position {
            Some(position) => position,
            None => PhysicalPosition { x: 100i32, y: 100i32 },
        };
        let name = match platform.label {
            Some(label) => label,
            None => attributes.title,
        };
        Ok(
            WindowPlan::Create {
                params: WindowCreateParams {
                    name,
                    window_type: OHOSWindowType::TypeFloat.code(),
                    width: size.width,
                    height: size.height,
                    x: position.x,
                    y: position.y,
                    decorations: attributes.decorations,
                    transparent: attributes.transparent,
                    background_color,
                },
            },
        )
    }

    /// The window that a plan leads to, and the commands for it. `created` is the
    /// number that the system returned for a floating window, and none where it
    /// made none; a plan to take the container does not read it.
    pub fn new(plan: WindowPlan, created: Option<i64>, client_ready: bool) -> (r: Result<
        (Window, Vec<WindowCommand>),
        OsError,
    >)
        ensures
            r is Ok <==> planned_window(plan, created, client_ready) is Some,
            r matches Ok((window, commands)) ==> {
                &&& Some(window) == planned_window(plan, created, client_ready)
                &&& commands@ == first_commands(plan, client_ready)
            },
    {
        match plan {
            WindowPlan::Reuse { decorations, transparent } => {
                let window = Window {
                    window_id: Some(0),
                    client_ready,
                    maximized: false,
                    minimized: false,
                    theme: Theme::Light,
                    decorations,
                    transparent,
                };
                if !decorations && client_ready {
                    let command = WindowCommand::SetDecorations {
                        window_id: 0,
                        decorations: false,
                    };
                    Ok((window, one_command(command)))
                } else {
                    Ok((window, Vec::new()))
                }
            },
            WindowPlan::Create { params } => match created {
                Some(window_id) => {
                    let window = Window {
                        window_id: Some(window_id),
                        client_ready,
                        maximized: false,
                        minimized: false,
                        theme: Theme::Light,
                        decorations: params.decorations,
                        transparent: params.transparent,
                    };
                    Ok((window, Vec::new()))
                },
                None => Err(OsError),
            },
        }
    }

    /// The number of the window, if it can be reached over the bridge.
    fn bridge(&self) -> (r: Option<i64>)
        ensures
            r == reachable(*self),
    {
        if self.client_ready {
            self.window_id
        } else {
            None
        }
    }

    /// Asks for the window to be drawn. The system draws it by itself.
    pub fn request_redraw(&self) -> (r: Vec<WindowCommand>)
        ensures
            r@.len() == 0,
    {
        Vec::new()
    }

    /// The display, if the point is on it.
    pub fn monitor_from_point(&self, app: AppSnapshot, x: Float64, y: Float64) -> (r: Option<
        MonitorHandle,
    >)
        ensures
            r == monitor_at(app, x, y),
    {
        find_monitor(app, x, y)
    }

    /// The identifier that all windows share.
    pub fn id(&self) -> (r: WindowId)
        ensures
            r == WindowId,
    {
        WindowId
    }

    /// How many pixels make one unit of length.
    pub fn scale_factor(&self, app: AppSnapshot) -> (r: Float64)
        ensures
            r == app.scale.widened(),
    {
        app.scale.widen()
    }

    /// The displays: one.
    pub fn available_monitors(&self, app: AppSnapshot) -> (r: VecDeque<MonitorHandle>)
        ensures
            r@ == seq![MonitorHandle { app }],
            r@ == displays(app),
    {
        let mut monitors: VecDeque<MonitorHandle> = VecDeque::with_capacity(1);
        monitors.push_back(MonitorHandle::new(app));
        assert(monitors@ =~= seq![MonitorHandle { app }]);
        monitors
    }

    /// Where the content is on the display: the place of the window and, relative
    /// to it, of the content.
    pub fn inner_position(&self, app: AppSnapshot) -> (r: Result<
        PhysicalPosition<i32>,
        NotSupportedError,
    >)
        requires
            i32::MIN <= app.window_rect.left + app.content_rect.left <= i32::MAX,
            i32::MIN <= app.window_rect.top + app.content_rect.top <= i32::MAX,
        ensures
            r is Ok,
            r->Ok_0.x == app.window_rect.left + app.content_rect.left,
            r->Ok_0.y == app.window_rect.top + app.content_rect.top,
            (r->Ok_0.x as int, r->Ok_0.y as int) == inner_place(app),
    {
        Ok(
            PhysicalPosition {
                x: app.window_rect.left + app.content_rect.left,
                y: app.window_rect.top + app.content_rect.top,
            },
        )
    }

    /// The size of the window with its title bar, which is the size that a
    /// request to resize sets.
    pub fn inner_size(&self, app: AppSnapshot) -> (r: PhysicalSize<u32>)
        ensures
            r == rect_size(app.window_rect),
    {
        app.window_rect.size()
    }

    /// Resizes the window with its title bar.
    pub fn set_inner_size(&self, size: Size) -> (r: Vec<WindowCommand>)
        ensures
            r@ == commands_for(*self, WindowRequest::SetInnerSize(size)),
    {
        let size = size.to_pixels();
        match self.bridge() {
            Some(window_id) => one_command(
                WindowCommand::Resize {
                    window_id,
                    width: size.width as i64,
                    height: size.height as i64,
                },
            ),
            None => Vec::new(),
        }
    }

    /// Sets limits of the size. The platform has none.
    pub fn set_inner_size_constraints<C>(&self, _constraints: C) -> (r: Vec<WindowCommand>)
        ensures
            r@.len() == 0,
    {
        Vec::new()
    }

    /// Where the window is on the display.
    pub fn outer_position(&self, app: AppSnapshot) -> (r: Result<
        PhysicalPosition<i32>,
        NotSupportedError,
    >)
        ensures
            r is Ok,
            r->Ok_0 == (PhysicalPosition { x: app.window_rect.left, y: app.window_rect.top }),
            r->Ok_0 == outer_place(app),
    {
        Ok(PhysicalPosition { x: app.window_rect.left, y: app.window_rect.top })
    }

    /// Moves the window.
    pub fn set_outer_position(&self, position: PhysicalPosition<i32>) -> (r: Vec<WindowCommand>)
        ensures
            r@ == commands_for(*self, WindowRequest::SetOuterPosition(position)),
    {
        match self.bridge() {
            Some(window_id) => one_command(
                WindowCommand::MoveTo { window_id, x: position.x as i64, y: position.y as i64 },
            ),
            None => Vec::new(),
        }
    }

    /// The size of the window with its title bar; that of the content until the
    /// system reports the window.
    pub fn outer_size(&self, app: AppSnapshot) -> (r: PhysicalSize<u32>)
        ensures
            r == outer_extent(app),
            r == rect_size(
                if app.window_rect.width > 0 && app.window_rect.height > 0 {
                    app.window_rect
                } else {
                    app.content_rect
                },
            ),
    {
        if app.window_rect.width > 0 && app.window_rect.height > 0 {
            app.window_rect.size()
        } else {
            app.content_rect.size()
        }
    }

    /// Sets a lower limit of the size. The platform has none.
    pub fn set_min_inner_size<S>(&self, _size: Option<S>) -> (r: Vec<WindowCommand>)
        ensures
            r@.len() == 0,
    {
        Vec::new()
    }

    /// Sets an upper limit of the size. The platform has none.
    pub fn set_max_inner_size<S>(&self, _size: Option<S>) -> (r: Vec<WindowCommand>)
        ensures
            r@.len() == 0,
    {
        Vec::new()
    }

    /// Sets the title. The platform shows none.
    pub fn set_title(&self, _title: &str) -> (r: Vec<WindowCommand>)
        ensures
            r@.len() == 0,
    {
        Vec::new()
    }

    /// Shows or hides the window. The platform cannot hide a window, so it is
    /// minimized instead, and is remembered as minimized.
    pub fn set_visible(&mut self, visibility: bool) -> (r: Vec<WindowCommand>)
        ensures
            r@ == commands_for(*old(self), WindowRequest::SetVisible(visibility)),
            *final(self) == window_after(*old(self), WindowRequest::SetVisible(visibility)),
    {
        match self.bridge() {
            Some(window_id) => if visibility {
                self.minimized = false;
                let mut commands = one_command(WindowCommand::Restore { window_id });
                commands.push(WindowCommand::Show { window_id });
                assert(commands@ =~= seq![
                    WindowCommand::Restore { window_id },
                    WindowCommand::Show { window_id },
                ]);
                commands
            } else {
                self.minimized = true;
                one_command(WindowCommand::Minimize { window_id })
            },
            None => Vec::new(),
        }
    }

    /// Gives the window the focus. The system manages that of the main window.
    pub fn set_focus(&self) -> (r: Vec<WindowCommand>)
        ensures
            r@ == commands_for(*self, WindowRequest::SetFocus),
    {
        match self.bridge() {
            Some(window_id) => if window_id > 0 {
                one_command(WindowCommand::Focus { window_id })
            } else {
                Vec::new()
            },
            None => Vec::new(),
        }
    }

    /// Lets the window have the focus or not. The system manages that of the main
    /// window.
    pub fn set_focusable(&self, focusable: bool) -> (r: Vec<WindowCommand>)
        ensures
            r@ == commands_for(*self, WindowRequest::SetFocusable(focusable)),
    {
        match self.bridge() {
            Some(window_id) => if window_id > 0 {
                one_command(WindowCommand::SetFocusable { window_id, focusable })
            } else {
                Vec::new()
            },
            None => Vec::new(),
        }
    }

    /// Whether the application has the focus.
    pub fn is_focused(&self, state: &PlatformState) -> (r: bool)
        ensures
            r == state.has_focus,
            r == seen_focused(state@),
    {
        state.has_focus
    }

    /// Whether the window stays above others. The platform has no such windows.
    pub fn is_always_on_top(&self) -> (r: bool)
        ensures
            !r,
    {
        false
    }

    /// Lets the window be resized or not. The platform does not.
    pub fn set_resizable(&self, _resizable: bool) -> (r: Vec<WindowCommand>)
        ensures
            r@.len() == 0,
    {
        Vec::new()
    }

    /// Lets the window be minimized or not. The platform does not.
    pub fn set_minimizable(&self, _minimizable: bool) -> (r: Vec<WindowCommand>)
        ensures
            r@.len() == 0,
    {
        Vec::new()
    }

    /// Lets the window be maximized or not. The platform does not.
    pub fn set_maximizable(&self, _maximizable: bool) -> (r: Vec<WindowCommand>)
        ensures
            r@.len() == 0,
    {
        Vec::new()
    }

    /// Lets the window be closed or not. The platform does not.
    pub fn set_closable(&self, _closable: bool) -> (r: Vec<WindowCommand>)
        ensures
            r@.len() == 0,
    {
        Vec::new()
    }

    /// Minimizes the window or restores it, and remembers which.
    pub fn set_minimized(&mut self, minimized: bool) -> (r: Vec<WindowCommand>)
        ensures
            r@ == commands_for(*old(self), WindowRequest::SetMinimized(minimized)),
            *final(self) == window_after(*old(self), WindowRequest::SetMinimized(minimized)),
    {
        self.minimized = minimized;
        match self.bridge() {
            Some(window_id) => if minimized {
                one_command(WindowCommand::Minimize { window_id })
            } else {
                one_command(WindowCommand::Restore { window_id })
            },
            None => Vec::new(),
        }
    }

    /// Whether the window is remembered as minimized.
    pub fn is_minimized(&self) -> (r: bool)
        ensures
            r == self.minimized,
            r == seen(*self).minimized,
    {
        self.minimized
    }

    /// Maximizes the window or undoes it, and remembers which.
    pub fn set_maximized(&mut self, maximized: bool) -> (r: Vec<WindowCommand>)
        ensures
            r@ == commands_for(*old(self), WindowRequest::SetMaximized(maximized)),
            *final(self) == window_after(*old(self), WindowRequest::SetMaximized(maximized)),
    {
        self.maximized = maximized;
        match self.bridge() {
            Some(window_id) => if maximized {
                one_command(WindowCommand::Maximize { window_id })
            } else {
                one_command(WindowCommand::Recover { window_id })
            },
            None => Vec::new(),
        }
    }

    /// Whether the window is remembered as maximized.
    pub fn is_maximized(&self) -> (r: bool)
        ensures
            r == self.maximized,
            r == seen(*self).maximized,
    {
        self.maximized
    }

    /// Fills the display or undoes it. Filling it maximizes the window and undoing
    /// it recovers the window, so that is remembered.
    pub fn set_fullscreen(&mut self, monitor: Option<Fullscreen>) -> (r: Vec<WindowCommand>)
        ensures
            r@ == commands_for(*old(self), WindowRequest::SetFullscreen(monitor is Some)),
            *final(self) == window_after(*old(self), WindowRequest::SetFullscreen(monitor is Some)),
    {
        let on = monitor.is_some();
        self.maximized = on;
        match self.bridge() {
            Some(window_id) => one_command(WindowCommand::SetFullscreen { window_id, on }),
            None => Vec::new(),
        }
    }

    /// How the window fills the display. The platform has a layout for that and no
    /// display to tell, so nothing is reported.
    pub fn fullscreen(&self) -> (r: Option<Fullscreen>)
        ensures
            r is None,
    {
        None
    }

    /// Shows or hides the title bar, and remembers which.
    pub fn set_decorations(&mut self, decorations: bool) -> (r: Vec<WindowCommand>)
        ensures
            r@ == commands_for(*old(self), WindowRequest::SetDecorations(decorations)),
            *final(self) == window_after(*old(self), WindowRequest::SetDecorations(decorations)),
    {
        self.decorations = decorations;
        match self.bridge() {
            Some(window_id) => one_command(
                WindowCommand::SetDecorations { window_id, decorations },
            ),
            None => Vec::new(),
        }
    }

    /// Keeps the window below others. The platform does not.
    pub fn set_always_on_bottom(&self, _always_on_bottom: bool) -> (r: Vec<WindowCommand>)
        ensures
            r@.len() == 0,
    {
        Vec::new()
    }

    /// Keeps the window above others. The platform does not.
    pub fn set_always_on_top(&self, _always_on_top: bool) -> (r: Vec<WindowCommand>)
        ensures
            r@.len() == 0,
    {
        Vec::new()
    }

    /// Places the input method. The platform does so by itself.
    pub fn set_ime_position<P>(&self, _position: P) -> (r: Vec<WindowCommand>)
        ensures
            r@.len() == 0,
    {
        Vec::new()
    }

    /// Whether the window is remembered as having a title bar.
    pub fn is_decorated(&self) -> (r: bool)
        ensures
            r == self.decorations,
            r == seen(*self).decorated,
    {
        self.decorations
    }

    /// Whether the window is visible. The platform does not tell.
    pub fn is_visible(&self) -> (r: bool)
        ensures
            !r,
    {
        false
    }

    /// Whether the window can be resized. The platform does not tell.
    pub fn is_resizable(&self) -> (r: bool)
        ensures
            !r,
    {
        false
    }

    /// Whether the window can be minimized. The platform does not tell.
    pub fn is_minimizable(&self) -> (r: bool)
        ensures
            !r,
    {
        false
    }

    /// Whether the window can be maximized. The platform does not tell.
    pub fn is_maximizable(&self) -> (r: bool)
        ensures
            !r,
    {
        false
    }

    /// Whether the window can be closed. The platform does not tell.
    pub fn is_closable(&self) -> (r: bool)
        ensures
            !r,
    {
        false
    }

    /// Sets the icon. The platform shows none.
    pub fn set_window_icon<I>(&self, _window_icon: Option<I>) -> (r: Vec<WindowCommand>)
        ensures
            r@.len() == 0,
    {
        Vec::new()
    }

    /// Sets the look of the cursor. The platform does not.
    pub fn set_cursor_icon<C>(&self, _cursor: C) -> (r: Vec<WindowCommand>)
        ensures
            r@.len() == 0,
    {
        Vec::new()
    }

    /// Keeps the cursor in the window. Not supported.
    pub fn set_cursor_grab(&self, _grab: bool) -> (r: Result<(), ExternalError>)
        ensures
            r == Err::<(), ExternalError>(ExternalError::NotSupported(NotSupportedError)),
    {
        not_supported()
    }

    /// Asks for the attention of the user. The platform does not.
    pub fn request_user_attention<A>(&self, _request_type: Option<A>) -> (r: Vec<WindowCommand>)
        ensures
            r@.len() == 0,
    {
        Vec::new()
    }

    /// Moves the cursor. Not supported.
    pub fn set_cursor_position<P>(&self, _position: P) -> (r: Result<(), ExternalError>)
        ensures
            r == Err::<(), ExternalError>(ExternalError::NotSupported(NotSupportedError)),
    {
        not_supported()
    }

    /// Where the cursor was last seen.
    pub fn cursor_position(&self, state: &PlatformState) -> (r: Result<
        PhysicalPosition<Float64>,
        ExternalError,
    >)
        ensures
            r == Ok::<PhysicalPosition<Float64>, ExternalError>(state.cursor),
            r == Ok::<PhysicalPosition<Float64>, ExternalError>(seen_cursor(state@)),
    {
        Ok(state.cursor)
    }

    /// Lets the cursor act on what is behind the window, which is then not
    /// touchable. Not supported where the window cannot be reached.
    pub fn set_ignore_cursor_events(&self, ignore: bool) -> (r: Result<
        Vec<WindowCommand>,
        ExternalError,
    >)
        ensures
            r is Err <==> reachable(*self) is None,
            r matches Err(error) ==> error == ExternalError::NotSupported(NotSupportedError),
            r matches Ok(commands) ==> commands@ == commands_for(
                *self,
                WindowRequest::SetIgnoreCursorEvents(ignore),
            ),
    {
        match self.bridge() {
            Some(window_id) => Ok(
                one_command(WindowCommand::SetTouchable { window_id, touchable: !ignore }),
            ),
            None => not_supported(),
        }
    }

    /// Shows or hides the cursor. The platform does not.
    pub fn set_cursor_visible(&self, _visible: bool) -> (r: Vec<WindowCommand>)
        ensures
            r@.len() == 0,
    {
        Vec::new()
    }

    /// Moves the window with the cursor. Not supported.
    pub fn drag_window(&self) -> (r: Result<(), ExternalError>)
        ensures
            r == Err::<(), ExternalError>(ExternalError::NotSupported(NotSupportedError)),
    {
        not_supported()
    }

    /// Resizes the window with the cursor. Not supported.
    pub fn drag_resize_window<D>(&self, _direction: D) -> (r: Result<(), ExternalError>)
        ensures
            r == Err::<(), ExternalError>(ExternalError::NotSupported(NotSupportedError)),
    {
        not_supported()
    }

    /// Sets the background, white where no color is given. A transparent window
    /// keeps its own.
    pub fn set_background_color(&self, color: Option<Rgba>) -> (r: Vec<WindowCommand>)
        ensures
            r@ == commands_for(*self, WindowRequest::SetBackgroundColor(color)),
    {
        if self.transparent {
            return Vec::new();
        }
        let color: u32 = match rgba_to_ohos_color(false, color) {
            Some(color) => color,
            None => 0xffff_ffff,
        };
        match self.bridge() {
            Some(window_id) => one_command(WindowCommand::SetBackgroundColor { window_id, color }),
            None => Vec::new(),
        }
    }

    /// The theme that is remembered.
    pub fn theme(&self) -> (r: Theme)
        ensures
            r == self.theme,
            r == seen(*self).theme,
    {
        self.theme
    }

    /// Remembers a theme, the light one where none is given, and gives the number
    /// of the color mode that the system is asked for.
    pub fn set_theme(&mut self, theme: Option<Theme>) -> (r: i32)
        ensures
            r == mode_of(theme).number(),
            *final(self) == window_after(*old(self), WindowRequest::SetTheme(theme)),
    {
        self.theme = match theme {
            Some(theme) => theme,
            None => Theme::Light,
        };
        color_mode(theme).code()
    }

    /// The title. The platform shows none.
    pub fn title(&self) -> (r: String)
        ensures
            r@.len() == 0,
    {
        String::new()
    }

    /// The handle of the native window, given the window, if there is one, and its
    /// handle, if it has one.
    pub fn raw_window_handle_rwh_06<H>(&self, native_window: Option<Option<H>>) -> (r: Result<
        H,
        HandleError,
    >)
        ensures
            r == (match native_window {
                Some(Some(handle)) => Ok::<H, HandleError>(handle),
                _ => Err(HandleError::Unavailable),
            }),
    {
        match native_window {
            Some(Some(handle)) => Ok(handle),
            _ => Err(HandleError::Unavailable),
        }
    }

    /// The handle of the display, which is one of OpenHarmony.
    pub fn raw_display_handle_rwh_06(&self) -> (r: Result<RawDisplayHandle, HandleError>)
        ensures
            r matches Ok(handle) && handle is Ohos,
    {
        Ok(ohos_display_handle())
    }

    /// The content area, relative to the window.
    pub fn content_rect(&self, app: AppSnapshot) -> (r: Rect)
        ensures
            r == app.content_rect,
    {
        app.content_rect
    }

    /// The number of the window in the system.
    pub fn window_id(&self) -> (r: Option<i64>)
        ensures
            r == self.window_id,
            r == seen(*self).window_id,
    {
        self.window_id
    }

    /// The display that the window is on.
    pub fn current_monitor(&self, app: AppSnapshot) -> (r: Option<MonitorHandle>)
        ensures
            r == Some(MonitorHandle { app }),
            r == Some(displays(app)[0]),
    {
        Some(MonitorHandle::new(app))
    }

    /// The main display.
    pub fn primary_monitor(&self, app: AppSnapshot) -> (r: Option<MonitorHandle>)
        ensures
            r == Some(MonitorHandle { app }),
            r == Some(displays(app)[0]),
    {
        Some(MonitorHandle::new(app))
    }
}

} // verus!
