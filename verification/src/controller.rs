//! The operations on service panes: creation, the change between embedded
//! and independent, the change of bounds, and show, hide and close. Each
//! decides which native calls have to be made; none makes a call itself.

use crate::address::{spec_address_view, spec_judge, url_parse, validate_url};
use crate::error::{ErrorKind, ViewError, ViewErrorView};
use crate::geometry::{spec_translate, translate, Bounds, Origin};
use crate::operation::{spec_idle, Operation, OperationView};
use crate::platform::{
    attach_calls,
    detach_calls,
    spec_attach_calls,
    spec_detach_calls,
    spec_is_embedded,
    EmbeddingVariant,
    Frame,
    NativeCall,
    PlatformProfile,
    WindowOptions,
};
use crate::registry::{Registry, WindowInfo};
use vstd::prelude::*;

verus! {

/// The main window as the host found it when an operation was requested.
#[derive(Clone, Debug, PartialEq, Eq)]
pub enum MainWindow {
    /// There is no main window.
    Absent,
    /// There is a main window, and this is the origin of its outer frame.
    At(Origin),
    /// There is a main window, but its position could not be read; the text
    /// is the platform's error.
    Unreadable(String),
}

/// The origin of the main window, where it is known.
pub open spec fn spec_origin(main: MainWindow) -> Option<Origin> {
    match main {
        MainWindow::At(origin) => Some(origin),
        _ => None,
    }
}

/// An operation that has not begun: the calls it will make and the verdict
/// it ends with once they are made.
pub open spec fn spec_planned(
    id: Seq<char>,
    url: Seq<char>,
    calls: Seq<NativeCall>,
    verdict: Option<ViewErrorView>,
) -> OperationView {
    OperationView { id, url, calls, cursor: 0, verdict }
}

/// The properties a service window is allocated with: decorated unless
/// embedded, off the task switcher if embedded, hidden, and without the
/// host's handler for dropped files.
pub open spec fn spec_window_options(bounds: Bounds, embedded: bool) -> WindowOptions {
    WindowOptions {
        decorations: !embedded,
        skip_taskbar: embedded,
        visible: false,
        drag_drop_handler: false,
        bounds,
    }
}

/// The calls that tie a pane to the main window when a request asks for it:
/// the platform's attach calls if there is a main window, none if not.
pub open spec fn spec_attach_if_present(variant: EmbeddingVariant, main: MainWindow) -> Seq<
    NativeCall,
> {
    if main is Absent {
        Seq::<NativeCall>::empty()
    } else {
        spec_attach_calls(variant)
    }
}

/// The call that puts a pane in its place: one change of frame to the
/// placement that the bounds translator gives for the main window's origin
/// as it is now. Where an embedded pane needs the origin and it could not be
/// read, there is no such call.
pub open spec fn spec_frame_calls(
    profile: PlatformProfile,
    bounds: Bounds,
    embedded: bool,
    main: MainWindow,
) -> Seq<NativeCall> {
    if embedded && main is Unreadable {
        Seq::<NativeCall>::empty()
    } else {
        seq![
            NativeCall::SetFrame(
                Frame {
                    requested: bounds,
                    placement: spec_translate(
                        bounds,
                        embedded,
                        spec_origin(main),
                        profile.chrome_offset,
                    ),
                },
            ),
        ]
    }
}

/// The error an operation ends with because it could not place a pane: the
/// platform's error text, where an embedded pane needs the main window's
/// origin and it could not be read.
pub open spec fn spec_frame_verdict(embedded: bool, main: MainWindow) -> Option<ViewErrorView> {
    if embedded && main is Unreadable {
        Some(ViewErrorView { kind: ErrorKind::NativeApi, message: main->Unreadable_0@ })
    } else {
        None
    }
}

/// The calls that create a pane: allocate the window, tie it to the main
/// window if it is to be embedded, then put it in its place.
pub open spec fn spec_create_calls(
    profile: PlatformProfile,
    bounds: Bounds,
    embedded: bool,
    main: MainWindow,
) -> Seq<NativeCall> {
    seq![NativeCall::CreateWindow(spec_window_options(bounds, embedded))] + (if embedded {
        spec_attach_if_present(profile.variant, main)
    } else {
        Seq::<NativeCall>::empty()
    }) + spec_frame_calls(profile, bounds, embedded, main)
}

/// Creation. A service that has a window gets no second one: the operation
/// has nothing to do and succeeds. Otherwise an address that is no absolute
/// URL is refused before any call is made.
pub open spec fn spec_create(
    windows: Map<Seq<char>, WindowInfo>,
    profile: PlatformProfile,
    id: Seq<char>,
    address: Result<Seq<char>, ViewErrorView>,
    bounds: Bounds,
    embedded: bool,
    main: MainWindow,
) -> OperationView {
    if windows.contains_key(id) {
        spec_idle(id)
    } else {
        match address {
            Err(error) => spec_planned(
                id,
                Seq::<char>::empty(),
                Seq::<NativeCall>::empty(),
                Some(error),
            ),
            Ok(url) => spec_planned(
                id,
                url,
                spec_create_calls(profile, bounds, embedded, main),
                spec_frame_verdict(embedded, main),
            ),
        }
    }
}

/// The calls that change a pane's mode, made one after the other without
/// rollback: decorations, task switcher, then attach or detach. A request to
/// embed while there is no main window attaches nothing.
pub open spec fn spec_mode_calls(variant: EmbeddingVariant, embedded: bool, main: MainWindow)
    -> Seq<NativeCall> {
    seq![NativeCall::SetDecorations(!embedded), NativeCall::SetSkipTaskbar(embedded)] + (
    if embedded {
        spec_attach_if_present(variant, main)
    } else {
        spec_detach_calls(variant)
    })
}

/// The change of mode. A service without a window is left alone.
pub open spec fn spec_update_mode(
    windows: Map<Seq<char>, WindowInfo>,
    profile: PlatformProfile,
    id: Seq<char>,
    embedded: bool,
    main: MainWindow,
) -> OperationView {
    if windows.contains_key(id) {
        spec_planned(
            id,
            Seq::<char>::empty(),
            spec_mode_calls(profile.variant, embedded, main),
            None,
        )
    } else {
        spec_idle(id)
    }
}

/// The calls that change a pane's bounds. Where windows are only ordered, an
/// embedded pane is first tied to the main window again, so that it stays
/// embedded; then the pane is put in its place.
pub open spec fn spec_bounds_calls(
    profile: PlatformProfile,
    bounds: Bounds,
    embedded: bool,
    main: MainWindow,
) -> Seq<NativeCall> {
    (if embedded && profile.variant == EmbeddingVariant::StackingOnly {
        spec_attach_if_present(profile.variant, main)
    } else {
        Seq::<NativeCall>::empty()
    }) + spec_frame_calls(profile, bounds, embedded, main)
}

/// The change of bounds. Whether the pane is embedded is what the registry
/// says of it now; the placement follows the main window's origin as it is
/// now. A service without a window is left alone.
pub open spec fn spec_update_bounds(
    windows: Map<Seq<char>, WindowInfo>,
    profile: PlatformProfile,
    id: Seq<char>,
    bounds: Bounds,
    main: MainWindow,
) -> OperationView {
    if windows.contains_key(id) {
        let embedded = spec_is_embedded(profile.variant, windows[id].state);
        spec_planned(
            id,
            Seq::<char>::empty(),
            spec_bounds_calls(profile, bounds, embedded, main),
            spec_frame_verdict(embedded, main),
        )
    } else {
        spec_idle(id)
    }
}

/// An operation that makes the same calls on any window there is, and leaves
/// a service without a window alone.
pub open spec fn spec_if_present(
    windows: Map<Seq<char>, WindowInfo>,
    id: Seq<char>,
    calls: Seq<NativeCall>,
) -> OperationView {
    if windows.contains_key(id) {
        spec_planned(id, Seq::<char>::empty(), calls, None)
    } else {
        spec_idle(id)
    }
}

/// Show: make the window visible, then give it input focus.
pub open spec fn spec_show(windows: Map<Seq<char>, WindowInfo>, id: Seq<char>) -> OperationView {
    spec_if_present(windows, id, seq![NativeCall::Show, NativeCall::Focus])
}

/// Hide: hide the window without destroying it.
pub open spec fn spec_hide(windows: Map<Seq<char>, WindowInfo>, id: Seq<char>) -> OperationView {
    spec_if_present(windows, id, seq![NativeCall::Hide])
}

/// Close: destroy the window.
pub open spec fn spec_close(windows: Map<Seq<char>, WindowInfo>, id: Seq<char>) -> OperationView {
    spec_if_present(windows, id, seq![NativeCall::Close])
}

impl MainWindow {
    /// The origin of the main window, where it is known.
    pub fn origin(&self) -> (origin: Option<Origin>)
        ensures
            origin == spec_origin(*self),
    {
        match self {
            MainWindow::At(origin) => Some(*origin),
            _ => None,
        }
    }

    /// Whether there is a main window.
    pub fn is_present(&self) -> (present: bool)
        ensures
            present == !(*self is Absent),
    {
        match self {
            MainWindow::Absent => false,
            _ => true,
        }
    }
}

/// The properties a service window is allocated with.
pub fn window_options(bounds: Bounds, embedded: bool) -> (options: WindowOptions)
    ensures
        options == spec_window_options(bounds, embedded),
{
    WindowOptions {
        decorations: !embedded,
        skip_taskbar: embedded,
        visible: false,
        drag_drop_handler: false,
        bounds,
    }
}

fn attach_if_present(variant: EmbeddingVariant, main: &MainWindow) -> (calls: Vec<NativeCall>)
    ensures
        calls@ == spec_attach_if_present(variant, *main),
{
    if main.is_present() {
        attach_calls(variant)
    } else {
        Vec::new()
    }
}

fn frame_calls(
    profile: PlatformProfile,
    bounds: Bounds,
    embedded: bool,
    main: &MainWindow,
) -> (calls: Vec<NativeCall>)
    ensures
        calls@ == spec_frame_calls(profile, bounds, embedded, *main),
{
    let mut calls: Vec<NativeCall> = Vec::new();
    match main {
        MainWindow::Unreadable(_) if embedded => {},
        _ => {
            let placement = translate(bounds, embedded, main.origin(), profile.chrome_offset);
            calls.push(NativeCall::SetFrame(Frame { requested: bounds, placement }));
        },
    }
    assert(calls@ =~= spec_frame_calls(profile, bounds, embedded, *main));
    calls
}

fn frame_verdict(embedded: bool, main: &MainWindow) -> (verdict: Option<ViewError>)
    ensures
        match verdict {
            Some(error) => spec_frame_verdict(embedded, *main) == Some(error@),
            None => spec_frame_verdict(embedded, *main) is None,
        },
{
    match main {
        MainWindow::Unreadable(text) if embedded => Some(ViewError::native_api(text.clone())),
        _ => None,
    }
}

/// Plans the creation of a pane whose address has been validated.
pub fn create_validated(
    registry: &Registry,
    id: &str,
    address: Result<String, ViewError>,
    bounds: Bounds,
    embedded: bool,
    main: &MainWindow,
) -> (operation: Operation)
    ensures
        operation@ == spec_create(
            registry@,
            registry.spec_profile(),
            id@,
            spec_address_view(address),
            bounds,
            embedded,
            *main,
        ),
{
    if registry.contains(id) {
        return Operation::idle(id);
    }
    match address {
        Err(error) => Operation::new(id, String::new(), Vec::new(), Some(error)),
        Ok(url) => {
            let profile = registry.profile();
            let mut calls: Vec<NativeCall> = Vec::new();
            calls.push(NativeCall::CreateWindow(window_options(bounds, embedded)));
            if embedded {
                let mut attach = attach_if_present(profile.variant, main);
                calls.append(&mut attach);
            }
            let mut frame = frame_calls(profile, bounds, embedded, main);
            calls.append(&mut frame);
            assert(calls@ =~= spec_create_calls(profile, bounds, embedded, *main));
            Operation::new(id, url, calls, frame_verdict(embedded, main))
        },
    }
}

/// Creates the pane of a service: a hidden window that shows `url`, at the
/// given bounds, embedded or independent. A service that has a window gets
/// no second one; an address that is no absolute URL is refused.
pub fn create_service_view(
    registry: &Registry,
    id: &str,
    url: &str,
    x: i32,
    y: i32,
    width: u32,
    height: u32,
    embedded: bool,
    main: &MainWindow,
) -> (operation: Operation)
    ensures
        operation@ == spec_create(
            registry@,
            registry.spec_profile(),
            id@,
            spec_judge(url_parse(url@)),
            Bounds { x, y, width, height },
            embedded,
            *main,
        ),
{
    if registry.contains(id) {
        return Operation::idle(id);
    }
    create_validated(
        registry,
        id,
        validate_url(url),
        Bounds { x, y, width, height },
        embedded,
        main,
    )
}

/// Changes the pane of a service from independent to embedded or back.
pub fn update_service_view_mode(registry: &Registry, id: &str, embedded: bool, main: &MainWindow)
    -> (operation: Operation)
    ensures
        operation@ == spec_update_mode(registry@, registry.spec_profile(), id@, embedded, *main),
{
    if !registry.contains(id) {
        return Operation::idle(id);
    }
    let variant = registry.profile().variant;
    let mut calls: Vec<NativeCall> = Vec::new();
    calls.push(NativeCall::SetDecorations(!embedded));
    calls.push(NativeCall::SetSkipTaskbar(embedded));
    let mut adapter = if embedded {
        attach_if_present(variant, main)
    } else {
        detach_calls(variant)
    };
    calls.append(&mut adapter);
    assert(calls@ =~= spec_mode_calls(variant, embedded, *main));
    Operation::new(id, String::new(), calls, None)
}

/// Moves and resizes the pane of a service.
pub fn update_service_view_bounds(
    registry: &Registry,
    id: &str,
    x: i32,
    y: i32,
    width: u32,
    height: u32,
    main: &MainWindow,
) -> (operation: Operation)
    ensures
        operation@ == spec_update_bounds(
            registry@,
            registry.spec_profile(),
            id@,
            Bounds { x, y, width, height },
            *main,
        ),
{
    match registry.info(id) {
        None => Operation::idle(id),
        Some(info) => {
            let profile = registry.profile();
            let bounds = Bounds { x, y, width, height };
            let embedded = info.state.is_embedded(profile.variant);
            let mut calls: Vec<NativeCall> = Vec::new();
            if embedded {
                match profile.variant {
                    EmbeddingVariant::StackingOnly => {
                        let mut attach = attach_if_present(profile.variant, main);
                        calls.append(&mut attach);
                    },
                    _ => {},
                }
            }
            let mut frame = frame_calls(profile, bounds, embedded, main);
            calls.append(&mut frame);
            assert(calls@ =~= spec_bounds_calls(profile, bounds, embedded, *main));
            Operation::new(id, String::new(), calls, frame_verdict(embedded, main))
        },
    }
}

fn if_present(registry: &Registry, id: &str, calls: Vec<NativeCall>) -> (operation: Operation)
    ensures
        operation@ == spec_if_present(registry@, id@, calls@),
{
    if registry.contains(id) {
        Operation::new(id, String::new(), calls, None)
    } else {
        Operation::idle(id)
    }
}

/// Makes the pane of a service visible and gives it input focus.
pub fn show_service_view(registry: &Registry, id: &str) -> (operation: Operation)
    ensures
        operation@ == spec_show(registry@, id@),
{
    let mut calls: Vec<NativeCall> = Vec::new();
    calls.push(NativeCall::Show);
    calls.push(NativeCall::Focus);
    assert(calls@ =~= seq![NativeCall::Show, NativeCall::Focus]);
    if_present(registry, id, calls)
}

/// Hides the pane of a service without destroying it.
pub fn hide_service_view(registry: &Registry, id: &str) -> (operation: Operation)
    ensures
        operation@ == spec_hide(registry@, id@),
{
    let mut calls: Vec<NativeCall> = Vec::new();
    calls.push(NativeCall::Hide);
    assert(calls@ =~= seq![NativeCall::Hide]);
    if_present(registry, id, calls)
}

/// Destroys the pane of a service.
pub fn close_service_view(registry: &Registry, id: &str) -> (operation: Operation)
    ensures
        operation@ == spec_close(registry@, id@),
{
    let mut calls: Vec<NativeCall> = Vec::new();
    calls.push(NativeCall::Close);
    assert(calls@ =~= seq![NativeCall::Close]);
    if_present(registry, id, calls)
}

} // verus!
