use service_views::controller::{
    close_service_view, create_service_view, create_validated, hide_service_view,
    show_service_view, update_service_view_bounds, update_service_view_mode, window_options,
    MainWindow,
};
use service_views::error::{ErrorKind, ViewError};
use service_views::geometry::{Bounds, Origin, Placement, ScreenRect, Units};
use service_views::operation::{record_effect, Operation};
use service_views::platform::{
    EmbeddingVariant, Frame, NativeCall, PlatformProfile, StyleChange, WindowOptions,
};
use service_views::registry::Registry;

const ALL: [EmbeddingVariant; 3] =
    [EmbeddingVariant::TrueChild, EmbeddingVariant::StackingOnly, EmbeddingVariant::HintOnly];

fn profile_of(variant: EmbeddingVariant) -> PlatformProfile {
    match variant {
        EmbeddingVariant::TrueChild => PlatformProfile::true_child(),
        EmbeddingVariant::StackingOnly => PlatformProfile::stacking_only(),
        EmbeddingVariant::HintOnly => PlatformProfile::hint_only(),
    }
}

fn main_at(x: i32, y: i32) -> MainWindow {
    MainWindow::At(Origin { x, y })
}

/// Performs every call with success and hands back the calls that were made.
fn run(operation: &mut Operation, registry: &mut Registry) -> Vec<NativeCall> {
    let mut made = Vec::new();
    while let Some(call) = operation.next_call() {
        made.push(call);
        operation.report(registry, Ok(()));
    }
    made
}

/// Performs calls with success until `failing` comes up, which fails.
fn run_until(
    operation: &mut Operation,
    registry: &mut Registry,
    failing: NativeCall,
    text: &str,
) -> Vec<NativeCall> {
    let mut made = Vec::new();
    while let Some(call) = operation.next_call() {
        made.push(call);
        if call == failing {
            operation.report(registry, Err(text.to_string()));
        } else {
            operation.report(registry, Ok(()));
        }
    }
    made
}

fn created(registry: &mut Registry, id: &str, embedded: bool, main: &MainWindow) {
    let mut creation =
        create_service_view(registry, id, "https://x.test", 10, 20, 300, 200, embedded, main);
    run(&mut creation, registry);
    assert_eq!(creation.result(), Some(Ok(())));
}

fn frame(bounds: Bounds, x: i64, y: i64, width: u32, height: u32, units: Units) -> NativeCall {
    NativeCall::SetFrame(Frame {
        requested: bounds,
        placement: Placement { rect: ScreenRect { x, y, width, height }, units },
    })
}

#[test]
fn embedded_creation_places_the_pane_inside_the_main_window() {
    let profile =
        PlatformProfile { variant: EmbeddingVariant::StackingOnly, chrome_offset: 28 };
    let mut registry = Registry::new(profile);
    let bounds = Bounds { x: 10, y: 20, width: 300, height: 200 };
    let mut creation = create_service_view(
        &registry,
        "A",
        "https://x.test",
        10,
        20,
        300,
        200,
        true,
        &main_at(100, 100),
    );
    assert_eq!(creation.id(), "A");
    assert_eq!(creation.url(), "https://x.test/");
    assert_eq!(creation.label(), "service-A");
    assert_eq!(creation.data_directory(), "service_data_A");
    assert_eq!(creation.completed(), 0);
    assert_eq!(creation.result(), None);
    assert!(!creation.is_finished());

    let planned = creation.calls();
    let made = run(&mut creation, &mut registry);
    assert_eq!(made, planned);
    assert_eq!(
        made,
        vec![
            NativeCall::CreateWindow(WindowOptions {
                decorations: false,
                skip_taskbar: true,
                visible: false,
                drag_drop_handler: false,
                bounds,
            }),
            NativeCall::AddChildWindow,
            NativeCall::SetBorderless,
            NativeCall::SetMovable(false),
            NativeCall::SetMovableByBackground(false),
            NativeCall::SetShadow(false),
            frame(bounds, 110, 148, 300, 172, Units::Physical),
        ]
    );
    assert!(creation.is_finished());
    assert_eq!(creation.completed(), 7);
    assert_eq!(creation.result(), Some(Ok(())));

    let record = registry.lookup("A").unwrap();
    assert!(record.embedded);
    assert!(!record.state.visible);
    assert!(!record.state.decorations);
    assert!(record.state.skip_taskbar);
    assert_eq!(record.bounds, bounds);
    assert_eq!(registry.len(), 1);
}

#[test]
fn independent_creation_on_each_platform() {
    for variant in ALL {
        let mut registry = Registry::new(profile_of(variant));
        let bounds = Bounds { x: 10, y: 20, width: 300, height: 200 };
        let mut creation = create_service_view(
            &registry,
            "A",
            "https://x.test",
            10,
            20,
            300,
            200,
            false,
            &main_at(100, 100),
        );
        let made = run(&mut creation, &mut registry);
        assert_eq!(
            made,
            vec![
                NativeCall::CreateWindow(window_options(bounds, false)),
                frame(bounds, 10, 20, 300, 200, Units::Logical),
            ]
        );
        assert_eq!(creation.result(), Some(Ok(())));
        let record = registry.lookup("A").unwrap();
        assert!(!record.embedded);
        assert!(record.state.decorations);
        assert!(!record.state.skip_taskbar);
        assert!(!record.state.tied);
        assert!(!record.state.visible);
    }
}

#[test]
fn embedded_creation_on_each_platform() {
    let bounds = Bounds { x: 10, y: 20, width: 300, height: 200 };
    let expected = [
        (
            EmbeddingVariant::TrueChild,
            vec![NativeCall::SetParentToMain, NativeCall::Restyle(StyleChange::ToChild)],
            frame(bounds, 110, 120, 300, 200, Units::Physical),
        ),
        (
            EmbeddingVariant::StackingOnly,
            vec![
                NativeCall::AddChildWindow,
                NativeCall::SetBorderless,
                NativeCall::SetMovable(false),
                NativeCall::SetMovableByBackground(false),
                NativeCall::SetShadow(false),
            ],
            frame(bounds, 110, 180, 300, 140, Units::Physical),
        ),
        (
            EmbeddingVariant::HintOnly,
            vec![NativeCall::SetTransientForMain],
            frame(bounds, 110, 120, 300, 200, Units::Physical),
        ),
    ];
    for (variant, attach, placed) in expected {
        let mut registry = Registry::new(profile_of(variant));
        let mut creation = create_service_view(
            &registry,
            "A",
            "https://x.test",
            10,
            20,
            300,
            200,
            true,
            &main_at(100, 100),
        );
        let made = run(&mut creation, &mut registry);
        let mut calls = vec![NativeCall::CreateWindow(window_options(bounds, true))];
        calls.extend(attach);
        calls.push(placed);
        assert_eq!(made, calls);
        assert!(registry.lookup("A").unwrap().embedded);
    }
}

#[test]
fn embedded_creation_without_a_main_window_attaches_nothing() {
    for variant in ALL {
        let mut registry = Registry::new(profile_of(variant));
        let bounds = Bounds { x: 10, y: 20, width: 300, height: 200 };
        let mut creation = create_service_view(
            &registry,
            "A",
            "https://x.test",
            10,
            20,
            300,
            200,
            true,
            &MainWindow::Absent,
        );
        let made = run(&mut creation, &mut registry);
        assert_eq!(
            made,
            vec![
                NativeCall::CreateWindow(window_options(bounds, true)),
                frame(bounds, 10, 20, 300, 200, Units::Logical),
            ]
        );
        assert_eq!(creation.result(), Some(Ok(())));
        let record = registry.lookup("A").unwrap();
        assert!(!record.embedded);
        assert!(!record.state.decorations);
        assert!(record.state.skip_taskbar);
    }
}

#[test]
fn creation_twice_gives_one_window_and_no_error() {
    for variant in ALL {
        let mut registry = Registry::new(profile_of(variant));
        created(&mut registry, "A", true, &main_at(100, 100));
        let before = registry.lookup("A").unwrap();

        let mut second = create_service_view(
            &registry,
            "A",
            "https://other.test",
            1,
            2,
            3,
            4,
            false,
            &MainWindow::Absent,
        );
        assert_eq!(second.next_call(), None);
        assert!(second.is_finished());
        assert_eq!(second.result(), Some(Ok(())));
        assert_eq!(second.url(), "");
        assert_eq!(run(&mut second, &mut registry), vec![]);
        assert_eq!(registry.len(), 1);
        assert_eq!(registry.lookup("A").unwrap(), before);

        // Not even a bad address is looked at when the window exists.
        let third =
            create_service_view(&registry, "A", "no url", 1, 2, 3, 4, false, &MainWindow::Absent);
        assert_eq!(third.result(), Some(Ok(())));
    }
}

#[test]
fn creation_refuses_an_address_that_is_no_absolute_url() {
    let mut registry = Registry::new(PlatformProfile::true_child());
    let mut creation =
        create_service_view(&registry, "A", "not a url", 10, 20, 300, 200, true, &main_at(0, 0));
    assert_eq!(creation.next_call(), None);
    assert_eq!(
        creation.result(),
        Some(Err(ViewError {
            kind: ErrorKind::InvalidUrl,
            message: "RelativeUrlWithoutBase".to_string(),
        }))
    );
    assert_eq!(run(&mut creation, &mut registry), vec![]);
    assert_eq!(registry.len(), 0);
    assert!(!registry.contains("A"));

    let empty_host =
        create_service_view(&registry, "A", "http://", 10, 20, 300, 200, false, &main_at(0, 0));
    assert_eq!(
        empty_host.result(),
        Some(Err(ViewError { kind: ErrorKind::InvalidUrl, message: "EmptyHost".to_string() }))
    );
}

#[test]
fn creation_from_a_validated_address() {
    let registry = Registry::new(PlatformProfile::hint_only());
    let bounds = Bounds { x: 1, y: 2, width: 3, height: 4 };
    let accepted = create_validated(
        &registry,
        "A",
        Ok("https://x.test/".to_string()),
        bounds,
        false,
        &MainWindow::Absent,
    );
    assert_eq!(accepted.url(), "https://x.test/");
    assert_eq!(
        accepted.calls(),
        vec![
            NativeCall::CreateWindow(window_options(bounds, false)),
            frame(bounds, 1, 2, 3, 4, Units::Logical),
        ]
    );
    let refused = create_validated(
        &registry,
        "A",
        Err(ViewError::invalid_url("EmptyHost".to_string())),
        bounds,
        false,
        &MainWindow::Absent,
    );
    assert_eq!(refused.calls(), vec![]);
    assert_eq!(refused.result(), Some(Err(ViewError::invalid_url("EmptyHost".to_string()))));
}

#[test]
fn failed_allocation_leaves_no_record() {
    let mut registry = Registry::new(PlatformProfile::true_child());
    let bounds = Bounds { x: 10, y: 20, width: 300, height: 200 };
    let mut creation = create_service_view(
        &registry,
        "A",
        "https://x.test",
        10,
        20,
        300,
        200,
        true,
        &main_at(0, 0),
    );
    let made = run_until(
        &mut creation,
        &mut registry,
        NativeCall::CreateWindow(window_options(bounds, true)),
        "out of handles",
    );
    assert_eq!(made.len(), 1);
    assert_eq!(
        creation.result(),
        Some(Err(ViewError::native_api("out of handles".to_string())))
    );
    assert_eq!(creation.calls(), vec![]);
    assert_eq!(creation.completed(), 0);
    assert!(!registry.contains("A"));

    // A later creation starts afresh.
    let again = create_service_view(
        &registry,
        "A",
        "https://x.test",
        10,
        20,
        300,
        200,
        true,
        &main_at(0, 0),
    );
    assert_eq!(again.next_call(), Some(NativeCall::CreateWindow(window_options(bounds, true))));
}

#[test]
fn failed_attach_after_allocation_keeps_the_window() {
    let mut registry = Registry::new(PlatformProfile::true_child());
    let mut creation = create_service_view(
        &registry,
        "A",
        "https://x.test",
        10,
        20,
        300,
        200,
        true,
        &main_at(0, 0),
    );
    let made = run_until(
        &mut creation,
        &mut registry,
        NativeCall::Restyle(StyleChange::ToChild),
        "access denied",
    );
    assert_eq!(made.len(), 3);
    assert_eq!(creation.completed(), 2);
    assert_eq!(creation.result(), Some(Err(ViewError::native_api("access denied".to_string()))));
    let record = registry.lookup("A").unwrap();
    assert!(record.state.tied);
    assert!(!record.state.child_style);
    assert!(!record.embedded);
    // Reports after the end change nothing.
    creation.report(&mut registry, Ok(()));
    assert_eq!(creation.completed(), 2);
    assert_eq!(registry.lookup("A").unwrap(), record);
}

#[test]
fn unreadable_main_window_fails_an_embedded_creation_after_the_attach() {
    let mut registry = Registry::new(PlatformProfile::stacking_only());
    let main = MainWindow::Unreadable("position unavailable".to_string());
    let mut creation =
        create_service_view(&registry, "A", "https://x.test", 10, 20, 300, 200, true, &main);
    let made = run(&mut creation, &mut registry);
    assert_eq!(made.len(), 6);
    assert_eq!(
        creation.result(),
        Some(Err(ViewError::native_api("position unavailable".to_string())))
    );
    assert!(registry.lookup("A").unwrap().embedded);

    // An independent pane does not need the origin.
    let mut independent =
        create_service_view(&registry, "B", "https://x.test", 10, 20, 300, 200, false, &main);
    assert_eq!(run(&mut independent, &mut registry).len(), 2);
    assert_eq!(independent.result(), Some(Ok(())));
}

#[test]
fn operations_on_an_unknown_service_do_nothing_and_succeed() {
    for variant in ALL {
        let mut registry = Registry::new(profile_of(variant));
        created(&mut registry, "known", false, &main_at(0, 0));
        let before = registry.lookup("known").unwrap();
        let main = main_at(5, 5);
        let mut operations = vec![
            show_service_view(&registry, "ghost"),
            hide_service_view(&registry, "ghost"),
            close_service_view(&registry, "ghost"),
            update_service_view_mode(&registry, "ghost", true, &main),
            update_service_view_mode(&registry, "ghost", false, &main),
            update_service_view_bounds(&registry, "ghost", 1, 2, 3, 4, &main),
            update_service_view_bounds(
                &registry,
                "ghost",
                1,
                2,
                3,
                4,
                &MainWindow::Unreadable("no position".to_string()),
            ),
        ];
        for operation in operations.iter_mut() {
            assert_eq!(operation.next_call(), None);
            assert_eq!(operation.result(), Some(Ok(())));
            operation.report(&mut registry, Err("ignored".to_string()));
            operation.report(&mut registry, Ok(()));
            assert_eq!(operation.result(), Some(Ok(())));
        }
        assert_eq!(registry.len(), 1);
        assert_eq!(registry.lookup("known").unwrap(), before);
    }
}

#[test]
fn mode_there_and_back() {
    for variant in ALL {
        let mut registry = Registry::new(profile_of(variant));
        created(&mut registry, "A", false, &main_at(0, 0));
        let start = registry.lookup("A").unwrap();

        let mut embed = update_service_view_mode(&registry, "A", true, &main_at(0, 0));
        let made = run(&mut embed, &mut registry);
        assert_eq!(made[0], NativeCall::SetDecorations(false));
        assert_eq!(made[1], NativeCall::SetSkipTaskbar(true));
        assert_eq!(embed.result(), Some(Ok(())));
        let between = registry.lookup("A").unwrap();
        assert!(between.embedded);
        assert!(between.state.tied);
        assert!(!between.state.decorations);
        assert!(between.state.skip_taskbar);

        let mut release = update_service_view_mode(&registry, "A", false, &main_at(0, 0));
        let made = run(&mut release, &mut registry);
        assert_eq!(made[0], NativeCall::SetDecorations(true));
        assert_eq!(made[1], NativeCall::SetSkipTaskbar(false));
        assert_eq!(release.result(), Some(Ok(())));
        let after = registry.lookup("A").unwrap();
        assert!(!after.embedded);
        assert!(after.state.decorations);
        assert!(!after.state.skip_taskbar);
        assert!(!after.state.tied);
        assert_eq!(after, start);
    }
}

#[test]
fn mode_calls_on_each_platform() {
    let mut registry = Registry::new(PlatformProfile::true_child());
    created(&mut registry, "A", false, &main_at(0, 0));
    assert_eq!(
        update_service_view_mode(&registry, "A", true, &main_at(0, 0)).calls(),
        vec![
            NativeCall::SetDecorations(false),
            NativeCall::SetSkipTaskbar(true),
            NativeCall::SetParentToMain,
            NativeCall::Restyle(StyleChange::ToChild),
        ]
    );
    assert_eq!(
        update_service_view_mode(&registry, "A", false, &MainWindow::Absent).calls(),
        vec![
            NativeCall::SetDecorations(true),
            NativeCall::SetSkipTaskbar(false),
            NativeCall::ClearParent,
            NativeCall::Restyle(StyleChange::ToPopup),
        ]
    );
    assert_eq!(
        update_service_view_mode(&registry, "A", true, &MainWindow::Absent).calls(),
        vec![NativeCall::SetDecorations(false), NativeCall::SetSkipTaskbar(true)]
    );
    // The attach needs the main window, not its position.
    assert_eq!(
        update_service_view_mode(
            &registry,
            "A",
            true,
            &MainWindow::Unreadable("no position".to_string())
        )
        .calls()
        .len(),
        4
    );

    let mut registry = Registry::new(PlatformProfile::stacking_only());
    created(&mut registry, "A", false, &main_at(0, 0));
    assert_eq!(
        update_service_view_mode(&registry, "A", false, &main_at(0, 0)).calls(),
        vec![
            NativeCall::SetDecorations(true),
            NativeCall::SetSkipTaskbar(false),
            NativeCall::RemoveChildWindow,
            NativeCall::SetMovable(true),
            NativeCall::SetShadow(true),
        ]
    );

    let mut registry = Registry::new(PlatformProfile::hint_only());
    created(&mut registry, "A", false, &main_at(0, 0));
    assert_eq!(
        update_service_view_mode(&registry, "A", true, &main_at(0, 0)).calls(),
        vec![
            NativeCall::SetDecorations(false),
            NativeCall::SetSkipTaskbar(true),
            NativeCall::SetTransientForMain,
        ]
    );
}

#[test]
fn failed_attach_is_not_rolled_back() {
    let mut registry = Registry::new(PlatformProfile::true_child());
    created(&mut registry, "A", false, &main_at(0, 0));
    let mut embed = update_service_view_mode(&registry, "A", true, &main_at(0, 0));
    let made = run_until(&mut embed, &mut registry, NativeCall::SetParentToMain, "E_FAIL");
    assert_eq!(made.len(), 3);
    assert_eq!(embed.result(), Some(Err(ViewError::native_api("E_FAIL".to_string()))));
    assert_eq!(embed.next_call(), None);
    let record = registry.lookup("A").unwrap();
    assert!(!record.state.decorations);
    assert!(record.state.skip_taskbar);
    assert!(!record.state.tied);
    assert!(!record.embedded);

    // The caller tries again; the same calls are made from the start.
    let mut retry = update_service_view_mode(&registry, "A", true, &main_at(0, 0));
    assert_eq!(run(&mut retry, &mut registry).len(), 4);
    assert_eq!(retry.result(), Some(Ok(())));
    assert!(registry.lookup("A").unwrap().embedded);
}

#[test]
fn failed_first_step_changes_nothing() {
    let mut registry = Registry::new(PlatformProfile::stacking_only());
    created(&mut registry, "A", true, &main_at(0, 0));
    let before = registry.lookup("A").unwrap();
    let mut release = update_service_view_mode(&registry, "A", false, &main_at(0, 0));
    run_until(&mut release, &mut registry, NativeCall::SetDecorations(true), "denied");
    assert_eq!(release.completed(), 0);
    assert_eq!(release.result(), Some(Err(ViewError::native_api("denied".to_string()))));
    assert_eq!(registry.lookup("A").unwrap(), before);
    assert!(before.embedded);
}

#[test]
fn failed_hint_is_passed_over() {
    let mut registry = Registry::new(PlatformProfile::hint_only());
    created(&mut registry, "A", false, &main_at(0, 0));
    let mut embed = update_service_view_mode(&registry, "A", true, &main_at(0, 0));
    let made = run_until(&mut embed, &mut registry, NativeCall::SetTransientForMain, "no window");
    assert_eq!(made.len(), 3);
    assert_eq!(embed.completed(), 3);
    assert_eq!(embed.result(), Some(Ok(())));
    let record = registry.lookup("A").unwrap();
    assert!(!record.state.tied);
    assert!(!record.embedded);
    assert!(!record.state.decorations);
    assert!(record.state.skip_taskbar);
}

#[test]
fn bounds_of_an_embedded_pane_follow_the_main_window_as_it_is_now() {
    let profile =
        PlatformProfile { variant: EmbeddingVariant::HintOnly, chrome_offset: 28 };
    let mut registry = Registry::new(profile);
    created(&mut registry, "A", true, &main_at(100, 100));
    let bounds = Bounds { x: 10, y: 20, width: 300, height: 200 };

    // The main window has moved since the pane was created.
    let mut change =
        update_service_view_bounds(&registry, "A", 10, 20, 300, 200, &main_at(500, 40));
    let made = run(&mut change, &mut registry);
    assert_eq!(made, vec![frame(bounds, 510, 88, 300, 172, Units::Physical)]);
    assert_eq!(change.result(), Some(Ok(())));

    let moved = Bounds { x: 0, y: 0, width: 50, height: 20 };
    let mut change = update_service_view_bounds(&registry, "A", 0, 0, 50, 20, &main_at(-7, -9));
    let made = run(&mut change, &mut registry);
    assert_eq!(made, vec![frame(moved, -7, 19, 50, 20, Units::Physical)]);
    assert_eq!(registry.lookup("A").unwrap().bounds, moved);
    assert!(registry.lookup("A").unwrap().embedded);
}

#[test]
fn bounds_of_an_independent_pane_are_taken_as_they_are() {
    for variant in ALL {
        let mut registry = Registry::new(profile_of(variant));
        created(&mut registry, "A", false, &main_at(100, 100));
        let bounds = Bounds { x: -4, y: 9, width: 800, height: 600 };
        let mut change =
            update_service_view_bounds(&registry, "A", -4, 9, 800, 600, &main_at(500, 40));
        let made = run(&mut change, &mut registry);
        assert_eq!(made, vec![frame(bounds, -4, 9, 800, 600, Units::Logical)]);
        assert_eq!(registry.lookup("A").unwrap().bounds, bounds);

        let unreadable = MainWindow::Unreadable("no position".to_string());
        let mut change = update_service_view_bounds(&registry, "A", 1, 1, 2, 2, &unreadable);
        assert_eq!(run(&mut change, &mut registry).len(), 1);
        assert_eq!(change.result(), Some(Ok(())));
    }
}

#[test]
fn bounds_change_where_windows_are_only_ordered_ties_the_pane_again() {
    let mut registry = Registry::new(PlatformProfile::stacking_only());
    created(&mut registry, "A", true, &main_at(100, 100));
    let bounds = Bounds { x: 10, y: 20, width: 300, height: 200 };
    let mut change = update_service_view_bounds(&registry, "A", 10, 20, 300, 200, &main_at(1, 2));
    let made = run(&mut change, &mut registry);
    assert_eq!(
        made,
        vec![
            NativeCall::AddChildWindow,
            NativeCall::SetBorderless,
            NativeCall::SetMovable(false),
            NativeCall::SetMovableByBackground(false),
            NativeCall::SetShadow(false),
            frame(bounds, 11, 82, 300, 140, Units::Physical),
        ]
    );

    let unreadable = MainWindow::Unreadable("no position".to_string());
    let mut change = update_service_view_bounds(&registry, "A", 0, 0, 1, 1, &unreadable);
    assert_eq!(run(&mut change, &mut registry).len(), 5);
    assert_eq!(change.result(), Some(Err(ViewError::native_api("no position".to_string()))));
    assert_eq!(registry.lookup("A").unwrap().bounds, bounds);

    let mut change = update_service_view_bounds(&registry, "A", 3, 4, 5, 6, &MainWindow::Absent);
    let fallback = Bounds { x: 3, y: 4, width: 5, height: 6 };
    assert_eq!(run(&mut change, &mut registry), vec![frame(fallback, 3, 4, 5, 6, Units::Logical)]);
}

#[test]
fn failed_move_keeps_the_recorded_bounds() {
    let mut registry = Registry::new(PlatformProfile::true_child());
    created(&mut registry, "A", false, &main_at(0, 0));
    let before = registry.lookup("A").unwrap();
    let bounds = Bounds { x: 1, y: 2, width: 3, height: 4 };
    let mut change = update_service_view_bounds(&registry, "A", 1, 2, 3, 4, &main_at(0, 0));
    run_until(
        &mut change,
        &mut registry,
        frame(bounds, 1, 2, 3, 4, Units::Logical),
        "invalid size",
    );
    assert_eq!(change.result(), Some(Err(ViewError::native_api("invalid size".to_string()))));
    assert_eq!(registry.lookup("A").unwrap(), before);
}

#[test]
fn show_and_hide() {
    let mut registry = Registry::new(PlatformProfile::true_child());
    created(&mut registry, "A", true, &main_at(0, 0));
    assert!(!registry.lookup("A").unwrap().state.visible);

    let mut show = show_service_view(&registry, "A");
    assert_eq!(run(&mut show, &mut registry), vec![NativeCall::Show, NativeCall::Focus]);
    assert_eq!(show.result(), Some(Ok(())));
    assert!(registry.lookup("A").unwrap().state.visible);

    let mut hide = hide_service_view(&registry, "A");
    assert_eq!(run(&mut hide, &mut registry), vec![NativeCall::Hide]);
    assert!(!registry.lookup("A").unwrap().state.visible);
    assert!(registry.contains("A"));
    assert!(registry.lookup("A").unwrap().embedded);

    let mut show = show_service_view(&registry, "A");
    run_until(&mut show, &mut registry, NativeCall::Focus, "no focus");
    assert_eq!(show.result(), Some(Err(ViewError::native_api("no focus".to_string()))));
    assert!(registry.lookup("A").unwrap().state.visible);
}

#[test]
fn close_then_create_starts_afresh() {
    for variant in ALL {
        let mut registry = Registry::new(profile_of(variant));
        created(&mut registry, "A", true, &main_at(0, 0));
        created(&mut registry, "B", false, &main_at(0, 0));
        let other = registry.lookup("B").unwrap();

        let mut close = close_service_view(&registry, "A");
        assert_eq!(run(&mut close, &mut registry), vec![NativeCall::Close]);
        assert_eq!(close.result(), Some(Ok(())));
        assert!(!registry.contains("A"));
        assert_eq!(registry.len(), 1);
        assert_eq!(registry.lookup("B").unwrap(), other);

        let bounds = Bounds { x: 1, y: 2, width: 3, height: 4 };
        let mut again = create_service_view(
            &registry,
            "A",
            "https://y.test",
            1,
            2,
            3,
            4,
            false,
            &main_at(0, 0),
        );
        assert_eq!(
            again.next_call(),
            Some(NativeCall::CreateWindow(window_options(bounds, false)))
        );
        assert_eq!(again.url(), "https://y.test/");
        run(&mut again, &mut registry);
        let record = registry.lookup("A").unwrap();
        assert!(!record.embedded);
        assert_eq!(record.bounds, bounds);
        assert_eq!(registry.len(), 2);
    }
}

#[test]
fn failed_close_keeps_the_record() {
    let mut registry = Registry::new(PlatformProfile::true_child());
    created(&mut registry, "A", false, &main_at(0, 0));
    let mut close = close_service_view(&registry, "A");
    run_until(&mut close, &mut registry, NativeCall::Close, "busy");
    assert_eq!(close.result(), Some(Err(ViewError::native_api("busy".to_string()))));
    assert!(registry.contains("A"));
}

#[test]
fn operations_on_different_services_may_interleave() {
    let mut registry = Registry::new(PlatformProfile::true_child());
    let mut first =
        create_service_view(&registry, "A", "https://a.test", 0, 0, 10, 10, true, &main_at(0, 0));
    let mut second =
        create_service_view(&registry, "B", "https://b.test", 5, 5, 20, 20, false, &main_at(0, 0));
    while !first.is_finished() || !second.is_finished() {
        first.report(&mut registry, Ok(()));
        second.report(&mut registry, Ok(()));
    }
    assert_eq!(registry.len(), 2);
    assert!(registry.lookup("A").unwrap().embedded);
    assert!(!registry.lookup("B").unwrap().embedded);
    assert_eq!(registry.lookup("B").unwrap().bounds, Bounds { x: 5, y: 5, width: 20, height: 20 });
}

#[test]
fn two_creations_of_one_service_in_flight_give_one_record() {
    let mut registry = Registry::new(PlatformProfile::hint_only());
    let mut first =
        create_service_view(&registry, "A", "https://a.test", 0, 0, 10, 10, false, &main_at(0, 0));
    let mut second =
        create_service_view(&registry, "A", "https://a.test", 9, 9, 90, 90, false, &main_at(0, 0));
    first.report(&mut registry, Ok(()));
    second.report(&mut registry, Ok(()));
    assert_eq!(registry.len(), 1);
    assert_eq!(registry.lookup("A").unwrap().bounds, Bounds { x: 0, y: 0, width: 10, height: 10 });
}

#[test]
fn effects_of_single_calls() {
    let mut registry = Registry::new(PlatformProfile::true_child());
    let bounds = Bounds { x: 1, y: 2, width: 3, height: 4 };
    record_effect(&mut registry, "A", NativeCall::Show);
    assert_eq!(registry.len(), 0);
    record_effect(&mut registry, "A", NativeCall::CreateWindow(window_options(bounds, false)));
    assert_eq!(registry.lookup("A").unwrap().bounds, bounds);
    let other = Bounds { x: 9, y: 9, width: 9, height: 9 };
    record_effect(&mut registry, "A", NativeCall::CreateWindow(window_options(other, true)));
    assert_eq!(registry.lookup("A").unwrap().bounds, bounds);
    assert!(registry.lookup("A").unwrap().state.decorations);
    record_effect(&mut registry, "A", frame(other, 0, 0, 9, 9, Units::Logical));
    assert_eq!(registry.lookup("A").unwrap().bounds, other);
    record_effect(&mut registry, "A", NativeCall::Close);
    assert!(!registry.contains("A"));
}

#[test]
fn main_window_as_the_host_found_it() {
    assert_eq!(main_at(3, 4).origin(), Some(Origin { x: 3, y: 4 }));
    assert_eq!(MainWindow::Absent.origin(), None);
    assert_eq!(MainWindow::Unreadable("x".to_string()).origin(), None);
    assert!(main_at(3, 4).is_present());
    assert!(MainWindow::Unreadable("x".to_string()).is_present());
    assert!(!MainWindow::Absent.is_present());
}

#[test]
fn idle_operation() {
    let idle = Operation::idle("A");
    assert_eq!(idle.id(), "A");
    assert_eq!(idle.url(), "");
    assert_eq!(idle.calls(), vec![]);
    assert_eq!(idle.next_call(), None);
    assert!(idle.is_finished());
    assert_eq!(idle.result(), Some(Ok(())));
}
