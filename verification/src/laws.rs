//! What holds of the operations as a whole: of a creation that is asked for
//! twice, of a pane that is embedded and released again, of a service that
//! has no window, of a pane that is moved after the main window moved, and
//! of a window that is closed and created again.

use crate::controller::{
    spec_attach_if_present,
    spec_bounds_calls,
    spec_close,
    spec_create,
    spec_create_calls,
    spec_frame_calls,
    spec_hide,
    spec_mode_calls,
    spec_origin,
    spec_show,
    spec_update_bounds,
    spec_update_mode,
    spec_window_options,
    MainWindow,
};
use crate::error::{ErrorKind, ViewErrorView};
use crate::geometry::{spec_translate, Bounds, Origin};
use crate::operation::{
    spec_advance,
    spec_after_call,
    spec_effect,
    spec_effects,
    spec_idle,
    spec_next_call,
    spec_result,
    spec_settle,
    OperationView,
};
use crate::platform::{
    lemma_attach_result,
    lemma_detach_result,
    spec_apply_all,
    spec_apply_prefix,
    spec_attach_calls,
    spec_detach_calls,
    spec_initial_state,
    spec_is_attached,
    spec_is_best_effort,
    spec_is_embedded,
    EmbeddingVariant,
    Frame,
    NativeCall,
    PlatformProfile,
    WindowState,
};
use crate::registry::WindowInfo;
use vstd::prelude::*;

verus! {

/// What is known of a window after the first `count` of `calls` on it
/// succeeded.
pub open spec fn spec_after_calls(info: WindowInfo, calls: Seq<NativeCall>, count: nat)
    -> WindowInfo
    decreases count,
{
    if count == 0 {
        info
    } else {
        spec_after_call(spec_after_calls(info, calls, (count - 1) as nat), calls[count - 1])
    }
}

/// The operation and the registry after the host reported `count` successes
/// in a row.
pub open spec fn spec_after_successes(
    operation: OperationView,
    windows: Map<Seq<char>, WindowInfo>,
    count: nat,
) -> (OperationView, Map<Seq<char>, WindowInfo>)
    decreases count,
{
    if count == 0 {
        (operation, windows)
    } else {
        let before = spec_after_successes(operation, windows, (count - 1) as nat);
        (spec_advance(before.0, Ok(())), spec_settle(before.0, before.1, Ok(())))
    }
}

/// The state that the registry holds of a window follows the calls that
/// succeeded, one by one.
pub proof fn lemma_state_follows_calls(info: WindowInfo, calls: Seq<NativeCall>, count: nat)
    ensures
        spec_after_calls(info, calls, count).state == spec_apply_prefix(info.state, calls, count),
    decreases count,
{
    if count > 0 {
        lemma_state_follows_calls(info, calls, (count - 1) as nat);
    }
}

/// Calls that do not destroy the window keep its record: the registry holds
/// the same services as before, the record of the window follows the calls,
/// and no other record changes.
pub proof fn lemma_effects_keep_record(
    windows: Map<Seq<char>, WindowInfo>,
    id: Seq<char>,
    calls: Seq<NativeCall>,
    count: nat,
)
    requires
        windows.contains_key(id),
        count <= calls.len(),
        forall|i: int| 0 <= i < count ==> !(#[trigger] calls[i] is Close),
    ensures
        spec_effects(windows, id, calls, count) == windows.insert(
            id,
            spec_after_calls(windows[id], calls, count),
        ),
    decreases count,
{
    if count == 0 {
        assert(windows =~= windows.insert(id, windows[id]));
    } else {
        let earlier = (count - 1) as nat;
        lemma_effects_keep_record(windows, id, calls, earlier);
        let before = spec_effects(windows, id, calls, earlier);
        let call = calls[count - 1];
        assert(!(call is Close));
        assert(before.contains_key(id));
        assert(spec_effect(before, id, call) =~= windows.insert(
            id,
            spec_after_call(before[id], call),
        ));
    }
}

/// A record comes with its window and goes with it: only the allocation of
/// a window adds the record of a service and only its destruction deletes
/// it. And a call on the window of one service leaves the record of every
/// other service as it is.
pub proof fn law_effects_are_local(
    windows: Map<Seq<char>, WindowInfo>,
    id: Seq<char>,
    call: NativeCall,
    other: Seq<char>,
)
    requires
        other != id,
    ensures
        spec_effect(windows, id, call).contains_key(id) == (if call is CreateWindow {
            true
        } else if call is Close {
            false
        } else {
            windows.contains_key(id)
        }),
        spec_effect(windows, id, call).contains_key(other) == windows.contains_key(other),
        windows.contains_key(other) ==> spec_effect(windows, id, call)[other] == windows[other],
{
}

/// Reports of success add up: after `count` of them the operation is
/// `count` calls further and the registry holds the effects of those calls.
pub proof fn law_successes_add_up(
    operation: OperationView,
    windows: Map<Seq<char>, WindowInfo>,
    count: nat,
)
    requires
        operation.cursor == 0,
        count <= operation.calls.len(),
    ensures
        spec_after_successes(operation, windows, count) == (
            OperationView { cursor: count, ..operation },
            spec_effects(windows, operation.id, operation.calls, count),
        ),
    decreases count,
{
    if count > 0 {
        law_successes_add_up(operation, windows, (count - 1) as nat);
    }
}

/// A call that fails, unless it is best effort, ends the operation with the
/// platform's error text. The registry keeps what the earlier calls did and
/// learns nothing from the failed one: nothing is rolled back.
pub proof fn law_failure_ends_without_rollback(
    operation: OperationView,
    windows: Map<Seq<char>, WindowInfo>,
    text: String,
)
    requires
        operation.cursor < operation.calls.len(),
        !spec_is_best_effort(operation.calls[operation.cursor as int]),
    ensures
        spec_result(spec_advance(operation, Err(text))) == Some(
            Err::<(), ViewErrorView>(
                ViewErrorView { kind: ErrorKind::NativeApi, message: text@ },
            ),
        ),
        spec_next_call(spec_advance(operation, Err(text))) is None,
        spec_settle(operation, windows, Err(text)) == windows,
{
}

/// The failure of a best-effort call is passed over: the operation goes on
/// with the next call and the registry learns nothing.
pub proof fn law_best_effort_failure_is_passed_over(
    operation: OperationView,
    windows: Map<Seq<char>, WindowInfo>,
    text: String,
)
    requires
        operation.cursor < operation.calls.len(),
        spec_is_best_effort(operation.calls[operation.cursor as int]),
    ensures
        spec_advance(operation, Err(text)) == (OperationView {
            cursor: operation.cursor + 1,
            ..operation
        }),
        spec_settle(operation, windows, Err(text)) == windows,
{
}

/// Creation is idempotent. Once the window of a service has been allocated,
/// however many of the calls that follow succeeded, the service has exactly
/// one record; and a second creation, whatever it asks for, makes no call
/// and succeeds. The first creation allocates one window and no more.
pub proof fn law_creation_is_idempotent(
    windows: Map<Seq<char>, WindowInfo>,
    profile: PlatformProfile,
    id: Seq<char>,
    url: Seq<char>,
    bounds: Bounds,
    embedded: bool,
    main: MainWindow,
    count: nat,
    again_address: Result<Seq<char>, ViewErrorView>,
    again_bounds: Bounds,
    again_embedded: bool,
    again_main: MainWindow,
)
    requires
        !windows.contains_key(id),
        1 <= count <= spec_create_calls(profile, bounds, embedded, main).len(),
    ensures
        ({
            let first = spec_create(windows, profile, id, Ok(url), bounds, embedded, main);
            let after = spec_effects(windows, id, first.calls, count);
            let second = spec_create(
                after,
                profile,
                id,
                again_address,
                again_bounds,
                again_embedded,
                again_main,
            );
            &&& first.calls[0] == NativeCall::CreateWindow(spec_window_options(bounds, embedded))
            &&& forall|i: int|
                1 <= i < first.calls.len() ==> !(#[trigger] first.calls[i] is CreateWindow)
            &&& after.dom() == windows.dom().insert(id)
            &&& second == spec_idle(id)
            &&& spec_next_call(second) is None
            &&& spec_result(second) == Some(Ok::<(), ViewErrorView>(()))
        }),
{
    let calls = spec_create_calls(profile, bounds, embedded, main);
    let created = spec_effects(windows, id, calls, 1);
    reveal_with_fuel(spec_effects, 2);
    assert(created.contains_key(id));
    lemma_create_calls_shape(profile, bounds, embedded, main);
    lemma_effects_split(windows, id, calls, 1, count);
    let rest = calls.subrange(1, calls.len() as int);
    lemma_effects_keep_record(created, id, rest, (count - 1) as nat);
    assert(spec_effects(windows, id, calls, count).dom() =~= windows.dom().insert(id));
}

/// A creation ends by putting the pane in its place: unless an embedded pane
/// needs an origin that could not be read, the last call moves the window to
/// the placement that the bounds translator gives for the main window's
/// origin as it is now, and the creation has no error in store.
pub proof fn law_creation_ends_with_placement(
    windows: Map<Seq<char>, WindowInfo>,
    profile: PlatformProfile,
    id: Seq<char>,
    url: Seq<char>,
    bounds: Bounds,
    embedded: bool,
    main: MainWindow,
)
    requires
        !windows.contains_key(id),
        !(embedded && main is Unreadable),
    ensures
        ({
            let creation = spec_create(windows, profile, id, Ok(url), bounds, embedded, main);
            &&& creation.url == url
            &&& creation.verdict is None
            &&& creation.calls.last() == NativeCall::SetFrame(
                Frame {
                    requested: bounds,
                    placement: spec_translate(
                        bounds,
                        embedded,
                        spec_origin(main),
                        profile.chrome_offset,
                    ),
                },
            )
        }),
{
}

/// A creation whose calls all succeeded leaves a hidden window: it is shown
/// only when it is asked for. The window is decorated unless it was to be
/// embedded, and off the task switcher if it was. It is embedded if that was
/// asked for and there is a main window; an independent window is not tied
/// to the main window. Where the pane was put in its place, the registry
/// holds the bounds that were asked for.
pub proof fn law_created_window_is_hidden(
    windows: Map<Seq<char>, WindowInfo>,
    profile: PlatformProfile,
    id: Seq<char>,
    url: Seq<char>,
    bounds: Bounds,
    embedded: bool,
    main: MainWindow,
)
    requires
        !windows.contains_key(id),
    ensures
        ({
            let creation = spec_create(windows, profile, id, Ok(url), bounds, embedded, main);
            let after = spec_effects(windows, id, creation.calls, creation.calls.len());
            &&& after.contains_key(id)
            &&& !after[id].state.visible
            &&& after[id].state.decorations == !embedded
            &&& after[id].state.skip_taskbar == embedded
            &&& after[id].bounds == bounds
            &&& spec_is_embedded(profile.variant, after[id].state) == (embedded && !(main
                is Absent))
            &&& !embedded ==> !after[id].state.tied
        }),
{
    let calls = spec_create_calls(profile, bounds, embedded, main);
    let options = spec_window_options(bounds, embedded);
    let allocated = WindowInfo { bounds, state: spec_initial_state(options) };
    let created = spec_effects(windows, id, calls, 1);
    assert(created == windows.insert(id, allocated)) by {
        reveal_with_fuel(spec_effects, 2);
    }
    lemma_create_calls_shape(profile, bounds, embedded, main);
    lemma_effects_split(windows, id, calls, 1, calls.len());
    let attach = if embedded {
        spec_attach_if_present(profile.variant, main)
    } else {
        Seq::<NativeCall>::empty()
    };
    let frame = spec_frame_calls(profile, bounds, embedded, main);
    let rest = calls.subrange(1, calls.len() as int);
    assert(rest =~= attach + frame);
    lemma_effects_keep_record(created, id, rest, rest.len());
    lemma_after_calls_concat(allocated, attach, frame);
    let attached = spec_after_calls(allocated, attach, attach.len());
    lemma_adapter_outcome(allocated, profile.variant);
    lemma_attach_result(profile.variant, allocated.state);
    assert(spec_after_calls(attached, frame, frame.len()).state == attached.state
        && spec_after_calls(attached, frame, frame.len()).bounds == bounds) by {
        reveal_with_fuel(spec_after_calls, 2);
    }
    assert(embedded && !(main is Absent) ==> attach == spec_attach_calls(profile.variant));
    assert(!(embedded && !(main is Absent)) ==> attached == allocated) by {
        reveal_with_fuel(spec_after_calls, 1);
    }
}

/// What is known of a window after two runs of calls, one after the other.
proof fn lemma_after_calls_concat(
    info: WindowInfo,
    first: Seq<NativeCall>,
    second: Seq<NativeCall>,
)
    ensures
        spec_after_calls(info, first + second, (first + second).len()) == spec_after_calls(
            spec_after_calls(info, first, first.len()),
            second,
            second.len(),
        ),
{
    lemma_after_calls_of_prefix(info, first, second, first.len());
    lemma_after_calls_of_suffix(info, first, second, second.len());
}

proof fn lemma_after_calls_of_prefix(
    info: WindowInfo,
    first: Seq<NativeCall>,
    second: Seq<NativeCall>,
    count: nat,
)
    requires
        count <= first.len(),
    ensures
        spec_after_calls(info, first + second, count) == spec_after_calls(info, first, count),
    decreases count,
{
    if count > 0 {
        lemma_after_calls_of_prefix(info, first, second, (count - 1) as nat);
    }
}

proof fn lemma_after_calls_of_suffix(
    info: WindowInfo,
    first: Seq<NativeCall>,
    second: Seq<NativeCall>,
    count: nat,
)
    requires
        count <= second.len(),
    ensures
        spec_after_calls(info, first + second, first.len() + count) == spec_after_calls(
            spec_after_calls(info, first + second, first.len()),
            second,
            count,
        ),
    decreases count,
{
    if count > 0 {
        lemma_after_calls_of_suffix(info, first, second, (count - 1) as nat);
    }
}

/// The platform's attach and detach calls leave the recorded bounds alone.
proof fn lemma_attach_keeps_bounds(info: WindowInfo, variant: EmbeddingVariant)
    ensures
        spec_after_calls(
            info,
            spec_attach_calls(variant),
            spec_attach_calls(variant).len(),
        ).bounds == info.bounds,
        spec_after_calls(
            info,
            spec_detach_calls(variant),
            spec_detach_calls(variant).len(),
        ).bounds == info.bounds,
{
    reveal_with_fuel(spec_after_calls, 6);
}

/// The change of mode there and back. After a pane was embedded and then
/// released, all calls having succeeded, it is decorated and on the task
/// switcher again and its native relationship with the main window is
/// cleared; a true child has its popup style back, and a pinned window can
/// be moved and has its shadow. In between, if there was a main window, the
/// pane was embedded. Bounds and visibility are not touched.
pub proof fn law_mode_round_trip(
    windows: Map<Seq<char>, WindowInfo>,
    profile: PlatformProfile,
    id: Seq<char>,
    main: MainWindow,
    later_main: MainWindow,
)
    requires
        windows.contains_key(id),
    ensures
        ({
            let embed = spec_update_mode(windows, profile, id, true, main);
            let between = spec_effects(windows, id, embed.calls, embed.calls.len());
            let release = spec_update_mode(between, profile, id, false, later_main);
            let after = spec_effects(between, id, release.calls, release.calls.len());
            &&& between.contains_key(id)
            &&& !(main is Absent) ==> spec_is_embedded(profile.variant, between[id].state)
            &&& after.contains_key(id)
            &&& after[id].state.decorations
            &&& !after[id].state.skip_taskbar
            &&& !after[id].state.tied
            &&& !spec_is_attached(profile.variant, after[id].state)
            &&& !spec_is_embedded(profile.variant, after[id].state)
            &&& profile.variant == EmbeddingVariant::TrueChild ==> !after[id].state.child_style
            &&& profile.variant == EmbeddingVariant::StackingOnly ==> after[id].state.movable
                && after[id].state.shadow
            &&& after[id].bounds == windows[id].bounds
            &&& after[id].state.visible == windows[id].state.visible
            &&& after.dom() == windows.dom()
        }),
{
    let embed = spec_mode_calls(profile.variant, true, main);
    lemma_mode_calls_change_one_record(windows, profile.variant, id, true, main);
    let between = spec_effects(windows, id, embed, embed.len());
    lemma_mode_calls_change_one_record(between, profile.variant, id, false, later_main);
    let release = spec_mode_calls(profile.variant, false, later_main);
    let after = spec_effects(between, id, release, release.len());
    assert(after.dom() =~= windows.dom());
}

/// What a change of mode whose calls all succeeded does to the record of a
/// window. No other record changes.
proof fn lemma_mode_calls_change_one_record(
    windows: Map<Seq<char>, WindowInfo>,
    variant: EmbeddingVariant,
    id: Seq<char>,
    embedded: bool,
    main: MainWindow,
)
    requires
        windows.contains_key(id),
    ensures
        ({
            let calls = spec_mode_calls(variant, embedded, main);
            let before = windows[id].state;
            let after = spec_effects(windows, id, calls, calls.len());
            &&& after == windows.insert(id, after[id])
            &&& after[id].bounds == windows[id].bounds
            &&& after[id].state.visible == before.visible
            &&& after[id].state.skip_taskbar == embedded
            &&& embedded ==> !after[id].state.decorations
            &&& embedded && !(main is Absent) ==> spec_is_embedded(variant, after[id].state)
            &&& !embedded ==> after[id].state.decorations && !after[id].state.tied
            &&& !embedded && variant == EmbeddingVariant::TrueChild
                ==> !after[id].state.child_style
            &&& !embedded && variant == EmbeddingVariant::StackingOnly ==> after[id].state.movable
                && after[id].state.shadow
        }),
{
    let calls = spec_mode_calls(variant, embedded, main);
    let chrome = seq![
        NativeCall::SetDecorations(!embedded),
        NativeCall::SetSkipTaskbar(embedded),
    ];
    let adapter = if embedded {
        spec_attach_if_present(variant, main)
    } else {
        spec_detach_calls(variant)
    };
    let info = windows[id];
    lemma_effects_keep_record(windows, id, calls, calls.len());
    lemma_after_calls_concat(info, chrome, adapter);
    let restyled = spec_after_calls(info, chrome, chrome.len());
    assert(restyled == WindowInfo {
        bounds: info.bounds,
        state: WindowState { decorations: !embedded, skip_taskbar: embedded, ..info.state },
    }) by {
        reveal_with_fuel(spec_after_calls, 3);
    }
    lemma_adapter_outcome(restyled, variant);
    assert(adapter.len() == 0 ==> spec_after_calls(restyled, adapter, adapter.len()) == restyled)
        by {
        reveal_with_fuel(spec_after_calls, 1);
    }
}

/// What is known of a window once every attach call, or every detach call,
/// succeeded.
proof fn lemma_adapter_outcome(info: WindowInfo, variant: EmbeddingVariant)
    ensures
        spec_after_calls(info, spec_attach_calls(variant), spec_attach_calls(variant).len())
            == (WindowInfo {
            bounds: info.bounds,
            state: spec_apply_all(info.state, spec_attach_calls(variant)),
        }),
        spec_after_calls(info, spec_detach_calls(variant), spec_detach_calls(variant).len())
            == (WindowInfo {
            bounds: info.bounds,
            state: spec_apply_all(info.state, spec_detach_calls(variant)),
        }),
        spec_is_attached(variant, spec_apply_all(info.state, spec_attach_calls(variant))),
        !spec_apply_all(info.state, spec_attach_calls(variant)).decorations
            || info.state.decorations,
        spec_apply_all(info.state, spec_attach_calls(variant)).skip_taskbar
            == info.state.skip_taskbar,
        spec_apply_all(info.state, spec_attach_calls(variant)).visible == info.state.visible,
        !spec_apply_all(info.state, spec_detach_calls(variant)).tied,
        spec_apply_all(info.state, spec_detach_calls(variant)).decorations
            == info.state.decorations,
        spec_apply_all(info.state, spec_detach_calls(variant)).skip_taskbar
            == info.state.skip_taskbar,
        spec_apply_all(info.state, spec_detach_calls(variant)).visible == info.state.visible,
        variant == EmbeddingVariant::TrueChild ==> !spec_apply_all(
            info.state,
            spec_detach_calls(variant),
        ).child_style,
        variant == EmbeddingVariant::StackingOnly ==> spec_apply_all(
            info.state,
            spec_detach_calls(variant),
        ).movable && spec_apply_all(info.state, spec_detach_calls(variant)).shadow,
{
    lemma_attach_keeps_bounds(info, variant);
    lemma_state_follows_calls(info, spec_attach_calls(variant), spec_attach_calls(variant).len());
    lemma_state_follows_calls(info, spec_detach_calls(variant), spec_detach_calls(variant).len());
    lemma_attach_result(variant, info.state);
    lemma_detach_result(variant, info.state);
}

/// A change of mode is not rolled back. If the attach or detach call fails
/// after decorations and task switcher were changed, the operation ends with
/// the platform's error text, and the registry says what is the case: both
/// changed, the native relationship as it was.
pub proof fn law_failed_adapter_call_leaves_chrome_changed(
    windows: Map<Seq<char>, WindowInfo>,
    profile: PlatformProfile,
    id: Seq<char>,
    embedded: bool,
    main: MainWindow,
    text: String,
)
    requires
        windows.contains_key(id),
        embedded ==> !(main is Absent),
        profile.variant != EmbeddingVariant::HintOnly,
    ensures
        ({
            let change = spec_update_mode(windows, profile, id, embedded, main);
            let reached = spec_after_successes(change, windows, 2);
            let ended = spec_advance(reached.0, Err(text));
            let after = spec_settle(reached.0, reached.1, Err(text));
            &&& spec_result(ended) == Some(
                Err::<(), ViewErrorView>(
                    ViewErrorView { kind: ErrorKind::NativeApi, message: text@ },
                ),
            )
            &&& after.contains_key(id)
            &&& after[id].state.decorations == !embedded
            &&& after[id].state.skip_taskbar == embedded
            &&& spec_is_attached(profile.variant, after[id].state) == spec_is_attached(
                profile.variant,
                windows[id].state,
            )
            &&& after[id].bounds == windows[id].bounds
        }),
{
    let change = spec_update_mode(windows, profile, id, embedded, main);
    law_successes_add_up(change, windows, 2);
    lemma_effects_keep_record(windows, id, change.calls, 2);
    reveal_with_fuel(spec_after_calls, 3);
}

/// A service that has no window is left alone: to change its mode or its
/// bounds, to show, hide or close it makes no call and succeeds, and no
/// report changes the registry.
pub proof fn law_unknown_service_is_left_alone(
    windows: Map<Seq<char>, WindowInfo>,
    profile: PlatformProfile,
    id: Seq<char>,
    bounds: Bounds,
    embedded: bool,
    main: MainWindow,
    outcome: Result<(), String>,
)
    requires
        !windows.contains_key(id),
    ensures
        spec_update_mode(windows, profile, id, embedded, main) == spec_idle(id),
        spec_update_bounds(windows, profile, id, bounds, main) == spec_idle(id),
        spec_show(windows, id) == spec_idle(id),
        spec_hide(windows, id) == spec_idle(id),
        spec_close(windows, id) == spec_idle(id),
        spec_next_call(spec_idle(id)) is None,
        spec_result(spec_idle(id)) == Some(Ok::<(), ViewErrorView>(())),
        spec_advance(spec_idle(id), outcome) == spec_idle(id),
        spec_settle(spec_idle(id), windows, outcome) == windows,
{
}

/// A change of bounds of an embedded pane is derived from the main window's
/// origin as it is when the change is asked for. The last call puts the pane
/// at that origin plus the requested position, whatever bounds the registry
/// holds for the pane and wherever the main window was before; once it
/// succeeded the registry holds the requested bounds.
pub proof fn law_bounds_follow_current_origin(
    windows: Map<Seq<char>, WindowInfo>,
    profile: PlatformProfile,
    id: Seq<char>,
    bounds: Bounds,
    origin: Origin,
    recorded: Bounds,
)
    requires
        windows.contains_key(id),
        spec_is_embedded(profile.variant, windows[id].state),
    ensures
        ({
            let main = MainWindow::At(origin);
            let change = spec_update_bounds(windows, profile, id, bounds, main);
            let after = spec_effects(windows, id, change.calls, change.calls.len());
            let placement = spec_translate(bounds, true, Some(origin), profile.chrome_offset);
            &&& change.calls.len() >= 1
            &&& change.calls.last() == NativeCall::SetFrame(
                Frame { requested: bounds, placement },
            )
            &&& placement.rect.x == origin.x + bounds.x
            &&& placement.rect.y == origin.y + bounds.y + profile.chrome_offset
            &&& change.verdict is None
            &&& change == spec_update_bounds(
                windows.insert(id, WindowInfo { bounds: recorded, state: windows[id].state }),
                profile,
                id,
                bounds,
                main,
            )
            &&& after.contains_key(id)
            &&& after[id].bounds == bounds
            &&& spec_is_embedded(profile.variant, after[id].state)
        }),
{
    let main = MainWindow::At(origin);
    let calls = spec_bounds_calls(profile, bounds, true, main);
    let attach = if profile.variant == EmbeddingVariant::StackingOnly {
        spec_attach_calls(profile.variant)
    } else {
        Seq::<NativeCall>::empty()
    };
    let frame = spec_frame_calls(profile, bounds, true, main);
    let info = windows[id];
    assert(calls =~= attach + frame);
    lemma_effects_keep_record(windows, id, calls, calls.len());
    lemma_after_calls_concat(info, attach, frame);
    let attached = spec_after_calls(info, attach, attach.len());
    lemma_adapter_outcome(info, profile.variant);
    lemma_attach_result(profile.variant, info.state);
    assert(attach.len() == 0 ==> attached == info) by {
        reveal_with_fuel(spec_after_calls, 1);
    }
    assert(spec_after_calls(attached, frame, frame.len()) == WindowInfo {
        bounds,
        state: attached.state,
    }) by {
        reveal_with_fuel(spec_after_calls, 2);
    }
}

/// Closing makes room. Once the window of a service was destroyed the
/// service has no record, and every other record is as before; a creation
/// for the same service then starts afresh by allocating a window.
pub proof fn law_close_makes_room(
    windows: Map<Seq<char>, WindowInfo>,
    profile: PlatformProfile,
    id: Seq<char>,
    url: Seq<char>,
    bounds: Bounds,
    embedded: bool,
    main: MainWindow,
)
    requires
        windows.contains_key(id),
    ensures
        ({
            let close = spec_close(windows, id);
            let after = spec_effects(windows, id, close.calls, close.calls.len());
            let again = spec_create(after, profile, id, Ok(url), bounds, embedded, main);
            &&& close.calls == seq![NativeCall::Close]
            &&& after == windows.remove(id)
            &&& !after.contains_key(id)
            &&& spec_next_call(again) == Some(
                NativeCall::CreateWindow(spec_window_options(bounds, embedded)),
            )
            &&& again != spec_idle(id)
        }),
{
    reveal_with_fuel(spec_effects, 2);
    lemma_create_calls_shape(profile, bounds, embedded, main);
}

/// The calls of a creation: the allocation comes first, and no call after it
/// allocates or destroys a window.
proof fn lemma_create_calls_shape(
    profile: PlatformProfile,
    bounds: Bounds,
    embedded: bool,
    main: MainWindow,
)
    ensures
        ({
            let calls = spec_create_calls(profile, bounds, embedded, main);
            &&& calls.len() >= 1
            &&& calls[0] == NativeCall::CreateWindow(spec_window_options(bounds, embedded))
            &&& forall|i: int| 1 <= i < calls.len() ==> !(#[trigger] calls[i] is CreateWindow)
            &&& forall|i: int| 1 <= i < calls.len() ==> !(#[trigger] calls[i] is Close)
        }),
{
}

/// The effects of calls can be taken in two parts.
proof fn lemma_effects_split(
    windows: Map<Seq<char>, WindowInfo>,
    id: Seq<char>,
    calls: Seq<NativeCall>,
    first: nat,
    count: nat,
)
    requires
        first <= count <= calls.len(),
    ensures
        spec_effects(windows, id, calls, count) == spec_effects(
            spec_effects(windows, id, calls, first),
            id,
            calls.subrange(first as int, calls.len() as int),
            (count - first) as nat,
        ),
    decreases count,
{
    if count > first {
        lemma_effects_split(windows, id, calls, first, (count - 1) as nat);
    }
}

} // verus!
