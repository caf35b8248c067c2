//! The platform embedding adapters: the native calls that tie a pane to the
//! main window on each kind of windowing system, and a model of what those
//! calls do to a window.

use crate::geometry::{Bounds, Placement};
use vstd::prelude::*;

verus! {

/// How a windowing system lets a pane be tied to the main window.
#[derive(Clone, Copy, Debug, PartialEq, Eq, Structural)]
pub enum EmbeddingVariant {
    /// The system has true child windows: the pane's parent pointer is set to
    /// the main window and its style changes from popup to owned child.
    TrueChild,
    /// The system only orders windows: the pane is registered as a child
    /// window stacked above the main window and is pinned in place.
    StackingOnly,
    /// The system only takes a hint: the pane is marked transient for the
    /// main window. Embedding is best effort.
    HintOnly,
}

/// What the library has to know about the platform it runs on.
#[derive(Clone, Copy, Debug, PartialEq, Eq, Structural)]
pub struct PlatformProfile {
    pub variant: EmbeddingVariant,
    /// Height, in pixels, of the main window's own title bar where the
    /// reported coordinates do not already account for it.
    pub chrome_offset: u32,
}

/// Chrome offset of the one platform whose coordinates include the title bar.
pub const STACKING_CHROME_OFFSET: u32 = 60;

/// The style bit of an independent popup window.
pub const STYLE_POPUP: u32 = 0x8000_0000;

/// The style bit of an owned child window.
pub const STYLE_CHILD: u32 = 0x4000_0000;

/// The two directions in which a window's style word is rewritten.
#[derive(Clone, Copy, Debug, PartialEq, Eq, Structural)]
pub enum StyleChange {
    /// From independent popup to owned child.
    ToChild,
    /// From owned child to independent popup.
    ToPopup,
}

/// The properties a service window is allocated with.
#[derive(Clone, Copy, Debug, PartialEq, Eq, Structural)]
pub struct WindowOptions {
    /// Title bar and borders are shown.
    pub decorations: bool,
    /// The window is kept off the task switcher.
    pub skip_taskbar: bool,
    /// The window is visible from the start.
    pub visible: bool,
    /// The host's own handler for files dropped on the window is on. With
    /// the handler off, drag and drop reaches the page the pane shows.
    pub drag_drop_handler: bool,
    /// The logical bounds the window is allocated with.
    pub bounds: Bounds,
}

/// A new frame for a window: the bounds the caller asked for and the
/// placement derived from them.
#[derive(Clone, Copy, Debug, PartialEq, Eq, Structural)]
pub struct Frame {
    pub requested: Bounds,
    pub placement: Placement,
}

/// One native call on a service window, to be performed by the host.
#[derive(Clone, Copy, Debug, PartialEq, Eq, Structural)]
pub enum NativeCall {
    /// Allocate the window.
    CreateWindow(WindowOptions),
    /// Show or hide the title bar and borders.
    SetDecorations(bool),
    /// Keep the window off the task switcher, or put it back.
    SetSkipTaskbar(bool),
    /// Set the window's parent pointer to the main window.
    SetParentToMain,
    /// Clear the window's parent pointer.
    ClearParent,
    /// Rewrite the window's style word with [`restyle`].
    Restyle(StyleChange),
    /// Register the window as a child window ordered above the main window.
    AddChildWindow,
    /// Remove the window from the child windows of its parent, if it has one.
    RemoveChildWindow,
    /// Force the borderless style.
    SetBorderless,
    /// Let the user move the window, or pin it.
    SetMovable(bool),
    /// Let the user move the window by dragging its background, or not.
    SetMovableByBackground(bool),
    /// Give the window a shadow, or take it away.
    SetShadow(bool),
    /// Mark the window transient for the main window.
    SetTransientForMain,
    /// Clear the transient-for hint.
    ClearTransientFor,
    /// Move and resize the window.
    SetFrame(Frame),
    /// Make the window visible.
    Show,
    /// Give the window input focus.
    Focus,
    /// Hide the window without destroying it.
    Hide,
    /// Destroy the window.
    Close,
}

/// What is known of a service window's native state.
#[derive(Clone, Copy, Debug, PartialEq, Eq, Structural)]
pub struct WindowState {
    /// Title bar and borders are shown.
    pub decorations: bool,
    /// The window is kept off the task switcher.
    pub skip_taskbar: bool,
    /// The window is visible.
    pub visible: bool,
    /// The native relationship with the main window is established: the
    /// parent pointer, the child-window stacking or the transient-for hint.
    pub tied: bool,
    /// The style word says owned child rather than independent popup.
    pub child_style: bool,
    /// The user can move the window.
    pub movable: bool,
    /// The window casts a shadow.
    pub shadow: bool,
}

impl PlatformProfile {
    /// The profile of a system with true child windows.
    pub fn true_child() -> (profile: PlatformProfile)
        ensures
            profile.variant == EmbeddingVariant::TrueChild,
            profile.chrome_offset == 0,
    {
        PlatformProfile { variant: EmbeddingVariant::TrueChild, chrome_offset: 0 }
    }

    /// The profile of a system that only orders windows. It is the one
    /// platform with a chrome offset.
    pub fn stacking_only() -> (profile: PlatformProfile)
        ensures
            profile.variant == EmbeddingVariant::StackingOnly,
            profile.chrome_offset == STACKING_CHROME_OFFSET,
    {
        PlatformProfile {
            variant: EmbeddingVariant::StackingOnly,
            chrome_offset: STACKING_CHROME_OFFSET,
        }
    }

    /// The profile of a system that only takes a transient-for hint.
    pub fn hint_only() -> (profile: PlatformProfile)
        ensures
            profile.variant == EmbeddingVariant::HintOnly,
            profile.chrome_offset == 0,
    {
        PlatformProfile { variant: EmbeddingVariant::HintOnly, chrome_offset: 0 }
    }
}

/// The style word after a change: one of the two bits is set, the other is
/// cleared, and every other bit stays.
pub open spec fn spec_restyle(style: u32, change: StyleChange) -> u32 {
    match change {
        StyleChange::ToChild => (style & !STYLE_POPUP) | STYLE_CHILD,
        StyleChange::ToPopup => (style & !STYLE_CHILD) | STYLE_POPUP,
    }
}

/// Whether a style word says owned child.
pub open spec fn spec_is_child_style(style: u32) -> bool {
    style & STYLE_CHILD != 0 && style & STYLE_POPUP == 0
}

/// Rewrites a window's style word.
pub fn restyle(style: u32, change: StyleChange) -> (result: u32)
    ensures
        result == spec_restyle(style, change),
{
    match change {
        StyleChange::ToChild => (style & !STYLE_POPUP) | STYLE_CHILD,
        StyleChange::ToPopup => (style & !STYLE_CHILD) | STYLE_POPUP,
    }
}

/// Whether a style word says owned child.
pub fn is_child_style(style: u32) -> (result: bool)
    ensures
        result == spec_is_child_style(style),
{
    style & STYLE_CHILD != 0 && style & STYLE_POPUP == 0
}

/// The calls that tie a pane to the main window, in the order in which they
/// are made.
pub open spec fn spec_attach_calls(variant: EmbeddingVariant) -> Seq<NativeCall> {
    match variant {
        EmbeddingVariant::TrueChild => seq![
            NativeCall::SetParentToMain,
            NativeCall::Restyle(StyleChange::ToChild),
        ],
        EmbeddingVariant::StackingOnly => seq![
            NativeCall::AddChildWindow,
            NativeCall::SetBorderless,
            NativeCall::SetMovable(false),
            NativeCall::SetMovableByBackground(false),
            NativeCall::SetShadow(false),
        ],
        EmbeddingVariant::HintOnly => seq![NativeCall::SetTransientForMain],
    }
}

/// The calls that release a pane from the main window, in the order in which
/// they are made.
pub open spec fn spec_detach_calls(variant: EmbeddingVariant) -> Seq<NativeCall> {
    match variant {
        EmbeddingVariant::TrueChild => seq![
            NativeCall::ClearParent,
            NativeCall::Restyle(StyleChange::ToPopup),
        ],
        EmbeddingVariant::StackingOnly => seq![
            NativeCall::RemoveChildWindow,
            NativeCall::SetMovable(true),
            NativeCall::SetShadow(true),
        ],
        EmbeddingVariant::HintOnly => seq![NativeCall::ClearTransientFor],
    }
}

/// Whether a call has to be made on the application's single UI thread, the
/// caller waiting until it is done. This holds of every native mutation of
/// the stacking-only adapter and of no other call.
pub open spec fn spec_runs_on_ui_thread(call: NativeCall) -> bool {
    match call {
        NativeCall::AddChildWindow => true,
        NativeCall::RemoveChildWindow => true,
        NativeCall::SetBorderless => true,
        NativeCall::SetMovable(_) => true,
        NativeCall::SetMovableByBackground(_) => true,
        NativeCall::SetShadow(_) => true,
        _ => false,
    }
}

/// Whether a call is best effort: if it fails, the operation goes on as if
/// the call had not been asked for. This holds of the transient-for hint.
pub open spec fn spec_is_best_effort(call: NativeCall) -> bool {
    match call {
        NativeCall::SetTransientForMain => true,
        NativeCall::ClearTransientFor => true,
        _ => false,
    }
}

/// The state a window is allocated in.
pub open spec fn spec_initial_state(options: WindowOptions) -> WindowState {
    WindowState {
        decorations: options.decorations,
        skip_taskbar: options.skip_taskbar,
        visible: options.visible,
        tied: false,
        child_style: false,
        movable: true,
        shadow: true,
    }
}

/// What a call that succeeded does to a window.
pub open spec fn spec_apply(state: WindowState, call: NativeCall) -> WindowState {
    match call {
        NativeCall::SetDecorations(on) => WindowState { decorations: on, ..state },
        NativeCall::SetSkipTaskbar(on) => WindowState { skip_taskbar: on, ..state },
        NativeCall::SetParentToMain => WindowState { tied: true, ..state },
        NativeCall::ClearParent => WindowState { tied: false, ..state },
        NativeCall::Restyle(StyleChange::ToChild) => WindowState { child_style: true, ..state },
        NativeCall::Restyle(StyleChange::ToPopup) => WindowState { child_style: false, ..state },
        NativeCall::AddChildWindow => WindowState { tied: true, ..state },
        NativeCall::RemoveChildWindow => WindowState { tied: false, ..state },
        NativeCall::SetBorderless => WindowState { decorations: false, ..state },
        NativeCall::SetMovable(on) => WindowState { movable: on, ..state },
        NativeCall::SetShadow(on) => WindowState { shadow: on, ..state },
        NativeCall::SetTransientForMain => WindowState { tied: true, ..state },
        NativeCall::ClearTransientFor => WindowState { tied: false, ..state },
        NativeCall::Show => WindowState { visible: true, ..state },
        NativeCall::Hide => WindowState { visible: false, ..state },
        NativeCall::CreateWindow(_) => state,
        NativeCall::SetMovableByBackground(_) => state,
        NativeCall::SetFrame(_) => state,
        NativeCall::Focus => state,
        NativeCall::Close => state,
    }
}

/// The state of a window after the first `count` of `calls` succeeded.
pub open spec fn spec_apply_prefix(state: WindowState, calls: Seq<NativeCall>, count: nat)
    -> WindowState
    decreases count,
{
    if count == 0 {
        state
    } else {
        spec_apply(spec_apply_prefix(state, calls, (count - 1) as nat), calls[count - 1])
    }
}

/// The state of a window after all of `calls` succeeded.
pub open spec fn spec_apply_all(state: WindowState, calls: Seq<NativeCall>) -> WindowState {
    spec_apply_prefix(state, calls, calls.len())
}

/// Whether a window is attached to the main window, as far as the platform
/// can attach one.
pub open spec fn spec_is_attached(variant: EmbeddingVariant, state: WindowState) -> bool {
    match variant {
        EmbeddingVariant::TrueChild => state.tied && state.child_style,
        EmbeddingVariant::StackingOnly => state.tied && !state.movable && !state.shadow,
        EmbeddingVariant::HintOnly => state.tied,
    }
}

/// Whether a window is embedded: attached, undecorated and off the task
/// switcher, all three together.
pub open spec fn spec_is_embedded(variant: EmbeddingVariant, state: WindowState) -> bool {
    &&& spec_is_attached(variant, state)
    &&& !state.decorations
    &&& state.skip_taskbar
}

/// The calls that tie a pane to the main window.
pub fn attach_calls(variant: EmbeddingVariant) -> (calls: Vec<NativeCall>)
    ensures
        calls@ == spec_attach_calls(variant),
{
    let mut calls: Vec<NativeCall> = Vec::new();
    match variant {
        EmbeddingVariant::TrueChild => {
            calls.push(NativeCall::SetParentToMain);
            calls.push(NativeCall::Restyle(StyleChange::ToChild));
        },
        EmbeddingVariant::StackingOnly => {
            calls.push(NativeCall::AddChildWindow);
            calls.push(NativeCall::SetBorderless);
            calls.push(NativeCall::SetMovable(false));
            calls.push(NativeCall::SetMovableByBackground(false));
            calls.push(NativeCall::SetShadow(false));
        },
        EmbeddingVariant::HintOnly => {
            calls.push(NativeCall::SetTransientForMain);
        },
    }
    assert(calls@ =~= spec_attach_calls(variant));
    calls
}

/// The calls that release a pane from the main window.
pub fn detach_calls(variant: EmbeddingVariant) -> (calls: Vec<NativeCall>)
    ensures
        calls@ == spec_detach_calls(variant),
{
    let mut calls: Vec<NativeCall> = Vec::new();
    match variant {
        EmbeddingVariant::TrueChild => {
            calls.push(NativeCall::ClearParent);
            calls.push(NativeCall::Restyle(StyleChange::ToPopup));
        },
        EmbeddingVariant::StackingOnly => {
            calls.push(NativeCall::RemoveChildWindow);
            calls.push(NativeCall::SetMovable(true));
            calls.push(NativeCall::SetShadow(true));
        },
        EmbeddingVariant::HintOnly => {
            calls.push(NativeCall::ClearTransientFor);
        },
    }
    assert(calls@ =~= spec_detach_calls(variant));
    calls
}

/// Whether a call has to be made on the UI thread, the caller waiting.
pub fn runs_on_ui_thread(call: NativeCall) -> (result: bool)
    ensures
        result == spec_runs_on_ui_thread(call),
{
    match call {
        NativeCall::AddChildWindow => true,
        NativeCall::RemoveChildWindow => true,
        NativeCall::SetBorderless => true,
        NativeCall::SetMovable(_) => true,
        NativeCall::SetMovableByBackground(_) => true,
        NativeCall::SetShadow(_) => true,
        _ => false,
    }
}

/// Whether a call is best effort.
pub fn is_best_effort(call: NativeCall) -> (result: bool)
    ensures
        result == spec_is_best_effort(call),
{
    match call {
        NativeCall::SetTransientForMain => true,
        NativeCall::ClearTransientFor => true,
        _ => false,
    }
}

impl WindowState {
    /// The state a window is allocated in.
    pub fn initial(options: WindowOptions) -> (state: WindowState)
        ensures
            state == spec_initial_state(options),
    {
        WindowState {
            decorations: options.decorations,
            skip_taskbar: options.skip_taskbar,
            visible: options.visible,
            tied: false,
            child_style: false,
            movable: true,
            shadow: true,
        }
    }

    /// The state after `call` succeeded.
    pub fn apply(self, call: NativeCall) -> (state: WindowState)
        ensures
            state == spec_apply(self, call),
    {
        let mut state = self;
        match call {
            NativeCall::SetDecorations(on) => {
                state.decorations = on;
            },
            NativeCall::SetSkipTaskbar(on) => {
                state.skip_taskbar = on;
            },
            NativeCall::SetParentToMain => {
                state.tied = true;
            },
            NativeCall::ClearParent => {
                state.tied = false;
            },
            NativeCall::Restyle(StyleChange::ToChild) => {
                state.child_style = true;
            },
            NativeCall::Restyle(StyleChange::ToPopup) => {
                state.child_style = false;
            },
            NativeCall::AddChildWindow => {
                state.tied = true;
            },
            NativeCall::RemoveChildWindow => {
                state.tied = false;
            },
            NativeCall::SetBorderless => {
                state.decorations = false;
            },
            NativeCall::SetMovable(on) => {
                state.movable = on;
            },
            NativeCall::SetShadow(on) => {
                state.shadow = on;
            },
            NativeCall::SetTransientForMain => {
                state.tied = true;
            },
            NativeCall::ClearTransientFor => {
                state.tied = false;
            },
            NativeCall::Show => {
                state.visible = true;
            },
            NativeCall::Hide => {
                state.visible = false;
            },
            NativeCall::CreateWindow(_) => {},
            NativeCall::SetMovableByBackground(_) => {},
            NativeCall::SetFrame(_) => {},
            NativeCall::Focus => {},
            NativeCall::Close => {},
        }
        state
    }

    /// Whether the window is attached to the main window.
    pub fn is_attached(&self, variant: EmbeddingVariant) -> (result: bool)
        ensures
            result == spec_is_attached(variant, *self),
    {
        match variant {
            EmbeddingVariant::TrueChild => self.tied && self.child_style,
            EmbeddingVariant::StackingOnly => self.tied && !self.movable && !self.shadow,
            EmbeddingVariant::HintOnly => self.tied,
        }
    }

    /// Whether the window is embedded.
    pub fn is_embedded(&self, variant: EmbeddingVariant) -> (result: bool)
        ensures
            result == spec_is_embedded(variant, *self),
    {
        self.is_attached(variant) && !self.decorations && self.skip_taskbar
    }
}

/// Changing the style to owned child sets the child bit, clears the popup
/// bit and keeps every other bit.
pub proof fn law_restyle_to_child(style: u32)
    ensures
        spec_is_child_style(spec_restyle(style, StyleChange::ToChild)),
        spec_restyle(style, StyleChange::ToChild) & !(STYLE_POPUP | STYLE_CHILD) == style & !(
        STYLE_POPUP | STYLE_CHILD),
{
    let r = spec_restyle(style, StyleChange::ToChild);
    assert(r == (style & !0x8000_0000u32) | 0x4000_0000u32);
    assert(((style & !0x8000_0000u32) | 0x4000_0000u32) & 0x4000_0000u32 != 0) by (bit_vector);
    assert(((style & !0x8000_0000u32) | 0x4000_0000u32) & 0x8000_0000u32 == 0) by (bit_vector);
    assert(((style & !0x8000_0000u32) | 0x4000_0000u32) & !(0x8000_0000u32 | 0x4000_0000u32)
        == style & !(0x8000_0000u32 | 0x4000_0000u32)) by (bit_vector);
}

/// Changing the style to popup sets the popup bit, clears the child bit and
/// keeps every other bit.
pub proof fn law_restyle_to_popup(style: u32)
    ensures
        !spec_is_child_style(spec_restyle(style, StyleChange::ToPopup)),
        spec_restyle(style, StyleChange::ToPopup) & STYLE_POPUP != 0,
        spec_restyle(style, StyleChange::ToPopup) & STYLE_CHILD == 0,
        spec_restyle(style, StyleChange::ToPopup) & !(STYLE_POPUP | STYLE_CHILD) == style & !(
        STYLE_POPUP | STYLE_CHILD),
{
    let r = spec_restyle(style, StyleChange::ToPopup);
    assert(r == (style & !0x4000_0000u32) | 0x8000_0000u32);
    assert(((style & !0x4000_0000u32) | 0x8000_0000u32) & 0x8000_0000u32 != 0) by (bit_vector);
    assert(((style & !0x4000_0000u32) | 0x8000_0000u32) & 0x4000_0000u32 == 0) by (bit_vector);
    assert(((style & !0x4000_0000u32) | 0x8000_0000u32) & !(0x8000_0000u32 | 0x4000_0000u32)
        == style & !(0x8000_0000u32 | 0x4000_0000u32)) by (bit_vector);
}

/// A style change made twice is the change made once, and whichever change
/// came last decides: the earlier one leaves no trace.
pub proof fn law_restyle_last_change_wins(style: u32, first: StyleChange, last: StyleChange)
    ensures
        spec_restyle(spec_restyle(style, first), last) == spec_restyle(style, last),
{
    assert(((((style & !0x8000_0000u32) | 0x4000_0000u32) & !0x8000_0000u32) | 0x4000_0000u32)
        == (style & !0x8000_0000u32) | 0x4000_0000u32) by (bit_vector);
    assert(((((style & !0x4000_0000u32) | 0x8000_0000u32) & !0x8000_0000u32) | 0x4000_0000u32)
        == (style & !0x8000_0000u32) | 0x4000_0000u32) by (bit_vector);
    assert(((((style & !0x8000_0000u32) | 0x4000_0000u32) & !0x4000_0000u32) | 0x8000_0000u32)
        == (style & !0x4000_0000u32) | 0x8000_0000u32) by (bit_vector);
    assert(((((style & !0x4000_0000u32) | 0x8000_0000u32) & !0x4000_0000u32) | 0x8000_0000u32)
        == (style & !0x4000_0000u32) | 0x8000_0000u32) by (bit_vector);
}

/// The state of a window once every attach call succeeded.
pub proof fn lemma_attach_result(variant: EmbeddingVariant, state: WindowState)
    ensures
        spec_apply_all(state, spec_attach_calls(variant)) == match variant {
            EmbeddingVariant::TrueChild => WindowState { tied: true, child_style: true, ..state },
            EmbeddingVariant::StackingOnly => WindowState {
                tied: true,
                decorations: false,
                movable: false,
                shadow: false,
                ..state
            },
            EmbeddingVariant::HintOnly => WindowState { tied: true, ..state },
        },
{
    reveal_with_fuel(spec_apply_prefix, 6);
}

/// The state of a window once every detach call succeeded.
pub proof fn lemma_detach_result(variant: EmbeddingVariant, state: WindowState)
    ensures
        spec_apply_all(state, spec_detach_calls(variant)) == match variant {
            EmbeddingVariant::TrueChild => WindowState { tied: false, child_style: false, ..state },
            EmbeddingVariant::StackingOnly => WindowState {
                tied: false,
                movable: true,
                shadow: true,
                ..state
            },
            EmbeddingVariant::HintOnly => WindowState { tied: false, ..state },
        },
{
    reveal_with_fuel(spec_apply_prefix, 4);
}

/// Once every attach call succeeded the window is attached, whatever state
/// it was in; its place on the task switcher and its visibility are as
/// before.
pub proof fn law_attach_establishes(variant: EmbeddingVariant, state: WindowState)
    ensures
        spec_is_attached(variant, spec_apply_all(state, spec_attach_calls(variant))),
        spec_apply_all(state, spec_attach_calls(variant)).skip_taskbar == state.skip_taskbar,
        spec_apply_all(state, spec_attach_calls(variant)).visible == state.visible,
{
    lemma_attach_result(variant, state);
}

/// Detaching reverses every property that attaching forced: the native
/// relationship is gone, a true child has its popup style back, and a pinned
/// window can be moved again and has its shadow back. The task switcher and
/// visibility are as they were before the window was attached.
pub proof fn law_detach_reverses_attach(variant: EmbeddingVariant, state: WindowState)
    ensures
        ({
            let attached = spec_apply_all(state, spec_attach_calls(variant));
            let released = spec_apply_all(attached, spec_detach_calls(variant));
            &&& !released.tied
            &&& !spec_is_attached(variant, released)
            &&& variant == EmbeddingVariant::TrueChild ==> !released.child_style
            &&& variant == EmbeddingVariant::StackingOnly ==> released.movable && released.shadow
            &&& released.decorations == attached.decorations
            &&& released.skip_taskbar == state.skip_taskbar
            &&& released.visible == state.visible
        }),
{
    lemma_attach_result(variant, state);
    lemma_detach_result(variant, spec_apply_all(state, spec_attach_calls(variant)));
}

/// Attaching and detaching are idempotent: made twice, each leaves the
/// window as it is after the first time.
pub proof fn law_attach_detach_idempotent(variant: EmbeddingVariant, state: WindowState)
    ensures
        spec_apply_all(
            spec_apply_all(state, spec_attach_calls(variant)),
            spec_attach_calls(variant),
        ) == spec_apply_all(state, spec_attach_calls(variant)),
        spec_apply_all(
            spec_apply_all(state, spec_detach_calls(variant)),
            spec_detach_calls(variant),
        ) == spec_apply_all(state, spec_detach_calls(variant)),
{
    lemma_attach_result(variant, state);
    lemma_attach_result(variant, spec_apply_all(state, spec_attach_calls(variant)));
    lemma_detach_result(variant, state);
    lemma_detach_result(variant, spec_apply_all(state, spec_detach_calls(variant)));
}

/// An embedded window is attached, undecorated and off the task switcher,
/// all three together; a window that lacks one of the three is not embedded.
pub proof fn law_embedded_means_all_three(variant: EmbeddingVariant, state: WindowState)
    ensures
        spec_is_embedded(variant, state) <==> (spec_is_attached(variant, state)
            && !state.decorations && state.skip_taskbar),
        spec_is_attached(variant, state) ==> state.tied,
{
}

/// The calls of the stacking-only adapter, and no others among the attach
/// and detach calls, are marshaled onto the UI thread; only the hint-only
/// adapter's calls are best effort.
pub proof fn law_adapter_threading(variant: EmbeddingVariant, index: int)
    ensures
        0 <= index < spec_attach_calls(variant).len() ==> (spec_runs_on_ui_thread(
            spec_attach_calls(variant)[index],
        ) <==> variant == EmbeddingVariant::StackingOnly),
        0 <= index < spec_detach_calls(variant).len() ==> (spec_runs_on_ui_thread(
            spec_detach_calls(variant)[index],
        ) <==> variant == EmbeddingVariant::StackingOnly),
        0 <= index < spec_attach_calls(variant).len() ==> (spec_is_best_effort(
            spec_attach_calls(variant)[index],
        ) <==> variant == EmbeddingVariant::HintOnly),
        0 <= index < spec_detach_calls(variant).len() ==> (spec_is_best_effort(
            spec_detach_calls(variant)[index],
        ) <==> variant == EmbeddingVariant::HintOnly),
{
}

} // verus!
