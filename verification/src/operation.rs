//! An operation in flight: the native calls it consists of, how far the host
//! has come with them, and what the registry learns from each call that
//! succeeded.
//!
//! The host asks for the next call, performs it and reports how it went,
//! until no call is left; then the operation has a result. A call that fails
//! ends the operation with the platform's error text. Nothing that was done
//! before is rolled back.

use crate::error::{ErrorKind, ViewError, ViewErrorView};
use crate::naming::{
    data_directory_name,
    spec_data_directory_name,
    spec_window_label,
    window_label,
};
use crate::platform::{
    is_best_effort,
    spec_apply,
    spec_initial_state,
    spec_is_best_effort,
    NativeCall,
    WindowState,
};
use crate::registry::{Registry, WindowInfo};
use vstd::prelude::*;

verus! {

/// An operation on the window of one service.
pub struct Operation {
    id: String,
    url: String,
    calls: Vec<NativeCall>,
    cursor: usize,
    verdict: Option<ViewError>,
}

/// An operation in specifications.
pub struct OperationView {
    /// The service whose window the operation is about.
    pub id: Seq<char>,
    /// The address the window is to show, if the operation creates one.
    pub url: Seq<char>,
    /// The native calls of the operation, in the order in which they are made.
    pub calls: Seq<NativeCall>,
    /// The number of calls the host is done with.
    pub cursor: nat,
    /// The error the operation ends with once no call is left, if any.
    pub verdict: Option<ViewErrorView>,
}

/// The operation that has nothing to do and succeeds.
pub open spec fn spec_idle(id: Seq<char>) -> OperationView {
    OperationView {
        id,
        url: Seq::<char>::empty(),
        calls: Seq::<NativeCall>::empty(),
        cursor: 0,
        verdict: None,
    }
}

/// The call the host has to perform next, or none when no call is left.
pub open spec fn spec_next_call(operation: OperationView) -> Option<NativeCall> {
    if operation.cursor < operation.calls.len() {
        Some(operation.calls[operation.cursor as int])
    } else {
        None
    }
}

/// The result of an operation: none while a call is left, then the verdict.
pub open spec fn spec_result(operation: OperationView) -> Option<Result<(), ViewErrorView>> {
    if operation.cursor < operation.calls.len() {
        None
    } else {
        match operation.verdict {
            Some(error) => Some(Err(error)),
            None => Some(Ok(())),
        }
    }
}

/// A result in specifications.
pub open spec fn spec_result_view(result: Option<Result<(), ViewError>>) -> Option<
    Result<(), ViewErrorView>,
> {
    match result {
        None => None,
        Some(Ok(_)) => Some(Ok(())),
        Some(Err(error)) => Some(Err(error@)),
    }
}

/// What is known of a window after a call on it succeeded.
pub open spec fn spec_after_call(info: WindowInfo, call: NativeCall) -> WindowInfo {
    WindowInfo {
        bounds: match call {
            NativeCall::SetFrame(frame) => frame.requested,
            _ => info.bounds,
        },
        state: spec_apply(info.state, call),
    }
}

/// What the registry holds after a call on the window of service `id`
/// succeeded. Allocating the window adds its record, unless the service has
/// one; destroying the window deletes the record; any other call changes
/// what the record says, if there is a record.
pub open spec fn spec_effect(
    windows: Map<Seq<char>, WindowInfo>,
    id: Seq<char>,
    call: NativeCall,
) -> Map<Seq<char>, WindowInfo> {
    match call {
        NativeCall::CreateWindow(options) => if windows.contains_key(id) {
            windows
        } else {
            windows.insert(
                id,
                WindowInfo { bounds: options.bounds, state: spec_initial_state(options) },
            )
        },
        NativeCall::Close => windows.remove(id),
        _ => if windows.contains_key(id) {
            windows.insert(id, spec_after_call(windows[id], call))
        } else {
            windows
        },
    }
}

/// What the registry holds after the first `count` of `calls` on the window
/// of service `id` succeeded.
pub open spec fn spec_effects(
    windows: Map<Seq<char>, WindowInfo>,
    id: Seq<char>,
    calls: Seq<NativeCall>,
    count: nat,
) -> Map<Seq<char>, WindowInfo>
    decreases count,
{
    if count == 0 {
        windows
    } else {
        spec_effect(spec_effects(windows, id, calls, (count - 1) as nat), id, calls[count - 1])
    }
}

/// The operation after the host reported on the call it was asked to
/// perform. A success moves on to the next call. So does the failure of a
/// best-effort call. Any other failure drops the calls that are left and
/// makes the platform's error text the verdict. A report on an operation
/// with no call left changes nothing.
pub open spec fn spec_advance(operation: OperationView, outcome: Result<(), String>)
    -> OperationView {
    if operation.cursor >= operation.calls.len() {
        operation
    } else if outcome is Ok || spec_is_best_effort(operation.calls[operation.cursor as int]) {
        OperationView { cursor: operation.cursor + 1, ..operation }
    } else {
        OperationView {
            calls: operation.calls.subrange(0, operation.cursor as int),
            verdict: Some(
                ViewErrorView { kind: ErrorKind::NativeApi, message: outcome->Err_0@ },
            ),
            ..operation
        }
    }
}

/// The registry after the host reported on the call it was asked to
/// perform: the effect of that call if it succeeded, no change otherwise.
pub open spec fn spec_settle(
    operation: OperationView,
    windows: Map<Seq<char>, WindowInfo>,
    outcome: Result<(), String>,
) -> Map<Seq<char>, WindowInfo> {
    if operation.cursor < operation.calls.len() && outcome is Ok {
        spec_effect(windows, operation.id, operation.calls[operation.cursor as int])
    } else {
        windows
    }
}

impl View for Operation {
    type V = OperationView;

    closed spec fn view(&self) -> OperationView {
        OperationView {
            id: self.id@,
            url: self.url@,
            calls: self.calls@,
            cursor: self.cursor as nat,
            verdict: match self.verdict {
                Some(error) => Some(error@),
                None => None,
            },
        }
    }
}

impl Operation {
    #[verifier::type_invariant]
    spec fn cursor_within_calls(&self) -> bool {
        self.cursor <= self.calls@.len()
    }

    /// An operation that makes `calls` on the window of service `id` and,
    /// once they are made, ends with `verdict`.
    pub(crate) fn new(
        id: &str,
        url: String,
        calls: Vec<NativeCall>,
        verdict: Option<ViewError>,
    ) -> (operation: Operation)
        ensures
            operation@ == (OperationView {
                id: id@,
                url: url@,
                calls: calls@,
                cursor: 0,
                verdict: match verdict {
                    Some(error) => Some(error@),
                    None => None,
                },
            }),
    {
        Operation { id: id.to_owned(), url, calls, cursor: 0, verdict }
    }

    /// The operation that has nothing to do and succeeds.
    pub fn idle(id: &str) -> (operation: Operation)
        ensures
            operation@ == spec_idle(id@),
    {
        Operation {
            id: id.to_owned(),
            url: String::new(),
            calls: Vec::new(),
            cursor: 0,
            verdict: None,
        }
    }

    /// The service whose window the operation is about.
    pub fn id(&self) -> (id: &str)
        ensures
            id@ == self@.id,
    {
        self.id.as_str()
    }

    /// The address the window is to show: the serialization of the URL that
    /// was given when the operation creates a window, empty otherwise.
    pub fn url(&self) -> (url: &str)
        ensures
            url@ == self@.url,
    {
        self.url.as_str()
    }

    /// The label of the service's native window.
    pub fn label(&self) -> (label: String)
        ensures
            label@ == spec_window_label(self@.id),
    {
        window_label(self.id.as_str())
    }

    /// The name of the service's storage directory below the application's
    /// data root.
    pub fn data_directory(&self) -> (name: String)
        ensures
            name@ == spec_data_directory_name(self@.id),
    {
        data_directory_name(self.id.as_str())
    }

    /// The number of calls the host is done with.
    pub fn completed(&self) -> (count: usize)
        ensures
            count == self@.cursor,
            count <= self@.calls.len(),
    {
        proof {
            use_type_invariant(self);
        }
        self.cursor
    }

    /// The native calls of the operation that are made or still to be made.
    pub fn calls(&self) -> (calls: Vec<NativeCall>)
        ensures
            calls@ == self@.calls,
    {
        self.calls.clone()
    }

    /// The call the host has to perform next, or none when no call is left.
    pub fn next_call(&self) -> (call: Option<NativeCall>)
        ensures
            call == spec_next_call(self@),
    {
        if self.cursor < self.calls.len() {
            Some(self.calls[self.cursor])
        } else {
            None
        }
    }

    /// Whether no call is left.
    pub fn is_finished(&self) -> (finished: bool)
        ensures
            finished == (spec_next_call(self@) is None),
            finished == (spec_result(self@) is Some),
    {
        self.cursor >= self.calls.len()
    }

    /// The result of the operation: none while a call is left; then success,
    /// or the error the operation ended with.
    pub fn result(&self) -> (result: Option<Result<(), ViewError>>)
        ensures
            spec_result_view(result) == spec_result(self@),
    {
        if self.cursor < self.calls.len() {
            None
        } else {
            match &self.verdict {
                Some(error) => Some(Err(error.duplicate())),
                None => Some(Ok(())),
            }
        }
    }

    /// Takes the host's report on the call it was asked to perform, moves the
    /// operation on and lets the registry know what the call did.
    pub fn report(&mut self, registry: &mut Registry, outcome: Result<(), String>)
        ensures
            final(self)@ == spec_advance(old(self)@, outcome),
            final(registry)@ == spec_settle(old(self)@, old(registry)@, outcome),
            final(registry).spec_profile() == old(registry).spec_profile(),
    {
        proof {
            use_type_invariant(&*self);
        }
        if self.cursor >= self.calls.len() {
            return ;
        }
        let call = self.calls[self.cursor];
        match outcome {
            Ok(()) => {
                record_effect(registry, self.id.as_str(), call);
                self.cursor = self.cursor + 1;
            },
            Err(text) => {
                if is_best_effort(call) {
                    self.cursor = self.cursor + 1;
                } else {
                    let mut calls = self.calls.clone();
                    calls.truncate(self.cursor);
                    self.calls = calls;
                    self.verdict = Some(ViewError::native_api(text));
                }
            },
        }
    }
}

/// Lets the registry know that a call on the window of service `id`
/// succeeded.
pub fn record_effect(registry: &mut Registry, id: &str, call: NativeCall)
    ensures
        final(registry)@ == spec_effect(old(registry)@, id@, call),
        final(registry).spec_profile() == old(registry).spec_profile(),
{
    match call {
        NativeCall::CreateWindow(options) => {
            registry.insert(
                id,
                WindowInfo { bounds: options.bounds, state: WindowState::initial(options) },
            );
        },
        NativeCall::Close => {
            registry.remove(id);
        },
        _ => {
            match registry.info(id) {
                Some(info) => {
                    let bounds = match call {
                        NativeCall::SetFrame(frame) => frame.requested,
                        _ => info.bounds,
                    };
                    registry.update(id, WindowInfo { bounds, state: info.state.apply(call) });
                },
                None => {},
            }
        },
    }
}

} // verus!
