//! Names derived from a service identifier: the label under which the host
//! knows a pane's native window, and the directory that holds the pane's
//! persistent storage.

use vstd::prelude::*;
use vstd::string::*;

verus! {

/// The label of the main window.
pub open spec fn spec_main_window_label() -> Seq<char> {
    "main"@
}

/// The title every service window is created with.
pub open spec fn spec_window_title() -> Seq<char> {
    "Service"@
}

/// The label of the native window that shows the pane of service `id`.
pub open spec fn spec_window_label(id: Seq<char>) -> Seq<char> {
    "service-"@ + id
}

/// The name, below the application's data root, of the directory that holds
/// the persistent storage of service `id`.
pub open spec fn spec_data_directory_name(id: Seq<char>) -> Seq<char> {
    "service_data_"@ + id
}

/// The label of the main window.
pub fn main_window_label() -> (label: &'static str)
    ensures
        label@ == spec_main_window_label(),
{
    "main"
}

/// The title every service window is created with.
pub fn window_title() -> (title: &'static str)
    ensures
        title@ == spec_window_title(),
{
    "Service"
}

/// The label of the native window that shows the pane of service `id`.
pub fn window_label(id: &str) -> (label: String)
    ensures
        label@ == spec_window_label(id@),
{
    let mut label = "service-".to_owned();
    label.append(id);
    label
}

/// The name of the storage directory of service `id`, to be joined to the
/// application's data root.
pub fn data_directory_name(id: &str) -> (name: String)
    ensures
        name@ == spec_data_directory_name(id@),
{
    let mut name = "service_data_".to_owned();
    name.append(id);
    name
}

/// Two sequences that share a prefix and are equal as a whole have equal
/// remainders.
proof fn lemma_common_prefix_cancels(prefix: Seq<char>, a: Seq<char>, b: Seq<char>)
    requires
        prefix + a == prefix + b,
    ensures
        a == b,
{
    let n = prefix.len() as int;
    assert((prefix + a).subrange(n, n + a.len()) =~= a);
    assert((prefix + b).subrange(n, n + b.len()) =~= b);
    assert((prefix + a).len() == n + a.len());
    assert((prefix + b).len() == n + b.len());
}

/// Distinct services have distinct window labels: a native window is never
/// shared between two services.
pub proof fn law_window_labels_distinct(a: Seq<char>, b: Seq<char>)
    ensures
        spec_window_label(a) == spec_window_label(b) <==> a == b,
{
    if spec_window_label(a) == spec_window_label(b) {
        lemma_common_prefix_cancels("service-"@, a, b);
    }
}

/// Distinct services have distinct storage directories: cookies and local
/// storage of one service are out of reach of every other.
pub proof fn law_data_directories_distinct(a: Seq<char>, b: Seq<char>)
    ensures
        spec_data_directory_name(a) == spec_data_directory_name(b) <==> a == b,
{
    if spec_data_directory_name(a) == spec_data_directory_name(b) {
        lemma_common_prefix_cancels("service_data_"@, a, b);
    }
}

/// No service window carries the main window's label, whatever the service
/// is called.
pub proof fn law_window_label_is_not_main(id: Seq<char>)
    ensures
        spec_window_label(id) != spec_main_window_label(),
{
    reveal_strlit("service-");
    reveal_strlit("main");
    assert(spec_window_label(id).len() >= 8);
    assert(spec_main_window_label().len() == 4);
}

} // verus!
