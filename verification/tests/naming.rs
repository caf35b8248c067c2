use service_views::greeting::greet;
use service_views::naming::{data_directory_name, main_window_label, window_label, window_title};

#[test]
fn label_is_the_prefixed_identifier() {
    assert_eq!(window_label("mail"), "service-mail");
    assert_eq!(window_label(""), "service-");
    assert_eq!(window_label("a b/c"), "service-a b/c");
}

#[test]
fn data_directory_is_the_prefixed_identifier() {
    assert_eq!(data_directory_name("mail"), "service_data_mail");
    assert_eq!(data_directory_name(""), "service_data_");
}

#[test]
fn distinct_services_have_distinct_names() {
    assert_ne!(window_label("a"), window_label("b"));
    assert_ne!(data_directory_name("a"), data_directory_name("b"));
    assert_ne!(window_label("main"), main_window_label());
}

#[test]
fn fixed_names() {
    assert_eq!(main_window_label(), "main");
    assert_eq!(window_title(), "Service");
}

#[test]
fn greeting_names_the_visitor() {
    assert_eq!(greet("Ada"), "Hello, Ada! You've been greeted from Rust!");
    assert_eq!(greet(""), "Hello, ! You've been greeted from Rust!");
}
