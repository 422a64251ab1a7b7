use gif_maker::output::resolve_output_path;

#[test]
fn output_goes_beside_a_regular_input_file() {
    let path = resolve_output_path("/x/y/clip.mp4", true, "output.gif".to_string());
    assert_eq!(path, "/x/y/clip.gif");
}

#[test]
fn output_of_a_regular_input_overrides_the_requested_path() {
    let path = resolve_output_path("/x/y/clip.mp4", true, "/elsewhere/wanted.gif".to_string());
    assert_eq!(path, "/x/y/clip.gif");
}

#[test]
fn requested_path_is_kept_when_the_input_is_no_file() {
    let path = resolve_output_path("/x/y/clip.mp4", false, "output.gif".to_string());
    assert_eq!(path, "output.gif");
}

#[test]
fn an_input_without_extension_gets_one() {
    assert_eq!(resolve_output_path("/x/y/clip", true, String::new()), "/x/y/clip.gif");
}

#[test]
fn only_the_last_extension_is_replaced() {
    assert_eq!(resolve_output_path("a/b.c/take.1.mov", true, String::new()), "a/b.c/take.1.gif");
}

#[test]
fn a_relative_input_stays_relative() {
    assert_eq!(resolve_output_path("clip.webm", true, String::new()), "clip.gif");
}

#[test]
fn a_hidden_file_keeps_its_name() {
    assert_eq!(resolve_output_path("/x/.clip", true, String::new()), "/x/.clip.gif");
}
