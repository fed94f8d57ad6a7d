use just_a_simple_wayland_screenshot_tool::uri::{file_path_from_uri, local_path_of};
use just_a_simple_wayland_screenshot_tool::ScreenshotError;

fn invalid() -> ScreenshotError {
    ScreenshotError::Portal("Invalid file path".to_string())
}

#[test]
fn a_file_uri_names_its_path() {
    assert_eq!(file_path_from_uri("file:///tmp/shot.png"), Ok(b"/tmp/shot.png".to_vec()));
    assert_eq!(
        file_path_from_uri("file:///run/user/1000/doc/1f2e3d/Screenshot.png"),
        Ok(b"/run/user/1000/doc/1f2e3d/Screenshot.png".to_vec())
    );
    assert_eq!(file_path_from_uri("file:///"), Ok(b"/".to_vec()));
}

#[test]
fn the_host_may_be_localhost() {
    assert_eq!(
        file_path_from_uri("file://localhost/tmp/shot.png"),
        Ok(b"/tmp/shot.png".to_vec())
    );
}

#[test]
fn another_host_is_refused() {
    assert_eq!(file_path_from_uri("file://example.org/tmp/shot.png"), Err(invalid()));
    assert_eq!(file_path_from_uri("file://localhostx/tmp"), Err(invalid()));
    assert_eq!(file_path_from_uri("file://localhos/tmp"), Err(invalid()));
    assert_eq!(file_path_from_uri("file://LOCALHOST/tmp"), Err(invalid()));
}

#[test]
fn another_scheme_is_refused() {
    assert_eq!(file_path_from_uri("http://localhost/tmp/shot.png"), Err(invalid()));
    assert_eq!(file_path_from_uri("/tmp/shot.png"), Err(invalid()));
    assert_eq!(file_path_from_uri("file:/tmp/shot.png"), Err(invalid()));
    assert_eq!(file_path_from_uri("FILE:///tmp/shot.png"), Err(invalid()));
    assert_eq!(file_path_from_uri(""), Err(invalid()));
    assert_eq!(file_path_from_uri("file"), Err(invalid()));
}

#[test]
fn a_uri_without_a_path_is_refused() {
    assert_eq!(file_path_from_uri("file://"), Err(invalid()));
    assert_eq!(file_path_from_uri("file://localhost"), Err(invalid()));
}

#[test]
fn escapes_are_decoded() {
    assert_eq!(
        file_path_from_uri("file:///home/u/Screenshot%20from%202024.png"),
        Ok(b"/home/u/Screenshot from 2024.png".to_vec())
    );
    assert_eq!(file_path_from_uri("file:///%41%6a%4A"), Ok(b"/AjJ".to_vec()));
    assert_eq!(file_path_from_uri("file:///a%2Fb"), Ok(b"/a/b".to_vec()));
    assert_eq!(file_path_from_uri("file:///%e9%FF%00"), Ok(vec![0x2f, 0xe9, 0xff, 0x00]));
    assert_eq!(file_path_from_uri("file:///%2541"), Ok(b"/%41".to_vec()));
}

#[test]
fn a_percent_that_opens_no_escape_stands_for_itself() {
    assert_eq!(file_path_from_uri("file:///100%"), Ok(b"/100%".to_vec()));
    assert_eq!(file_path_from_uri("file:///a%2"), Ok(b"/a%2".to_vec()));
    assert_eq!(file_path_from_uri("file:///a%zz"), Ok(b"/a%zz".to_vec()));
    assert_eq!(file_path_from_uri("file:///a%4g"), Ok(b"/a%4g".to_vec()));
    assert_eq!(file_path_from_uri("file:///%%41"), Ok(b"/%A".to_vec()));
}

#[test]
fn query_and_fragment_are_no_part_of_the_path() {
    assert_eq!(file_path_from_uri("file:///tmp/a.png?x=1"), Ok(b"/tmp/a.png".to_vec()));
    assert_eq!(file_path_from_uri("file:///tmp/a.png#top"), Ok(b"/tmp/a.png".to_vec()));
    assert_eq!(file_path_from_uri("file:///tmp/a%3Fb.png"), Ok(b"/tmp/a?b.png".to_vec()));
}

#[test]
fn text_beyond_ascii_passes_through() {
    assert_eq!(
        file_path_from_uri("file:///tmp/\u{e9}t\u{e9}.png"),
        Ok("/tmp/\u{e9}t\u{e9}.png".as_bytes().to_vec())
    );
}

#[test]
fn bytes_are_read_as_they_are() {
    assert_eq!(local_path_of(b"file:///x"), Some(b"/x".to_vec()));
    assert_eq!(local_path_of(b"file//x"), None);
    assert_eq!(local_path_of(&[0x66, 0x69, 0x6c, 0x65, 0x3a, 0x2f, 0x2f, 0x2f, 0xff]), Some(vec![0x2f, 0xff]));
}
