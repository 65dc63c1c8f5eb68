use voctozoom::geometry::Crop;
use voctozoom::protocol::bytes_eq;
use voctozoom::protocol::encode_zoom_to;
use voctozoom::protocol::expected_resolution_line;
use voctozoom::protocol::get_image_cmd;
use voctozoom::protocol::get_resolution_cmd;
use voctozoom::protocol::is_ok_response;
use voctozoom::protocol::resolution_matches;

#[test]
fn zoom_command_is_size_then_offset() {
    let cmd = encode_zoom_to(Crop { x: 64, y: 36, w: 1152, h: 648 });
    assert_eq!(cmd, b"zoom_to 1152x648+64+36\n".to_vec());
}

#[test]
fn zoom_command_writes_zero_coordinates() {
    let cmd = encode_zoom_to(Crop { x: 0, y: 0, w: 1280, h: 720 });
    assert_eq!(cmd, b"zoom_to 1280x720+0+0\n".to_vec());
}

#[test]
fn only_the_exact_ok_line_acknowledges() {
    assert!(is_ok_response(&b"OK\n".to_vec()));
    assert!(!is_ok_response(&b"ERR\n".to_vec()));
    assert!(!is_ok_response(&b"OK".to_vec()));
    assert!(!is_ok_response(&b"ok\n".to_vec()));
    assert!(!is_ok_response(&b"OK\n\n".to_vec()));
    assert!(!is_ok_response(&Vec::new()));
}

#[test]
fn resolution_line_must_match_exactly() {
    assert_eq!(expected_resolution_line(), b"1280x720\n".to_vec());
    assert!(resolution_matches(&b"1280x720\n".to_vec()));
    assert!(!resolution_matches(&b"1024x768\n".to_vec()));
    assert!(!resolution_matches(&b"1280x720".to_vec()));
}

#[test]
fn command_lines_end_in_newline() {
    assert_eq!(get_image_cmd(), b"get_image\n".to_vec());
    assert_eq!(get_resolution_cmd(), b"get_resolution\n".to_vec());
}

#[test]
fn bytes_eq_compares_contents() {
    assert!(bytes_eq(&b"abc".to_vec(), &b"abc".to_vec()));
    assert!(!bytes_eq(&b"abc".to_vec(), &b"abd".to_vec()));
    assert!(!bytes_eq(&b"abc".to_vec(), &b"ab".to_vec()));
    assert!(bytes_eq(&Vec::new(), &Vec::new()));
}
