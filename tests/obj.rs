use gl_typestate::obj::{parse_face, parse_face_vertex, FaceVertex};

fn corner(position: u32, texture: u32, normal: u32) -> FaceVertex {
    FaceVertex { position, texture, normal }
}

#[test]
fn face_line_gives_zero_based_corners() {
    assert_eq!(
        parse_face(b"f 1/1/1 2/2/2 4/3/1"),
        Some(vec![corner(0, 0, 0), corner(1, 1, 1), corner(3, 2, 0)])
    );
}

#[test]
fn face_line_with_extra_whitespace_and_corners() {
    assert_eq!(
        parse_face(b"  f\t10/20/30   11/21/31 12/22/32 13/23/33\r"),
        Some(vec![corner(9, 19, 29), corner(10, 20, 30), corner(11, 21, 31)])
    );
}

#[test]
fn malformed_face_lines_are_none() {
    assert_eq!(parse_face(b"f 1/1 2/2/2 3/3/3"), None);
    assert_eq!(parse_face(b"f 0/1/1 2/2/2 3/3/3"), None);
    assert_eq!(parse_face(b"f 1/1/1 2/2/2"), None);
    assert_eq!(parse_face(b"v 1/1/1 2/2/2 3/3/3"), None);
    assert_eq!(parse_face(b"fa 1/1/1 2/2/2 3/3/3"), None);
    assert_eq!(parse_face(b""), None);
}

#[test]
fn face_vertex_tokens() {
    assert_eq!(parse_face_vertex(b"12/3/7"), Some(corner(11, 2, 6)));
    assert_eq!(parse_face_vertex(b"4294967295/1/1"), Some(corner(4294967294, 0, 0)));
    assert_eq!(parse_face_vertex(b"4294967296/1/1"), None);
    assert_eq!(parse_face_vertex(b"99999999999999999999/1/1"), None);
    assert_eq!(parse_face_vertex(b"1//1"), None);
    assert_eq!(parse_face_vertex(b"1/2/3/4"), None);
    assert_eq!(parse_face_vertex(b"1/x/3"), None);
    assert_eq!(parse_face_vertex(b"/1/1"), None);
}
