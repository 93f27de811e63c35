use luminashot::geometry::{decimal_text, format_geometry, push_decimal, push_geometry};

#[test]
fn geometry_is_written_as_corner_and_size() {
    assert_eq!(format_geometry(0, 0, 1920, 1080), "0,0 1920x1080");
    assert_eq!(format_geometry(1920, 0, 2560, 1440), "1920,0 2560x1440");
    assert_eq!(format_geometry(10, 20, 300, 400), "10,20 300x400");
}

#[test]
fn geometry_has_no_leading_zeros_and_no_padding() {
    assert_eq!(format_geometry(0, 0, 0, 0), "0,0 0x0");
    assert_eq!(format_geometry(7, 70, 700, 7000), "7,70 700x7000");
    assert_eq!(format_geometry(100, 2000, 30, 4), "100,2000 30x4");
}

#[test]
fn geometry_of_the_largest_numbers() {
    let max = i32::MAX;
    assert_eq!(
        format_geometry(max, max, max, max),
        "2147483647,2147483647 2147483647x2147483647"
    );
}

#[test]
fn geometry_left_of_and_above_the_origin() {
    assert_eq!(format_geometry(-1920, -5, 1920, 1080), "-1920,-5 1920x1080");
    assert_eq!(
        format_geometry(i32::MIN, i32::MIN, 1, 1),
        "-2147483648,-2147483648 1x1"
    );
}

#[test]
fn geometry_agrees_with_the_standard_formatting() {
    let samples = [0, 1, 9, 10, 99, 100, 1023, 65535, i32::MAX, -1, -10, i32::MIN];
    for &x in samples.iter() {
        for &w in samples.iter() {
            assert_eq!(format_geometry(x, w, w, x), format!("{},{} {}x{}", x, w, w, x));
        }
    }
}

#[test]
fn decimal_text_agrees_with_the_standard_formatting() {
    for n in [0i64, 1, 9, 10, 11, 99, 100, 101, 12345, -1, -10, -12345, i64::MAX, i64::MIN] {
        assert_eq!(decimal_text(n), format!("{}", n));
    }
}

#[test]
fn decimal_text_of_every_small_number() {
    for n in -2000i64..=2000 {
        assert_eq!(decimal_text(n), n.to_string());
    }
}

#[test]
fn pushing_appends_and_keeps_what_was_there() {
    let mut text = String::from("pid ");
    push_decimal(&mut text, 4711);
    assert_eq!(text, "pid 4711");
    push_decimal(&mut text, -3);
    assert_eq!(text, "pid 4711-3");
    let mut line = String::from("at ");
    push_geometry(&mut line, 1, 2, 3, 4);
    assert_eq!(line, "at 1,2 3x4");
}
