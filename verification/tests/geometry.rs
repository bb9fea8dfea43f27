use catacomb::geometry::{
    element_texts, IntoVector, Matrix3x3, MatrixError, Point, Rectangle, Size, SubtractRectFast,
    Vector, Vector3D,
};

fn rect(x: i32, y: i32, w: i32, h: i32) -> Rectangle {
    Rectangle::new(Point::new(x, y), Size::new(w, h))
}

#[test]
fn parse_matrix() {
    let matrix = "1, 0, 0; 0, 1, 0; 0, 0, 1";
    assert_eq!(
        vec![1, 0, 0, 0, 1, 0, 0, 0, 1],
        *Matrix3x3::<i32>::from_str(matrix).unwrap().storage()
    );

    let matrix = "1, 0, 0, 0, 1, 0, 0, 0, 1";
    assert!(Matrix3x3::<i32>::from_str(matrix).is_err());

    let matrix = "1; 0; 0; 0; 1; 0; 0; 0; 1;";
    assert!(Matrix3x3::<i32>::from_str(matrix).is_err());
}

#[test]
fn parse_matrix_reports_the_count() {
    assert_eq!(
        Matrix3x3::<i32>::from_str("1, 0, 0, 0, 1, 0, 0, 0, 1").unwrap_err(),
        MatrixError::Size(3)
    );
    assert_eq!(Matrix3x3::<i32>::from_str("1;2").unwrap_err(), MatrixError::Size(2));
}

#[test]
fn parse_matrix_reports_the_first_bad_element() {
    assert_eq!(
        Matrix3x3::<i32>::from_str("1, 2, 3; 4, x, 6; 7, y, 9").unwrap_err(),
        MatrixError::Element(4)
    );
    assert_eq!(Matrix3x3::<i32>::from_str("").unwrap_err(), MatrixError::Element(0));
    assert_eq!(
        Matrix3x3::<i32>::from_str("2147483648,0,0;0,0,0;0,0,0").unwrap_err(),
        MatrixError::Element(0)
    );
}

#[test]
fn parse_matrix_ignores_what_is_beyond_three() {
    let matrix = Matrix3x3::<i32>::from_str("1,2,3,x;4,5,6;7,8,9;junk").unwrap();
    assert_eq!(*matrix.storage(), vec![1, 2, 3, 4, 5, 6, 7, 8, 9]);
    assert_eq!(matrix.get(1, 2), 6);
}

#[test]
fn parse_matrix_takes_signs_and_white_space() {
    let matrix = Matrix3x3::<i32>::from_str(" -1,+2 ,\t3;\n4,5,6;7,8,-2147483648").unwrap();
    assert_eq!(*matrix.storage(), vec![-1, 2, 3, 4, 5, 6, 7, 8, i32::MIN]);
    assert!(Matrix3x3::<i32>::from_str("- 1,2,3;4,5,6;7,8,9").is_err());
    assert!(Matrix3x3::<i32>::from_str("+,2,3;4,5,6;7,8,9").is_err());
}

#[test]
fn element_texts_are_the_first_three_of_the_first_three_rows() {
    let texts = |text: &str| -> Vec<String> {
        element_texts(text).iter().map(|element| element.iter().collect()).collect()
    };
    assert_eq!(
        texts(" 1.5, x ,\t-3 , 9; 4,5 ;; 7,8,9 ; junk"),
        vec!["1.5", "x", "-3", "4", "5", ""]
    );
    assert_eq!(texts(""), vec![""]);
    assert_eq!(texts(";"), vec!["", ""]);
    assert_eq!(texts("1, 0, 0, 0, 1, 0, 0, 0, 1"), vec!["1", "0", "0"]);
    assert_eq!(texts("1; 0; 0; 0; 1; 0; 0; 0; 1;"), vec!["1", "0", "0"]);
    assert_eq!(texts("a\u{a0},\u{3000}b\u{2003}"), vec!["a", "b"]);
}

#[test]
fn matrix_from_vec_needs_nine_elements() {
    assert!(Matrix3x3::try_from(vec![0u8; 9]).is_ok());
    assert_eq!(Matrix3x3::try_from(vec![0u8; 8]).unwrap_err(), MatrixError::Size(8));
    assert_eq!(Matrix3x3::try_from(vec![1.5f32; 10]).unwrap_err(), MatrixError::Size(10));
}

#[test]
fn matrix_clone_keeps_the_elements() {
    let matrix = Matrix3x3::try_from(vec![1, 2, 3, 4, 5, 6, 7, 8, 9]).unwrap();
    assert_eq!(matrix.clone(), matrix);
}

#[test]
fn vector_new_keeps_its_coordinates() {
    let vector = Vector3D::new(1, 2, 3);
    assert_eq!((vector.x, vector.y, vector.z), (1, 2, 3));
}

#[test]
fn vectors_compare_by_coordinate() {
    let a = Point::new(1, 9);
    let b = Point::new(5, 2);
    assert_eq!(a.min(b), Point::new(1, 2));
    assert_eq!(a.max(b), Point::new(5, 9));
    assert_eq!(a.sub(b), Point::new(-4, 7));
    assert_eq!(Size::new(3, 4).as_vector(), (3, 4));
    assert_eq!(a.as_vector(), (1, 9));
    assert_eq!(Size::new(i32::MIN, 0).sub(Size::new(1, 0)), Size::new(i32::MIN, 0));
}

#[test]
fn rectangle_contains_its_corner_but_not_its_far_edge() {
    let r = rect(10, 20, 30, 40);
    assert!(r.contains(Point::new(10, 20)));
    assert!(r.contains(Point::new(39, 59)));
    assert!(!r.contains(Point::new(40, 20)));
    assert!(!r.contains(Point::new(10, 60)));
    assert!(!r.contains(Point::new(9, 20)));
}

#[test]
fn rectangles_that_touch_do_not_overlap() {
    assert!(!rect(0, 0, 10, 10).overlaps(rect(10, 0, 10, 10)));
    assert!(rect(0, 0, 10, 10).overlaps(rect(9, 9, 10, 10)));
    assert_eq!(rect(0, 0, 10, 10).intersection(rect(10, 0, 10, 10)), None);
    assert_eq!(rect(0, 0, 10, 10).intersection(rect(5, 6, 10, 10)), Some(rect(5, 6, 5, 4)));
    assert!(rect(0, 0, 10, 10).contains_rect(rect(0, 0, 10, 10)));
    assert!(!rect(0, 0, 10, 10).contains_rect(rect(1, 1, 10, 10)));
    assert!(rect(0, 0, 0, 10).is_empty());
    assert!(!rect(0, 0, 1, 1).is_empty());
}

#[test]
fn subtract_rect_leaves_the_four_parts_around_a_hole() {
    let mut rects = vec![rect(0, 0, 10, 10)];
    rects.subtract_rect(rect(2, 3, 4, 5));
    assert_eq!(
        rects,
        vec![rect(0, 0, 10, 3), rect(0, 3, 2, 5), rect(6, 3, 4, 5), rect(0, 8, 10, 2)]
    );
}

#[test]
fn subtract_rect_keeps_removes_and_cuts() {
    let mut rects = vec![rect(0, 0, 10, 10), rect(20, 0, 5, 5), rect(8, 0, 14, 4)];
    rects.subtract_rect(rect(5, 0, 20, 10));
    assert_eq!(rects, vec![rect(0, 0, 5, 10)]);

    let mut rects = vec![rect(0, 0, 10, 10), rect(100, 100, 1, 1)];
    rects.subtract_rect(rect(0, 5, 10, 10));
    assert_eq!(rects, vec![rect(0, 0, 10, 5), rect(100, 100, 1, 1)]);

    let mut none: Vec<Rectangle> = Vec::new();
    none.subtract_rect(rect(0, 0, 1, 1));
    assert!(none.is_empty());
}
