use obj_mesh::decimal::Decimal;
use obj_mesh::error::{ParseError, TextureAxis};
use obj_mesh::vertex::geometric::GeometricVertex;
use obj_mesh::vertex::normal::VertexNormal;
use obj_mesh::vertex::texture::TextureVertex;

fn float(number: &Decimal) -> f32 {
    number.to_text().parse().unwrap()
}

fn floats3(numbers: &[Decimal; 3]) -> [f32; 3] {
    [float(&numbers[0]), float(&numbers[1]), float(&numbers[2])]
}

fn floats2(numbers: &[Decimal; 2]) -> [f32; 2] {
    [float(&numbers[0]), float(&numbers[1])]
}

fn texts3(numbers: &[Decimal; 3]) -> [String; 3] {
    [numbers[0].to_text(), numbers[1].to_text(), numbers[2].to_text()]
}

fn groups(texts: &[Option<&str>]) -> Option<Vec<Option<String>>> {
    Some(texts.iter().map(|text| text.map(|t| t.to_string())).collect())
}

#[test]
fn geometric_create_from_line() {
    let test_data = [
        ("v 1.000000 1.000000 -1.000000", [1.0, 1.0, -1.0]),
        ("v -1.000000 -1.000000 1.000000", [-1.0, -1.0, 1.0]),
        ("v -0.500000 1.100000 0.340000", [-0.5, 1.1, 0.34]),
    ];

    for data in test_data {
        let line = data.0;
        let expected: [f32; 3] = data.1;

        let actual = GeometricVertex::from_line(line).unwrap();
        assert_eq!(expected, floats3(actual.position()));
    }
}

#[test]
fn geometric_reject_invalid_line() {
    let test_data = [
        "vn -0.0000 1.0000 -0.0000",
        "o Cube",
        "vt 0.625000 0.500000",
        "s 0",
        "# Blender 3.4.1",
        "f 5/5/1 3/3/1 1/1/1",
        "v 1.000000 1.000000",
        "v 1.s 1.000000 -1.000000",
    ];

    for line in test_data {
        let result = GeometricVertex::from_line(line);
        assert!(result.is_err());
    }
}

#[test]
fn normal_create_from_line() {
    let test_data = [
        ("vn 1.0000 1.0000 -1.0000", [1.0, 1.0, -1.0]),
        ("vn -1.000000 -1.000000 1.000000", [-1.0, -1.0, 1.0]),
        ("vn -0.500000 1.100000 0.340000", [-0.5, 1.1, 0.34]),
    ];

    for data in test_data {
        let line = data.0;
        let expected: [f32; 3] = data.1;

        let actual = VertexNormal::from_line(line).unwrap();
        assert_eq!(expected, floats3(actual.direction()));
    }
}

#[test]
fn normal_reject_invalid_line() {
    let test_data = [
        "v -0.0000 1.0000 -0.0000",
        "o Cube",
        "vt 0.625000 0.500000",
        "s 0",
        "# Blender 3.4.1",
        "f 5/5/1 3/3/1 1/1/1",
        "vn 1.000000 1.000000",
        "vn 1.s 1.000000 -1.000000",
    ];

    for line in test_data {
        let result = VertexNormal::from_line(line);
        assert!(result.is_err());
    }
}

#[test]
fn texture_create_from_line() {
    let test_data = [
        ("vt 1.000000 1.000000", [1.0, 1.0]),
        ("vt 0.0000 0.00000", [0.0, 0.0]),
        ("vt 0.5600 0.340000", [0.56, 0.34]),
    ];

    for data in test_data {
        let line = data.0;
        let expected: [f32; 2] = data.1;

        let actual = TextureVertex::from_line(line).unwrap();
        assert_eq!(expected, floats2(actual.coordinate()));
    }
}

#[test]
fn texture_reject_invalid_line() {
    let test_data = [
        "v -0.0000 1.0000 -0.0000",
        "o Cube",
        "vt -0.625000 0.500000",
        "vt 0.625000 -0.500000",
        "s 0",
        "# Blender 3.4.1",
        "f 5/5/1 3/3/1 1/1/1",
        "vn 1.000000 1.000000",
        "vn 1.s 1.000000 -1.000000",
        "vt",
    ];

    for line in test_data {
        let result = TextureVertex::from_line(line);
        assert!(result.is_err());
    }
}

#[test]
fn vertex_keeps_every_digit_of_the_line() {
    let vertex = GeometricVertex::from_line("v 1.000000 1.000000 -1.000000").unwrap();
    assert_eq!(
        texts3(vertex.position()),
        ["1.000000".to_string(), "1.000000".to_string(), "-1.000000".to_string()]
    );
    let normal = VertexNormal::from_line("vn -0.0000 0.333333333333333333333 007.50").unwrap();
    assert_eq!(
        texts3(normal.direction()),
        ["-0.0000".to_string(), "0.333333333333333333333".to_string(), "007.50".to_string()]
    );
}

#[test]
fn vertex_rejections_name_the_line_and_the_reason() {
    let rejected = GeometricVertex::from_line("vn -0.0000 1.0000 -0.0000").unwrap_err();
    assert_eq!(rejected.reason(), ParseError::LineShapeMismatch);
    assert_eq!(rejected.line(), "vn -0.0000 1.0000 -0.0000");
    assert_eq!(
        rejected.message(),
        "line does not have the expected shape: vn -0.0000 1.0000 -0.0000"
    );

    let rejected = VertexNormal::from_line("vn 1 2 3").unwrap_err();
    assert_eq!(rejected.reason(), ParseError::LineShapeMismatch);
    assert_eq!(rejected.line(), "vn 1 2 3");

    let rejected = GeometricVertex::from_line("v 1.000000 1.000000").unwrap_err();
    assert_eq!(rejected.reason(), ParseError::LineShapeMismatch);
    let rejected = GeometricVertex::from_line("v 1.s 1.000000 -1.000000").unwrap_err();
    assert_eq!(rejected.reason(), ParseError::LineShapeMismatch);
}

#[test]
fn negative_texture_component_is_named() {
    let rejected = TextureVertex::from_line("vt -0.625000 0.500000").unwrap_err();
    assert_eq!(rejected.reason(), ParseError::NegativeTextureCoordinate(TextureAxis::U));
    assert_eq!(rejected.line(), "vt -0.625000 0.500000");
    assert_eq!(
        rejected.message(),
        "negative 'u' value in texture coordinate: vt -0.625000 0.500000"
    );

    let rejected = TextureVertex::from_line("vt 0.625000 -0.500000").unwrap_err();
    assert_eq!(rejected.reason(), ParseError::NegativeTextureCoordinate(TextureAxis::V));
    assert_eq!(
        rejected.message(),
        "negative 'v' value in texture coordinate: vt 0.625000 -0.500000"
    );

    let rejected = TextureVertex::from_line("vt -0.1 -0.1").unwrap_err();
    assert_eq!(rejected.reason(), ParseError::NegativeTextureCoordinate(TextureAxis::U));
}

#[test]
fn negative_zero_is_a_texture_coordinate() {
    let vertex = TextureVertex::from_line("vt -0.000 0.5").unwrap();
    assert_eq!(floats2(vertex.coordinate()), [0.0, 0.5]);
    assert_eq!(vertex.coordinate()[0].to_text(), "-0.000");
    assert!(!vertex.coordinate()[0].is_negative());
}

#[test]
fn number_with_two_signs_counts_as_zero() {
    let vertex = GeometricVertex::from_line("v --1.5 2.5 -3.5").unwrap();
    assert_eq!(floats3(vertex.position()), [0.0, 2.5, -3.5]);
    assert_eq!(vertex.position()[0].to_text(), "0.0");

    let vertex = TextureVertex::from_line("vt --1.5 2.5").unwrap();
    assert_eq!(floats2(vertex.coordinate()), [0.0, 2.5]);
}

#[test]
fn number_in_other_digits_counts_as_zero() {
    let vertex = GeometricVertex::from_line("v \u{0661}.\u{0662} 2.5 -3.5").unwrap();
    assert_eq!(floats3(vertex.position()), [0.0, 2.5, -3.5]);
}

#[test]
fn record_inside_a_longer_line_is_rejected() {
    for line in [
        "  v 1.5 2.5 3.5 # corner",
        " v 1.5 2.5 3.5",
        "v 1.5 2.5 3.5 ",
        "v 1.5 2.5 3.5\r",
        "v 1.5 2.5 3.5 # corner",
        "xv 1.000000 1.000000 -1.000000",
        "vv 1.000000 1.000000 -1.000000",
        "v 1.000000 1.000000 -1.000000x",
        "v 1.000000 1.000000 -1.000000 v 1.000000 1.000000 -1.000000",
    ] {
        let rejected = GeometricVertex::from_line(line).unwrap_err();
        assert_eq!(rejected.reason(), ParseError::LineShapeMismatch, "{:?}", line);
        assert_eq!(rejected.line(), line);
    }
    for line in ["xvn 1.0 2.0 3.0", " vn 1.0 2.0 3.0", "vn 1.0 2.0 3.0 ", "vn 1.0 2.0 3.0#"] {
        let rejected = VertexNormal::from_line(line).unwrap_err();
        assert_eq!(rejected.reason(), ParseError::LineShapeMismatch, "{:?}", line);
    }
    for line in ["xvt 0.5 0.5", " vt 0.5 0.5", "vt 0.5 0.5 ", "vt -0.5 0.5 ", "xvt 0.5 -0.5"] {
        let rejected = TextureVertex::from_line(line).unwrap_err();
        assert_eq!(rejected.reason(), ParseError::LineShapeMismatch, "{:?}", line);
    }
}

#[test]
fn line_with_a_number_too_many_is_rejected() {
    let rejected = VertexNormal::from_line("vn 1.0 2.0 3.0 4.0").unwrap_err();
    assert_eq!(rejected.reason(), ParseError::LineShapeMismatch);
    assert_eq!(rejected.line(), "vn 1.0 2.0 3.0 4.0");
    assert_eq!(
        rejected.message(),
        "line does not have the expected shape: vn 1.0 2.0 3.0 4.0"
    );

    let rejected = GeometricVertex::from_line("v 1.0 2.0 3.0 4.0").unwrap_err();
    assert_eq!(rejected.reason(), ParseError::LineShapeMismatch);

    let rejected = TextureVertex::from_line("vt 0.5 0.5 0.5").unwrap_err();
    assert_eq!(rejected.reason(), ParseError::LineShapeMismatch);
}

#[test]
fn line_that_is_the_record_and_no_more_is_read() {
    let vertex = GeometricVertex::from_line("v 1.5 2.5 3.5").unwrap();
    assert_eq!(floats3(vertex.position()), [1.5, 2.5, 3.5]);
    let normal = VertexNormal::from_line("vn 1.0 2.0 3.0").unwrap();
    assert_eq!(floats3(normal.direction()), [1.0, 2.0, 3.0]);
    let vertex = TextureVertex::from_line("vt 0.5 0.25").unwrap();
    assert_eq!(floats2(vertex.coordinate()), [0.5, 0.25]);
}

#[test]
fn vertex_from_groups_rejects_a_match_that_is_not_the_line() {
    let found = groups(&[
        Some("v 1.000000 1.000000 -1.000000"),
        Some("1.000000"),
        Some("1.000000"),
        Some("-1.000000"),
    ]);
    let line = "xv 1.000000 1.000000 -1.000000";
    let rejected = GeometricVertex::from_groups(found, line).unwrap_err();
    assert_eq!(rejected.reason(), ParseError::LineShapeMismatch);
    assert_eq!(rejected.line(), line);

    let found = groups(&[Some("vn 1.0 2.0 3.0"), Some("1.0"), Some("2.0"), Some("3.0")]);
    let rejected = VertexNormal::from_groups(found, "vn 1.0 2.0 3.0 4.0").unwrap_err();
    assert_eq!(rejected.reason(), ParseError::LineShapeMismatch);

    let found = groups(&[Some("vt 0.5 0.5"), Some("0.5"), Some("0.5")]);
    let rejected = TextureVertex::from_groups(found, "vt 0.5 0.5 0.5").unwrap_err();
    assert_eq!(rejected.reason(), ParseError::LineShapeMismatch);

    let found = groups(&[Some("vt -0.5 0.5"), Some("-0.5"), Some("0.5")]);
    let rejected = TextureVertex::from_groups(found, "vt -0.5 0.5 # edge").unwrap_err();
    assert_eq!(rejected.reason(), ParseError::LineShapeMismatch);

    let found = groups(&[None, Some("1.0"), Some("2.0"), Some("3.0")]);
    let rejected = GeometricVertex::from_groups(found, "v 1.0 2.0 3.0").unwrap_err();
    assert_eq!(rejected.reason(), ParseError::LineShapeMismatch);

    let rejected = GeometricVertex::from_groups(Some(Vec::new()), "").unwrap_err();
    assert_eq!(rejected.reason(), ParseError::LineShapeMismatch);
}

#[test]
fn vertex_from_groups_reads_groups_one_to_three() {
    let found = groups(&[Some("v 1.5 2.5 -3.5"), Some("1.5"), Some("2.5"), Some("-3.5")]);
    let vertex = GeometricVertex::from_groups(found, "v 1.5 2.5 -3.5").unwrap();
    assert_eq!(floats3(vertex.position()), [1.5, 2.5, -3.5]);

    let found = groups(&[Some("vn 1.5 2.5 -3.5"), Some("1.5"), Some("2.5"), Some("-3.5")]);
    let normal = VertexNormal::from_groups(found, "vn 1.5 2.5 -3.5").unwrap();
    assert_eq!(floats3(normal.direction()), [1.5, 2.5, -3.5]);

    let found = groups(&[Some("vt 1.5 2.5"), Some("1.5"), Some("2.5")]);
    let vertex = TextureVertex::from_groups(found, "vt 1.5 2.5").unwrap();
    assert_eq!(floats2(vertex.coordinate()), [1.5, 2.5]);
}

#[test]
fn vertex_from_groups_rejects_other_shapes() {
    let rejected = GeometricVertex::from_groups(None, "o Cube").unwrap_err();
    assert_eq!(rejected.reason(), ParseError::LineShapeMismatch);
    assert_eq!(rejected.line(), "o Cube");

    let found = groups(&[Some("v 1.5 2.5"), Some("1.5"), Some("2.5")]);
    let rejected = GeometricVertex::from_groups(found, "v 1.5 2.5").unwrap_err();
    assert_eq!(rejected.reason(), ParseError::LineShapeMismatch);

    let found = groups(&[Some("v"), Some("1.5"), Some("2.5"), Some("3.5"), Some("4.5")]);
    assert!(VertexNormal::from_groups(found, "v").is_err());

    let found = groups(&[Some("v"), Some("1.5"), None, Some("3.5")]);
    assert!(GeometricVertex::from_groups(found, "v").is_err());

    let found = groups(&[Some("vt"), Some("1.5"), Some("2.5"), Some("3.5")]);
    let rejected = TextureVertex::from_groups(found, "vt").unwrap_err();
    assert_eq!(rejected.reason(), ParseError::LineShapeMismatch);

    let found = groups(&[Some("vt"), Some("1.5"), Some("-2.5")]);
    let rejected = TextureVertex::from_groups(found, "vt").unwrap_err();
    assert_eq!(rejected.reason(), ParseError::NegativeTextureCoordinate(TextureAxis::V));
}

#[test]
fn parsing_a_line_twice_gives_equal_vertices() {
    let line = "v -0.500000 1.100000 0.340000";
    assert_eq!(GeometricVertex::from_line(line), GeometricVertex::from_line(line));
    let line = "vn -0.500000 1.100000 0.340000";
    assert_eq!(VertexNormal::from_line(line), VertexNormal::from_line(line));
    let line = "vt 0.5600 0.340000";
    assert_eq!(TextureVertex::from_line(line), TextureVertex::from_line(line));
    let line = "vt 0.5600 -0.340000";
    assert_eq!(TextureVertex::from_line(line), TextureVertex::from_line(line));
}

#[test]
fn default_vertices_are_at_zero() {
    assert_eq!(floats3(GeometricVertex::default().position()), [0.0, 0.0, 0.0]);
    assert_eq!(floats3(VertexNormal::default().direction()), [0.0, 0.0, 0.0]);
    assert_eq!(floats2(TextureVertex::default().coordinate()), [0.0, 0.0]);
}

#[test]
fn new_vertex_holds_its_position() {
    let position = [
        Decimal::from_token("1.25"),
        Decimal::from_token("-2.5"),
        Decimal::from_token("0.0"),
    ];
    let vertex = GeometricVertex::new(position);
    assert_eq!(floats3(vertex.position()), [1.25, -2.5, 0.0]);
    assert_eq!(vertex, GeometricVertex::from_line("v 1.25 -2.5 0.0").unwrap());
    assert_eq!(vertex.clone(), vertex);
}
