use avored_cms::Error;
use avored_cms::field::{
    ContentField, DataType, ExternalField, ExternalFieldData, FieldContent, FieldData, FieldType,
    convert, convert_fields, parse_data_type, parse_field_content, parse_field_type, to_external,
};

fn scalar_field(
    name: &str,
    identifier: &str,
    data_type: &str,
    field_type: &str,
    field_content: &str,
    value: &str,
) -> ExternalField {
    ExternalField {
        name: name.to_string(),
        identifier: identifier.to_string(),
        data_type: data_type.to_string(),
        field_type: field_type.to_string(),
        field_content: field_content.to_string(),
        field_data: ExternalFieldData { value: value.to_string(), children: Vec::new() },
    }
}

#[test]
fn parse_recognizes_the_closed_sets() {
    assert_eq!(parse_data_type(&"TEXT".to_string()), Ok(DataType::Text));
    assert_eq!(parse_data_type(&"NUMBER".to_string()), Ok(DataType::Number));
    assert_eq!(parse_data_type(&"BOOLEAN".to_string()), Ok(DataType::Boolean));
    assert_eq!(parse_data_type(&"RICH_TEXT".to_string()), Ok(DataType::RichText));
    assert_eq!(parse_data_type(&"DATE".to_string()), Ok(DataType::Date));
    assert_eq!(parse_field_type(&"SINGLE_LINE".to_string()), Ok(FieldType::SingleLine));
    assert_eq!(parse_field_type(&"REPEATER".to_string()), Ok(FieldType::Repeater));
    assert_eq!(parse_field_content(&"SCALAR".to_string()), Ok(FieldContent::Scalar));
    assert_eq!(parse_field_content(&"COLLECTION".to_string()), Ok(FieldContent::Group));
}

#[test]
fn parse_rejects_unrecognized_strings() {
    assert_eq!(parse_data_type(&"text".to_string()), Err(Error::Validation));
    assert_eq!(parse_data_type(&"".to_string()), Err(Error::Validation));
    assert_eq!(parse_field_type(&"SINGLELINE".to_string()), Err(Error::Validation));
    assert_eq!(parse_field_content(&"MAP".to_string()), Err(Error::Validation));
}

#[test]
fn convert_scalar_round_trips_to_the_wire_shape() {
    let e = scalar_field("Title", "title", "TEXT", "SINGLE_LINE", "SCALAR", "Hello");
    let f = convert(&e).unwrap();
    assert_eq!(f.name, "Title");
    assert_eq!(f.identifier, "title");
    assert_eq!(f.data_type, DataType::Text);
    assert_eq!(f.field_type, FieldType::SingleLine);
    assert_eq!(f.field_content, FieldContent::Scalar);
    match &f.field_data {
        FieldData::Scalar(v) => assert_eq!(v, "Hello"),
        FieldData::Group(_) => panic!("expected a scalar payload"),
    }
    let back = to_external(&f);
    assert_eq!(back.name, e.name);
    assert_eq!(back.identifier, e.identifier);
    assert_eq!(back.data_type, e.data_type);
    assert_eq!(back.field_type, e.field_type);
    assert_eq!(back.field_content, e.field_content);
    assert_eq!(back.field_data.value, e.field_data.value);
    assert_eq!(back.field_data.children.len(), 0);
}

#[test]
fn convert_nested_group_round_trips() {
    let child = scalar_field("Line", "line", "TEXT", "SINGLE_LINE", "SCALAR", "one");
    let e = ExternalField {
        name: "Rows".to_string(),
        identifier: "rows".to_string(),
        data_type: "TEXT".to_string(),
        field_type: "REPEATER".to_string(),
        field_content: "COLLECTION".to_string(),
        field_data: ExternalFieldData { value: String::new(), children: vec![child] },
    };
    let f = convert(&e).unwrap();
    assert_eq!(f.field_content, FieldContent::Group);
    let children: &Vec<ContentField> = match &f.field_data {
        FieldData::Group(g) => g,
        FieldData::Scalar(_) => panic!("expected a nested group"),
    };
    assert_eq!(children.len(), 1);
    assert_eq!(children[0].identifier, "line");
    let back = to_external(&f);
    assert_eq!(back.field_content, "COLLECTION");
    assert_eq!(back.field_data.value, "");
    assert_eq!(back.field_data.children.len(), 1);
    assert_eq!(back.field_data.children[0].identifier, "line");
    assert_eq!(back.field_data.children[0].field_data.value, "one");
}

#[test]
fn convert_fails_closed_on_unrecognized_kinds() {
    let e = scalar_field("A", "a", "FLOAT", "SINGLE_LINE", "SCALAR", "x");
    assert_eq!(convert(&e).err(), Some(Error::Validation));
    let e = scalar_field("A", "a", "TEXT", "TRIPLE_LINE", "SCALAR", "x");
    assert_eq!(convert(&e).err(), Some(Error::Validation));
    let e = scalar_field("A", "a", "TEXT", "SINGLE_LINE", "VECTOR", "x");
    assert_eq!(convert(&e).err(), Some(Error::Validation));
}

#[test]
fn convert_fails_closed_on_shape_mismatches() {
    let child = scalar_field("B", "b", "TEXT", "SINGLE_LINE", "SCALAR", "y");
    let scalar_with_children = ExternalField {
        field_data: ExternalFieldData { value: "x".to_string(), children: vec![child] },
        ..scalar_field("A", "a", "TEXT", "SINGLE_LINE", "SCALAR", "")
    };
    assert_eq!(convert(&scalar_with_children).err(), Some(Error::Validation));
    let group_with_value = scalar_field("A", "a", "TEXT", "REPEATER", "COLLECTION", "x");
    assert_eq!(convert(&group_with_value).err(), Some(Error::Validation));
}

#[test]
fn one_bad_field_fails_the_whole_list() {
    let good = scalar_field("A", "a", "TEXT", "SINGLE_LINE", "SCALAR", "x");
    let bad = scalar_field("B", "b", "NOPE", "SINGLE_LINE", "SCALAR", "y");
    let r = convert_fields(&vec![good, bad]);
    assert_eq!(r.err(), Some(Error::Validation));
}
