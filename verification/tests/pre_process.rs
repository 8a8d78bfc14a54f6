use audit_agent::pre_process::{
    create_general_vector, create_validation_vectors, read_csv, validate_args, NO_INPUT_PATH, NO_OUTPUT_PATH,
};

fn strings(items: &[&str]) -> Vec<String> {
    items.iter().map(|s| s.to_string()).collect()
}

#[test]
fn validate_args_without_input_path() {
    assert_eq!(validate_args(&strings(&["audit"])), Err(NO_INPUT_PATH.to_string()));
    assert_eq!(validate_args(&strings(&[])), Err("no input path received for the audit".to_string()));
}

#[test]
fn validate_args_without_output_path() {
    assert_eq!(validate_args(&strings(&["audit", "in.csv"])), Err(NO_OUTPUT_PATH.to_string()));
    assert_eq!(validate_args(&strings(&["audit", "in.csv"])), Err("no output path recived".to_string()));
}

#[test]
fn validate_args_with_both_paths() {
    assert_eq!(validate_args(&strings(&["audit", "in.csv", "out.csv"])), Ok(()));
    assert_eq!(validate_args(&strings(&["audit", "in.csv", "out.csv", "extra"])), Ok(()));
}

#[test]
fn read_csv_skips_the_header() {
    let rows = read_csv(b"issue,page\nmissing alt,home\nlow contrast,about\n").unwrap();
    assert_eq!(rows, vec![strings(&["missing alt", "home"]), strings(&["low contrast", "about"])]);
}

#[test]
fn read_csv_reads_quoted_fields() {
    let rows = read_csv(b"a,b\n\"x, y\",\"say \"\"hi\"\"\"\n").unwrap();
    assert_eq!(rows, vec![strings(&["x, y", "say \"hi\""])]);
}

#[test]
fn read_csv_of_header_only_is_empty() {
    assert_eq!(read_csv(b"a,b\n").unwrap(), Vec::<Vec<String>>::new());
    assert_eq!(read_csv(b"").unwrap(), Vec::<Vec<String>>::new());
}

#[test]
fn read_csv_refuses_unequal_records() {
    match read_csv(b"a,b\n1,2\n3\n") {
        Err(m) => assert!(!m.is_empty()),
        other => panic!("unexpected {:?}", other),
    }
}

#[test]
fn read_csv_refuses_invalid_utf8() {
    match read_csv(b"a,b\n\xff\xfe,2\n") {
        Err(m) => assert!(!m.is_empty()),
        other => panic!("unexpected {:?}", other),
    }
}

#[test]
fn general_vector_puts_each_field_on_a_line() {
    let records = vec![strings(&["missing alt", "home"]), strings(&["low contrast"]), strings(&[])];
    let texts = create_general_vector(&records);
    assert_eq!(texts, strings(&["missing alt\nhome\n", "low contrast\n", ""]));
}

#[test]
fn general_vector_of_no_records() {
    assert!(create_general_vector(&Vec::new()).is_empty());
}

#[test]
fn general_vector_after_read_csv() {
    let rows = read_csv(b"issue,page\nmissing alt,home\n").unwrap();
    assert_eq!(create_general_vector(&rows), strings(&["missing alt\nhome\n"]));
}

#[test]
fn validation_vectors_name_and_value() {
    let records = vec![strings(&["img-alt", "images need alt text", "extra"]), strings(&["contrast", "4.5:1"])];
    let texts = create_validation_vectors(&records);
    assert_eq!(
        texts,
        strings(&[
            "validation: img-alt\nvalue: images need alt text",
            "validation: contrast\nvalue: 4.5:1",
        ])
    );
}
