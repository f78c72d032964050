use shortyio::status::{line_with_reason, HttpStatus};

#[test]
fn status_accepts_three_digit_numbers_only() {
    assert!(HttpStatus::new(99).is_none());
    assert!(HttpStatus::new(0).is_none());
    assert!(HttpStatus::new(1000).is_none());
    assert!(HttpStatus::new(u16::MAX).is_none());
    assert_eq!(HttpStatus::new(100).map(|s| s.code()), Some(100));
    assert_eq!(HttpStatus::new(999).map(|s| s.code()), Some(999));
    assert_eq!(HttpStatus::new(404).map(|s| s.code()), Some(404));
}

#[test]
fn status_accepts_what_the_transport_accepts() {
    let mut code: u16 = 0;
    loop {
        assert_eq!(
            HttpStatus::new(code).is_some(),
            reqwest::StatusCode::from_u16(code).is_ok(),
            "{}",
            code
        );
        if code == 2000 {
            break;
        }
        code += 1;
    }
}

#[test]
fn success_is_the_class_2xx() {
    for code in 100u16..=999 {
        let status = HttpStatus::new(code).unwrap();
        assert_eq!(status.reports_success(), (200..=299).contains(&code), "{}", code);
    }
}

#[test]
fn status_line_has_number_and_reason() {
    assert_eq!(HttpStatus::new(200).unwrap().line(), "200 OK");
    assert_eq!(HttpStatus::new(404).unwrap().line(), "404 Not Found");
    assert_eq!(HttpStatus::new(401).unwrap().line(), "401 Unauthorized");
    assert_eq!(HttpStatus::new(500).unwrap().line(), "500 Internal Server Error");
}

#[test]
fn status_line_of_a_number_without_reason() {
    assert_eq!(HttpStatus::new(299).unwrap().line(), "299 <unknown status code>");
    assert_eq!(HttpStatus::new(999).unwrap().line(), "999 <unknown status code>");
}

#[test]
fn status_line_reads_as_the_transport_prints_it() {
    for code in 100u16..=999 {
        let ours = HttpStatus::new(code).unwrap().line();
        let theirs = format!("{}", reqwest::StatusCode::from_u16(code).unwrap());
        assert_eq!(ours, theirs);
    }
}

#[test]
fn line_is_number_space_reason() {
    assert_eq!(line_with_reason(418, Some("I'm a teapot".to_string())), "418 I'm a teapot");
    assert_eq!(line_with_reason(200, Some(String::new())), "200 ");
    assert_eq!(line_with_reason(7, None), "7 <unknown status code>");
    assert_eq!(line_with_reason(65535, None), "65535 <unknown status code>");
}
