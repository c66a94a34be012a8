use sentinel_pii_scanner::{Detector, Registry, ScanResult};

fn registry() -> Registry {
    match Registry::initialize() {
        Ok(r) => r,
        Err(e) => panic!("built-in rule {} does not compile", e.category),
    }
}

fn pairs(r: &ScanResult) -> Vec<(String, usize)> {
    r.findings.iter().map(|f| (f.category.clone(), f.count)).collect()
}

fn pair(c: &str, n: usize) -> (String, usize) {
    (c.to_string(), n)
}

#[test]
fn registry_order_is_fixed() {
    let reg = registry();
    assert_eq!(reg.len(), 5);
    let labels: Vec<&str> = (0..reg.len()).map(|i| reg.detector(i).label()).collect();
    assert_eq!(labels, vec!["SSN", "MRN", "EMAIL", "DOB", "PHONE"]);
}

#[test]
fn invalid_expression_is_refused() {
    assert!(Detector::compile("BROKEN", r"foo(bar").is_err());
    let d = match Detector::compile("DIGITS", r"\d+") {
        Ok(d) => d,
        Err(_) => panic!("a valid expression was refused"),
    };
    assert_eq!(d.label(), "DIGITS");
    assert_eq!(d.source(), r"\d+");
}

#[test]
fn two_phone_numbers_are_counted() {
    let r = registry().scan("Call 555-123-4567 or 555-987-6543");
    assert_eq!(pairs(&r), vec![pair("PHONE", 2)]);
    assert_eq!(r.masked, "Call [REDACTED] or [REDACTED]");
}

#[test]
fn ssn_suppresses_phone() {
    let r = registry().scan("SSN: 123-45-6789");
    assert_eq!(pairs(&r), vec![pair("SSN", 1)]);
    assert_eq!(r.masked, "SSN: [REDACTED]");
}

#[test]
fn mrn_label_ignores_case() {
    let reg = registry();
    let lower = reg.scan("mrn#123456");
    assert_eq!(pairs(&lower), vec![pair("MRN", 1)]);
    assert_eq!(lower.masked, "[REDACTED]");
    let upper = reg.scan("MRN #123456");
    assert_eq!(pairs(&upper), vec![pair("MRN", 1)]);
    assert_eq!(upper.masked, "[REDACTED]");
}

#[test]
fn email_and_dob_in_registry_order() {
    let r = registry().scan("Email john@x.com, DOB 01/02/1990");
    assert_eq!(pairs(&r), vec![pair("EMAIL", 1), pair("DOB", 1)]);
    assert_eq!(r.masked, "Email [REDACTED], [REDACTED]");
}

#[test]
fn findings_follow_registry_not_input_order() {
    let r = registry().scan("call 555-123-4567, mail a@b.org, ssn 123-45-6789");
    assert_eq!(pairs(&r), vec![pair("SSN", 1), pair("EMAIL", 1), pair("PHONE", 1)]);
    assert_eq!(r.masked, "call [REDACTED], mail [REDACTED], ssn [REDACTED]");
}

#[test]
fn rescanning_masked_text_changes_nothing() {
    let reg = registry();
    let inputs = [
        "Call 555-123-4567 or 555-987-6543",
        "SSN: 123-45-6789",
        "Email john@x.com, DOB 01/02/1990",
        "MRN: 1234567890 and (555) 123-4567",
        "Date of Birth: 1990-02-01, +1 555.123.4567",
        "nothing to see",
        "",
    ];
    for text in inputs {
        let once = reg.scan(text);
        let twice = reg.scan(&once.masked);
        assert_eq!(twice.masked, once.masked);
        assert!(twice.findings.is_empty());
    }
}

#[test]
fn clean_text_is_untouched() {
    let reg = registry();
    for text in ["hello world", "MRN: 12345", "order 12-34", "user at example dot com"] {
        let r = reg.scan(text);
        assert_eq!(r.masked, text);
        assert!(r.findings.is_empty());
    }
}

#[test]
fn empty_text_gives_nothing() {
    let r = registry().scan("");
    assert_eq!(r.masked, "");
    assert!(r.findings.is_empty());
}

#[test]
fn each_category_is_found() {
    let reg = registry();
    let cases = [
        ("id 987-65-4321", "SSN"),
        ("MRN: 0012345678", "MRN"),
        ("write to jane.doe+x@mail.example.com", "EMAIL"),
        ("date of birth 1985/12/31", "DOB"),
        ("ring +1 (800) 555-0199", "PHONE"),
    ];
    for (text, category) in cases {
        let r = reg.scan(text);
        assert_eq!(pairs(&r), vec![pair(category, 1)], "{}", text);
        assert!(r.masked.contains("[REDACTED]"));
    }
}
