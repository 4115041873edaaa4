use pt2itp::Context;

#[test]
fn context_test() {
    let c = Context::new(String::from("us"), None);
    assert_eq!(c.country, String::from("US"));
    assert_eq!(c.region, None);

    let c = Context::new(String::from("uS"), Some(String::from("wv")));
    assert_eq!(c.country, String::from("US"));
    assert_eq!(c.region, Some(String::from("WV")));

    let cntx = Context::new(String::from("uS"), Some(String::from("wv")));

    assert_eq!(cntx.region_code(), Some(String::from("US-WV")));

    assert_eq!(cntx.region_name(), Some(String::from("West Virginia")));
}
