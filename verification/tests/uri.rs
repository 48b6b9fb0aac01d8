use fema_web_declaration::decimal::{push_decimal, to_decimal};
use fema_web_declaration::uri::get_uri;

#[test]
fn uri_with_size_and_metadata_on() {
    assert_eq!(
        get_uri(true, "https://x", "q=1", 2, Some(500)),
        "https://x?q=1&$skip=1000&$top=500&$metadata=on"
    );
}

#[test]
fn uri_with_size_and_metadata_off() {
    assert_eq!(
        get_uri(false, "https://x", "q=1", 2, Some(500)),
        "https://x?q=1&$skip=1000&$top=500&$metadata=off"
    );
}

#[test]
fn uri_of_page_zero_skips_nothing() {
    assert_eq!(
        get_uri(true, "https://x/y", "a=b&c=d", 0, Some(1000)),
        "https://x/y?a=b&c=d&$skip=0&$top=1000&$metadata=on"
    );
}

#[test]
fn uri_without_size_has_no_skip_and_no_top() {
    assert_eq!(get_uri(true, "https://x", "q=1", 7, None), "https://x?q=1&$metadata=on");
    assert_eq!(get_uri(false, "https://x", "q=1", 0, None), "https://x?q=1&$metadata=off");
}

#[test]
fn uri_without_size_does_not_depend_on_the_page() {
    assert_eq!(get_uri(false, "b", "q", 0, None), get_uri(false, "b", "q", 12345, None));
}

#[test]
fn uri_takes_base_and_query_as_they_are() {
    assert_eq!(get_uri(false, "", "", 3, Some(10)), "?&$skip=30&$top=10&$metadata=off");
    assert_eq!(
        get_uri(true, "not a url", "$filter=a gt'b' and c eq null", 1, Some(1)),
        "not a url?$filter=a gt'b' and c eq null&$skip=1&$top=1&$metadata=on"
    );
}

#[test]
fn uri_with_size_zero() {
    assert_eq!(get_uri(false, "b", "q", 9, Some(0)), "b?q&$skip=0&$top=0&$metadata=off");
}

#[test]
fn uri_skip_is_the_exact_product() {
    let big = usize::MAX;
    let product = (big as u128) * (big as u128);
    assert_eq!(
        get_uri(false, "b", "q", big, Some(big)),
        format!("b?q&$skip={}&$top={}&$metadata=off", product, big)
    );
}

#[test]
fn decimal_of_small_numbers() {
    assert_eq!(to_decimal(0), "0");
    assert_eq!(to_decimal(7), "7");
    assert_eq!(to_decimal(10), "10");
    assert_eq!(to_decimal(2500), "2500");
    assert_eq!(to_decimal(1_000_000), "1000000");
}

#[test]
fn decimal_of_the_largest_number() {
    assert_eq!(to_decimal(u128::MAX), "340282366920938463463374607431768211455");
}

#[test]
fn decimal_agrees_with_std() {
    let mut n: u128 = 1;
    while n < u128::MAX / 7 {
        assert_eq!(to_decimal(n), format!("{}", n));
        assert_eq!(to_decimal(n - 1), format!("{}", n - 1));
        n *= 7;
    }
}

#[test]
fn push_decimal_appends() {
    let mut text = String::from("n=");
    push_decimal(&mut text, 42);
    push_decimal(&mut text, 0);
    assert_eq!(text, "n=420");
}
