use replace_err::ReplaceErr;

#[test]
fn it_works() {
    // Result<_, i32>
    let result = Err(1);

    // Result<(), &'static str>
    // have to specify the Ok variant here, usually it will be clear from context.
    let result: Result<(), _> = result.replace_err("hello");

    assert_eq!(result.unwrap_err(), "hello");
}

#[test]
fn failure_replaced_by_string() {
    let result: Result<(), _> = Err(1).replace_err("hello");
    assert_eq!(result, Err("hello"));
}

#[test]
fn success_passed_through() {
    let result: Result<(), _> = Ok::<(), i32>(()).replace_err("hello");
    assert_eq!(result, Ok(()));
}

#[test]
fn failure_replaced_by_number() {
    let result: Result<(), _> = Err("network timeout").replace_err(404);
    assert_eq!(result.unwrap_err(), 404);
}

#[test]
fn chained_replacement_keeps_last() {
    let result: Result<(), _> = Err(true).replace_err("a").replace_err("b");
    assert_eq!(result.unwrap_err(), "b");
}

#[test]
fn success_payload_kept_unchanged() {
    let payload = String::from("payload");
    let result: Result<String, _> = Ok::<String, bool>(payload).replace_err(7);
    assert_eq!(result.unwrap(), "payload");
}

#[test]
fn free_function_on_success() {
    let result = replace_err::replace_err(Ok::<u8, bool>(5), "x");
    assert_eq!(result, Ok(5));
}

#[test]
fn free_function_on_failure() {
    let result = replace_err::replace_err(Err::<u8, bool>(true), "x");
    assert_eq!(result, Err("x"));
}
