use greet_mcp::envelope::{ConstructionError, DispatchError, ToolResult};
use greet_mcp::payload::{Payload, Value};
use greet_mcp::router::{Handler, ToolRouter};
use greet_mcp::schema::{validate, value_has_kind, ParamKind, ParamSpec};
use greet_mcp::service::{GreetRequest, GreetService, MeetRequest};

fn with_number(n: i64) -> Payload {
    let mut p = Payload::new();
    p.push("number".to_string(), Value::Integer(n));
    p
}

fn with_name(name: &str) -> Payload {
    let mut p = Payload::new();
    p.push("name".to_string(), Value::Text(name.to_string()));
    p
}

fn success(text: &str) -> Result<ToolResult, DispatchError> {
    Ok(ToolResult::Success(vec![text.to_string()]))
}

#[test]
fn greet_short_name_is_a_failure_envelope() {
    let service = GreetService::new();
    assert_eq!(
        service.dispatch("greet", &with_name("Al")),
        Ok(ToolResult::Failure(vec!["name too short".to_string()]))
    );
}

#[test]
fn greet_long_name_is_greeted() {
    let service = GreetService::new();
    assert_eq!(
        service.dispatch("greet", &with_name("Alexandria")),
        success("Hello, Alexandria! Nice to meet you!")
    );
}

#[test]
fn increment_41_is_42() {
    let service = GreetService::new();
    assert_eq!(service.dispatch("increment", &with_number(41)), success("42"));
}

#[test]
fn mystery_is_an_unknown_tool() {
    let service = GreetService::new();
    let r = service.dispatch("mystery", &Payload::new());
    assert_eq!(r, Err(DispatchError::UnknownTool));
    assert_eq!(DispatchError::UnknownTool.message(), "unknown tool");
    assert_eq!(DispatchError::InvalidParameters.message(), "invalid parameters");
}

#[test]
fn unknown_tool_wins_over_a_good_payload() {
    let service = GreetService::new();
    assert_eq!(service.dispatch("meet", &with_name("Alexandria")), Err(DispatchError::UnknownTool));
    assert_eq!(service.dispatch("", &with_number(1)), Err(DispatchError::UnknownTool));
    assert_eq!(service.dispatch("Increment", &with_number(1)), Err(DispatchError::UnknownTool));
}

#[test]
fn increment_over_the_range() {
    let service = GreetService::new();
    assert_eq!(service.dispatch("increment", &with_number(0)), success("1"));
    assert_eq!(service.dispatch("increment", &with_number(-1)), success("0"));
    assert_eq!(service.dispatch("increment", &with_number(9)), success("10"));
    assert_eq!(service.dispatch("increment", &with_number(-11)), success("-10"));
    assert_eq!(service.dispatch("increment", &with_number(2147483646)), success("2147483647"));
    assert_eq!(service.dispatch("increment", &with_number(-2147483648)), success("-2147483647"));
}

#[test]
fn increment_wraps_at_the_largest_value() {
    let service = GreetService::new();
    assert_eq!(service.dispatch("increment", &with_number(2147483647)), success("-2147483648"));
    assert_eq!(service.greet(GreetRequest { number: i32::MAX }), "-2147483648");
}

#[test]
fn increment_refuses_what_is_no_32_bit_integer() {
    let service = GreetService::new();
    let invalid = Err(DispatchError::InvalidParameters);
    assert_eq!(service.dispatch("increment", &with_number(2147483648)), invalid);
    assert_eq!(service.dispatch("increment", &with_number(-2147483649)), invalid);
    let mut text = Payload::new();
    text.push("number".to_string(), Value::Text("41".to_string()));
    assert_eq!(service.dispatch("increment", &text), invalid);
    let mut other = Payload::new();
    other.push("number".to_string(), Value::Other);
    assert_eq!(service.dispatch("increment", &other), invalid);
    let mut null = Payload::new();
    null.push("number".to_string(), Value::Null);
    assert_eq!(service.dispatch("increment", &null), invalid);
    let mut flag = Payload::new();
    flag.push("number".to_string(), Value::Bool(true));
    assert_eq!(service.dispatch("increment", &flag), invalid);
}

#[test]
fn missing_field_is_invalid_parameters() {
    let service = GreetService::new();
    let invalid = Err(DispatchError::InvalidParameters);
    assert_eq!(service.dispatch("increment", &Payload::new()), invalid);
    assert_eq!(service.dispatch("greet", &Payload::new()), invalid);
    assert_eq!(service.dispatch("increment", &with_name("Alexandria")), invalid);
    assert_eq!(service.dispatch("greet", &with_number(41)), invalid);
}

#[test]
fn mistyped_name_is_invalid_parameters() {
    let service = GreetService::new();
    let mut p = Payload::new();
    p.push("name".to_string(), Value::Integer(7));
    assert_eq!(service.dispatch("greet", &p), Err(DispatchError::InvalidParameters));
}

#[test]
fn extra_fields_are_ignored() {
    let service = GreetService::new();
    let mut p = Payload::new();
    p.push("comment".to_string(), Value::Other);
    p.push("number".to_string(), Value::Integer(41));
    p.push("name".to_string(), Value::Text("Al".to_string()));
    assert_eq!(service.dispatch("increment", &p), success("42"));
}

#[test]
fn a_repeated_field_is_read_at_its_first_occurrence() {
    let service = GreetService::new();
    let mut p = with_number(1);
    p.push("number".to_string(), Value::Integer(100));
    assert_eq!(service.dispatch("increment", &p), success("2"));
    assert_eq!(p.get("number"), Some(&Value::Integer(1)));
    assert_eq!(p.get("absent"), None);
}

#[test]
fn greet_threshold_is_ten_bytes() {
    let service = GreetService::new();
    let short = Ok(ToolResult::Failure(vec!["name too short".to_string()]));
    assert_eq!(service.dispatch("greet", &with_name("")), short);
    assert_eq!(service.dispatch("greet", &with_name("123456789")), short);
    assert_eq!(
        service.dispatch("greet", &with_name("1234567890")),
        success("Hello, 1234567890! Nice to meet you!")
    );
    assert_eq!(
        service.dispatch("greet", &with_name("\u{e9}\u{e9}\u{e9}\u{e9}\u{e9}")),
        success("Hello, \u{e9}\u{e9}\u{e9}\u{e9}\u{e9}! Nice to meet you!")
    );
    assert_eq!(service.dispatch("greet", &with_name("\u{e9}\u{e9}\u{e9}\u{e9}")), short);
}

#[test]
fn handlers_called_directly() {
    let service = GreetService::new();
    assert_eq!(service.greet(GreetRequest { number: 41 }), "42");
    assert_eq!(service.greet(GreetRequest { number: -100 }), "-99");
    assert_eq!(
        service.meet(MeetRequest { name: "Al".to_string() }),
        Ok(ToolResult::Failure(vec!["name too short".to_string()]))
    );
    assert_eq!(
        service.meet(MeetRequest { name: "Bartholomew".to_string() }),
        success("Hello, Bartholomew! Nice to meet you!")
    );
}

#[test]
fn requests_are_decoded_from_payloads() {
    assert_eq!(GreetRequest::decode(&with_number(5)), Some(GreetRequest { number: 5 }));
    assert_eq!(GreetRequest::decode(&with_number(1 << 40)), None);
    assert_eq!(GreetRequest::decode(&with_name("x")), None);
    assert_eq!(MeetRequest::decode(&with_name("x")), Some(MeetRequest { name: "x".to_string() }));
    assert_eq!(MeetRequest::decode(&with_number(5)), None);
    assert_eq!(with_number(5).get_integer("number"), Some(5));
    assert_eq!(with_name("x").get_text("name"), Some(&"x".to_string()));
    assert_eq!(with_name("x").get_text("number"), None);
}

#[test]
fn envelope_tags_and_content() {
    let ok = ToolResult::from_text("done".to_string());
    assert_eq!(ok, ToolResult::Success(vec!["done".to_string()]));
    assert!(!ok.is_error());
    assert_eq!(ok.content(), &vec!["done".to_string()]);
    let bad = ToolResult::failure_text("no".to_string());
    assert_eq!(bad, ToolResult::Failure(vec!["no".to_string()]));
    assert!(bad.is_error());
    assert_eq!(bad.content(), &vec!["no".to_string()]);
}

#[test]
fn a_name_is_registered_once() {
    let mut router = ToolRouter::new();
    assert_eq!(router.register("increment", "first", Handler::Increment), Ok(()));
    let before = router.clone();
    assert_eq!(
        router.register("increment", "second", Handler::Greet),
        Err(ConstructionError::DuplicateName)
    );
    assert_eq!(router, before);
    assert_eq!(router.register("greet", "third", Handler::Greet), Ok(()));
    assert_eq!(router.tools.len(), 2);
    assert_eq!(router.find("increment"), Some(0));
    assert_eq!(router.find("greet"), Some(1));
    assert_eq!(router.find("other"), None);
    assert_eq!(router.tools[1].descriptor.description, "third");
    assert_eq!(router.tools[1].handler, Handler::Greet);
}

#[test]
fn the_service_refuses_a_second_tool_of_a_name() {
    let mut service = GreetService::new();
    assert_eq!(
        service.tool_router.register("greet", "again", Handler::Increment),
        Err(ConstructionError::DuplicateName)
    );
    assert_eq!(service, GreetService::new());
}

#[test]
fn a_tool_under_another_name_is_dispatched() {
    let mut service = GreetService::new();
    assert_eq!(service.tool_router.register("next", "successor", Handler::Increment), Ok(()));
    assert_eq!(service.dispatch("next", &with_number(99)), success("100"));
    assert_eq!(service.dispatch("next", &Payload::new()), Err(DispatchError::InvalidParameters));
}

#[test]
fn info_lists_the_tools_with_their_schemas() {
    let info = GreetService::new().get_info();
    assert_eq!(
        info.instructions,
        "A simple MCP service that provides greeting and number manipulation tools. Includes 'increment' for incrementing numbers and 'greet' for generating personalized greetings."
    );
    assert_eq!(info.tools.len(), 2);
    assert_eq!(info.tools[0].name, "increment");
    assert_eq!(info.tools[0].description, "Return input number plus one");
    assert_eq!(
        info.tools[0].schema,
        vec![ParamSpec { name: "number".to_string(), kind: ParamKind::Integer }]
    );
    assert_eq!(info.tools[1].name, "greet");
    assert_eq!(info.tools[1].description, "Generate a personalized greeting for the given name");
    assert_eq!(
        info.tools[1].schema,
        vec![ParamSpec { name: "name".to_string(), kind: ParamKind::Text }]
    );
    assert_eq!(Handler::Increment.schema(), info.tools[0].schema);
    assert_eq!(Handler::Greet.schema(), info.tools[1].schema);
}

#[test]
fn validation_against_a_schema() {
    let schema = vec![
        ParamSpec { name: "number".to_string(), kind: ParamKind::Integer },
        ParamSpec { name: "name".to_string(), kind: ParamKind::Text },
    ];
    let mut p = with_number(3);
    assert!(!validate(&p, &schema));
    p.push("name".to_string(), Value::Text("x".to_string()));
    assert!(validate(&p, &schema));
    assert!(validate(&Payload::new(), &Vec::new()));
    assert!(value_has_kind(&Value::Integer(-2147483648), ParamKind::Integer));
    assert!(!value_has_kind(&Value::Integer(2147483648), ParamKind::Integer));
    assert!(!value_has_kind(&Value::Integer(1), ParamKind::Text));
    assert!(value_has_kind(&Value::Text(String::new()), ParamKind::Text));
    assert!(!value_has_kind(&Value::Null, ParamKind::Text));
}

#[test]
fn the_order_of_registration_decides_nothing() {
    let mut router = ToolRouter::new();
    assert_eq!(
        router.register(
            "greet",
            "Generate a personalized greeting for the given name",
            Handler::Greet
        ),
        Ok(())
    );
    assert_eq!(
        router.register("increment", "Return input number plus one", Handler::Increment),
        Ok(())
    );
    let swapped = GreetService { tool_router: router };
    let service = GreetService::new();
    let calls = [
        ("increment", with_number(41)),
        ("increment", with_name("Alexandria")),
        ("greet", with_name("Alexandria")),
        ("greet", with_name("Al")),
        ("greet", Payload::new()),
        ("mystery", with_number(1)),
    ];
    for (name, payload) in calls.iter() {
        assert_eq!(swapped.dispatch(name, payload), service.dispatch(name, payload));
    }
}
