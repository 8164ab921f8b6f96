use neon_core::classes::{
    carousel_message, create_point_from_rust, create_point_origin, double_point_coords, Argv,
    AsyncClass, Carousel, ContextCounter, FallibleCounter, JsonConfig, Message, Point, Secret,
    SecretInit, StringBuffer, User, UserField, ValidatedConfig, CAROUSEL_LEN,
};

#[test]
fn message_read_concat_append() {
    let mut m = Message::new("Hello".to_string());
    assert_eq!(m.read(), "Hello");
    let other = Message::new(", World".to_string());
    assert_eq!(m.concat(&other).read(), "Hello, World");
    m.append("!".to_string());
    assert_eq!(m.read(), "Hello!");
    assert_eq!(m.finalize_line(), "Finalizing Message with value: Hello!");
}

#[test]
fn point_accessors_and_moves() {
    let mut p = Point::new(1, 2);
    assert_eq!((p.x(), p.y()), (1, 2));
    let mut q = Point::new(9, 7);
    let m = p.midpoint(&q);
    assert_eq!((m.x(), m.y()), (5, 4));
    p.swap_coords(&mut q);
    assert_eq!((p.x(), p.y(), q.x(), q.y()), (9, 7, 1, 2));
    p.move_by(1, 3);
    assert_eq!((p.x(), p.y()), (10, 10));
    p.set_x(0);
    p.set_y(42);
    assert_eq!((p.x(), p.y()), (0, 42));
}

#[test]
fn point_constants() {
    assert_eq!(Point::ORIGIN_X, 0);
    assert_eq!(Point::MAX_COORD, 1000);
    assert_eq!(Point::COMPUTED_VALUE, 42);
    assert_eq!(Point::STRING_LENGTH, "complex".len() as u32);
    assert_eq!(Point::DOUBLE_100_SQUARED, 100u32.pow(2) * 2);
    assert_eq!(Point::SPECIAL_CHARS, "Hello\nWorld\t\"quoted\"\r\n");
    assert_eq!(Point::NEGATIVE_OFFSET, -42);
    assert_eq!(Point::_PRIVATE_CONST, 999);
}

#[test]
fn points_made_in_rust() {
    let p = create_point_from_rust(3, 4);
    assert_eq!((p.x(), p.y()), (3, 4));
    let o = create_point_origin();
    assert_eq!((o.x(), o.y()), (0, 0));
    let d = double_point_coords(Point::new(3, 4));
    assert_eq!((d.x(), d.y()), (6, 8));
}

#[test]
fn string_buffer_methods() {
    let mut b = StringBuffer::default();
    assert_eq!(b.to_string(), "");
    b.push("  hello ".to_string());
    b.push("world  ".to_string());
    assert_eq!(b.to_string(), "  hello world  ");
    assert!(b.contains("lo wo".to_string()));
    assert!(b.contains(String::new()));
    assert!(!b.contains("xyz".to_string()));
    assert_eq!(b.trim_start(), "hello world  ");
    assert_eq!(b.trim_end(), "  hello world");
}

#[test]
fn string_buffer_trims_unicode_white_space() {
    let mut b = StringBuffer::default();
    b.push("\u{3000}\t\n x \u{a0}\r".to_string());
    assert_eq!(b.trim_start(), "x \u{a0}\r");
    assert_eq!(b.trim_end(), "\u{3000}\t\n x");
}

#[test]
fn async_class_methods() {
    let c = AsyncClass::new("v".to_string());
    assert_eq!(c.clone().async_method("s".to_string()), "vs");
    assert_eq!(c.clone().heavy_computation(), 4950);
    assert_eq!(c.sync_method(), "v");
    assert_eq!(c.explicit_async_method(-3), "Processing: v * -3");
    assert_eq!(c.explicit_async_clone("x".to_string()), "vx");
    assert_eq!(c.method_with_explicit_context("x".to_string()), "v:x");
    assert_eq!(c.clone().task_with_channel(12), "Task with channel: v * 12");
    assert_eq!(c.clone().async_fn_with_channel("!".to_string()), "AsyncFn with channel: v!");
    assert_eq!(
        c.method_with_this("d".to_string()),
        "Instance: v, JS object available, data: d"
    );
    assert_eq!(c.method_with_explicit_this("?".to_string()), "Explicit this: v?");
    assert_eq!(c.simple_method(21), 42);
    assert_eq!(c.context_method_perf(-5), -15);
    assert_eq!(c.json_method_perf(vec![1, -2, 3]), vec![2, -4, 6]);
    assert_eq!(c.explicit_async_json_method(vec![]), Vec::<i32>::new());
    assert_eq!(c.clone().async_json_method(vec![10]), vec![20]);
    assert_eq!(AsyncClass::DEFAULT_TIMEOUT, 5000);
}

#[test]
fn async_class_json_method() {
    let c = AsyncClass::new("val".to_string());
    let r = c.json_method(vec!["a".to_string(), "b".to_string()]);
    assert_eq!(
        r,
        vec![
            ("class_value".to_string(), "val".to_string()),
            ("input_count".to_string(), "2".to_string()),
            ("first_item".to_string(), "a".to_string()),
        ]
    );
    let r = c.json_method(vec![]);
    assert_eq!(r[1].1, "0");
    assert_eq!(r[2].1, "none");
}

#[test]
fn fallible_counter() {
    assert_eq!(FallibleCounter::new(101).unwrap_err(), "Value must be <= 100");
    let mut c = FallibleCounter::new(100).unwrap();
    assert_eq!(c.get(), 100);
    c.increment();
    assert_eq!(c.get(), 101);
    assert_eq!(ContextCounter::new(7).get(), 7);
}

#[test]
fn json_config() {
    let c = JsonConfig::new(JsonConfig { name: "n".to_string(), count: 3, enabled: true });
    assert_eq!(c.name(), "n");
    assert_eq!(c.count(), 3);
    assert!(c.enabled());
}

#[test]
fn validated_config() {
    let ok = ValidatedConfig::new(ValidatedConfig { name: "n".to_string(), count: 1000 }).unwrap();
    assert_eq!((ok.name(), ok.count()), ("n".to_string(), 1000));
    let e = ValidatedConfig::new(ValidatedConfig { name: String::new(), count: 5000 });
    assert_eq!(e.unwrap_err(), "Name cannot be empty");
    let e = ValidatedConfig::new(ValidatedConfig { name: "n".to_string(), count: 1001 });
    assert_eq!(e.unwrap_err(), "Count must be <= 1000");
}

#[test]
fn secret_sources() {
    assert_eq!(Secret::new(SecretInit::Text("s".to_string())).reveal_value(), "s");
    assert_eq!(Secret::new(SecretInit::Computed("42".to_string())).reveal_value(), "42");
    assert_eq!(Secret::new(SecretInit::Other).reveal_value(), "default_secret");
}

#[test]
fn argv_given_or_from_process() {
    let a = Argv::new(Some(vec!["x".to_string()]), vec!["node".to_string(), "t".to_string()]);
    assert_eq!(a.len(), 1);
    assert_eq!(a.get(0), Some("x".to_string()));
    assert_eq!(a.get(1), None);
    let b = Argv::new(None, vec!["node".to_string(), "t".to_string()]);
    assert_eq!(b.len(), 2);
    assert_eq!(b.get(1), Some("t".to_string()));
}

#[test]
fn carousel_cycles() {
    let mut c = Carousel::new();
    let first = c.next();
    assert_eq!(first, "Welcome to the Neon Carousel!");
    assert_eq!(c.next(), "Enjoy seamless Rust and JavaScript integration.");
    assert_eq!(c.next(), "Experience high performance with native modules.");
    assert_eq!(c.next(), "Build robust applications with ease.");
    assert_eq!(c.next(), "Thank you for using Neon!");
    assert_eq!(c.next(), first);
    assert_eq!(CAROUSEL_LEN, 5);
    assert_eq!(carousel_message(4), "Thank you for using Neon!");
}

#[test]
fn user_properties() {
    let u = User {
        id: 7,
        first_name: "Ada".to_string(),
        last_name: "Lovelace".to_string(),
        email: "ada@example.com".to_string(),
    };
    assert!(matches!(u.get("id"), Ok(UserField::Id(7))));
    assert!(matches!(u.get("first_name"), Ok(UserField::Text(s)) if s == "Ada"));
    assert!(matches!(u.get("last_name"), Ok(UserField::Text(s)) if s == "Lovelace"));
    assert!(matches!(u.get("email"), Ok(UserField::Text(s)) if s == "ada@example.com"));
    assert_eq!(u.get("age").unwrap_err(), "property does not exist");
}
