//! The native classes of the Node test module: plain Rust state behind a
//! JavaScript class, with the methods the class exposes.

use crate::text::{str_eq, concat2, concat3, i64_to_decimal, int_decimal_chars, u64_to_decimal, decimal_chars, contains, contains_chars, trim_end, trim_end_chars, trim_start, trim_start_chars};
use vstd::prelude::*;
use vstd::string::*;

verus! {

/// A message whose text can be read, joined and extended.
#[derive(Debug, Clone)]
pub struct Message {
    value: String,
}

impl View for Message {
    type V = Seq<char>;

    closed spec fn view(&self) -> Seq<char> {
        self.value@
    }
}

impl Message {
    /// A message with the text `value`.
    pub fn new(value: String) -> (m: Message)
        ensures
            m@ == value@,
    {
        Message { value }
    }

    /// The text of the message.
    pub fn read(&self) -> (s: &str)
        ensures
            s@ == self@,
    {
        self.value.as_str()
    }

    /// A message with the text of `self` followed by that of `other`.
    pub fn concat(&self, other: &Message) -> (m: Message)
        ensures
            m@ == self@ + other@,
    {
        Message { value: concat2(self.value.as_str(), other.value.as_str()) }
    }

    /// Appends `suffix` to the text.
    pub fn append(&mut self, suffix: String)
        ensures
            final(self)@ == old(self)@ + suffix@,
    {
        self.value.append(suffix.as_str());
    }

    /// The line printed when the message is finalized.
    pub fn finalize_line(&self) -> (s: String)
        ensures
            s@ == "Finalizing Message with value: "@ + self@,
    {
        concat2("Finalizing Message with value: ", self.value.as_str())
    }
}

/// A point with unsigned integer coordinates.
#[derive(Debug, Clone)]
pub struct Point {
    x: u32,
    y: u32,
}

impl View for Point {
    /// The coordinates `(x, y)`.
    type V = (u32, u32);

    closed spec fn view(&self) -> (u32, u32) {
        (self.x, self.y)
    }
}

impl Point {
    pub const ORIGIN_X: u32 = 0;

    pub const ORIGIN_Y: u32 = 0;

    /// Exposed to JavaScript as `maxCoordinate`.
    pub const MAX_COORD: u32 = 1000;

    pub const COMPUTED_VALUE: u32 = 10 + 20 + 12;

    pub const STRING_LENGTH: u32 = 7;

    pub const IS_2D: bool = true;

    pub const MAX_DIMENSION: u32 = 2147483647;

    pub const COORDINATE_BYTES: u32 = 4;

    pub const DOUBLE_100_SQUARED: u32 = 20000;

    /// Exposed to JavaScript as `specialString`.
    pub const SPECIAL_CHARS: &'static str = "Hello\nWorld\t\"quoted\"\r\n";

    pub const NEGATIVE_OFFSET: i32 = -42;

    pub const MAX_SAFE_INTEGER_APPROX: u32 = 2147483647;

    pub const _PRIVATE_CONST: u32 = 999;

    /// The point `(x, y)`.
    pub fn new(x: u32, y: u32) -> (p: Point)
        ensures
            p@ == (x, y),
    {
        Point { x, y }
    }

    /// The first coordinate.
    pub fn x(&self) -> (r: u32)
        ensures
            r == self@.0,
    {
        self.x
    }

    /// The second coordinate.
    pub fn y(&self) -> (r: u32)
        ensures
            r == self@.1,
    {
        self.y
    }

    /// The midpoint, each coordinate rounded down.
    pub fn midpoint(&self, other: &Point) -> (p: Point)
        requires
            self@.0 + other@.0 <= u32::MAX,
            self@.1 + other@.1 <= u32::MAX,
        ensures
            p@.0 == (self@.0 + other@.0) / 2,
            p@.1 == (self@.1 + other@.1) / 2,
    {
        Point { x: (self.x + other.x) / 2, y: (self.y + other.y) / 2 }
    }

    /// Exchanges the coordinates of the two points.
    pub fn swap_coords(&mut self, other: &mut Point)
        ensures
            final(self)@ == old(other)@,
            final(other)@ == old(self)@,
    {
        let x = self.x;
        let y = self.y;
        self.x = other.x;
        self.y = other.y;
        other.x = x;
        other.y = y;
    }

    /// Moves the point by `(dx, dy)`.
    pub fn move_by(&mut self, dx: u32, dy: u32)
        requires
            old(self)@.0 + dx <= u32::MAX,
            old(self)@.1 + dy <= u32::MAX,
        ensures
            final(self)@.0 == old(self)@.0 + dx,
            final(self)@.1 == old(self)@.1 + dy,
    {
        self.x = self.x + dx;
        self.y = self.y + dy;
    }

    /// Sets the first coordinate.
    pub fn set_x(&mut self, x: u32)
        ensures
            final(self)@ == (x, old(self)@.1),
    {
        self.x = x;
    }

    /// Sets the second coordinate.
    pub fn set_y(&mut self, y: u32)
        ensures
            final(self)@ == (old(self)@.0, y),
    {
        self.y = y;
    }
}

/// A point made in Rust and handed to JavaScript.
pub fn create_point_from_rust(x: u32, y: u32) -> (p: Point)
    ensures
        p@ == (x, y),
{
    Point::new(x, y)
}

/// The point at the origin.
pub fn create_point_origin() -> (p: Point)
    ensures
        p@ == (0u32, 0u32),
{
    Point::new(Point::ORIGIN_X, Point::ORIGIN_Y)
}

/// A new point with both coordinates of `point` doubled.
pub fn double_point_coords(point: Point) -> (p: Point)
    requires
        2 * point@.0 <= u32::MAX,
        2 * point@.1 <= u32::MAX,
    ensures
        p@.0 == 2 * point@.0,
        p@.1 == 2 * point@.1,
{
    Point::new(point.x() * 2, point.y() * 2)
}

/// A growing text buffer.
#[derive(Debug)]
pub struct StringBuffer {
    buffer: String,
}

impl View for StringBuffer {
    type V = Seq<char>;

    closed spec fn view(&self) -> Seq<char> {
        self.buffer@
    }
}

impl Default for StringBuffer {
    fn default() -> (b: StringBuffer)
        ensures
            b@ == Seq::<char>::empty(),
    {
        StringBuffer { buffer: String::new() }
    }
}

impl StringBuffer {
    /// Appends `s`.
    pub fn push(&mut self, s: String)
        ensures
            final(self)@ == old(self)@ + s@,
    {
        self.buffer.append(s.as_str());
    }

    /// The text of the buffer.
    #[allow(clippy::inherent_to_string)]
    pub fn to_string(&self) -> (s: String)
        ensures
            s@ == self@,
    {
        self.buffer.clone()
    }

    /// Whether `s` occurs in the buffer (exposed as `includes`).
    pub fn contains(&self, s: String) -> (b: bool)
        ensures
            b == contains_chars(self@, s@),
    {
        contains(self.buffer.as_str(), s.as_str())
    }

    /// The text without leading white space (exposed as `trimStart`).
    pub fn trim_start(&self) -> (s: String)
        ensures
            s@ == trim_start_chars(self@),
    {
        trim_start(self.buffer.as_str())
    }

    /// The text without trailing white space.
    pub fn trim_end(&self) -> (s: String)
        ensures
            s@ == trim_end_chars(self@),
    {
        trim_end(self.buffer.as_str())
    }
}

/// The numbers doubled, as the class's JSON methods return them.
fn double_all(data: &Vec<i32>) -> (r: Vec<i32>)
    requires
        forall|i: int| 0 <= i < data@.len() ==> i32::MIN <= 2 * #[trigger] data@[i] <= i32::MAX,
    ensures
        r@.len() == data@.len(),
        forall|i: int| 0 <= i < data@.len() ==> #[trigger] r@[i] == 2 * data@[i],
{
    let mut r: Vec<i32> = Vec::new();
    let mut i: usize = 0;
    while i < data.len()
        invariant
            i <= data@.len(),
            forall|k: int| 0 <= k < data@.len() ==> i32::MIN <= 2 * #[trigger] data@[k] <= i32::MAX,
            r@.len() == i,
            forall|k: int| 0 <= k < i ==> #[trigger] r@[k] == 2 * data@[k],
        decreases data@.len() - i,
    {
        r.push(data[i] * 2);
        i = i + 1;
    }
    r
}

/// A class whose methods run synchronously, as tasks and as futures.
#[derive(Debug, Clone)]
pub struct AsyncClass {
    value: String,
}

impl View for AsyncClass {
    type V = Seq<char>;

    closed spec fn view(&self) -> Seq<char> {
        self.value@
    }
}

impl AsyncClass {
    pub const DEFAULT_TIMEOUT: u32 = 5000;

    /// An instance holding `value`.
    pub fn new(value: String) -> (c: AsyncClass)
        ensures
            c@ == value@,
    {
        AsyncClass { value }
    }

    /// The value followed by `suffix` (computed on a future).
    pub fn async_method(self, suffix: String) -> (s: String)
        ensures
            s@ == self@ + suffix@,
    {
        concat2(self.value.as_str(), suffix.as_str())
    }

    /// The sum `0 + 1 + ... + 99`, computed on the task pool.
    pub fn heavy_computation(self) -> (r: u32)
        ensures
            r == 4950,
    {
        let mut result: u32 = 0;
        let mut i: u32 = 0;
        while i < 100
            invariant
                i <= 100,
                result == i * (i - 1) / 2,
            decreases 100 - i,
        {
            assert((i + 1) * i / 2 == i * (i - 1) / 2 + i) by (nonlinear_arith)
                requires
                    i <= 100,
            ;
            assert(i * (i - 1) / 2 + i <= 4950) by (nonlinear_arith)
                requires
                    i < 100,
            ;
            result = result + i;
            i = i + 1;
        }
        result
    }

    /// The value.
    pub fn sync_method(&self) -> (s: String)
        ensures
            s@ == self@,
    {
        self.value.clone()
    }

    /// The entries of the object returned as JSON: the class's value, the
    /// number of items and the first item (`"none"` when there is none).
    pub fn json_method(&self, data: Vec<String>) -> (r: Vec<(String, String)>)
        ensures
            r@.len() == 3,
            r@[0].0@ == "class_value"@,
            r@[0].1@ == self@,
            r@[1].0@ == "input_count"@,
            r@[1].1@ == decimal_chars(data@.len()),
            r@[2].0@ == "first_item"@,
            r@[2].1@ == (if data@.len() > 0 {
                data@[0]@
            } else {
                "none"@
            }),
    {
        let mut r: Vec<(String, String)> = Vec::new();
        r.push((String::from_str("class_value"), self.value.clone()));
        r.push((String::from_str("input_count"), u64_to_decimal(data.len() as u64)));
        let first = if data.len() > 0 {
            data[0].clone()
        } else {
            String::from_str("none")
        };
        r.push((String::from_str("first_item"), first));
        r
    }

    /// `Processing: <value> * <multiplier>`, computed before the future starts.
    pub fn explicit_async_method(&self, multiplier: i32) -> (s: String)
        ensures
            s@ == "Processing: "@ + self@ + " * "@ + int_decimal_chars(multiplier as int),
    {
        let base = concat2("Processing: ", self.value.as_str());
        let m = i64_to_decimal(multiplier as i64);
        concat3(base.as_str(), " * ", m.as_str())
    }

    /// The value followed by `suffix`, from a clone of the value.
    pub fn explicit_async_clone(&self, suffix: String) -> (s: String)
        ensures
            s@ == self@ + suffix@,
    {
        let value_clone = self.value.clone();
        concat2(value_clone.as_str(), suffix.as_str())
    }

    /// `<value>:<suffix>`.
    pub fn method_with_explicit_context(&self, suffix: String) -> (s: String)
        ensures
            s@ == self@ + ":"@ + suffix@,
    {
        concat3(self.value.as_str(), ":", suffix.as_str())
    }

    /// `Task with channel: <value> * <multiplier>`.
    pub fn task_with_channel(self, multiplier: i32) -> (s: String)
        ensures
            s@ == "Task with channel: "@ + self@ + " * "@ + int_decimal_chars(multiplier as int),
    {
        let m = i64_to_decimal(multiplier as i64);
        let head = concat2("Task with channel: ", self.value.as_str());
        concat3(head.as_str(), " * ", m.as_str())
    }

    /// `AsyncFn with channel: <value><suffix>`.
    pub fn async_fn_with_channel(self, suffix: String) -> (s: String)
        ensures
            s@ == "AsyncFn with channel: "@ + self@ + suffix@,
    {
        concat3("AsyncFn with channel: ", self.value.as_str(), suffix.as_str())
    }

    /// `Instance: <value>, JS object available, data: <data>`.
    pub fn method_with_this(&self, data: String) -> (s: String)
        ensures
            s@ == "Instance: "@ + self@ + ", JS object available, data: "@ + data@,
    {
        let head = concat2("Instance: ", self.value.as_str());
        concat3(head.as_str(), ", JS object available, data: ", data.as_str())
    }

    /// `Explicit this: <value><suffix>`.
    pub fn method_with_explicit_this(&self, suffix: String) -> (s: String)
        ensures
            s@ == "Explicit this: "@ + self@ + suffix@,
    {
        concat3("Explicit this: ", self.value.as_str(), suffix.as_str())
    }

    /// Twice `x`.
    pub fn simple_method(&self, x: i32) -> (r: i32)
        requires
            i32::MIN <= 2 * x <= i32::MAX,
        ensures
            r == 2 * x,
    {
        x * 2
    }

    /// Each number doubled.
    pub fn json_method_perf(&self, data: Vec<i32>) -> (r: Vec<i32>)
        requires
            forall|i: int| 0 <= i < data@.len() ==> i32::MIN <= 2 * #[trigger] data@[i] <= i32::MAX,
        ensures
            r@.len() == data@.len(),
            forall|i: int| 0 <= i < data@.len() ==> #[trigger] r@[i] == 2 * data@[i],
    {
        double_all(&data)
    }

    /// Three times `x`.
    pub fn context_method_perf(&self, x: i32) -> (r: i32)
        requires
            i32::MIN <= 3 * x <= i32::MAX,
        ensures
            r == 3 * x,
    {
        x * 3
    }

    /// Each number doubled, on a future.
    pub fn explicit_async_json_method(&self, data: Vec<i32>) -> (r: Vec<i32>)
        requires
            forall|i: int| 0 <= i < data@.len() ==> i32::MIN <= 2 * #[trigger] data@[i] <= i32::MAX,
        ensures
            r@.len() == data@.len(),
            forall|i: int| 0 <= i < data@.len() ==> #[trigger] r@[i] == 2 * data@[i],
    {
        double_all(&data)
    }

    /// Each number doubled, by an async method.
    pub fn async_json_method(self, data: Vec<i32>) -> (r: Vec<i32>)
        requires
            forall|i: int| 0 <= i < data@.len() ==> i32::MIN <= 2 * #[trigger] data@[i] <= i32::MAX,
        ensures
            r@.len() == data@.len(),
            forall|i: int| 0 <= i < data@.len() ==> #[trigger] r@[i] == 2 * data@[i],
    {
        double_all(&data)
    }
}

/// A counter whose constructor refuses values above 100.
#[derive(Debug, Clone)]
pub struct FallibleCounter {
    value: u32,
}

impl View for FallibleCounter {
    type V = u32;

    closed spec fn view(&self) -> u32 {
        self.value
    }
}

impl FallibleCounter {
    /// A counter starting at `value`; refused above 100.
    pub fn new(value: u32) -> (r: Result<FallibleCounter, String>)
        ensures
            value > 100 <==> r is Err,
            r matches Ok(c) ==> c@ == value,
            r matches Err(e) ==> e@ == "Value must be <= 100"@,
    {
        if value > 100 {
            Err(String::from_str("Value must be <= 100"))
        } else {
            Ok(FallibleCounter { value })
        }
    }

    /// The count.
    pub fn get(&self) -> (r: u32)
        ensures
            r == self@,
    {
        self.value
    }

    /// Adds one to the count.
    pub fn increment(&mut self)
        requires
            old(self)@ < u32::MAX,
        ensures
            final(self)@ == old(self)@ + 1,
    {
        self.value = self.value + 1;
    }
}

/// A counter built with access to the calling context.
#[derive(Debug, Clone)]
pub struct ContextCounter {
    value: u32,
}

impl View for ContextCounter {
    type V = u32;

    closed spec fn view(&self) -> u32 {
        self.value
    }
}

impl ContextCounter {
    /// A counter at `value`.
    pub fn new(value: u32) -> (c: ContextCounter)
        ensures
            c@ == value,
    {
        ContextCounter { value }
    }

    /// The count.
    pub fn get(&self) -> (r: u32)
        ensures
            r == self@,
    {
        self.value
    }
}

/// A configuration deserialized from JSON.
#[derive(Debug, Clone)]
pub struct JsonConfig {
    pub name: String,
    pub count: u32,
    pub enabled: bool,
}

impl JsonConfig {
    /// The configuration itself.
    pub fn new(config: JsonConfig) -> (c: JsonConfig)
        ensures
            c.name@ == config.name@,
            c.count == config.count,
            c.enabled == config.enabled,
    {
        config
    }

    /// The name.
    pub fn name(&self) -> (s: String)
        ensures
            s@ == self.name@,
    {
        self.name.clone()
    }

    /// The count.
    pub fn count(&self) -> (r: u32)
        ensures
            r == self.count,
    {
        self.count
    }

    /// Whether it is enabled.
    pub fn enabled(&self) -> (r: bool)
        ensures
            r == self.enabled,
    {
        self.enabled
    }
}

/// A configuration deserialized from JSON and then validated.
#[derive(Debug, Clone)]
pub struct ValidatedConfig {
    pub name: String,
    pub count: u32,
}

impl ValidatedConfig {
    /// The configuration, unless its name is empty or its count above 1000.
    pub fn new(config: ValidatedConfig) -> (r: Result<ValidatedConfig, String>)
        ensures
            r is Ok <==> config.name@.len() > 0 && config.count <= 1000,
            r matches Ok(c) ==> c.name@ == config.name@ && c.count == config.count,
            r matches Err(e) ==> e@ == (if config.name@.len() == 0 {
                "Name cannot be empty"@
            } else {
                "Count must be <= 1000"@
            }),
    {
        if config.name.as_str().is_empty() {
            return Err(String::from_str("Name cannot be empty"));
        }
        if config.count > 1000 {
            return Err(String::from_str("Count must be <= 1000"));
        }
        Ok(config)
    }

    /// The name.
    pub fn name(&self) -> (s: String)
        ensures
            s@ == self.name@,
    {
        self.name.clone()
    }

    /// The count.
    pub fn count(&self) -> (r: u32)
        ensures
            r == self.count,
    {
        self.count
    }
}

/// What a `Secret` is built from: a string, the string form of what a
/// JavaScript function returned, or any other value.
#[derive(Debug)]
pub enum SecretInit {
    Text(String),
    Computed(String),
    Other,
}

/// A secret string.
#[derive(Debug)]
pub struct Secret {
    pub value: String,
}

impl Secret {
    /// The secret given directly, or computed by a function, or
    /// `default_secret`.
    pub fn new(init: SecretInit) -> (s: Secret)
        ensures
            s.value@ == (match init {
                SecretInit::Text(t) => t@,
                SecretInit::Computed(t) => t@,
                SecretInit::Other => "default_secret"@,
            }),
    {
        match init {
            SecretInit::Text(t) => Secret { value: t },
            SecretInit::Computed(t) => Secret { value: t },
            SecretInit::Other => Secret { value: String::from_str("default_secret") },
        }
    }

    /// The secret.
    pub fn reveal_value(&self) -> (s: String)
        ensures
            s@ == self.value@,
    {
        self.value.clone()
    }
}

/// Command line arguments.
#[derive(Debug)]
pub struct Argv {
    pub args: Vec<String>,
}

impl Argv {
    /// The arguments given, or else those of the process.
    pub fn new(args: Option<Vec<String>>, process_argv: Vec<String>) -> (a: Argv)
        ensures
            a.args@ == (match args {
                Some(v) => v@,
                None => process_argv@,
            }),
    {
        match args {
            Some(v) => Argv { args: v },
            None => Argv { args: process_argv },
        }
    }

    /// The number of arguments, truncated to 32 bits.
    pub fn len(&self) -> (n: u32)
        ensures
            n == self.args@.len() as u32,
    {
        self.args.len() as u32
    }

    /// The argument at `index`, if there is one.
    pub fn get(&self, index: u32) -> (r: Option<String>)
        ensures
            (index < self.args@.len()) == r is Some,
            r matches Some(s) ==> s@ == self.args@[index as int]@,
    {
        let i = index as usize;
        if i < self.args.len() {
            Some(self.args[i].clone())
        } else {
            None
        }
    }
}

/// The messages the carousel shows in turn.
pub open spec fn carousel_message_spec(i: int) -> Seq<char> {
    if i == 0 {
        "Welcome to the Neon Carousel!"@
    } else if i == 1 {
        "Enjoy seamless Rust and JavaScript integration."@
    } else if i == 2 {
        "Experience high performance with native modules."@
    } else if i == 3 {
        "Build robust applications with ease."@
    } else {
        "Thank you for using Neon!"@
    }
}

/// The number of carousel messages.
pub const CAROUSEL_LEN: u32 = 5;

/// The carousel message at position `i`.
pub fn carousel_message(i: u32) -> (s: &'static str)
    requires
        i < 5,
    ensures
        s@ == carousel_message_spec(i as int),
{
    if i == 0 {
        "Welcome to the Neon Carousel!"
    } else if i == 1 {
        "Enjoy seamless Rust and JavaScript integration."
    } else if i == 2 {
        "Experience high performance with native modules."
    } else if i == 3 {
        "Build robust applications with ease."
    } else {
        "Thank you for using Neon!"
    }
}

/// Shows its messages one after the other, starting over after the last.
#[derive(Debug)]
pub struct Carousel {
    state: u32,
}

impl View for Carousel {
    /// The position of the next message.
    type V = u32;

    closed spec fn view(&self) -> u32 {
        self.state
    }
}

impl Carousel {
    #[verifier::type_invariant]
    closed spec fn inv(&self) -> bool {
        self.state < 5
    }

    /// A carousel at its first message.
    pub fn new() -> (c: Carousel)
        ensures
            c@ == 0,
    {
        Carousel { state: 0 }
    }

    /// The current message; the carousel moves on to the next.
    pub fn next(&mut self) -> (s: String)
        ensures
            old(self)@ < 5,
            s@ == carousel_message_spec(old(self)@ as int),
            final(self)@ == (old(self)@ + 1) % 5,
    {
        proof {
            use_type_invariant(&*self);
        }
        let message = carousel_message(self.state);
        self.state = (self.state + 1) % CAROUSEL_LEN;
        String::from_str(message)
    }
}

/// Five steps bring the carousel back to where it was.
pub proof fn lemma_carousel_period(state: u32)
    requires
        state < 5,
    ensures
        ((((((state + 1) % 5 + 1) % 5 + 1) % 5 + 1) % 5 + 1) % 5) == state,
{
}

/// The key of the property an `Expando` sets on its JavaScript object.
pub const EXPANDO_KEY: &'static str = "__weirdNeonExpandoKey__";

/// A class whose constructor sets a number on its JavaScript object, under
/// `EXPANDO_KEY`, and whose method reads it back.
#[derive(Debug, Clone, Copy)]
pub struct Expando {
    property: i32,
}

impl View for Expando {
    /// The number held by the property.
    type V = i32;

    closed spec fn view(&self) -> i32 {
        self.property
    }
}

impl Expando {
    /// An instance whose object holds 42 under `EXPANDO_KEY`.
    pub fn new() -> (e: Expando)
        ensures
            e@ == 42,
    {
        Expando { property: 42 }
    }

    /// The number held under `EXPANDO_KEY`.
    pub fn expando(self) -> (r: i32)
        ensures
            r == self@,
    {
        self.property
    }
}

/// A field of a user, as a property read returns it.
#[derive(Debug)]
pub enum UserField {
    Id(i32),
    Text(String),
}

/// A user of the class example.
#[derive(Debug)]
pub struct User {
    pub id: i32,
    pub first_name: String,
    pub last_name: String,
    pub email: String,
}

impl User {
    /// The property named `attr`: `id`, `first_name`, `last_name` or
    /// `email`; any other name is a type error.
    pub fn get(&self, attr: &str) -> (r: Result<UserField, String>)
        ensures
            attr@ == "id"@ ==> (r matches Ok(UserField::Id(i)) && i == self.id),
            attr@ == "first_name"@ ==> (r matches Ok(UserField::Text(s)) && s@ == self.first_name@),
            attr@ == "last_name"@ ==> (r matches Ok(UserField::Text(s)) && s@ == self.last_name@),
            attr@ == "email"@ ==> (r matches Ok(UserField::Text(s)) && s@ == self.email@),
            attr@ != "id"@ && attr@ != "first_name"@ && attr@ != "last_name"@ && attr@
                != "email"@ ==> (r matches Err(e) && e@ == "property does not exist"@),
    {
        proof {
            reveal_strlit("id");
            reveal_strlit("first_name");
            reveal_strlit("last_name");
            reveal_strlit("email");
            assert("id"@.len() == 2 && "first_name"@.len() == 10);
            assert("last_name"@.len() == 9 && "email"@.len() == 5);
        }
        if str_eq(attr, "id") {
            Ok(UserField::Id(self.id))
        } else if str_eq(attr, "first_name") {
            Ok(UserField::Text(self.first_name.clone()))
        } else if str_eq(attr, "last_name") {
            Ok(UserField::Text(self.last_name.clone()))
        } else if str_eq(attr, "email") {
            Ok(UserField::Text(self.email.clone()))
        } else {
            Err(String::from_str("property does not exist"))
        }
    }
}

} // verus!
