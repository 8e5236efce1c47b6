use fo_client_format::pretty::indent;
use fo_client_format::PrettyFormatter;
use serde::Serialize;
use serde_json::Value;
use std::io;

struct Layout<'a>(PrettyFormatter<'a>);

fn emit<W: ?Sized + io::Write>(writer: &mut W, bytes: Vec<u8>) -> io::Result<()> {
    writer.write_all(&bytes)
}

impl serde_json::ser::Formatter for Layout<'_> {
    fn begin_array<W: ?Sized + io::Write>(&mut self, writer: &mut W) -> io::Result<()> {
        let mut out = Vec::new();
        self.0.begin_array(&mut out);
        emit(writer, out)
    }

    fn end_array<W: ?Sized + io::Write>(&mut self, writer: &mut W) -> io::Result<()> {
        let mut out = Vec::new();
        self.0.end_array(&mut out);
        emit(writer, out)
    }

    fn begin_array_value<W: ?Sized + io::Write>(
        &mut self,
        writer: &mut W,
        first: bool,
    ) -> io::Result<()> {
        let mut out = Vec::new();
        self.0.begin_array_value(&mut out, first);
        emit(writer, out)
    }

    fn end_array_value<W: ?Sized + io::Write>(&mut self, writer: &mut W) -> io::Result<()> {
        let mut out = Vec::new();
        self.0.end_array_value(&mut out);
        emit(writer, out)
    }

    fn begin_object<W: ?Sized + io::Write>(&mut self, writer: &mut W) -> io::Result<()> {
        let mut out = Vec::new();
        self.0.begin_object(&mut out);
        emit(writer, out)
    }

    fn end_object<W: ?Sized + io::Write>(&mut self, writer: &mut W) -> io::Result<()> {
        let mut out = Vec::new();
        self.0.end_object(&mut out);
        emit(writer, out)
    }

    fn begin_object_key<W: ?Sized + io::Write>(
        &mut self,
        writer: &mut W,
        first: bool,
    ) -> io::Result<()> {
        let mut out = Vec::new();
        self.0.begin_object_key(&mut out, first);
        emit(writer, out)
    }

    fn begin_object_value<W: ?Sized + io::Write>(&mut self, writer: &mut W) -> io::Result<()> {
        let mut out = Vec::new();
        self.0.begin_object_value(&mut out);
        emit(writer, out)
    }

    fn end_object_value<W: ?Sized + io::Write>(&mut self, writer: &mut W) -> io::Result<()> {
        let mut out = Vec::new();
        self.0.end_object_value(&mut out);
        emit(writer, out)
    }
}

fn render_with(value: &Value, unit: &[u8]) -> String {
    let mut out = Vec::new();
    let mut ser = serde_json::Serializer::with_formatter(&mut out, Layout(PrettyFormatter::with_indent(unit)));
    value.serialize(&mut ser).unwrap();
    String::from_utf8(out).unwrap()
}

fn render(value: &Value) -> String {
    let mut out = Vec::new();
    let mut ser = serde_json::Serializer::with_formatter(&mut out, Layout(PrettyFormatter::new()));
    value.serialize(&mut ser).unwrap();
    String::from_utf8(out).unwrap()
}

fn object(members: Vec<(&str, Value)>) -> Value {
    let mut map = serde_json::Map::new();
    for (k, v) in members {
        map.insert(k.to_string(), v);
    }
    Value::Object(map)
}

fn array(items: Vec<Value>) -> Value {
    Value::Array(items)
}

fn num(n: i64) -> Value {
    Value::from(n)
}

#[test]
fn empty_object() {
    assert_eq!(render(&object(vec![])), "{}");
}

#[test]
fn flat_object() {
    let v = object(vec![("a", num(1)), ("b", num(2))]);
    assert_eq!(render(&v), "{\n  \"a\": 1,\n  \"b\": 2\n}");
}

#[test]
fn array_is_inline() {
    assert_eq!(render(&array(vec![num(1), num(2), num(3)])), "[1, 2, 3]");
    assert_eq!(render(&array(vec![])), "[]");
}

#[test]
fn array_inside_object_stays_inline() {
    let v = object(vec![("xs", array(vec![num(1), num(2)]))]);
    assert_eq!(render(&v), "{\n  \"xs\": [1, 2]\n}");
}

#[test]
fn objects_inside_array_are_compact() {
    let v = array(vec![object(vec![("a", num(1))]), object(vec![("b", num(2))])]);
    assert_eq!(render(&v), "[{\"a\": 1}, {\"b\": 2}]");
}

#[test]
fn compact_object_with_two_keys() {
    let v = array(vec![object(vec![("a", num(1)), ("b", num(2))])]);
    assert_eq!(render(&v), "[{\"a\": 1, \"b\": 2}]");
}

#[test]
fn nested_objects_indent_deeper() {
    let v = object(vec![("a", object(vec![("b", num(1))])), ("c", object(vec![]))]);
    assert_eq!(render(&v), "{\n  \"a\": {\n    \"b\": 1\n  },\n  \"c\": {}\n}");
}

#[test]
fn custom_indent_unit() {
    let v = object(vec![("a", object(vec![("b", num(1))]))]);
    assert_eq!(render_with(&v, b"\t"), "{\n\t\"a\": {\n\t\t\"b\": 1\n\t}\n}");
}

#[test]
fn hooks_emit_their_punctuation() {
    let mut f = PrettyFormatter::default();
    let mut out = Vec::new();
    f.begin_object(&mut out);
    f.begin_object_key(&mut out, true);
    out.extend_from_slice(b"\"k\"");
    f.begin_object_value(&mut out);
    f.begin_array(&mut out);
    f.begin_array_value(&mut out, true);
    out.push(b'7');
    f.end_array_value(&mut out);
    f.begin_array_value(&mut out, false);
    out.push(b'8');
    f.end_array_value(&mut out);
    f.end_array(&mut out);
    f.end_object_value(&mut out);
    f.end_object(&mut out);
    assert_eq!(String::from_utf8(out).unwrap(), "{\n  \"k\": [7, 8]\n}");
}

#[test]
fn indent_repeats_unit() {
    let mut out = b"x".to_vec();
    indent(&mut out, 3, b"ab");
    assert_eq!(out, b"xababab".to_vec());
    let mut out = Vec::new();
    indent(&mut out, 0, b"ab");
    assert!(out.is_empty());
}
