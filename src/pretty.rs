//! A layout policy for JSON text: arrays stay on one line, objects put one
//! key per line and indent by nesting depth, and an object inside an array
//! stays on one line too.
//!
//! The hooks are called by a serializer that walks a value; each one appends
//! its punctuation and whitespace to the output and updates the state.

use vstd::prelude::*;

verus! {

/// `[`
pub const OPEN_BRACKET: u8 = 0x5B;

/// `]`
pub const CLOSE_BRACKET: u8 = 0x5D;

/// `{`
pub const OPEN_BRACE: u8 = 0x7B;

/// `}`
pub const CLOSE_BRACE: u8 = 0x7D;

/// `,`
pub const COMMA: u8 = 0x2C;

/// `:`
pub const COLON: u8 = 0x3A;

/// A space.
pub const SPACE: u8 = 0x20;

/// A line feed.
pub const NEWLINE: u8 = 0x0A;

/// `s` repeated `n` times.
pub open spec fn repeat(s: Seq<u8>, n: nat) -> Seq<u8>
    decreases n,
{
    if n == 0 {
        Seq::empty()
    } else {
        repeat(s, (n - 1) as nat) + s
    }
}

/// What the formatter remembers between hooks.
pub struct FormatterState {
    /// Indentation level of the innermost object that is not inside an array.
    pub depth: nat,
    /// Whether the current container has finished a value.
    pub has_value: bool,
    /// Whether the innermost open container is an array.
    pub inside_array: bool,
    /// The unit of indentation.
    pub indent: Seq<u8>,
}

/// The pretty-printing formatter.
#[derive(Clone, Debug)]
pub struct PrettyFormatter<'a> {
    current_indent: usize,
    has_value: bool,
    indent: &'a [u8],
    inside_array: bool,
}

impl<'a> View for PrettyFormatter<'a> {
    type V = FormatterState;

    closed spec fn view(&self) -> FormatterState {
        FormatterState {
            depth: self.current_indent as nat,
            has_value: self.has_value,
            inside_array: self.inside_array,
            indent: self.indent@,
        }
    }
}

/// Appends the bytes of `s` to `out`.
fn push_all(out: &mut Vec<u8>, s: &[u8])
    ensures
        final(out)@ == old(out)@ + s@,
{
    let ghost start = out@;
    let mut i: usize = 0;
    while i < s.len()
        invariant
            i <= s@.len(),
            out@ == start + s@.take(i as int),
        decreases s@.len() - i,
    {
        out.push(s[i]);
        assert(s@.take(i + 1) =~= s@.take(i as int).push(s@[i as int]));
        i = i + 1;
    }
    assert(s@.take(i as int) =~= s@);
}

/// Appends `n` copies of the indent unit `s` to `wr`.
pub fn indent(wr: &mut Vec<u8>, n: usize, s: &[u8])
    ensures
        final(wr)@ == old(wr)@ + repeat(s@, n as nat),
{
    let ghost start = wr@;
    let mut i: usize = 0;
    while i < n
        invariant
            i <= n,
            wr@ == start + repeat(s@, i as nat),
        decreases n - i,
    {
        push_all(wr, s);
        assert(start + repeat(s@, (i + 1) as nat) =~= start + repeat(s@, i as nat) + s@);
        i = i + 1;
    }
}

impl<'a> PrettyFormatter<'a> {
    /// A formatter that indents by two spaces.
    pub fn new() -> (r: Self)
        ensures
            r@ == (FormatterState {
                depth: 0,
                has_value: false,
                inside_array: false,
                indent: seq![SPACE, SPACE],
            }),
    {
        PrettyFormatter::with_indent(&[SPACE, SPACE])
    }

    /// A formatter that indents by `indent`.
    pub fn with_indent(indent: &'a [u8]) -> (r: Self)
        ensures
            r@ == (FormatterState { depth: 0, has_value: false, inside_array: false, indent: indent@ }),
    {
        PrettyFormatter { current_indent: 0, has_value: false, indent, inside_array: false }
    }

    /// The current indentation level.
    pub fn depth(&self) -> (r: usize)
        ensures
            r == self@.depth,
    {
        self.current_indent
    }

    /// Whether the innermost open container is an array.
    pub fn inside_array(&self) -> (r: bool)
        ensures
            r == self@.inside_array,
    {
        self.inside_array
    }

    /// Opens an array: `[`.
    pub fn begin_array(&mut self, writer: &mut Vec<u8>)
        ensures
            final(self)@ == (FormatterState { has_value: false, inside_array: true, ..old(self)@ }),
            final(writer)@ == old(writer)@.push(OPEN_BRACKET),
    {
        self.has_value = false;
        self.inside_array = true;
        writer.push(OPEN_BRACKET);
    }

    /// Closes an array: `]`.
    pub fn end_array(&mut self, writer: &mut Vec<u8>)
        ensures
            final(self)@ == (FormatterState { inside_array: false, ..old(self)@ }),
            final(writer)@ == old(writer)@.push(CLOSE_BRACKET),
    {
        self.inside_array = false;
        writer.push(CLOSE_BRACKET);
    }

    /// Before an array element: `, ` unless it is the first.
    pub fn begin_array_value(&mut self, writer: &mut Vec<u8>, first: bool)
        ensures
            final(self)@ == old(self)@,
            final(writer)@ == if first {
                old(writer)@
            } else {
                old(writer)@.push(COMMA).push(SPACE)
            },
    {
        if !first {
            writer.push(COMMA);
            writer.push(SPACE);
        }
    }

    /// After an array element.
    pub fn end_array_value(&mut self, writer: &mut Vec<u8>)
        ensures
            final(self)@ == (FormatterState { has_value: true, ..old(self)@ }),
            final(writer)@ == old(writer)@,
    {
        self.has_value = true;
    }

    /// Opens an object: `{`, one level deeper unless inside an array.
    pub fn begin_object(&mut self, writer: &mut Vec<u8>)
        requires
            old(self)@.inside_array || old(self)@.depth < usize::MAX,
        ensures
            final(self)@ == (FormatterState {
                depth: if old(self)@.inside_array {
                    old(self)@.depth
                } else {
                    old(self)@.depth + 1
                },
                has_value: false,
                ..old(self)@
            }),
            final(writer)@ == old(writer)@.push(OPEN_BRACE),
    {
        if !self.inside_array {
            self.current_indent = self.current_indent + 1;
        }
        self.has_value = false;
        writer.push(OPEN_BRACE);
    }

    /// Closes an object: `}`. Outside an array it goes one level up and, if
    /// the object had a member, puts the brace on a line of its own.
    pub fn end_object(&mut self, writer: &mut Vec<u8>)
        requires
            old(self)@.inside_array || old(self)@.depth > 0,
        ensures
            final(self)@ == (FormatterState {
                depth: if old(self)@.inside_array {
                    old(self)@.depth
                } else {
                    (old(self)@.depth - 1) as nat
                },
                ..old(self)@
            }),
            final(writer)@ == if !old(self)@.inside_array && old(self)@.has_value {
                (old(writer)@.push(NEWLINE) + repeat(
                    old(self)@.indent,
                    (old(self)@.depth - 1) as nat,
                )).push(CLOSE_BRACE)
            } else {
                old(writer)@.push(CLOSE_BRACE)
            },
    {
        if !self.inside_array {
            self.current_indent = self.current_indent - 1;
            if self.has_value {
                writer.push(NEWLINE);
                indent(writer, self.current_indent, self.indent);
            }
        }
        writer.push(CLOSE_BRACE);
    }

    /// Before an object key. Outside an array: a line break (after `,` unless
    /// it is the first key) and the indentation of the current depth. Inside
    /// an array: `, ` unless it is the first key.
    pub fn begin_object_key(&mut self, writer: &mut Vec<u8>, first: bool)
        ensures
            final(self)@ == old(self)@,
            final(writer)@ == if !old(self)@.inside_array {
                if first {
                    old(writer)@.push(NEWLINE) + repeat(old(self)@.indent, old(self)@.depth)
                } else {
                    old(writer)@.push(COMMA).push(NEWLINE) + repeat(
                        old(self)@.indent,
                        old(self)@.depth,
                    )
                }
            } else if !first {
                old(writer)@.push(COMMA).push(SPACE)
            } else {
                old(writer)@
            },
    {
        if !self.inside_array {
            if first {
                writer.push(NEWLINE);
            } else {
                writer.push(COMMA);
                writer.push(NEWLINE);
            }
            indent(writer, self.current_indent, self.indent);
        } else if !first {
            writer.push(COMMA);
            writer.push(SPACE);
        }
    }

    /// Between a key and its value: `: `.
    pub fn begin_object_value(&mut self, writer: &mut Vec<u8>)
        ensures
            final(self)@ == old(self)@,
            final(writer)@ == old(writer)@.push(COLON).push(SPACE),
    {
        writer.push(COLON);
        writer.push(SPACE);
    }

    /// After an object value.
    pub fn end_object_value(&mut self, writer: &mut Vec<u8>)
        ensures
            final(self)@ == (FormatterState { has_value: true, ..old(self)@ }),
            final(writer)@ == old(writer)@,
    {
        self.has_value = true;
    }
}

impl<'a> Default for PrettyFormatter<'a> {
    fn default() -> (r: Self)
        ensures
            r@ == (FormatterState {
                depth: 0,
                has_value: false,
                inside_array: false,
                indent: seq![SPACE, SPACE],
            }),
    {
        PrettyFormatter::new()
    }
}

} // verus!
