//! Printing the attributes of an item: a documentation comment as a `///`
//! line, any other attributes as one `#[..]` line.

use crate::span::Ident;
use crate::span::Span;
use crate::text::push_char;
use sway_types::ast::Delimiter;
use sway_types::ast::PunctKind;
use vstd::prelude::*;

verus! {

/// One attribute: its name and, where it has parentheses, its arguments.
#[derive(Clone, Debug)]
pub struct Attribute {
    pub name: Ident,
    pub args: Option<Vec<Ident>>,
}

/// The attributes that stand behind one `#`.
#[derive(Clone, Debug)]
pub struct AttributeDecl {
    pub hash_span: Span,
    pub attribute: Vec<Attribute>,
}

/// A range of bytes of the unformatted text.
#[derive(Clone, Copy, Debug, PartialEq, Eq, Structural)]
pub struct ByteSpan {
    pub start: usize,
    pub end: usize,
}

/// A pair of delimiters.
#[derive(Clone, Copy, Debug, PartialEq, Eq, Structural)]
pub enum Brackets {
    Parenthesis,
    Square,
}

/// A text without the white space at its end, as `str::trim_end` gives
/// it.
pub uninterp spec fn trimmed_end(text: Seq<char>) -> Seq<char>;

/// `str::trim_end`: the text without the white space at its end, which
/// is a part of the text from its start on.
#[verifier::external_body]
fn trim_end(s: &str) -> (trimmed: &str)
    ensures
        trimmed@ == trimmed_end(s@),
        trimmed@.len() <= s@.len(),
        trimmed@ == s@.take(trimmed@.len() as int),
{
    s.trim_end()
}

/// `sway_types::ast::Delimiter::as_open_char`: the character that opens
/// a pair of delimiters, `(` for parentheses and `[` for square brackets.
#[verifier::external_body]
fn open_char(brackets: Brackets) -> (c: char)
    ensures
        c == (match brackets {
            Brackets::Parenthesis => '(',
            Brackets::Square => '[',
        }),
{
    match brackets {
        Brackets::Parenthesis => Delimiter::Parenthesis.as_open_char(),
        Brackets::Square => Delimiter::Bracket.as_open_char(),
    }
}

/// `sway_types::ast::Delimiter::as_close_char`: the character that closes
/// a pair of delimiters, `)` for parentheses and `]` for square brackets.
#[verifier::external_body]
fn close_char(brackets: Brackets) -> (c: char)
    ensures
        c == (match brackets {
            Brackets::Parenthesis => ')',
            Brackets::Square => ']',
        }),
{
    match brackets {
        Brackets::Parenthesis => Delimiter::Parenthesis.as_close_char(),
        Brackets::Square => Delimiter::Bracket.as_close_char(),
    }
}

/// `sway_types::ast::PunctKind::as_char` of the comma: the character `,`.
#[verifier::external_body]
fn comma_char() -> (c: char)
    ensures
        c == ',',
{
    PunctKind::Comma.as_char()
}

/// `sway_ast::attribute::DOC_COMMENT_ATTRIBUTE_NAME`: the name of the
/// attribute that holds a documentation comment, which is `doc-comment`.
#[verifier::external_body]
fn doc_comment_attribute_name() -> (name: &'static str)
    ensures
        name@ == "doc-comment"@,
{
    sway_ast::attribute::DOC_COMMENT_ATTRIBUTE_NAME
}

/// Whether the attribute holds a documentation comment.
pub open spec fn is_doc(a: Attribute) -> bool {
    a.name@ == "doc-comment"@
}

/// The position of the first attribute that holds a documentation
/// comment.
pub open spec fn first_doc(s: Seq<Attribute>) -> Option<int>
    decreases s.len(),
{
    if s.len() == 0 {
        None
    } else if is_doc(s[0]) {
        Some(0int)
    } else {
        match first_doc(s.skip(1)) {
            Some(i) => Some(i + 1),
            None => None,
        }
    }
}

/// The first `n` names with `, ` between them.
pub open spec fn args_text(args: Seq<Ident>, n: nat) -> Seq<char>
    decreases n,
{
    if n == 0 || n > args.len() {
        Seq::empty()
    } else if n == 1 {
        args[0]@
    } else {
        args_text(args, (n - 1) as nat) + seq![',', ' '] + args[n - 1]@
    }
}

/// The text of an attribute: its name and, in parentheses, its arguments.
pub open spec fn attribute_text(a: Attribute) -> Seq<char> {
    match a.args {
        Some(args) => a.name@ + seq!['('] + args_text(args@, args@.len()) + seq![')'],
        None => a.name@,
    }
}

/// The texts of the first `n` attributes with `, ` between them.
pub open spec fn attributes_text(s: Seq<Attribute>, n: nat) -> Seq<char>
    decreases n,
{
    if n == 0 || n > s.len() {
        Seq::empty()
    } else if n == 1 {
        attribute_text(s[0])
    } else {
        attributes_text(s, (n - 1) as nat) + seq![',', ' '] + attribute_text(s[n - 1])
    }
}

/// The line of a documentation comment: `///`, the comment without the
/// white space at its end, and a line break. Nothing where the attribute
/// holds no comment.
pub open spec fn doc_text(a: Attribute) -> Seq<char> {
    match a.args {
        Some(args) => if args@.len() > 0 {
            "///"@ + trimmed_end(args@.last()@) + seq!['\n']
        } else {
            Seq::empty()
        },
        None => Seq::empty(),
    }
}

/// The text of the attributes behind one `#`: the line of the first
/// documentation comment among them, or else all of them in one pair of
/// square brackets.
pub open spec fn decl_text(decl: AttributeDecl) -> Seq<char> {
    match first_doc(decl.attribute@) {
        Some(i) => doc_text(decl.attribute@[i]),
        None => seq!['#', '['] + attributes_text(decl.attribute@, decl.attribute@.len()) + seq![
            ']',
            '\n',
        ],
    }
}

impl Attribute {
    /// Appends the text of the attribute to `formatted_code`.
    pub fn format(&self, formatted_code: &mut String)
        ensures
            final(formatted_code)@ == old(formatted_code)@ + attribute_text(*self),
    {
        formatted_code.append(self.name.as_str());
        match &self.args {
            Some(args) => {
                AttributeDecl::open_parenthesis(formatted_code);
                let ghost before = formatted_code@;
                let mut i: usize = 0;
                assert(formatted_code@ =~= before + args_text(args@, 0));
                while i < args.len()
                    invariant
                        0 <= i <= args.len(),
                        formatted_code@ == before + args_text(args@, i as nat),
                    decreases args.len() - i,
                {
                    if i > 0 {
                        push_char(formatted_code, comma_char());
                        push_char(formatted_code, ' ');
                    }
                    formatted_code.append(args[i].as_str());
                    assert(formatted_code@ =~= before + args_text(args@, (i + 1) as nat));
                    i += 1;
                }
                AttributeDecl::close_parenthesis(formatted_code);
                assert(formatted_code@ =~= old(formatted_code)@ + attribute_text(*self));
            },
            None => {},
        }
    }

    /// The ranges of the parts of the attribute: its name, then its
    /// arguments.
    pub fn leaf_spans(&self) -> (spans: Vec<ByteSpan>)
        ensures
            spans@ == attribute_spans(*self),
    {
        let mut collected_spans: Vec<ByteSpan> = Vec::new();
        collected_spans.push(ByteSpan { start: self.name.span.start, end: self.name.span.end });
        match &self.args {
            Some(args) => {
                let mut i: usize = 0;
                assert(collected_spans@ =~= seq![byte_span(self.name.span)] + args_spans(args@, 0));
                while i < args.len()
                    invariant
                        0 <= i <= args.len(),
                        collected_spans@ == seq![byte_span(self.name.span)] + args_spans(
                            args@,
                            i as nat,
                        ),
                    decreases args.len() - i,
                {
                    collected_spans.push(
                        ByteSpan { start: args[i].span.start, end: args[i].span.end },
                    );
                    assert(collected_spans@ =~= seq![byte_span(self.name.span)] + args_spans(
                        args@,
                        (i + 1) as nat,
                    ));
                    i += 1;
                }
            },
            None => {
                assert(collected_spans@ =~= attribute_spans(*self));
            },
        }
        collected_spans
    }
}

/// The range of bytes of a span.
pub open spec fn byte_span(span: Span) -> ByteSpan {
    ByteSpan { start: span.start, end: span.end }
}

/// The ranges of the first `n` names.
pub open spec fn args_spans(args: Seq<Ident>, n: nat) -> Seq<ByteSpan>
    decreases n,
{
    if n == 0 || n > args.len() {
        Seq::empty()
    } else {
        args_spans(args, (n - 1) as nat).push(byte_span(args[n - 1].span))
    }
}

/// The ranges of the parts of an attribute: its name, then its arguments.
pub open spec fn attribute_spans(a: Attribute) -> Seq<ByteSpan> {
    match a.args {
        Some(args) => seq![byte_span(a.name.span)] + args_spans(args@, args@.len()),
        None => seq![byte_span(a.name.span)],
    }
}

/// The ranges of the parts of the first `n` attributes.
pub open spec fn attributes_spans(s: Seq<Attribute>, n: nat) -> Seq<ByteSpan>
    decreases n,
{
    if n == 0 || n > s.len() {
        Seq::empty()
    } else {
        attributes_spans(s, (n - 1) as nat) + attribute_spans(s[n - 1])
    }
}

/// Appends the line of a documentation comment: `///`, the comment, and a
/// line break.
pub fn write_doc_line(formatted_code: &mut String, comment: &str)
    ensures
        final(formatted_code)@ == old(formatted_code)@ + "///"@ + comment@ + seq!['\n'],
{
    formatted_code.append("///");
    formatted_code.append(comment);
    push_char(formatted_code, '\n');
    assert(formatted_code@ =~= old(formatted_code)@ + "///"@ + comment@ + seq!['\n']);
}

impl AttributeDecl {
    /// Appends the opening square bracket.
    pub fn open_square_bracket(line: &mut String)
        ensures
            final(line)@ == old(line)@.push('['),
    {
        push_char(line, open_char(Brackets::Square));
    }

    /// Appends the closing square bracket and a line break.
    pub fn close_square_bracket(line: &mut String)
        ensures
            final(line)@ == old(line)@ + seq![']', '\n'],
    {
        push_char(line, close_char(Brackets::Square));
        push_char(line, '\n');
        assert(line@ =~= old(line)@ + seq![']', '\n']);
    }

    /// Appends the opening parenthesis.
    pub fn open_parenthesis(line: &mut String)
        ensures
            final(line)@ == old(line)@.push('('),
    {
        push_char(line, open_char(Brackets::Parenthesis));
    }

    /// Appends the closing parenthesis.
    pub fn close_parenthesis(line: &mut String)
        ensures
            final(line)@ == old(line)@.push(')'),
    {
        push_char(line, close_char(Brackets::Parenthesis));
    }

    /// Appends the text of the attributes to `formatted_code`: the line
    /// of the first documentation comment among them, or else all of
    /// them in one pair of square brackets.
    pub fn format(&self, formatted_code: &mut String)
        ensures
            final(formatted_code)@ == old(formatted_code)@ + decl_text(*self),
    {
        // A documentation comment stands alone behind its `#`.
        let doc_name = String::from_str(doc_comment_attribute_name());
        let mut k: usize = 0;
        assert(self.attribute@.skip(0) =~= self.attribute@);
        while k < self.attribute.len()
            invariant
                formatted_code@ == old(formatted_code)@,
                doc_name@ == "doc-comment"@,
                0 <= k <= self.attribute.len(),
                first_doc(self.attribute@) == match first_doc(self.attribute@.skip(k as int)) {
                    Some(i) => Some(i + k),
                    None => None,
                },
            decreases self.attribute.len() - k,
        {
            assert(self.attribute@.skip(k as int)[0] == self.attribute@[k as int]);
            assert(self.attribute@.skip(k as int).skip(1) =~= self.attribute@.skip(k + 1));
            let attr = &self.attribute[k];
            if attr.name.name == doc_name {
                match &attr.args {
                    Some(args) => {
                        if args.len() > 0 {
                            let doc_comment = &args[args.len() - 1];
                            write_doc_line(formatted_code, trim_end(doc_comment.as_str()));
                        } else {
                            assert(formatted_code@ =~= old(formatted_code)@ + doc_text(*attr));
                        }
                    },
                    None => {
                        assert(formatted_code@ =~= old(formatted_code)@ + doc_text(*attr));
                    },
                }
                return;
            }
            k += 1;
        }
        // `#`
        push_char(formatted_code, '#');
        // `[`
        Self::open_square_bracket(formatted_code);
        let ghost before = formatted_code@;
        let mut i: usize = 0;
        assert(formatted_code@ =~= before + attributes_text(self.attribute@, 0));
        while i < self.attribute.len()
            invariant
                0 <= i <= self.attribute.len(),
                formatted_code@ == before + attributes_text(self.attribute@, i as nat),
            decreases self.attribute.len() - i,
        {
            // No separator stands before the first attribute.
            if i > 0 {
                push_char(formatted_code, comma_char());
                push_char(formatted_code, ' ');
            }
            self.attribute[i].format(formatted_code);
            assert(formatted_code@ =~= before + attributes_text(self.attribute@, (i + 1) as nat));
            i += 1;
        }
        // `]\n`
        Self::close_square_bracket(formatted_code);
        assert(formatted_code@ =~= old(formatted_code)@ + decl_text(*self));
    }

    /// The ranges of the parts of the attributes: the `#`, then the parts
    /// of each attribute.
    pub fn leaf_spans(&self) -> (spans: Vec<ByteSpan>)
        ensures
            spans@ == seq![byte_span(self.hash_span)] + attributes_spans(
                self.attribute@,
                self.attribute@.len(),
            ),
    {
        let mut collected_spans: Vec<ByteSpan> = Vec::new();
        collected_spans.push(ByteSpan { start: self.hash_span.start, end: self.hash_span.end });
        let mut i: usize = 0;
        assert(collected_spans@ =~= seq![byte_span(self.hash_span)] + attributes_spans(
            self.attribute@,
            0,
        ));
        while i < self.attribute.len()
            invariant
                0 <= i <= self.attribute.len(),
                collected_spans@ == seq![byte_span(self.hash_span)] + attributes_spans(
                    self.attribute@,
                    i as nat,
                ),
            decreases self.attribute.len() - i,
        {
            let mut more = self.attribute[i].leaf_spans();
            collected_spans.append(&mut more);
            assert(collected_spans@ =~= seq![byte_span(self.hash_span)] + attributes_spans(
                self.attribute@,
                (i + 1) as nat,
            ));
            i += 1;
        }
        collected_spans
    }
}

/// The text of an item with its attributes: each attribute line followed
/// by the indentation, then the item.
pub open spec fn annotated_text(
    attribute_list: Seq<AttributeDecl>,
    n: nat,
    indent: Seq<char>,
) -> Seq<char>
    decreases n,
{
    if n == 0 || n > attribute_list.len() {
        Seq::empty()
    } else {
        annotated_text(attribute_list, (n - 1) as nat, indent) + decl_text(attribute_list[n - 1])
            + indent
    }
}

/// An item with the attributes before it.
#[derive(Clone, Debug)]
pub struct Annotated {
    pub attribute_list: Vec<AttributeDecl>,
    /// The formatted text of the item.
    pub value: String,
}

impl Annotated {
    /// Appends the text of the item with its attributes to
    /// `formatted_code`: each attribute line followed by the indentation
    /// `indent`, then the item.
    pub fn format(&self, formatted_code: &mut String, indent: &str)
        ensures
            final(formatted_code)@ == old(formatted_code)@ + annotated_text(
                self.attribute_list@,
                self.attribute_list@.len(),
                indent@,
            ) + self.value@,
    {
        let mut i: usize = 0;
        assert(formatted_code@ =~= old(formatted_code)@ + annotated_text(
            self.attribute_list@,
            0,
            indent@,
        ));
        while i < self.attribute_list.len()
            invariant
                0 <= i <= self.attribute_list.len(),
                formatted_code@ == old(formatted_code)@ + annotated_text(
                    self.attribute_list@,
                    i as nat,
                    indent@,
                ),
            decreases self.attribute_list.len() - i,
        {
            self.attribute_list[i].format(formatted_code);
            formatted_code.append(indent);
            assert(formatted_code@ =~= old(formatted_code)@ + annotated_text(
                self.attribute_list@,
                (i + 1) as nat,
                indent@,
            ));
            i += 1;
        }
        formatted_code.append(self.value.as_str());
    }
}

} // verus!
