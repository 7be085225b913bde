//! A tiny XML writer for the payment-order documents.
//!
//! It makes no claim to XML generality — no processing instructions, no
//! character entities beyond basic escaping, no schema — but what it
//! does is pinned down exactly: elements close in the right order
//! before the document ends, attribute values and text content are
//! escaped, and the output is the concatenation its contract writes
//! out.

use vstd::prelude::*;
use vstd::string::*;

use crate::text::views_of;

verus! {

/// An attribute: name and raw (unescaped) value.
pub type Attribute<'a> = (&'a str, &'a str);

/// A run of `n` spaces, the indent at nesting depth `n`.
pub open spec fn spaces(n: int) -> Seq<char> {
    Seq::new(
        if n >= 0 {
            n as nat
        } else {
            0nat
        },
        |i: int| ' ',
    )
}

/// What a character becomes inside an attribute value.
pub open spec fn esc_attr_char(c: char) -> Seq<char> {
    if c == '&' {
        "&amp;"@
    } else if c == '<' {
        "&lt;"@
    } else if c == '>' {
        "&gt;"@
    } else if c == '"' {
        "&quot;"@
    } else {
        seq![c]
    }
}

/// What a character becomes inside text content; the double quote
/// stays as it is there.
pub open spec fn esc_text_char(c: char) -> Seq<char> {
    if c == '&' {
        "&amp;"@
    } else if c == '<' {
        "&lt;"@
    } else if c == '>' {
        "&gt;"@
    } else {
        seq![c]
    }
}

/// An attribute value, escaped from position `i` on.
pub open spec fn spec_escape_attr_from(s: Seq<char>, i: int) -> Seq<char>
    decreases s.len() - i when 0 <= i <= s.len()
{
    if i >= s.len() {
        Seq::empty()
    } else {
        esc_attr_char(s[i]).add(spec_escape_attr_from(s, i + 1))
    }
}

/// An attribute value, escaped.
pub open spec fn spec_escape_attr(s: Seq<char>) -> Seq<char> {
    spec_escape_attr_from(s, 0)
}

/// Text content, escaped from position `i` on.
pub open spec fn spec_escape_text_from(s: Seq<char>, i: int) -> Seq<char>
    decreases s.len() - i when 0 <= i <= s.len()
{
    if i >= s.len() {
        Seq::empty()
    } else {
        esc_text_char(s[i]).add(spec_escape_text_from(s, i + 1))
    }
}

/// Text content, escaped.
pub open spec fn spec_escape_text(s: Seq<char>) -> Seq<char> {
    spec_escape_text_from(s, 0)
}

/// Escapes an attribute value: ampersand, angle brackets and the
/// double quote become character entities.
pub fn escape_attr(value: &str) -> (r: String)
    ensures
        r@ == spec_escape_attr(value@),
{
    let len = value.unicode_len();
    let mut r = String::new();
    let mut i: usize = 0;
    while i < len
        invariant
            0 <= i <= len,
            len == value@.len(),
            spec_escape_attr_from(value@, 0) == r@.add(spec_escape_attr_from(value@, i as int)),
        decreases len - i,
    {
        let c = value.get_char(i);
        if c == '&' {
            r.append("&amp;");
        } else if c == '<' {
            r.append("&lt;");
        } else if c == '>' {
            r.append("&gt;");
        } else if c == '"' {
            r.append("&quot;");
        } else {
            let one = value.substring_char(i, i + 1);
            assert(one@ =~= seq![value@[i as int]]);
            r.append(one);
        }
        proof {
            assert(spec_escape_attr_from(value@, 0) =~= r@.add(
                spec_escape_attr_from(value@, i + 1),
            ));
        }
        i += 1;
    }
    r
}

/// Escapes text content: ampersand and angle brackets become character
/// entities.
pub fn escape_textcontent(value: &str) -> (r: String)
    ensures
        r@ == spec_escape_text(value@),
{
    let len = value.unicode_len();
    let mut r = String::new();
    let mut i: usize = 0;
    while i < len
        invariant
            0 <= i <= len,
            len == value@.len(),
            spec_escape_text_from(value@, 0) == r@.add(spec_escape_text_from(value@, i as int)),
        decreases len - i,
    {
        let c = value.get_char(i);
        if c == '&' {
            r.append("&amp;");
        } else if c == '<' {
            r.append("&lt;");
        } else if c == '>' {
            r.append("&gt;");
        } else {
            let one = value.substring_char(i, i + 1);
            assert(one@ =~= seq![value@[i as int]]);
            r.append(one);
        }
        proof {
            assert(spec_escape_text_from(value@, 0) =~= r@.add(
                spec_escape_text_from(value@, i + 1),
            ));
        }
        i += 1;
    }
    r
}

/// One rendered attribute: a space, the name, `="`, the escaped value,
/// and the closing quote.
pub open spec fn spec_attr(p: (&str, &str)) -> Seq<char> {
    " "@.add(p.0@).add("=\""@).add(spec_escape_attr(p.1@)).add("\""@)
}

/// The rendered attribute list from position `i` on.
pub open spec fn spec_attrs_from(a: Seq<(&str, &str)>, i: int) -> Seq<char>
    decreases a.len() - i when 0 <= i <= a.len()
{
    if i >= a.len() {
        Seq::empty()
    } else {
        spec_attr(a[i]).add(spec_attrs_from(a, i + 1))
    }
}

/// What closing every open element appends to the document.
pub open spec fn spec_close_all(out: Seq<char>, stack: Seq<Seq<char>>) -> Seq<char>
    decreases stack.len(),
{
    if stack.len() == 0 {
        out
    } else {
        spec_close_all(
            out.add(spaces(stack.len() - 1)).add("</"@).add(stack.last()).add(">\n"@),
            stack.drop_last(),
        )
    }
}

/// The XML writer: the document so far, and the stack of elements
/// still open.
pub struct DirtyXml {
    output: String,
    open_elements: Vec<String>,
}

impl DirtyXml {
    /// The document written so far.
    pub closed spec fn out(&self) -> Seq<char> {
        self.output@
    }

    /// The names of the elements still open, outermost first.
    pub closed spec fn stack(&self) -> Seq<Seq<char>> {
        views_of(self.open_elements@)
    }

    /// A new document: the XML declaration and nothing open.
    pub fn new() -> (r: DirtyXml)
        ensures
            r.out() == "<?xml version=\"1.0\" encoding=\"UTF-8\" standalone=\"yes\"?>\n"@,
            r.stack() == Seq::<Seq<char>>::empty(),
    {
        let mut output = String::new();
        output.append("<?xml version=\"1.0\" encoding=\"UTF-8\" standalone=\"yes\"?>\n");
        let r = DirtyXml { output, open_elements: Vec::new() };
        proof {
            assert(r.out() =~= "<?xml version=\"1.0\" encoding=\"UTF-8\" standalone=\"yes\"?>\n"@);
            assert(r.stack() =~= Seq::<Seq<char>>::empty());
        }
        r
    }

    /// Writes the indent of the current nesting depth.
    fn indent(&mut self)
        ensures
            final(self).out() == old(self).out().add(spaces(old(self).stack().len() as int)),
            final(self).open_elements@ == old(self).open_elements@,
    {
        let depth = self.open_elements.len();
        let mut i: usize = 0;
        proof {
            reveal_strlit(" ");
        }
        while i < depth
            invariant
                0 <= i <= depth,
                " "@ =~= seq![' '],
                self.open_elements@ == old(self).open_elements@,
                depth == old(self).open_elements@.len(),
                self.output@ == old(self).output@.add(spaces(i as int)),
            decreases depth - i,
        {
            self.output.append(" ");
            proof {
                assert(self.output@ =~= old(self).output@.add(spaces(i + 1)));
            }
            i += 1;
        }
    }

    /// Opens a new element.
    pub fn open(&mut self, elem: &str)
        ensures
            final(self).out() == old(self).out().add(spaces(old(self).stack().len() as int)).add(
                "<"@,
            ).add(elem@).add(">\n"@),
            final(self).stack() == old(self).stack().push(elem@),
    {
        self.open_attrs(elem, &[]);
        proof {
            assert(spec_attrs_from(Seq::<(&str, &str)>::empty(), 0) =~= Seq::<char>::empty());
            assert(final(self).out() =~= old(self).out().add(
                spaces(old(self).stack().len() as int),
            ).add("<"@).add(elem@).add(">\n"@));
        }
    }

    /// Opens a new element with attributes; attribute values are
    /// escaped, names are taken as they are.
    pub fn open_attrs(&mut self, elem: &str, attrs: &[Attribute])
        ensures
            final(self).out() == old(self).out().add(spaces(old(self).stack().len() as int)).add(
                "<"@,
            ).add(elem@).add(spec_attrs_from(attrs@, 0)).add(">\n"@),
            final(self).stack() == old(self).stack().push(elem@),
    {
        let ghost out0 = self.output@;
        let ghost depth = self.open_elements@.len() as int;
        self.indent();
        self.output.append("<");
        self.output.append(elem);
        let n = attrs.len();
        let mut i: usize = 0;
        while i < n
            invariant
                0 <= i <= n,
                n == attrs@.len(),
                self.open_elements@ == old(self).open_elements@,
                depth == old(self).open_elements@.len(),
                self.output@.add(spec_attrs_from(attrs@, i as int)) == out0.add(spaces(depth)).add(
                    "<"@,
                ).add(elem@).add(spec_attrs_from(attrs@, 0)),
            decreases n - i,
        {
            let (name, value) = attrs[i];
            self.output.append(" ");
            self.output.append(name);
            self.output.append("=\"");
            let ev = escape_attr(value);
            self.output.append(ev.as_str());
            self.output.append("\"");
            proof {
                assert(self.output@.add(spec_attrs_from(attrs@, i + 1)) =~= out0.add(
                    spaces(depth),
                ).add("<"@).add(elem@).add(spec_attrs_from(attrs@, 0)));
            }
            i += 1;
        }
        self.output.append(">\n");
        let owned = elem.to_owned();
        proof {
            assert(views_of(self.open_elements@.push(owned)) =~= views_of(
                self.open_elements@,
            ).push(elem@));
        }
        self.open_elements.push(owned);
        proof {
            assert(final(self).out() =~= out0.add(spaces(depth)).add("<"@).add(elem@).add(
                spec_attrs_from(attrs@, 0),
            ).add(">\n"@));
        }
    }

    /// Writes an element with text content, escaped, on one line.
    pub fn simple(&mut self, elem: &str, text: &str)
        ensures
            final(self).out() == old(self).out().add(spaces(old(self).stack().len() as int)).add(
                "<"@,
            ).add(elem@).add(">"@).add(spec_escape_text(text@)).add("</"@).add(elem@).add(">\n"@),
            final(self).stack() == old(self).stack(),
    {
        self.indent();
        self.output.append("<");
        self.output.append(elem);
        self.output.append(">");
        let et = escape_textcontent(text);
        self.output.append(et.as_str());
        self.output.append("</");
        self.output.append(elem);
        self.output.append(">\n");
        assert(final(self).out() =~= old(self).out().add(
            spaces(old(self).stack().len() as int),
        ).add("<"@).add(elem@).add(">"@).add(spec_escape_text(text@)).add("</"@).add(elem@).add(
            ">\n"@,
        ));
    }

    /// Closes the innermost open element and returns its name, or
    /// `None` when nothing is open.
    pub fn close(&mut self) -> (r: Option<String>)
        ensures
            old(self).stack().len() == 0 ==> r is None && final(self).out() == old(self).out()
                && final(self).stack() == old(self).stack(),
            old(self).stack().len() > 0 ==> (r matches Some(n) && n@ == old(self).stack().last()
                && final(self).stack() == old(self).stack().drop_last() && final(self).out() == old(
                self,
            ).out().add(spaces(old(self).stack().len() - 1)).add("</"@).add(
                old(self).stack().last(),
            ).add(">\n"@)),
    {
        match self.open_elements.pop() {
            None => None,
            Some(name) => {
                proof {
                    assert(views_of(old(self).open_elements@.drop_last()) =~= views_of(
                        old(self).open_elements@,
                    ).drop_last());
                }
                self.indent();
                self.output.append("</");
                self.output.append(name.as_str());
                self.output.append(">\n");
                proof {
                    assert(final(self).out() =~= old(self).out().add(
                        spaces(old(self).stack().len() - 1),
                    ).add("</"@).add(old(self).stack().last()).add(">\n"@));
                }
                Some(name)
            }
        }
    }

    /// Closes every open element and hands the document back.
    pub fn into_xml(self) -> (r: String)
        ensures
            r@ == spec_close_all(self.out(), self.stack()),
    {
        let mut doc = self;
        let mut done = false;
        while !done
            invariant
                spec_close_all(doc.out(), doc.stack()) == spec_close_all(self.out(), self.stack()),
                done ==> doc.stack().len() == 0,
            decreases doc.stack().len(), (if done {
                0int
            } else {
                1int
            }),
        {
            match doc.close() {
                Some(_) => {
                }
                None => {
                    done = true;
                }
            }
        }
        doc.output
    }
}

} // verus!
