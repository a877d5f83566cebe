//! A small SVG document builder: a surface with an optional background
//! and a list of element strings, serialized with a header and footer
//! into a complete document.

use crate::numfmt::centi_to_string;
use crate::numfmt::spec_centi;
use crate::numfmt::spec_dec;
use crate::numfmt::u64_to_string;
use vstd::prelude::*;
use vstd::string::StrSliceExecFns;
use vstd::string::StringExecFns;

verus! {

/// A fill color, either named or an RGB triple.
pub enum Color {
    Black,
    White,
    Blue,
    Green,
    Red,
    Yellow,
    Rgb(u8, u8, u8),
}

impl Color {
    /// The SVG name of the color.
    pub open spec fn spec_str(self) -> Seq<char> {
        match self {
            Color::Black => "black"@,
            Color::White => "white"@,
            Color::Blue => "blue"@,
            Color::Green => "green"@,
            Color::Red => "red"@,
            Color::Yellow => "yellow"@,
            Color::Rgb(r, g, b) => "rgb("@ + spec_dec(r as nat) + ","@ + spec_dec(g as nat) + ","@
                + spec_dec(b as nat) + ")"@,
        }
    }

    /// Renders the color the way SVG attributes expect it.
    pub fn to_string(&self) -> (s: String)
        ensures
            s@ == self.spec_str(),
    {
        match self {
            Color::Black => "black".to_owned(),
            Color::White => "white".to_owned(),
            Color::Blue => "blue".to_owned(),
            Color::Green => "green".to_owned(),
            Color::Red => "red".to_owned(),
            Color::Yellow => "yellow".to_owned(),
            Color::Rgb(r, g, b) => {
                let mut s = "rgb(".to_owned();
                s.append(u64_to_string(*r as u64).as_str());
                s.append(",");
                s.append(u64_to_string(*g as u64).as_str());
                s.append(",");
                s.append(u64_to_string(*b as u64).as_str());
                s.append(")");
                proof {
                    assert(s@ =~= self.spec_str());
                }
                s
            },
        }
    }
}

/// The background rectangle line, or nothing when no background color
/// is set.
pub open spec fn spec_bg(bg: Option<Color>) -> Seq<char> {
    match bg {
        Some(c) => "<rect width=\"100%\" height=\"100%\" fill=\""@ + c.spec_str() + "\" />\n"@,
        None => Seq::empty(),
    }
}

/// An element as it appears in the document body: itself, with a
/// newline appended when it does not already end in one.
pub open spec fn spec_elem_line(e: Seq<char>) -> Seq<char> {
    if e.len() > 0 && e[e.len() - 1] == '\n' {
        e
    } else {
        e + "\n"@
    }
}

/// The first `n` elements as they appear in the document body.
pub open spec fn spec_elems_upto(elems: Seq<Seq<char>>, n: int) -> Seq<char>
    decreases n,
{
    if n <= 0 {
        Seq::empty()
    } else {
        spec_elems_upto(elems, n - 1) + spec_elem_line(elems[n - 1])
    }
}

/// The header of a standalone SVG file, with the surface size written
/// with two decimal places.
pub open spec fn spec_file_header(w: int, h: int) -> Seq<char> {
    "<svg version=\"1.1\"\nbaseProfile=\"full\"\nwidth=\""@ + spec_centi(w * 100)
        + "\" height=\""@ + spec_centi(h * 100)
        + "\"\nxmlns=\"http://www.w3.org/2000/svg\"\nxmlns:xlink=\"http://www.w3.org/1999/xlink\">\n"@
}

/// The header of an SVG fragment meant to sit inside an HTML page.
pub open spec fn spec_html_header(w: int, h: int) -> Seq<char> {
    "<svg width=\""@ + spec_centi(w * 100) + "\" height=\""@ + spec_centi(h * 100) + "\">\n"@
}

/// An SVG surface: its size in pixels, an optional background color,
/// and the element strings of its body in insertion order.
pub struct SVG {
    /// Surface width, pixels.
    pub width: u32,
    /// Surface height, pixels.
    pub height: u32,
    /// Background fill, painted first when present.
    pub background_color: Option<Color>,
    /// The body elements, serialized in this order.
    pub elem_str_vec: Vec<String>,
}

impl SVG {
    /// The document body: the background line followed by every
    /// element, each on its own line.
    pub open spec fn spec_body(self) -> Seq<char> {
        spec_bg(self.background_color) + spec_elems_upto(
            self.elem_str_vec.deep_view(),
            self.elem_str_vec.len() as int,
        )
    }

    /// A fresh surface with no elements.
    pub fn new(width: u32, height: u32, background_color: Option<Color>) -> (r: SVG)
        ensures
            r.width == width,
            r.height == height,
            r.background_color == background_color,
            r.elem_str_vec@.len() == 0,
    {
        SVG { width, height, background_color, elem_str_vec: Vec::new() }
    }

    /// Appends one element string to the body.
    pub fn add_elem(&mut self, elem_str: String)
        ensures
            final(self).width == old(self).width,
            final(self).height == old(self).height,
            final(self).background_color == old(self).background_color,
            final(self).elem_str_vec@ == old(self).elem_str_vec@.push(elem_str),
    {
        self.elem_str_vec.push(elem_str);
    }

    /// Serializes the body onto the end of an existing buffer.
    pub fn to_string_append(&self, str_buf: &mut String)
        ensures
            final(str_buf)@ == old(str_buf)@ + self.spec_body(),
    {
        let ghost base = old(str_buf)@;
        if let Some(color) = &self.background_color {
            str_buf.append("<rect width=\"100%\" height=\"100%\" fill=\"");
            let cs = color.to_string();
            str_buf.append(cs.as_str());
            str_buf.append("\" />\n");
        }
        proof {
            assert(str_buf@ =~= base + spec_bg(self.background_color));
        }
        let n = self.elem_str_vec.len();
        let mut i: usize = 0;
        while i < n
            invariant
                i <= n,
                n == self.elem_str_vec@.len(),
                str_buf@ == base + spec_bg(self.background_color) + spec_elems_upto(
                    self.elem_str_vec.deep_view(),
                    i as int,
                ),
            decreases n - i,
        {
            let elem = &self.elem_str_vec[i];
            str_buf.append(elem.as_str());
            let l = elem.as_str().unicode_len();
            if !(l > 0 && elem.as_str().get_char(l - 1) == '\n') {
                str_buf.append("\n");
            }
            proof {
                assert(self.elem_str_vec.deep_view()[i as int] == self.elem_str_vec@[i as int]@);
                assert(str_buf@ =~= base + spec_bg(self.background_color) + spec_elems_upto(
                    self.elem_str_vec.deep_view(),
                    i + 1,
                ));
            }
            i += 1;
        }
        proof {
            assert(str_buf@ =~= base + self.spec_body());
        }
    }

    /// The document body as one string.
    pub fn to_string(&self) -> (s: String)
        ensures
            s@ == self.spec_body(),
    {
        let mut res_str = String::new();
        self.to_string_append(&mut res_str);
        proof {
            assert(res_str@ =~= self.spec_body());
        }
        res_str
    }

    /// The complete standalone document: file header, body, footer.
    pub fn to_file_string(&self) -> (s: String)
        ensures
            s@ == spec_file_header(self.width as int, self.height as int) + self.spec_body()
                + "</svg>\n"@,
    {
        let mut res_str = "<svg version=\"1.1\"\nbaseProfile=\"full\"\nwidth=\"".to_owned();
        res_str.append(centi_to_string((self.width as i64) * 100).as_str());
        res_str.append("\" height=\"");
        res_str.append(centi_to_string((self.height as i64) * 100).as_str());
        res_str.append(
            "\"\nxmlns=\"http://www.w3.org/2000/svg\"\nxmlns:xlink=\"http://www.w3.org/1999/xlink\">\n",
        );
        proof {
            assert(res_str@ =~= spec_file_header(self.width as int, self.height as int));
        }
        self.to_string_append(&mut res_str);
        res_str.append("</svg>\n");
        proof {
            assert(res_str@ =~= spec_file_header(self.width as int, self.height as int)
                + self.spec_body() + "</svg>\n"@);
        }
        res_str
    }

    /// The document as a fragment for direct insertion into HTML:
    /// short header, body, footer.
    pub fn to_string_insert_in_html(&self) -> (s: String)
        ensures
            s@ == spec_html_header(self.width as int, self.height as int) + self.spec_body()
                + "</svg>\n"@,
    {
        let mut res_str = "<svg width=\"".to_owned();
        res_str.append(centi_to_string((self.width as i64) * 100).as_str());
        res_str.append("\" height=\"");
        res_str.append(centi_to_string((self.height as i64) * 100).as_str());
        res_str.append("\">\n");
        proof {
            assert(res_str@ =~= spec_html_header(self.width as int, self.height as int));
        }
        self.to_string_append(&mut res_str);
        res_str.append("</svg>\n");
        proof {
            assert(res_str@ =~= spec_html_header(self.width as int, self.height as int)
                + self.spec_body() + "</svg>\n"@);
        }
        res_str
    }
}

} // verus!
