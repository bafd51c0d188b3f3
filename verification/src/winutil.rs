//! Helpers shared by the pages: resource-string formatting, UTF-16 conversions,
//! message-parameter words and rectangle sizes.
use vstd::prelude::*;

use crate::localization::{table_text, text, UiLanguage};
use crate::strings::{chars_of, extend_chars, extend_str, string_from_chars};
use crate::text_key::TextKey;

verus! {

broadcast use vstd::string::group_string_axioms;

/// A rectangle in window coordinates (the plain-value form of a Win32 `RECT`).
#[derive(Clone, Copy, PartialEq, Eq, Structural, Debug)]
pub struct Rect {
    pub left: i32,
    pub top: i32,
    pub right: i32,
    pub bottom: i32,
}

/// Width of a rectangle.
pub fn width(rect: &Rect) -> (r: i32)
    requires
        i32::MIN <= rect.right - rect.left <= i32::MAX,
    ensures
        r == rect.right - rect.left,
{
    rect.right - rect.left
}

/// Height of a rectangle.
pub fn height(rect: &Rect) -> (r: i32)
    requires
        i32::MIN <= rect.bottom - rect.top <= i32::MAX,
    ensures
        r == rect.bottom - rect.top,
{
    rect.bottom - rect.top
}

/// Low 16 bits of a message parameter.
pub fn loword(value: usize) -> (r: u16)
    ensures
        r as int == value as int % 0x10000,
{
    let r = (value & 0xFFFF) as u16;
    assert((value & 0xFFFF) == value % 0x10000) by (bit_vector);
    r
}

/// Bits 16..32 of a message parameter.
pub fn hiword(value: usize) -> (r: u16)
    ensures
        r as int == (value as int / 0x10000) % 0x10000,
{
    let r = ((value >> 16) & 0xFFFF) as u16;
    assert(((value >> 16) & 0xFFFF) == (value / 0x10000) % 0x10000) by (bit_vector);
    r
}

/// Whether `c` is a conversion character that consumes one value (`%d`, `%u`, `%s`).
pub open spec fn is_value_conversion(c: char) -> bool {
    c == 'd' || c == 'u' || c == 's'
}

/// Rendering of a resource template: `%%` gives `%`, `%d`/`%u`/`%s` take the next value
/// (nothing once the values run out), and any other `%` stands for itself.
pub open spec fn render_template(t: Seq<char>, values: Seq<Seq<char>>, index: nat) -> Seq<char>
    decreases t.len(),
{
    if t.len() == 0 {
        Seq::empty()
    } else if t[0] == '%' && t.len() > 1 && t[1] == '%' {
        seq!['%'] + render_template(t.skip(2), values, index)
    } else if t[0] == '%' && t.len() > 1 && is_value_conversion(t[1]) {
        if index < values.len() {
            values[index as int] + render_template(t.skip(2), values, index + 1)
        } else {
            render_template(t.skip(2), values, index)
        }
    } else {
        seq![t[0]] + render_template(t.skip(1), values, index)
    }
}

/// The views of a slice of strings.
pub open spec fn string_views(values: Seq<String>) -> Seq<Seq<char>> {
    values.map_values(|s: String| s@)
}

/// Expands the `%d`, `%u`, `%s` and `%%` placeholders of a resource template.
pub fn format_resource_string(template: &str, values: &[String]) -> (r: String)
    ensures
        r@ == render_template(template@, string_views(values@), 0),
{
    let t = chars_of(template);
    let ghost vals = string_views(values@);
    let mut out: Vec<char> = Vec::new();
    let mut i: usize = 0;
    let mut index: usize = 0;
    assert(t@.skip(0) =~= t@);
    while i < t.len()
        invariant
            i <= t.len(),
            index <= values@.len(),
            vals == string_views(values@),
            vals.len() == values@.len(),
            out@ + render_template(t@.skip(i as int), vals, index as nat) == render_template(t@, vals, 0),
        decreases t.len() - i,
    {
        let ghost rest = t@.skip(i as int);
        let ch = t[i];
        if ch == '%' && i + 1 < t.len() && t[i + 1] == '%' {
            out.push('%');
            assert(rest.skip(2) =~= t@.skip(i + 2));
            assert(out@ + render_template(rest.skip(2), vals, index as nat) =~= (out@.drop_last())
                + (seq!['%'] + render_template(rest.skip(2), vals, index as nat)));
            i += 2;
        } else if ch == '%' && i + 1 < t.len() && (t[i + 1] == 'd' || t[i + 1] == 'u' || t[i + 1] == 's') {
            assert(rest.skip(2) =~= t@.skip(i + 2));
            if index < values.len() {
                let ghost before = out@;
                let value = chars_of(values[index].as_str());
                extend_chars(&mut out, &value);
                assert(vals[index as int] == values@[index as int]@);
                assert(out@ + render_template(rest.skip(2), vals, (index + 1) as nat) =~= before
                    + (vals[index as int] + render_template(rest.skip(2), vals, (index + 1) as nat)));
                index += 1;
            }
            i += 2;
        } else {
            let ghost before = out@;
            out.push(ch);
            assert(rest.skip(1) =~= t@.skip(i + 1));
            assert(out@ + render_template(rest.skip(1), vals, index as nat) =~= before
                + (seq![ch] + render_template(rest.skip(1), vals, index as nat)));
            i += 1;
        }
    }
    assert(t@.skip(i as int) =~= Seq::<char>::empty());
    assert(out@ + render_template(Seq::<char>::empty(), vals, index as nat) =~= out@);
    string_from_chars(&out)
}

/// A template without any `%` is its own rendering, whatever the values.
pub proof fn lemma_plain_template_unchanged(t: Seq<char>, values: Seq<Seq<char>>, index: nat)
    requires
        forall|i: int| 0 <= i < t.len() ==> t[i] != '%',
    ensures
        render_template(t, values, index) == t,
    decreases t.len(),
{
    if t.len() > 0 {
        lemma_plain_template_unchanged(t.skip(1), values, index);
        assert(t =~= seq![t[0]] + t.skip(1));
    }
}

/// Appends the localized "(32-bit)" marker to a label of a 32-bit process.
pub fn append_32_bit_suffix(language: UiLanguage, label: &str, is_32_bit: bool) -> (r: String)
    ensures
        r@ == (if is_32_bit {
            label@ + seq![' '] + table_text(language, TextKey::Bitness32Suffix)@
        } else {
            label@
        }),
{
    let mut out = chars_of(label);
    if is_32_bit {
        out.push(' ');
        extend_str(&mut out, text(language, TextKey::Bitness32Suffix));
    }
    string_from_chars(&out)
}

/// Whether a code unit is a leading (high) surrogate.
pub open spec fn is_high_surrogate(u: u16) -> bool {
    0xD800 <= u && u <= 0xDBFF
}

/// Whether a code unit is a trailing (low) surrogate.
pub open spec fn is_low_surrogate(u: u16) -> bool {
    0xDC00 <= u && u <= 0xDFFF
}

/// Whether a number is a Unicode scalar value (the range of `char`).
pub open spec fn is_scalar_value(v: int) -> bool {
    (0 <= v < 0xD800) || (0xE000 <= v <= 0x10FFFF)
}

/// UTF-16 code units of one character.
pub open spec fn utf16_of_char(c: char) -> Seq<u16> {
    let u = c as int;
    if u < 0x10000 {
        seq![u as u16]
    } else {
        seq![(0xD800 + (u - 0x10000) / 0x400) as u16, (0xDC00 + (u - 0x10000) % 0x400) as u16]
    }
}

/// UTF-16 encoding of a character sequence.
pub open spec fn utf16_units(s: Seq<char>) -> Seq<u16>
    decreases s.len(),
{
    if s.len() == 0 {
        Seq::empty()
    } else {
        utf16_of_char(s[0]) + utf16_units(s.drop_first())
    }
}

proof fn lemma_utf16_units_push(s: Seq<char>, c: char)
    ensures
        utf16_units(s.push(c)) == utf16_units(s) + utf16_of_char(c),
    decreases s.len(),
{
    if s.len() == 0 {
        assert(s.push(c).drop_first() =~= Seq::<char>::empty());
        assert(utf16_units(s.push(c)) =~= utf16_of_char(c) + utf16_units(Seq::<char>::empty()));
    } else {
        assert(s.push(c).drop_first() =~= s.drop_first().push(c));
        lemma_utf16_units_push(s.drop_first(), c);
        assert(utf16_units(s.push(c)) =~= utf16_of_char(s[0]) + utf16_units(s.drop_first().push(c)));
    }
}

/// Appends the UTF-16 code units of `c`.
fn push_utf16(out: &mut Vec<u16>, c: char)
    ensures
        final(out)@ == old(out)@ + utf16_of_char(c),
{
    let u = c as u32;
    proof {
        assert(u as int == c as int);
    }
    if u < 0x10000 {
        out.push(u as u16);
        assert(final(out)@ =~= old(out)@ + utf16_of_char(c)) by {
            assert(utf16_of_char(c) == seq![(c as int) as u16]);
        }
    } else {
        let v = u - 0x10000;
        assert(v / 0x400 < 0x400) by {
            assert(u <= 0x10FFFF);
        }
        out.push((0xD800 + v / 0x400) as u16);
        out.push((0xDC00 + v % 0x400) as u16);
        assert(final(out)@ =~= old(out)@ + utf16_of_char(c));
    }
}

/// NUL-terminated UTF-16 form of a string, as the Win32 wide-character APIs take it.
pub fn to_wide_null(text: &str) -> (r: Vec<u16>)
    ensures
        r@ == utf16_units(text@).push(0u16),
{
    let chars = chars_of(text);
    let mut out: Vec<u16> = Vec::new();
    let mut i: usize = 0;
    while i < chars.len()
        invariant
            i <= chars.len(),
            out@ == utf16_units(chars@.subrange(0, i as int)),
        decreases chars.len() - i,
    {
        let c = chars[i];
        push_utf16(&mut out, c);
        proof {
            assert(chars@.subrange(0, i + 1) =~= chars@.subrange(0, i as int).push(c));
            lemma_utf16_units_push(chars@.subrange(0, i as int), c);
        }
        i += 1;
    }
    assert(chars@.subrange(0, chars.len() as int) =~= text@);
    out.push(0u16);
    out
}

/// The character of a Unicode scalar value.
pub open spec fn scalar_char(v: int) -> char {
    v as char
}

/// `char::from_u32`: the character of a scalar value, `None` for surrogates and
/// values above U+10FFFF.
#[verifier::external_body]
pub(crate) fn char_from_u32(v: u32) -> (r: Option<char>)
    ensures
        r == (if is_scalar_value(v as int) { Some(scalar_char(v as int)) } else { None }),
{
    char::from_u32(v)
}

/// Lossy UTF-16 decoding: a surrogate pair gives its supplementary character and any
/// unpaired surrogate gives U+FFFD, as `String::from_utf16_lossy` decodes.
pub open spec fn utf16_lossy(u: Seq<u16>) -> Seq<char>
    decreases u.len(),
{
    if u.len() == 0 {
        Seq::empty()
    } else if is_high_surrogate(u[0]) && u.len() > 1 && is_low_surrogate(u[1]) {
        seq![scalar_char(0x10000 + (u[0] - 0xD800) * 0x400 + (u[1] - 0xDC00))] + utf16_lossy(u.skip(2))
    } else if is_high_surrogate(u[0]) || is_low_surrogate(u[0]) {
        seq!['\u{FFFD}'] + utf16_lossy(u.skip(1))
    } else {
        seq![scalar_char(u[0] as int)] + utf16_lossy(u.skip(1))
    }
}

/// Decoding the UTF-16 encoding of any text gives the text back.
pub proof fn lemma_utf16_round_trip(s: Seq<char>)
    ensures
        utf16_lossy(utf16_units(s)) == s,
    decreases s.len(),
{
    if s.len() > 0 {
        let c = s[0];
        let rest = s.drop_first();
        lemma_utf16_round_trip(rest);
        let u = utf16_units(s);
        assert(u == utf16_of_char(c) + utf16_units(rest));
        let v = c as int;
        vstd::utf8::char_is_scalar(c);
        vstd::utf8::char_u32_cast(c, c as u32);
        assert(c as u32 as int == v);
        assert(is_scalar_value(v));
        assert(scalar_char(v) == c);
        if v < 0x10000 {
            assert(u[0] == v as u16);
            assert(u[0] as int == v);
            assert(u.skip(1) =~= utf16_units(rest));
            assert(utf16_lossy(u) == seq![scalar_char(v)] + utf16_lossy(u.skip(1)));
        } else {
            let q = (v - 0x10000) / 0x400;
            let r = (v - 0x10000) % 0x400;
            assert(0 <= q < 0x400 && 0 <= r < 0x400 && q * 0x400 + r == v - 0x10000) by (nonlinear_arith)
                requires
                    0x10000 <= v <= 0x10FFFF,
                    q == (v - 0x10000) / 0x400,
                    r == (v - 0x10000) % 0x400,
            ;
            assert(u[0] as int == 0xD800 + q);
            assert(u[1] as int == 0xDC00 + r);
            assert(u.skip(2) =~= utf16_units(rest));
            assert(0x10000 + (u[0] - 0xD800) * 0x400 + (u[1] - 0xDC00) == v);
            assert(utf16_lossy(u) == seq![scalar_char(v)] + utf16_lossy(u.skip(2)));
        }
        assert(s =~= seq![c] + rest);
    }
}

/// Decodes UTF-16 code units, replacing unpaired surrogates with U+FFFD.
pub fn decode_utf16_lossy(units: &[u16]) -> (r: Vec<char>)
    ensures
        r@ == utf16_lossy(units@),
{
    let mut out: Vec<char> = Vec::new();
    let mut i: usize = 0;
    let n = units.len();
    assert(units@.skip(0) =~= units@);
    while i < n
        invariant
            n == units@.len(),
            i <= n,
            out@ + utf16_lossy(units@.skip(i as int)) == utf16_lossy(units@),
        decreases n - i,
    {
        let ghost rest = units@.skip(i as int);
        let ghost before = out@;
        let u = units[i];
        if 0xD800 <= u && u <= 0xDBFF && i + 1 < n && 0xDC00 <= units[i + 1] && units[i + 1] <= 0xDFFF {
            let w = units[i + 1];
            let v: u32 = 0x10000 + ((u as u32) - 0xD800) * 0x400 + ((w as u32) - 0xDC00);
            let c = char_from_u32(v);
            match c {
                Some(c) => out.push(c),
                None => out.push('\u{FFFD}'),
            }
            assert(rest.skip(2) =~= units@.skip(i + 2));
            assert(out@ + utf16_lossy(rest.skip(2)) =~= before + (seq![out@.last()] + utf16_lossy(rest.skip(2))));
            i += 2;
        } else if 0xD800 <= u && u <= 0xDFFF {
            out.push('\u{FFFD}');
            assert(rest.skip(1) =~= units@.skip(i + 1));
            assert(out@ + utf16_lossy(rest.skip(1)) =~= before + (seq!['\u{FFFD}'] + utf16_lossy(rest.skip(1))));
            i += 1;
        } else {
            let c = char_from_u32(u as u32);
            match c {
                Some(c) => out.push(c),
                None => out.push('\u{FFFD}'),
            }
            assert(rest.skip(1) =~= units@.skip(i + 1));
            assert(out@ + utf16_lossy(rest.skip(1)) =~= before + (seq![out@.last()] + utf16_lossy(rest.skip(1))));
            i += 1;
        }
    }
    assert(units@.skip(n as int) =~= Seq::<u16>::empty());
    assert(out@ + Seq::<char>::empty() =~= out@);
    out
}

} // verus!

verus! {

/// The text of a numbered string resource, empty when no language holds it.
pub open spec fn spec_load_string(language: UiLanguage, id: u32) -> Seq<char> {
    match crate::language::spec_localized_string(language, id) {
        Some(s) => s@,
        None => Seq::empty(),
    }
}

/// Loads a numbered string resource as an owned string (empty when missing).
pub fn load_string(language: UiLanguage, id: u32) -> (r: String)
    ensures
        r@ == spec_load_string(language, id),
{
    match crate::language::localized_string(language, id) {
        Some(s) => String::from_str(s),
        None => String::new(),
    }
}

} // verus!
