//! Repair of JSON text that carries raw control characters inside string
//! literals.

use vstd::prelude::*;

verus! {

/// Where a left-to-right scan of JSON text stands with respect to string
/// literals.
#[derive(Clone, Copy, PartialEq, Eq, Structural, Debug)]
pub enum Scan {
    /// Not inside a string literal.
    Outside,
    /// Inside a string literal.
    Inside,
    /// Inside a string literal, directly behind a backslash.
    Escaped,
}

/// The characters that JSON forbids to appear raw inside a string literal.
pub open spec fn is_raw_control(c: char) -> bool {
    (c as u32) < 0x20
}

/// The scan position behind `c`, read at position `scan`.
pub open spec fn advance(scan: Scan, c: char) -> Scan {
    match scan {
        Scan::Outside => if c == '"' {
            Scan::Inside
        } else {
            Scan::Outside
        },
        Scan::Inside => if c == '"' {
            Scan::Outside
        } else if c == '\\' {
            Scan::Escaped
        } else {
            Scan::Inside
        },
        Scan::Escaped => Scan::Inside,
    }
}

/// The scan position in front of the character at index `n` of `text`.
pub open spec fn scan_at(text: Seq<char>, n: int) -> Scan
    decreases n,
{
    if n <= 0 {
        Scan::Outside
    } else {
        advance(scan_at(text, n - 1), text[n - 1])
    }
}

/// The lower-case hexadecimal digit of a value below sixteen.
pub open spec fn hex_digit(n: u32) -> char {
    if n == 0 {
        '0'
    } else if n == 1 {
        '1'
    } else if n == 2 {
        '2'
    } else if n == 3 {
        '3'
    } else if n == 4 {
        '4'
    } else if n == 5 {
        '5'
    } else if n == 6 {
        '6'
    } else if n == 7 {
        '7'
    } else if n == 8 {
        '8'
    } else if n == 9 {
        '9'
    } else if n == 10 {
        'a'
    } else if n == 11 {
        'b'
    } else if n == 12 {
        'c'
    } else if n == 13 {
        'd'
    } else if n == 14 {
        'e'
    } else {
        'f'
    }
}

/// The JSON escape sequence that stands for the control character `c`.
pub open spec fn escape_of(c: char) -> Seq<char> {
    if c == '\n' {
        seq!['\\', 'n']
    } else if c == '\r' {
        seq!['\\', 'r']
    } else if c == '\t' {
        seq!['\\', 't']
    } else {
        seq!['\\', 'u', '0', '0', hex_digit((c as u32) / 16), hex_digit((c as u32) % 16)]
    }
}

/// What the repair writes for the character `c` read at position `scan`.
pub open spec fn repaired(scan: Scan, c: char) -> Seq<char> {
    if scan == Scan::Inside && is_raw_control(c) {
        escape_of(c)
    } else {
        seq![c]
    }
}

/// The repair of the first `n` characters of `text`.
pub open spec fn sanitized_prefix(text: Seq<char>, n: int) -> Seq<char>
    decreases n,
{
    if n <= 0 {
        Seq::empty()
    } else {
        sanitized_prefix(text, n - 1) + repaired(scan_at(text, n - 1), text[n - 1])
    }
}

/// The repair of `text`: every character is kept, except a raw control
/// character directly inside a string literal, which gives way to its escape
/// sequence.
pub open spec fn sanitized(text: Seq<char>) -> Seq<char> {
    sanitized_prefix(text, text.len() as int)
}

/// A text is clean where no raw control character stands directly inside a
/// string literal.
pub open spec fn clean(text: Seq<char>) -> bool {
    forall|i: int|
        0 <= i < text.len() ==> !(#[trigger] scan_at(text, i) == Scan::Inside && is_raw_control(
            text[i],
        ))
}

/// The scan position in front of an index depends on the characters before
/// that index alone.
pub proof fn scan_depends_on_prefix(a: Seq<char>, b: Seq<char>, n: int)
    requires
        0 <= n <= a.len(),
        n <= b.len(),
        forall|i: int| 0 <= i < n ==> a[i] == b[i],
    ensures
        scan_at(a, n) == scan_at(b, n),
    decreases n,
{
    if n > 0 {
        scan_depends_on_prefix(a, b, n - 1);
    }
}

/// Adding a character at the end of a clean text leaves it clean unless the
/// character is a raw control character directly inside a string literal.
proof fn clean_push(text: Seq<char>, c: char)
    requires
        clean(text),
        !(scan_at(text, text.len() as int) == Scan::Inside && is_raw_control(c)),
    ensures
        clean(text.push(c)),
        scan_at(text.push(c), text.len() as int + 1) == advance(scan_at(text, text.len() as int), c),
{
    let longer = text.push(c);
    assert forall|i: int| 0 <= i < longer.len() implies !(#[trigger] scan_at(longer, i)
        == Scan::Inside && is_raw_control(longer[i])) by {
        scan_depends_on_prefix(longer, text, i);
        if i < text.len() {
            assert(longer[i] == text[i]);
        }
    }
    scan_depends_on_prefix(longer, text, text.len() as int);
    assert(longer[text.len() as int] == c);
}

/// Adding the escape sequence of a control character at a place directly
/// inside a string literal leaves a clean text clean, and the place behind
/// it directly inside the literal.
proof fn clean_escape(text: Seq<char>, c: char)
    requires
        clean(text),
        scan_at(text, text.len() as int) == Scan::Inside,
        is_raw_control(c),
    ensures
        clean(text + escape_of(c)),
        scan_at(text + escape_of(c), (text + escape_of(c)).len() as int) == Scan::Inside,
{
    let t1 = text.push('\\');
    clean_push(text, '\\');
    if c == '\n' || c == '\r' || c == '\t' {
        let letter = if c == '\n' {
            'n'
        } else if c == '\r' {
            'r'
        } else {
            't'
        };
        clean_push(t1, letter);
        assert(text + escape_of(c) =~= t1.push(letter));
    } else {
        let high = hex_digit((c as u32) / 16);
        let low = hex_digit((c as u32) % 16);
        let t2 = t1.push('u');
        clean_push(t1, 'u');
        let t3 = t2.push('0');
        clean_push(t2, '0');
        let t4 = t3.push('0');
        clean_push(t3, '0');
        let t5 = t4.push(high);
        clean_push(t4, high);
        let t6 = t5.push(low);
        clean_push(t5, low);
        assert(text + escape_of(c) =~= t6);
    }
}

/// The repair of a prefix is clean, and a scan of it ends where the scan of
/// the prefix ends.
proof fn sanitized_prefix_is_clean(text: Seq<char>, n: int)
    requires
        0 <= n <= text.len(),
    ensures
        clean(sanitized_prefix(text, n)),
        scan_at(sanitized_prefix(text, n), sanitized_prefix(text, n).len() as int) == scan_at(
            text,
            n,
        ),
    decreases n,
{
    if n > 0 {
        sanitized_prefix_is_clean(text, n - 1);
        let before = sanitized_prefix(text, n - 1);
        let c = text[n - 1];
        if scan_at(text, n - 1) == Scan::Inside && is_raw_control(c) {
            clean_escape(before, c);
        } else {
            clean_push(before, c);
            assert(before + seq![c] =~= before.push(c));
        }
    }
}

/// The repair of a clean prefix is that prefix.
proof fn sanitized_prefix_of_clean(text: Seq<char>, n: int)
    requires
        0 <= n <= text.len(),
        clean(text),
    ensures
        sanitized_prefix(text, n) == text.take(n),
    decreases n,
{
    if n > 0 {
        sanitized_prefix_of_clean(text, n - 1);
        assert(!(scan_at(text, n - 1) == Scan::Inside && is_raw_control(text[n - 1])));
        assert(text.take(n - 1) + seq![text[n - 1]] =~= text.take(n));
    } else {
        assert(text.take(0) =~= Seq::<char>::empty());
    }
}

/// After the repair no raw control character stands directly inside a string
/// literal.
pub proof fn sanitized_is_clean(text: Seq<char>)
    ensures
        clean(sanitized(text)),
{
    sanitized_prefix_is_clean(text, text.len() as int);
}

/// A text in which no raw control character stands directly inside a string
/// literal is left as it is.
pub proof fn clean_text_is_kept(text: Seq<char>)
    requires
        clean(text),
    ensures
        sanitized(text) == text,
{
    sanitized_prefix_of_clean(text, text.len() as int);
    assert(text.take(text.len() as int) =~= text);
}

/// Repairing a text twice gives what repairing it once gives.
pub proof fn sanitized_is_idempotent(text: Seq<char>)
    ensures
        sanitized(sanitized(text)) == sanitized(text),
{
    sanitized_is_clean(text);
    clean_text_is_kept(sanitized(text));
}

fn hex_digit_char(n: u32) -> (c: char)
    requires
        n < 16,
    ensures
        c == hex_digit(n),
{
    if n == 0 {
        '0'
    } else if n == 1 {
        '1'
    } else if n == 2 {
        '2'
    } else if n == 3 {
        '3'
    } else if n == 4 {
        '4'
    } else if n == 5 {
        '5'
    } else if n == 6 {
        '6'
    } else if n == 7 {
        '7'
    } else if n == 8 {
        '8'
    } else if n == 9 {
        '9'
    } else if n == 10 {
        'a'
    } else if n == 11 {
        'b'
    } else if n == 12 {
        'c'
    } else if n == 13 {
        'd'
    } else if n == 14 {
        'e'
    } else {
        'f'
    }
}

fn push_escape(out: &mut String, c: char)
    requires
        is_raw_control(c),
    ensures
        final(out)@ == old(out)@ + escape_of(c),
{
    out.push('\\');
    if c == '\n' {
        out.push('n');
    } else if c == '\r' {
        out.push('r');
    } else if c == '\t' {
        out.push('t');
    } else {
        let code: u32 = c as u32;
        out.push('u');
        out.push('0');
        out.push('0');
        out.push(hex_digit_char(code / 16));
        out.push(hex_digit_char(code % 16));
    }
    assert(out@ =~= old(out)@ + escape_of(c));
}

/// Repairs JSON text in which string literals hold raw control characters.
///
/// The text is scanned once from the left. A quotation mark opens or closes a
/// string literal unless it stands behind a backslash inside one. Inside a
/// literal a raw line feed, carriage return or tab is replaced by its short
/// escape, any other character below U+0020 by its `\u00XX` escape.
/// Everything else is copied as it is.
pub fn sanitize_json(text: &str) -> (out: String)
    ensures
        out@ == sanitized(text@),
{
    let mut out = String::new();
    let mut scan = Scan::Outside;
    for c in it: text.chars()
        invariant
            it.seq() == text@,
            scan == scan_at(text@, it.index()),
            out@ == sanitized_prefix(text@, it.index()),
    {
        let inside = match scan {
            Scan::Inside => true,
            _ => false,
        };
        if inside && (c as u32) < 0x20 {
            push_escape(&mut out, c);
        } else {
            out.push(c);
        }
        scan = match scan {
            Scan::Outside => if c == '"' {
                Scan::Inside
            } else {
                Scan::Outside
            },
            Scan::Inside => if c == '"' {
                Scan::Outside
            } else if c == '\\' {
                Scan::Escaped
            } else {
                Scan::Inside
            },
            Scan::Escaped => Scan::Inside,
        };
    }
    out
}

} // verus!
