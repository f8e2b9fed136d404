use vstd::prelude::*;
use vstd::utf8::encode_utf8;

verus! {

/// The deepest nesting of arrays and objects that a request body may have.
pub const MAX_NESTING: usize = 128;

/// Where a left-to-right scan of JSON text stands: the brackets open outside
/// strings, the deepest that count has been, and whether the scan is inside
/// a string, just after a backslash there.
pub const QUOTE: u8 = 34;

pub const BACKSLASH: u8 = 92;

pub const OPEN_ARRAY: u8 = 91;

pub const CLOSE_ARRAY: u8 = 93;

pub const OPEN_OBJECT: u8 = 123;

pub const CLOSE_OBJECT: u8 = 125;

pub struct Scan {
    pub depth: nat,
    pub deepest: nat,
    pub in_string: bool,
    pub escaped: bool,
}

pub open spec fn scan_start() -> Scan {
    Scan { depth: 0, deepest: 0, in_string: false, escaped: false }
}

/// One byte of the scan. Brackets, quotes and backslashes are ASCII, and in
/// UTF-8 an ASCII byte never occurs inside a longer character, so bytes
/// stand for characters here.
pub open spec fn scan_step(s: Scan, b: u8) -> Scan {
    if s.in_string {
        if s.escaped {
            Scan { escaped: false, ..s }
        } else if b == BACKSLASH {
            Scan { escaped: true, ..s }
        } else if b == QUOTE {
            Scan { in_string: false, ..s }
        } else {
            s
        }
    } else if b == QUOTE {
        Scan { in_string: true, ..s }
    } else if b == OPEN_ARRAY || b == OPEN_OBJECT {
        Scan {
            depth: s.depth + 1,
            deepest: if s.depth + 1 > s.deepest { s.depth + 1 } else { s.deepest },
            ..s
        }
    } else if b == CLOSE_ARRAY || b == CLOSE_OBJECT {
        Scan { depth: if s.depth > 0 { (s.depth - 1) as nat } else { 0 }, ..s }
    } else {
        s
    }
}

pub open spec fn scan(bytes: Seq<u8>) -> Scan
    decreases bytes.len(),
{
    if bytes.len() == 0 {
        scan_start()
    } else {
        scan_step(scan(bytes.drop_last()), bytes.last())
    }
}

/// How deeply arrays and objects nest in `text`. A JSON parser that stops at
/// its first error never nests deeper than this.
pub open spec fn nesting_depth(text: Seq<char>) -> nat {
    scan(encode_utf8(text)).deepest
}

/// Whether the nesting of `text` stays within [`MAX_NESTING`].
pub fn within_nesting(text: &str) -> (r: bool)
    ensures
        r == (nesting_depth(text@) <= MAX_NESTING),
{
    let bytes = text.as_bytes();
    let mut depth: usize = 0;
    let mut deepest: usize = 0;
    let mut in_string = false;
    let mut escaped = false;
    let mut i: usize = 0;
    while i < bytes.len()
        invariant
            i <= bytes@.len(),
            bytes@ == encode_utf8(text@),
            depth <= i,
            deepest <= i,
            scan(bytes@.take(i as int)) == (Scan {
                depth: depth as nat,
                deepest: deepest as nat,
                in_string,
                escaped,
            }),
        decreases bytes@.len() - i,
    {
        let b = bytes[i];
        assert(bytes@.take(i as int + 1).drop_last() =~= bytes@.take(i as int));
        if in_string {
            if escaped {
                escaped = false;
            } else if b == BACKSLASH {
                escaped = true;
            } else if b == QUOTE {
                in_string = false;
            }
        } else if b == QUOTE {
            in_string = true;
        } else if b == OPEN_ARRAY || b == OPEN_OBJECT {
            depth = depth + 1;
            if depth > deepest {
                deepest = depth;
            }
        } else if b == CLOSE_ARRAY || b == CLOSE_OBJECT {
            if depth > 0 {
                depth = depth - 1;
            }
        }
        i = i + 1;
    }
    assert(bytes@.take(i as int) =~= bytes@);
    deepest <= MAX_NESTING
}

} // verus!
