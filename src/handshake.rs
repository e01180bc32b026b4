use vstd::prelude::*;
use vstd::string::StringExecFns;
use crate::handle_kind::{MemoryHandleKind, SemaphoreHandleKind};

verus! {

/// The lowercase hexadecimal digit of `d`, for `d < 16`.
pub open spec fn hex_digit(d: nat) -> char {
    if d < 10 {
        ((d + 48) as u8) as char
    } else {
        ((d - 10 + 97) as u8) as char
    }
}

/// The decimal digit of `d`, for `d < 10`.
pub open spec fn decimal_digit(d: nat) -> char {
    ((d + 48) as u8) as char
}

/// The `n` lowest hexadecimal digits of `v`, most significant first, padded
/// with zeros.
pub open spec fn hex_digits(v: nat, n: nat) -> Seq<char>
    decreases n,
{
    if n == 0 {
        Seq::empty()
    } else {
        hex_digits(v / 16, (n - 1) as nat).push(hex_digit(v % 16))
    }
}

/// The decimal digits of `v`, most significant first, without leading zeros.
pub open spec fn decimal_digits(v: nat) -> Seq<char>
    decreases v,
{
    if v < 10 {
        seq![decimal_digit(v)]
    } else {
        decimal_digits(v / 10).push(decimal_digit(v % 10))
    }
}

/// The handle field of the handshake line: sixteen lowercase hexadecimal digits.
pub open spec fn handle_text(v: nat) -> Seq<char> {
    hex_digits(v, 16)
}

pub proof fn lemma_hex_digits_len(v: nat, n: nat)
    ensures
        hex_digits(v, n).len() == n,
    decreases n,
{
    if n > 0 {
        lemma_hex_digits_len(v / 16, (n - 1) as nat);
    }
}

/// The one-character text of digit `d`.
fn digit_text(d: usize) -> (r: &'static str)
    requires
        d < 16,
    ensures
        r@ == seq![hex_digit(d as nat)],
{
    proof {
        reveal_strlit("0");
        reveal_strlit("1");
        reveal_strlit("2");
        reveal_strlit("3");
        reveal_strlit("4");
        reveal_strlit("5");
        reveal_strlit("6");
        reveal_strlit("7");
        reveal_strlit("8");
        reveal_strlit("9");
        reveal_strlit("a");
        reveal_strlit("b");
        reveal_strlit("c");
        reveal_strlit("d");
        reveal_strlit("e");
        reveal_strlit("f");
    }
    let r = match d {
        0 => "0",
        1 => "1",
        2 => "2",
        3 => "3",
        4 => "4",
        5 => "5",
        6 => "6",
        7 => "7",
        8 => "8",
        9 => "9",
        10 => "a",
        11 => "b",
        12 => "c",
        13 => "d",
        14 => "e",
        _ => "f",
    };
    assert(r@ =~= seq![hex_digit(d as nat)]);
    r
}

fn append_hex_digits(out: &mut String, v: usize, n: usize)
    ensures
        final(out)@ == old(out)@ + hex_digits(v as nat, n as nat),
    decreases n,
{
    if n > 0 {
        append_hex_digits(out, v / 16, n - 1);
        out.append(digit_text(v % 16));
        proof {
            assert(hex_digits(v as nat, n as nat) == hex_digits((v / 16) as nat, (n - 1) as nat).push(
                hex_digit((v % 16) as nat),
            ));
        }
        assert(final(out)@ =~= old(out)@ + hex_digits(v as nat, n as nat));
    } else {
        assert(out@ =~= old(out)@ + hex_digits(v as nat, n as nat));
    }
}

fn append_decimal_digits(out: &mut String, v: u64)
    ensures
        final(out)@ == old(out)@ + decimal_digits(v as nat),
    decreases v,
{
    if v >= 10 {
        append_decimal_digits(out, v / 10);
    }
    out.append(digit_text((v % 10) as usize));
    assert(final(out)@ =~= old(out)@ + decimal_digits(v as nat));
}

/// The handle value as the handshake line writes it: sixteen lowercase
/// hexadecimal digits, zero-padded.
pub fn format_handle(value: usize) -> (r: String)
    ensures
        r@ == handle_text(value as nat),
        r@.len() == 16,
{
    let mut out = String::new();
    append_hex_digits(&mut out, value, 16);
    proof {
        lemma_hex_digits_len(value as nat, 16);
        assert(out@ =~= handle_text(value as nat));
    }
    out
}

/// The decimal text of `value`.
pub fn format_decimal(value: u64) -> (r: String)
    ensures
        r@ == decimal_digits(value as nat),
{
    let mut out = String::new();
    append_decimal_digits(&mut out, value);
    assert(out@ =~= decimal_digits(value as nat));
    out
}

/// The handshake line that announces a semaphore handle.
pub open spec fn semaphore_line_text(identifier: Seq<char>, kind: SemaphoreHandleKind, handle: nat) -> Seq<char> {
    "Connection data: {\"semaphore\", \""@ + identifier + "\", \""@ + kind.spec_name() + "\", \""@
        + handle_text(handle) + "\"}"@
}

/// The handshake line that announces an image's memory handle, with the
/// size of its allocation in bytes and the name of its pixel format.
pub open spec fn image_line_text(
    identifier: Seq<char>,
    kind: MemoryHandleKind,
    handle: nat,
    size: nat,
    format: Seq<char>,
) -> Seq<char> {
    "Connection data: {\"image\", \""@ + identifier + "\", \""@ + kind.spec_name() + "\", \""@
        + handle_text(handle) + "\", size: \""@ + decimal_digits(size) + "\", format: \""@ + format
        + "\"}"@
}

pub fn semaphore_line(identifier: &str, kind: SemaphoreHandleKind, handle: usize) -> (r: String)
    ensures
        r@ == semaphore_line_text(identifier@, kind, handle as nat),
{
    let mut out = String::from_str("Connection data: {\"semaphore\", \"");
    out.append(identifier);
    out.append("\", \"");
    out.append(kind.name());
    out.append("\", \"");
    let hex = format_handle(handle);
    out.append(hex.as_str());
    out.append("\"}");
    out
}

pub fn image_line(identifier: &str, kind: MemoryHandleKind, handle: usize, size: u64, format: &str) -> (r: String)
    ensures
        r@ == image_line_text(identifier@, kind, handle as nat, size as nat, format@),
{
    let mut out = String::from_str("Connection data: {\"image\", \"");
    out.append(identifier);
    out.append("\", \"");
    out.append(kind.name());
    out.append("\", \"");
    let hex = format_handle(handle);
    out.append(hex.as_str());
    out.append("\", size: \"");
    let bytes = format_decimal(size);
    out.append(bytes.as_str());
    out.append("\", format: \"");
    out.append(format);
    out.append("\"}");
    out
}

} // verus!
