//! The line-oriented ASCII protocol spoken with a video source.
//!
//! One command per line, exactly one response per command.  The library
//! builds command lines and judges response lines; reading and writing the
//! stream happens outside and hands lines in as plain byte vectors.
//!
//! Commands: `get_resolution\n` (response `{w}x{h}\n`), `get_image\n`
//! (response: one raw frame), `zoom_to {w}x{h}+{x}+{y}\n` (response `OK\n`
//! on success, anything else on refusal).

use vstd::prelude::*;

use crate::geometry::Crop;
use crate::geometry::HEIGHT;
use crate::geometry::WIDTH;

verus! {

/// The decimal digits of `n` in ASCII, most significant first, no sign, no
/// leading zeros (`0` is written as one digit).
pub open spec fn dec_rep(n: nat) -> Seq<u8>
    decreases n,
{
    if n < 10 {
        seq![(48 + n) as u8]
    } else {
        dec_rep(n / 10) + seq![(48 + n % 10) as u8]
    }
}

/// Appends the decimal digits of `n` to `v`.
fn push_dec(v: &mut Vec<u8>, n: u16)
    ensures
        final(v)@ == old(v)@ + dec_rep(n as nat),
    decreases n,
{
    if n < 10 {
        v.push(48 + n as u8);
    } else {
        push_dec(v, n / 10);
        v.push(48 + (n % 10) as u8);
    }
}

/// The command line requesting the source's resolution.
pub open spec fn spec_resolution_cmd() -> Seq<u8> {
    seq![103u8, 101u8, 116u8, 95u8, 114u8, 101u8, 115u8, 111u8, 108u8, 117u8, 116u8, 105u8, 111u8, 110u8, 10u8]
}

/// The command line requesting the source's resolution: `get_resolution\n`.
pub fn get_resolution_cmd() -> (v: Vec<u8>)
    ensures
        v@ == spec_resolution_cmd(),
{
    let mut v: Vec<u8> = Vec::new();
    v.push(('g' as u8));
    v.push(('e' as u8));
    v.push(('t' as u8));
    v.push(('_' as u8));
    v.push(('r' as u8));
    v.push(('e' as u8));
    v.push(('s' as u8));
    v.push(('o' as u8));
    v.push(('l' as u8));
    v.push(('u' as u8));
    v.push(('t' as u8));
    v.push(('i' as u8));
    v.push(('o' as u8));
    v.push(('n' as u8));
    v.push(10u8);
    proof {
        assert(v@ =~= spec_resolution_cmd());
    }
    v
}

/// The command line requesting one raw frame.
pub open spec fn spec_image_cmd() -> Seq<u8> {
    seq![103u8, 101u8, 116u8, 95u8, 105u8, 109u8, 97u8, 103u8, 101u8, 10u8]
}

/// The command line requesting one raw frame: `get_image\n`.
pub fn get_image_cmd() -> (v: Vec<u8>)
    ensures
        v@ == spec_image_cmd(),
{
    let mut v: Vec<u8> = Vec::new();
    v.push(('g' as u8));
    v.push(('e' as u8));
    v.push(('t' as u8));
    v.push(('_' as u8));
    v.push(('i' as u8));
    v.push(('m' as u8));
    v.push(('a' as u8));
    v.push(('g' as u8));
    v.push(('e' as u8));
    v.push(10u8);
    proof {
        assert(v@ =~= spec_image_cmd());
    }
    v
}

/// The command line proposing a crop:
/// `zoom_to ` then `{w}x{h}+{x}+{y}` in decimal, then a newline.
pub open spec fn spec_zoom_cmd(c: Crop) -> Seq<u8> {
    seq![122u8, 111u8, 111u8, 109u8, 95u8, 116u8, 111u8, 32u8] + dec_rep(c.w as nat) + seq![120u8]
        + dec_rep(c.h as nat) + seq![43u8] + dec_rep(c.x as nat) + seq![43u8] + dec_rep(
        c.y as nat,
    ) + seq![10u8]
}

/// Builds the `zoom_to {w}x{h}+{x}+{y}\n` command line for a crop.
pub fn encode_zoom_to(c: Crop) -> (v: Vec<u8>)
    ensures
        v@ == spec_zoom_cmd(c),
{
    let mut v: Vec<u8> = Vec::new();
    v.push(('z' as u8));
    v.push(('o' as u8));
    v.push(('o' as u8));
    v.push(('m' as u8));
    v.push(('_' as u8));
    v.push(('t' as u8));
    v.push(('o' as u8));
    v.push((' ' as u8));
    push_dec(&mut v, c.w);
    v.push(('x' as u8));
    push_dec(&mut v, c.h);
    v.push(('+' as u8));
    push_dec(&mut v, c.x);
    v.push(('+' as u8));
    push_dec(&mut v, c.y);
    v.push(10u8);
    proof {
        assert(v@ =~= spec_zoom_cmd(c));
    }
    v
}

/// The response line acknowledging a crop change.
pub open spec fn spec_ok_line() -> Seq<u8> {
    seq![79u8, 75u8, 10u8]
}

/// Whether the response line is exactly `OK\n` — the only acknowledgement;
/// every other response refuses the proposed crop.
pub fn is_ok_response(line: &Vec<u8>) -> (b: bool)
    ensures
        b == (line@ == spec_ok_line()),
{
    let r = line.len() == 3 && *line.get(0).unwrap() == ('O' as u8) && *line.get(1).unwrap() == ('K' as u8)
        && *line.get(2).unwrap() == 10u8;
    proof {
        if r {
            assert(line@ =~= spec_ok_line());
        }
    }
    r
}

/// The resolution line the source must report: `{WIDTH}x{HEIGHT}\n`.
pub open spec fn spec_resolution_line() -> Seq<u8> {
    dec_rep(WIDTH as nat) + seq![120u8] + dec_rep(HEIGHT as nat) + seq![10u8]
}

/// The resolution line the source must report.
pub fn expected_resolution_line() -> (v: Vec<u8>)
    ensures
        v@ == spec_resolution_line(),
{
    let mut v: Vec<u8> = Vec::new();
    push_dec(&mut v, WIDTH);
    v.push(('x' as u8));
    push_dec(&mut v, HEIGHT);
    v.push(10u8);
    proof {
        assert(v@ =~= spec_resolution_line());
    }
    v
}

/// Whether the source's resolution line matches the expected fixed
/// resolution; a mismatch is fatal to startup.
pub fn resolution_matches(line: &Vec<u8>) -> (b: bool)
    ensures
        b == (line@ == spec_resolution_line()),
{
    let expected = expected_resolution_line();
    bytes_eq(line, &expected)
}

/// Byte-for-byte equality of two byte vectors.
pub fn bytes_eq(a: &Vec<u8>, b: &Vec<u8>) -> (r: bool)
    ensures
        r == (a@ == b@),
{
    if a.len() != b.len() {
        assert(a@ != b@);
        return false;
    }
    let n = a.len();
    let mut i: usize = 0;
    while i < n
        invariant
            0 <= i <= n,
            n == a.len() == b.len(),
            forall|j: int| 0 <= j < i ==> a@[j] == b@[j],
        decreases n - i,
    {
        if *a.get(i).unwrap() != *b.get(i).unwrap() {
            assert(a@ != b@);
            return false;
        }
        i += 1;
    }
    proof {
        assert(a@ =~= b@);
    }
    true
}

} // verus!
