//! Resolution of requested overlay sizes against the active output.
use vstd::prelude::*;
use crate::error::AppError;

verus! {

/// A rational `num / den` of a screen extent, expected in (0, 1] but not
/// held to it.
#[derive(Clone, Copy, Debug, PartialEq, Eq, Structural)]
pub struct Fraction {
    pub num: i64,
    pub den: u32,
}

impl Fraction {
    pub open spec fn wf(self) -> bool {
        self.den > 0 && -0xffff_ffff <= self.num <= 0xffff_ffff
    }
}

/// A requested extent: absolute pixels, or a fraction of the screen.
#[derive(Clone, Copy, Debug, PartialEq, Eq, Structural)]
pub enum Size {
    Px(u32),
    Fr(Fraction),
}

pub open spec fn size_wf(s: Option<Size>) -> bool {
    match s {
        Some(Size::Fr(f)) => f.wf(),
        _ => true,
    }
}

/// `n / d` rounded to the nearest integer, halves away from zero (`d > 0`).
pub open spec fn round_ratio(n: int, d: int) -> int {
    if n >= 0 {
        (2 * n + d) / (2 * d)
    } else {
        -((2 * (-n) + d) / (2 * d))
    }
}

/// `round(extent * f)`.
pub open spec fn scaled(extent: int, f: Fraction) -> int {
    round_ratio(extent * f.num, f.den as int)
}

pub open spec fn resolve_spec(requested: Option<Size>, extent: int, default_fraction: Fraction) -> int {
    match requested {
        Some(Size::Px(p)) => p as int,
        Some(Size::Fr(f)) => scaled(extent, f),
        None => scaled(extent, default_fraction),
    }
}

proof fn lemma_round_bound(m: int, d: int)
    requires
        m >= 0,
        d >= 1,
    ensures
        0 <= (2 * m + d) / (2 * d) <= m,
{
    if m == 0 {
        assert(d / (2 * d) == 0) by (nonlinear_arith)
            requires d >= 1;
    } else {
        assert((2 * m + d) / (2 * d) <= m) by (nonlinear_arith)
            requires m >= 1, d >= 1;
        assert(0 <= (2 * m + d) / (2 * d)) by (nonlinear_arith)
            requires m >= 1, d >= 1;
    }
}

/// `round(extent * f)` computed exactly.
pub fn scale_extent(extent: i32, f: Fraction) -> (r: i64)
    requires
        f.wf(),
    ensures
        r == scaled(extent as int, f),
{
    let neg = (extent < 0) != (f.num < 0);
    let me: u128 = if extent < 0 { (-(extent as i128)) as u128 } else { extent as u128 };
    let mf: u128 = if f.num < 0 { (-(f.num as i128)) as u128 } else { f.num as u128 };
    assert(me <= 0x8000_0000 && mf <= 0xffff_ffff);
    assert(me * mf <= 0x8000_0000 * 0xffff_ffff) by (nonlinear_arith)
        requires me <= 0x8000_0000, mf <= 0xffff_ffff;
    let n: u128 = me * mf;
    let d: u128 = f.den as u128;
    let q: u128 = (2 * n + d) / (2 * d);
    proof {
        lemma_round_bound(n as int, d as int);
        let e = extent as int;
        let k = f.num as int;
        assert(e * k == if neg { -(n as int) } else { n as int }) by (nonlinear_arith)
            requires
                me == (if e < 0 { -e } else { e }),
                mf == (if k < 0 { -k } else { k }),
                n == me * mf,
                neg == ((e < 0) != (k < 0));
        if neg && n == 0 {
            assert((2 * n + d) / (2 * d) == 0) by (nonlinear_arith)
                requires n == 0, d >= 1;
        }
    }
    if neg {
        -(q as i64)
    } else {
        q as i64
    }
}

/// Concrete extent for a requested size: pixels verbatim, otherwise the
/// fraction (the requested one, or the default) of `screen_extent`, rounded
/// half away from zero.
pub fn resolve(requested: &Option<Size>, screen_extent: i32, default_fraction: Fraction) -> (r: i64)
    requires
        default_fraction.wf(),
        size_wf(*requested),
    ensures
        r == resolve_spec(*requested, screen_extent as int, default_fraction),
{
    match requested {
        Some(Size::Px(p)) => *p as i64,
        Some(Size::Fr(f)) => scale_extent(screen_extent, *f),
        None => scale_extent(screen_extent, default_fraction),
    }
}


/// A display as reported by the window manager.
#[derive(Clone, Copy, Debug, PartialEq, Eq, Structural)]
pub struct OutputInfo {
    pub active: bool,
    pub width: i32,
    pub height: i32,
}

/// Resolved overlay size in pixels.
#[derive(Clone, Copy, Debug, PartialEq, Eq, Structural)]
pub struct Dimensions {
    pub width: i64,
    pub height: i64,
}

/// `i` is the first active output.
pub open spec fn is_first_active(outputs: Seq<OutputInfo>, i: int) -> bool {
    0 <= i < outputs.len() && outputs[i].active && forall|j: int| 0 <= j < i ==> !(#[trigger] outputs[j].active)
}

pub open spec fn has_active(outputs: Seq<OutputInfo>) -> bool {
    exists|i: int| 0 <= i < outputs.len() && (#[trigger] outputs[i]).active
}

/// Index of the first output marked active, if any.
pub fn active_output(outputs: &Vec<OutputInfo>) -> (r: Option<usize>)
    ensures
        r is None <==> !has_active(outputs@),
        r matches Some(i) ==> is_first_active(outputs@, i as int),
{
    let mut i: usize = 0;
    while i < outputs.len()
        invariant
            i <= outputs.len(),
            forall|j: int| 0 <= j < i ==> !(#[trigger] outputs@[j].active),
        decreases outputs.len() - i,
    {
        if outputs[i].active {
            return Some(i);
        }
        i += 1;
    }
    None
}

/// Dimensions of the overlay on the first active output. Fails with
/// `NoActiveOutput` when no output is active.
pub fn compute_dimensions(
    outputs: &Vec<OutputInfo>,
    width: &Option<Size>,
    height: &Option<Size>,
    default_width: Fraction,
    default_height: Fraction,
) -> (r: Result<Dimensions, AppError>)
    requires
        default_width.wf(),
        default_height.wf(),
        size_wf(*width),
        size_wf(*height),
    ensures
        r is Err <==> !has_active(outputs@),
        r matches Err(e) ==> e is NoActiveOutput,
        r matches Ok(d) ==> exists|i: int|
            is_first_active(outputs@, i) && d.width == resolve_spec(*width, outputs@[i].width as int, default_width)
                && d.height == resolve_spec(*height, outputs@[i].height as int, default_height),
{
    match active_output(outputs) {
        None => Err(AppError::NoActiveOutput),
        Some(i) => {
            let out = outputs[i];
            let d = Dimensions {
                width: resolve(width, out.width, default_width),
                height: resolve(height, out.height, default_height),
            };
            assert(is_first_active(outputs@, i as int));
            Ok(d)
        },
    }
}


pub open spec fn is_digit(c: char) -> bool {
    '0' <= c <= '9'
}

/// The digits of `s` read as one decimal number, dots skipped.
pub open spec fn digits_value(s: Seq<char>) -> nat
    decreases s.len(),
{
    if s.len() == 0 {
        0
    } else if s.last() == '.' {
        digits_value(s.drop_last())
    } else {
        digits_value(s.drop_last()) * 10 + (s.last() as nat - '0' as nat) as nat
    }
}

pub open spec fn dot_count(s: Seq<char>) -> nat
    decreases s.len(),
{
    if s.len() == 0 {
        0
    } else {
        dot_count(s.drop_last()) + if s.last() == '.' { 1nat } else { 0nat }
    }
}

/// Number of characters after the last dot (all of them when there is none).
pub open spec fn tail_len(s: Seq<char>) -> nat
    decreases s.len(),
{
    if s.len() == 0 {
        0
    } else if s.last() == '.' {
        0
    } else {
        tail_len(s.drop_last()) + 1
    }
}

pub open spec fn pow10(n: nat) -> nat
    decreases n,
{
    if n == 0 {
        1
    } else {
        10 * pow10((n - 1) as nat)
    }
}

/// Digits and at most one dot, with at least one digit.
pub open spec fn is_decimal(s: Seq<char>) -> bool {
    (forall|i: int| 0 <= i < s.len() ==> is_digit(#[trigger] s[i]) || s[i] == '.')
        && dot_count(s) <= 1 && dot_count(s) < s.len()
}

/// A size from its unsigned body: an integer without sign is pixels; a
/// negative integer, or a decimal with a dot, is a fraction `digits / 10^k`,
/// `k` the digits after the dot (at most nine). A value beyond `u32` is refused.
pub open spec fn body_size(body: Seq<char>, negative: bool) -> Option<Size> {
    let v = digits_value(body);
    if !is_decimal(body) || v > u32::MAX {
        None
    } else if dot_count(body) == 0 && !negative {
        Some(Size::Px(v as u32))
    } else if dot_count(body) == 1 && tail_len(body) > 9 {
        None
    } else {
        Some(
            Size::Fr(
                Fraction {
                    num: (if negative { -v } else { v as int }) as i64,
                    den: (if dot_count(body) == 0 { 1 } else { pow10(tail_len(body)) }) as u32,
                },
            ),
        )
    }
}

/// A size as written on the command line: an optional `+` or `-`, then the
/// body as `body_size` reads it.
pub open spec fn parse_size_spec(s: Seq<char>) -> Option<Size> {
    if s.len() > 0 && s[0] == '-' {
        body_size(s.subrange(1, s.len() as int), true)
    } else if s.len() > 0 && s[0] == '+' {
        body_size(s.subrange(1, s.len() as int), false)
    } else {
        body_size(s, false)
    }
}

proof fn lemma_pow10_monotone(a: nat, b: nat)
    requires
        a <= b,
    ensures
        1 <= pow10(a) <= pow10(b),
    decreases b,
{
    if b > a {
        lemma_pow10_monotone(a, (b - 1) as nat);
    } else if a > 0 {
        lemma_pow10_monotone((a - 1) as nat, (a - 1) as nat);
    }
}

proof fn lemma_pow10_bound(n: nat)
    requires
        n <= 9,
    ensures
        1 <= pow10(n) <= 1_000_000_000,
        n <= 8 ==> pow10(n) <= 100_000_000,
{
    reveal_with_fuel(pow10, 10);
    assert(pow10(8) == 100_000_000);
    assert(pow10(9) == 1_000_000_000);
    lemma_pow10_monotone(n, 9);
    if n <= 8 {
        lemma_pow10_monotone(n, 8);
    }
}

proof fn lemma_digits_value_monotone(s: Seq<char>)
    requires
        s.len() > 0,
    ensures
        digits_value(s) >= digits_value(s.drop_last()),
{
}

/// Parses a size as `parse_size_spec` describes.
pub fn parse_size(text: &str) -> (r: Option<Size>)
    ensures
        r == parse_size_spec(text@),
        r matches Some(sz) ==> size_wf(Some(sz)),
{
    let n = text.unicode_len();
    if n > 0 {
        let c = text.get_char(0);
        if c == '-' || c == '+' {
            let body = text.substring_char(1, n);
            return parse_body(body, c == '-');
        }
    }
    parse_body(text, false)
}

fn parse_body(text: &str, negative: bool) -> (r: Option<Size>)
    ensures
        r == body_size(text@, negative),
        r matches Some(sz) ==> size_wf(Some(sz)),
{
    let n = text.unicode_len();
    let mut i: usize = 0;
    let mut acc: u64 = 0;
    let mut over = false;
    let mut dots: usize = 0;
    let mut tail: usize = 0;
    let mut bad = false;
    while i < n
        invariant
            n == text@.len(),
            i <= n,
            dots <= i,
            tail <= i,
            acc <= u32::MAX,
            !over && !bad ==> acc == digits_value(text@.take(i as int)),
            over && !bad ==> digits_value(text@.take(i as int)) > u32::MAX,
            dots == dot_count(text@.take(i as int)) || (bad && dots >= 2),
            tail == tail_len(text@.take(i as int)),
            !bad <==> (forall|j: int| 0 <= j < i ==> is_digit(#[trigger] text@[j]) || text@[j] == '.')
                && dot_count(text@.take(i as int)) <= 1,
        decreases n - i,
    {
        let c = text.get_char(i);
        let ghost pre = text@.take(i as int);
        let ghost cur = text@.take(i + 1);
        assert(cur.drop_last() =~= pre);
        assert(cur.last() == c);
        proof {
            lemma_digits_value_monotone(cur);
        }
        if c == '.' {
            if dots < 2 {
                dots += 1;
            }
            if dots >= 2 {
                bad = true;
            }
            tail = 0;
        } else {
            if c < '0' || c > '9' {
                bad = true;
            } else if !over {
                let next: u64 = acc * 10 + (c as u64 - '0' as u64);
                if next > 0xffff_ffff {
                    over = true;
                } else {
                    acc = next;
                }
            }
            tail += 1;
        }
        i += 1;
    }
    assert(text@.take(n as int) =~= text@);
    if bad || dots >= n || over {
        return None;
    }
    if dots == 0 {
        if negative {
            return Some(Size::Fr(Fraction { num: -(acc as i64), den: 1 }));
        }
        return Some(Size::Px(acc as u32));
    }
    if tail > 9 {
        return None;
    }
    let mut den: u32 = 1;
    let mut k: usize = 0;
    while k < tail
        invariant
            k <= tail <= 9,
            den == pow10(k as nat),
        decreases tail - k,
    {
        proof {
            lemma_pow10_bound(k as nat);
        }
        den = den * 10;
        k += 1;
    }
    proof {
        lemma_pow10_bound(tail as nat);
    }
    let num: i64 = if negative { -(acc as i64) } else { acc as i64 };
    Some(Size::Fr(Fraction { num, den }))
}

} // verus!
