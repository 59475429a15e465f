//! IPv4 and IPv6 addresses as plain values, and their canonical text.

use vstd::prelude::*;

verus! {

/// An IPv4 address `a.b.c.d`.
#[derive(Clone, Copy, Debug, PartialEq, Eq, Structural)]
pub struct Ipv4Addr {
    pub a: u8,
    pub b: u8,
    pub c: u8,
    pub d: u8,
}

/// An IPv6 address as eight 16-bit segments `s0:s1:...:s7`, most significant first.
#[derive(Clone, Copy, Debug, PartialEq, Eq, Structural)]
pub struct Ipv6Addr {
    pub s0: u16,
    pub s1: u16,
    pub s2: u16,
    pub s3: u16,
    pub s4: u16,
    pub s5: u16,
    pub s6: u16,
    pub s7: u16,
}

impl Ipv4Addr {
    pub open spec fn octets(self) -> Seq<u8> {
        seq![self.a, self.b, self.c, self.d]
    }

    pub fn new(a: u8, b: u8, c: u8, d: u8) -> (r: Ipv4Addr)
        ensures
            r.octets() == seq![a, b, c, d],
    {
        Ipv4Addr { a, b, c, d }
    }
}

impl Ipv6Addr {
    pub open spec fn segments(self) -> Seq<u16> {
        seq![self.s0, self.s1, self.s2, self.s3, self.s4, self.s5, self.s6, self.s7]
    }

    #[allow(clippy::too_many_arguments)]
    pub fn new(s0: u16, s1: u16, s2: u16, s3: u16, s4: u16, s5: u16, s6: u16, s7: u16) -> (r:
        Ipv6Addr)
        ensures
            r.segments() == seq![s0, s1, s2, s3, s4, s5, s6, s7],
    {
        Ipv6Addr { s0, s1, s2, s3, s4, s5, s6, s7 }
    }

    fn segment_vec(&self) -> (r: Vec<u16>)
        ensures
            r@ == self.segments(),
    {
        let r = vec![self.s0, self.s1, self.s2, self.s3, self.s4, self.s5, self.s6, self.s7];
        assert(r@ =~= self.segments());
        r
    }
}

/// The character of hexadecimal digit `d` (lower case).
pub open spec fn digit_char(d: nat) -> char {
    if d == 0 { '0' } else if d == 1 { '1' } else if d == 2 { '2' } else if d == 3 { '3' }
    else if d == 4 { '4' } else if d == 5 { '5' } else if d == 6 { '6' } else if d == 7 { '7' }
    else if d == 8 { '8' } else if d == 9 { '9' } else if d == 10 { 'a' } else if d == 11 { 'b' }
    else if d == 12 { 'c' } else if d == 13 { 'd' } else if d == 14 { 'e' } else { 'f' }
}

/// `n` written in base `base` without leading zeros ("0" for zero).
pub open spec fn digits(n: nat, base: nat) -> Seq<char>
    decreases n,
    via digits_decreases
{
    if base < 2 || n < base {
        seq![digit_char(n)]
    } else {
        digits(n / base, base) + seq![digit_char(n % base)]
    }
}

#[via_fn]
proof fn digits_decreases(n: nat, base: nat) {
    if !(base < 2 || n < base) {
        assert(n / base < n) by (nonlinear_arith)
            requires
                n >= base,
                base >= 2,
        ;
    }
}

/// Dotted-decimal text of an IPv4 address.
pub open spec fn ipv4_text(x: Ipv4Addr) -> Seq<char> {
    digits(x.a as nat, 10) + seq!['.'] + digits(x.b as nat, 10) + seq!['.'] + digits(
        x.c as nat,
        10,
    ) + seq!['.'] + digits(x.d as nat, 10)
}

fn digit_str(d: u16) -> (r: &'static str)
    requires
        d < 16,
    ensures
        r@ == seq![digit_char(d as nat)],
{
    proof {
        reveal_strlit("0");
        reveal_strlit("1");
        reveal_strlit("2");
        reveal_strlit("3");
        reveal_strlit("4");
        reveal_strlit("5");
        reveal_strlit("6");
        reveal_strlit("7");
        reveal_strlit("8");
        reveal_strlit("9");
        reveal_strlit("a");
        reveal_strlit("b");
        reveal_strlit("c");
        reveal_strlit("d");
        reveal_strlit("e");
        reveal_strlit("f");
    }
    match d {
        0 => "0",
        1 => "1",
        2 => "2",
        3 => "3",
        4 => "4",
        5 => "5",
        6 => "6",
        7 => "7",
        8 => "8",
        9 => "9",
        10 => "a",
        11 => "b",
        12 => "c",
        13 => "d",
        14 => "e",
        _ => "f",
    }
}

/// Appends `n` in base `base` (10 or 16) without leading zeros.
fn push_digits(out: &mut String, n: u16, base: u16)
    requires
        base == 10 || base == 16,
    ensures
        final(out)@ == old(out)@ + digits(n as nat, base as nat),
    decreases n,
{
    if n >= base {
        assert(n / base < n) by (nonlinear_arith)
            requires
                n >= base,
                base >= 2,
        ;
        push_digits(out, n / base, base);
    } else {
        assert(n % base == n) by (nonlinear_arith)
            requires
                n < base,
        ;
    }
    out.append(digit_str(n % base));
    assert(final(out)@ =~= old(out)@ + digits(n as nat, base as nat));
}

/// Appends the dotted-decimal text of `x`.
pub fn push_ipv4_text(out: &mut String, x: Ipv4Addr)
    ensures
        final(out)@ == old(out)@ + ipv4_text(x),
{
    proof {
        reveal_strlit(".");
    }
    push_digits(out, x.a as u16, 10);
    out.append(".");
    push_digits(out, x.b as u16, 10);
    out.append(".");
    push_digits(out, x.c as u16, 10);
    out.append(".");
    push_digits(out, x.d as u16, 10);
    assert(final(out)@ =~= old(out)@ + ipv4_text(x));
}

/// Length of the run of zero segments that starts at `i`.
pub open spec fn zero_run(s: Seq<u16>, i: int) -> nat
    decreases s.len() - i,
{
    if i < 0 || i >= s.len() || s[i] != 0 {
        0
    } else {
        1 + zero_run(s, i + 1)
    }
}

/// Start and length of the first longest run of zero segments among the runs
/// that start before `k`.
pub open spec fn longest_zero_run(s: Seq<u16>, k: int) -> (int, nat)
    decreases k,
{
    if k <= 0 {
        (0, 0)
    } else {
        let prev = longest_zero_run(s, k - 1);
        if zero_run(s, k - 1) > prev.1 {
            (k - 1, zero_run(s, k - 1))
        } else {
            prev
        }
    }
}

/// Segments in lower-case hexadecimal without leading zeros, joined by ':'.
pub open spec fn hex_groups(s: Seq<u16>) -> Seq<char>
    decreases s.len(),
{
    if s.len() == 0 {
        seq![]
    } else if s.len() == 1 {
        digits(s[0] as nat, 16)
    } else {
        hex_groups(s.drop_last()) + seq![':'] + digits(s.last() as nat, 16)
    }
}

/// `::ffff:a.b.c.d`, an IPv4 address carried in IPv6.
pub open spec fn is_ipv4_mapped(x: Ipv6Addr) -> bool {
    x.s0 == 0 && x.s1 == 0 && x.s2 == 0 && x.s3 == 0 && x.s4 == 0 && x.s5 == 0xffff
}

pub open spec fn mapped_ipv4(x: Ipv6Addr) -> Ipv4Addr {
    Ipv4Addr {
        a: (x.s6 / 256) as u8,
        b: (x.s6 % 256) as u8,
        c: (x.s7 / 256) as u8,
        d: (x.s7 % 256) as u8,
    }
}

/// Canonical text of an IPv6 address: an IPv4-mapped address as
/// `::ffff:a.b.c.d`; otherwise hexadecimal groups, with the first longest run
/// of two or more zero segments written as `::`.
pub open spec fn ipv6_text(x: Ipv6Addr) -> Seq<char> {
    let s = x.segments();
    if is_ipv4_mapped(x) {
        seq![':', ':', 'f', 'f', 'f', 'f', ':'] + ipv4_text(mapped_ipv4(x))
    } else {
        let (start, len) = longest_zero_run(s, 8);
        if len >= 2 {
            hex_groups(s.subrange(0, start)) + seq![':', ':'] + hex_groups(
                s.subrange(start + len, 8),
            )
        } else {
            hex_groups(s)
        }
    }
}

/// Appends the segments `s[from..to]` as hexadecimal groups joined by ':'.
fn push_groups(out: &mut String, s: &Vec<u16>, from: usize, to: usize)
    requires
        from <= to <= s@.len(),
    ensures
        final(out)@ == old(out)@ + hex_groups(s@.subrange(from as int, to as int)),
{
    let mut k: usize = from;
    while k < to
        invariant
            from <= k <= to <= s@.len(),
            out@ == old(out)@ + hex_groups(s@.subrange(from as int, k as int)),
        decreases to - k,
    {
        let ghost before = out@;
        let ghost next = s@.subrange(from as int, k + 1);
        assert(next.drop_last() =~= s@.subrange(from as int, k as int));
        assert(next.last() == s@[k as int]);
        assert(next.len() == k + 1 - from);
        if k > from {
            proof {
                reveal_strlit(":");
            }
            out.append(":");
        }
        let ghost mid = out@;
        push_digits(out, s[k], 16);
        assert(out@ == mid + digits(s@[k as int] as nat, 16));
        if k == from {
            assert(hex_groups(s@.subrange(from as int, k as int)) =~= seq![]);
            assert(next[0] == s@[k as int]);
            assert(hex_groups(next) == digits(s@[k as int] as nat, 16));
            assert(before =~= old(out)@);
        } else {
            assert(mid =~= before + seq![':']);
            assert(hex_groups(next) == hex_groups(next.drop_last()) + seq![':'] + digits(
                next.last() as nat,
                16,
            ));
        }
        assert(out@ =~= old(out)@ + hex_groups(next));
        k = k + 1;
    }
}

proof fn lemma_zero_run_bound(s: Seq<u16>, i: int)
    requires
        0 <= i,
    ensures
        i + zero_run(s, i) <= if i <= s.len() { s.len() as int } else { i },
        forall|j: int| i <= j < i + zero_run(s, i) ==> s[j] == 0,
    decreases s.len() - i,
{
    if !(i >= s.len() || s[i] != 0) {
        lemma_zero_run_bound(s, i + 1);
    }
}

proof fn lemma_longest_bound(s: Seq<u16>, k: int)
    requires
        0 <= k <= s.len(),
    ensures
        0 <= longest_zero_run(s, k).0,
        longest_zero_run(s, k).0 + longest_zero_run(s, k).1 <= s.len(),
    decreases k,
{
    if k > 0 {
        lemma_longest_bound(s, k - 1);
        lemma_zero_run_bound(s, k - 1);
    }
}

/// Length of the run of zero segments of `s` that starts at `i`.
fn zero_run_at(s: &Vec<u16>, i: usize) -> (r: usize)
    requires
        i <= s@.len(),
    ensures
        r == zero_run(s@, i as int),
{
    let mut j: usize = i;
    while j < s.len() && s[j] == 0
        invariant
            i <= j <= s@.len(),
            zero_run(s@, i as int) == (j - i) + zero_run(s@, j as int),
        decreases s@.len() - j,
    {
        j = j + 1;
    }
    j - i
}

/// Appends the canonical text of `x`.
pub fn push_ipv6_text(out: &mut String, x: Ipv6Addr)
    ensures
        final(out)@ == old(out)@ + ipv6_text(x),
{
    proof {
        reveal_strlit("::ffff:");
        reveal_strlit("::");
    }
    if x.s0 == 0 && x.s1 == 0 && x.s2 == 0 && x.s3 == 0 && x.s4 == 0 && x.s5 == 0xffff {
        out.append("::ffff:");
        let v4 = Ipv4Addr {
            a: (x.s6 / 256) as u8,
            b: (x.s6 % 256) as u8,
            c: (x.s7 / 256) as u8,
            d: (x.s7 % 256) as u8,
        };
        push_ipv4_text(out, v4);
        assert(out@ =~= old(out)@ + ipv6_text(x));
        return;
    }
    let s = x.segment_vec();
    let mut best_start: usize = 0;
    let mut best_len: usize = 0;
    let mut k: usize = 0;
    while k < 8
        invariant
            s@ == x.segments(),
            k <= 8,
            (best_start as int, best_len as nat) == longest_zero_run(s@, k as int),
        decreases 8 - k,
    {
        let r = zero_run_at(&s, k);
        if r > best_len {
            best_start = k;
            best_len = r;
        }
        k = k + 1;
    }
    proof {
        lemma_longest_bound(s@, 8);
    }
    if best_len >= 2 {
        push_groups(out, &s, 0, best_start);
        out.append("::");
        push_groups(out, &s, best_start + best_len, 8);
    } else {
        push_groups(out, &s, 0, 8);
        assert(s@.subrange(0, 8) =~= s@);
    }
    assert(out@ =~= old(out)@ + ipv6_text(x));
}

} // verus!
