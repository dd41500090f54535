//! Memory figures, the sliding window of samples, and byte-count formatting.
use std::collections::VecDeque;
use vstd::prelude::*;

verus! {

/// `2^e`.
pub open spec fn two_to(e: nat) -> nat
    decreases e,
{
    if e == 0 {
        1
    } else {
        2 * two_to((e - 1) as nat)
    }
}

/// How many low bits of `n` fall outside the 53-bit significand of a binary64.
pub open spec fn excess_bits(n: nat) -> nat
    decreases n,
{
    if n < 9007199254740992 {
        0
    } else {
        1 + excess_bits(n / 2)
    }
}

/// `a / b` rounded to the nearest integer, ties to the even one.
pub open spec fn div_round_even(a: nat, b: nat) -> nat {
    let q = a / b;
    let r = a % b;
    if 2 * r > b || (2 * r == b && q % 2 == 1) {
        q + 1
    } else {
        q
    }
}

/// The binary64 value nearest to `n` (ties to even), which is what `n as f64`
/// gives; it is an integer too.
pub open spec fn nearest_f64(n: nat) -> nat {
    let p = two_to(excess_bits(n));
    div_round_even(n, p) * p
}

/// The character of a decimal digit.
pub open spec fn digit_char(d: nat) -> char {
    ((48 + d) as u32) as char
}

/// The decimal digits of `n`, without leading zeros.
pub open spec fn decimal(n: nat) -> Seq<char>
    decreases n,
{
    if n < 10 {
        seq![digit_char(n)]
    } else {
        decimal(n / 10).push(digit_char(n % 10))
    }
}

/// Which binary unit a value of `v` bytes is shown in: 0 for bytes, then KiB,
/// MiB, GiB and, from 1024 GiB on, TiB.
pub open spec fn unit_index(v: nat) -> nat {
    if v < 1024 {
        0
    } else if v < 1048576 {
        1
    } else if v < 1073741824 {
        2
    } else if v < 1099511627776 {
        3
    } else {
        4
    }
}

/// The number of bytes in one of the unit.
pub open spec fn unit_scale(unit: nat) -> nat {
    if unit == 0 {
        1
    } else if unit == 1 {
        1024
    } else if unit == 2 {
        1048576
    } else if unit == 3 {
        1073741824
    } else {
        1099511627776
    }
}

/// The unit's symbol.
pub open spec fn unit_name(unit: nat) -> Seq<char> {
    if unit == 0 {
        "B"@
    } else if unit == 1 {
        "KiB"@
    } else if unit == 2 {
        "MiB"@
    } else if unit == 3 {
        "GiB"@
    } else {
        "TiB"@
    }
}

/// A byte count as text: below 1024 the exact count and `B`; otherwise the
/// count, taken as a binary64, in the largest binary unit up to TiB that it
/// reaches, with one decimal rounded half to even, and the unit's symbol.
pub open spec fn format_bytes_spec(bytes: nat) -> Seq<char> {
    if bytes < 1024 {
        decimal(bytes) + " B"@
    } else {
        let v = nearest_f64(bytes);
        let unit = unit_index(v);
        let tenths = div_round_even(v * 10, unit_scale(unit));
        decimal(tenths / 10) + "."@ + decimal(tenths % 10) + " "@ + unit_name(unit)
    }
}

/// Appends the decimal digits of `n` to `s`.
fn push_decimal(s: &mut String, n: u128)
    ensures
        final(s)@ == old(s)@ + decimal(n as nat),
    decreases n,
{
    if n >= 10 {
        push_decimal(s, n / 10);
    }
    let d: u8 = (n % 10) as u8;
    let c: char = (48u8 + d) as char;
    crate::text::push_char(s, c);
}

/// `a / b` rounded to the nearest integer, ties to the even one.
fn div_round_even_exec(a: u128, b: u128) -> (r: u128)
    requires
        b > 0,
        a < u128::MAX,
    ensures
        r == div_round_even(a as nat, b as nat),
{
    let q = a / b;
    let r = a % b;
    assert(q <= a) by {
        vstd::arithmetic::div_mod::lemma_div_is_ordered_by_denominator(a as int, 1, b as int);
    }
    if r > b - r || (r == b - r && q % 2 == 1) {
        q + 1
    } else {
        q
    }
}

/// The binary64 value nearest to `n`, as an integer.
fn nearest_f64_exec(n: u64) -> (v: u128)
    ensures
        v == nearest_f64(n as nat),
        v <= 2 * (n as nat) + 1,
        n < 9007199254740992 ==> v == n,
        n >= 1024 ==> v >= 1024,
{
    let mut m: u64 = n;
    let mut p: u128 = 1;
    let ghost mut shift: nat = 0;
    while m >= 9007199254740992
        invariant
            p >= 1,
            p == two_to(shift),
            m as nat == (n as nat) / (p as nat),
            excess_bits(n as nat) == shift + excess_bits(m as nat),
            p <= n + 1,
            n < 9007199254740992 ==> p == 1,
            p > 1 ==> m >= 4503599627370496,
        decreases m,
    {
        assert(n as nat / (p as nat) / 2 == n as nat / (p as nat * 2)) by {
            vstd::arithmetic::div_mod::lemma_div_denominator(n as int, p as int, 2);
        }
        assert(p * 2 <= n) by {
            vstd::arithmetic::div_mod::lemma_fundamental_div_mod(n as int, (p * 2) as int);
            vstd::arithmetic::div_mod::lemma_mod_pos_bound(n as int, (p * 2) as int);
            assert((p * 2) * (m / 2) >= (p * 2)) by (nonlinear_arith)
                requires
                    m / 2 >= 1,
                    p >= 1,
            ;
        }
        m = m / 2;
        p = p * 2;
        proof {
            shift = shift + 1;
        }
    }
    let nn: u128 = n as u128;
    let q = nn / p;
    let r = nn % p;
    proof {
        vstd::arithmetic::div_mod::lemma_fundamental_div_mod(nn as int, p as int);
        vstd::arithmetic::div_mod::lemma_mod_pos_bound(nn as int, p as int);
        assert(q * p <= nn) by (nonlinear_arith)
            requires
                nn == p * q + r,
                r >= 0,
        ;
        assert((q + 1) * p <= nn + p) by (nonlinear_arith)
            requires
                q * p <= nn,
        ;
    }
    proof {
        if p == 1 {
            assert(nn / 1 == nn && nn % 1 == 0) by (nonlinear_arith);
            assert(div_round_even(nn as nat, 1) == nn);
        }
    }
    let rounded = div_round_even_exec(nn, p);
    let v = rounded * p;
    proof {
        if p == 1 {
            assert(v == nn) by (nonlinear_arith)
                requires
                    p == 1,
                    rounded == nn,
                    v == rounded * p,
            ;
        } else {
            assert(v >= 1024) by (nonlinear_arith)
                requires
                    p > 1,
                    rounded >= q,
                    q >= 4503599627370496,
                    v == rounded * p,
            ;
        }
    }
    v
}

/// Formats a byte count in binary units, as in `512 B`, `1.0 KiB` or `1.5 GiB`.
pub fn format_bytes(bytes: u64) -> (s: String)
    ensures
        s@ == format_bytes_spec(bytes as nat),
{
    let mut s = String::new();
    if bytes < 1024 {
        push_decimal(&mut s, bytes as u128);
        s.append(" B");
        return s;
    }
    let v = nearest_f64_exec(bytes);
    assert(v >= 1024);
    let (scale, name): (u128, &str) = if v < 1048576 {
        (1024, "KiB")
    } else if v < 1073741824 {
        (1048576, "MiB")
    } else if v < 1099511627776 {
        (1073741824, "GiB")
    } else {
        (1099511627776, "TiB")
    };
    let tenths = div_round_even_exec(v * 10, scale);
    push_decimal(&mut s, tenths / 10);
    s.append(".");
    push_decimal(&mut s, tenths % 10);
    s.append(" ");
    s.append(name);
    s
}


/// How many recent samples the sampler averages over.
pub const SAMPLE_WINDOW: usize = 5;

/// The last `k` elements of `s` (all of them when there are no more than `k`).
pub open spec fn keep_last<T>(s: Seq<T>, k: nat) -> Seq<T> {
    if s.len() <= k {
        s
    } else {
        s.subrange(s.len() - k, s.len() as int)
    }
}

/// The most recent samples, oldest first, never more than `SAMPLE_WINDOW`.
#[derive(Debug)]
pub struct SampleWindow<T> {
    samples: VecDeque<T>,
}

impl<T> View for SampleWindow<T> {
    type V = Seq<T>;

    closed spec fn view(&self) -> Seq<T> {
        self.samples@
    }
}

impl<T> SampleWindow<T> {
    #[verifier::type_invariant]
    spec fn bounded(self) -> bool {
        self.samples@.len() <= SAMPLE_WINDOW
    }

    /// An empty window.
    pub fn new() -> (w: Self)
        ensures
            w@ == Seq::<T>::empty(),
    {
        SampleWindow { samples: VecDeque::with_capacity(SAMPLE_WINDOW) }
    }

    /// Records a sample, dropping the oldest ones beyond `SAMPLE_WINDOW`.
    pub fn push(&mut self, sample: T)
        ensures
            final(self)@ == keep_last(old(self)@.push(sample), SAMPLE_WINDOW as nat),
    {
        broadcast use vstd::std_specs::vecdeque::group_vec_dequeue_axioms;

        let ghost full = self@.push(sample);
        let mut samples: VecDeque<T> = VecDeque::new();
        std::mem::swap(&mut samples, &mut self.samples);
        samples.push_back(sample);
        while samples.len() > SAMPLE_WINDOW
            invariant
                samples@.len() <= full.len(),
                samples@ == full.subrange(full.len() - samples@.len(), full.len() as int),
                samples@.len() >= if full.len() <= SAMPLE_WINDOW {
                    full.len()
                } else {
                    SAMPLE_WINDOW as nat
                },
            decreases samples@.len(),
        {
            samples.pop_front();
        }
        self.samples = samples;
    }

    /// How many samples the window holds.
    pub fn len(&self) -> (n: usize)
        ensures
            n == self@.len(),
            n <= SAMPLE_WINDOW,
    {
        broadcast use vstd::std_specs::vecdeque::group_vec_dequeue_axioms;

        proof {
            use_type_invariant(self);
        }

        self.samples.len()
    }

    /// Whether the window holds no sample.
    pub fn is_empty(&self) -> (r: bool)
        ensures
            r == (self@.len() == 0),
    {
        broadcast use vstd::std_specs::vecdeque::group_vec_dequeue_axioms;

        self.samples.len() == 0
    }

    /// The samples, oldest first.
    pub fn samples(&self) -> (r: &VecDeque<T>)
        ensures
            r@ == self@,
    {
        &self.samples
    }
}


/// Pushing into a window keeps at most `k` samples, the newest one last and
/// the ones before it in their old order.
pub proof fn lemma_keep_last_push<T>(s: Seq<T>, x: T, k: nat)
    requires
        k > 0,
    ensures
        keep_last(s.push(x), k).len() <= k,
        keep_last(s.push(x), k).len() == if s.len() + 1 <= k { s.len() + 1 } else { k },
        keep_last(s.push(x), k).last() == x,
        keep_last(s.push(x), k).drop_last() == keep_last(s, (k - 1) as nat),
{
    let t = s.push(x);
    if t.len() > k {
        assert(keep_last(t, k).drop_last() =~= keep_last(s, (k - 1) as nat));
    } else {
        assert(keep_last(t, k).drop_last() =~= s);
    }
}


/// The memory figures of one sample, in bytes.
#[derive(Clone, Copy, Debug, PartialEq, Eq, Structural)]
pub struct MemoryUsage {
    pub total_bytes: u64,
    pub used_bytes: u64,
    pub available_bytes: u64,
}

/// `x * 1024`, capped at `u64::MAX`.
pub open spec fn scaled_kib(x: u64) -> u64 {
    if x * 1024 <= u64::MAX {
        (x * 1024) as u64
    } else {
        u64::MAX
    }
}

impl MemoryUsage {
    /// The figures for a system that reports `total` and `available` memory
    /// in units of 1024 bytes: each is scaled to bytes (capped at `u64::MAX`),
    /// and used memory is the total less the available (or 0 when more is
    /// available than the total).
    pub fn from_system(total: u64, available: u64) -> (m: MemoryUsage)
        ensures
            m.total_bytes == scaled_kib(total),
            m.available_bytes == scaled_kib(available),
            m.used_bytes == if scaled_kib(available) <= scaled_kib(total) {
                scaled_kib(total) - scaled_kib(available)
            } else {
                0
            },
    {
        let total_bytes = match total.checked_mul(1024) {
            Some(bytes) => bytes,
            None => u64::MAX,
        };
        let available_bytes = match available.checked_mul(1024) {
            Some(bytes) => bytes,
            None => u64::MAX,
        };
        MemoryUsage {
            total_bytes,
            used_bytes: total_bytes.saturating_sub(available_bytes),
            available_bytes,
        }
    }
}

/// `sum of values[i] / n`, each quotient rounded down on its own.
pub open spec fn share_sum(values: Seq<u64>, n: nat) -> nat
    decreases values.len(),
{
    if values.len() == 0 {
        0
    } else {
        share_sum(values.drop_last(), n) + values.last() as nat / n
    }
}

/// The used-memory figures of a run of samples.
pub open spec fn used_of(samples: Seq<MemoryUsage>) -> Seq<u64> {
    samples.map_values(|m: MemoryUsage| m.used_bytes)
}

/// The available-memory figures of a run of samples.
pub open spec fn available_of(samples: Seq<MemoryUsage>) -> Seq<u64> {
    samples.map_values(|m: MemoryUsage| m.available_bytes)
}

/// A sum of `k` shares of `u64` values, each divided by `n`, is at most `k`
/// times `u64::MAX / n`.
proof fn lemma_share_sum_bound(values: Seq<u64>, n: nat)
    requires
        n > 0,
    ensures
        share_sum(values, n) <= values.len() * (u64::MAX as nat / n),
    decreases values.len(),
{
    if values.len() > 0 {
        lemma_share_sum_bound(values.drop_last(), n);
        vstd::arithmetic::div_mod::lemma_div_is_ordered(
            values.last() as int,
            u64::MAX as int,
            n as int,
        );
        vstd::arithmetic::mul::lemma_mul_is_distributive_add_other_way(
            (u64::MAX as nat / n) as int,
            (values.len() - 1) as int,
            1,
        );
    }
}

/// The memory figures averaged over a run of samples: the newest total, and
/// the used and available memory as sums of per-sample shares; all zero when
/// there is no sample.
pub fn average_memory(samples: &[MemoryUsage]) -> (m: MemoryUsage)
    ensures
        samples@.len() == 0 ==> m == (MemoryUsage { total_bytes: 0, used_bytes: 0, available_bytes: 0 }),
        samples@.len() > 0 ==> {
            &&& m.total_bytes == samples@.last().total_bytes
            &&& m.used_bytes == share_sum(used_of(samples@), samples@.len())
            &&& m.available_bytes == share_sum(available_of(samples@), samples@.len())
        },
{
    let mut result = MemoryUsage { total_bytes: 0, used_bytes: 0, available_bytes: 0 };
    let len = samples.len();
    if len == 0 {
        return result;
    }
    let n = len as u64;
    let ghost used = used_of(samples@);
    let ghost available = available_of(samples@);
    proof {
        vstd::arithmetic::div_mod::lemma_fundamental_div_mod(u64::MAX as int, n as int);
        vstd::arithmetic::div_mod::lemma_mod_pos_bound(u64::MAX as int, n as int);
        vstd::arithmetic::mul::lemma_mul_is_commutative(n as int, (u64::MAX as nat / n as nat) as int);
    }
    for i in 0..len
        invariant
            len == samples@.len(),
            n == len,
            n > 0,
            used == used_of(samples@),
            available == available_of(samples@),
            n * (u64::MAX as nat / n as nat) <= u64::MAX,
            i > 0 ==> result.total_bytes == samples@[i - 1].total_bytes,
            result.used_bytes == share_sum(used.take(i as int), n as nat),
            result.available_bytes == share_sum(available.take(i as int), n as nat),
    {
        let sample = samples[i];
        assert(used.take(i + 1).drop_last() == used.take(i as int));
        assert(available.take(i + 1).drop_last() == available.take(i as int));
        proof {
            lemma_share_sum_bound(used.take(i + 1), n as nat);
            lemma_share_sum_bound(available.take(i + 1), n as nat);
            vstd::arithmetic::mul::lemma_mul_inequality(
                (i + 1) as int,
                n as int,
                (u64::MAX as nat / n as nat) as int,
            );
        }
        result.total_bytes = sample.total_bytes;
        result.used_bytes = result.used_bytes + sample.used_bytes / n;
        result.available_bytes = result.available_bytes + sample.available_bytes / n;
    }
    assert(used.take(len as int) == used);
    assert(available.take(len as int) == available);
    result
}


/// A count below 2^53 is exactly representable as a binary64, so it is shown
/// from its exact value.
pub proof fn lemma_small_counts_are_exact(n: nat)
    requires
        n < 9007199254740992,
    ensures
        nearest_f64(n) == n,
{
    assert(excess_bits(n) == 0);
    assert(two_to(0) == 1);
    assert(n / 1 == n && n % 1 == 0) by (nonlinear_arith);
}

/// From 1024 bytes on, a count is shown in the largest of KiB, MiB, GiB and
/// TiB that it reaches: the unit's size is at most the count and, below TiB,
/// the next unit's size is more than the count. So the number shown is at
/// least 1.0 and, below TiB, at most 1024.0; for instance any count in
/// [2^30, 2^40) is shown in GiB.
pub proof fn lemma_unit_is_largest_reached(bytes: nat)
    requires
        1024 <= bytes < 9007199254740992,
    ensures
        ({
            let unit = unit_index(nearest_f64(bytes));
            let tenths = div_round_even(nearest_f64(bytes) * 10, unit_scale(unit));
            &&& 1 <= unit <= 4
            &&& unit == 1 ==> 1024 <= bytes < 1048576 && unit_scale(unit) == 1024
                && unit_name(unit) == "KiB"@
            &&& unit == 2 ==> 1048576 <= bytes < 1073741824 && unit_scale(unit) == 1048576
                && unit_name(unit) == "MiB"@
            &&& unit == 3 ==> 1073741824 <= bytes < 1099511627776 && unit_scale(unit)
                == 1073741824 && unit_name(unit) == "GiB"@
            &&& unit == 4 ==> 1099511627776 <= bytes && unit_scale(unit) == 1099511627776
                && unit_name(unit) == "TiB"@
            &&& tenths >= 10
            &&& unit < 4 ==> tenths <= 10240
        }),
{
    lemma_small_counts_are_exact(bytes);
    let v = nearest_f64(bytes);
    let unit = unit_index(v);
    let scale = unit_scale(unit);
    assert(scale > 0 && scale <= v);
    assert(unit < 4 ==> v < 1024 * scale);
    let q = (v * 10) / scale;
    assert(q >= 10) by {
        vstd::arithmetic::div_mod::lemma_div_is_ordered((scale * 10) as int, (v * 10) as int, scale as int);
        vstd::arithmetic::div_mod::lemma_div_by_multiple(10, scale as int);
        vstd::arithmetic::mul::lemma_mul_is_commutative(10, scale as int);
    }
    if unit < 4 {
        assert(q < 10240) by {
            vstd::arithmetic::div_mod::lemma_div_is_ordered(
                (v * 10) as int,
                (scale * 10240 - 1) as int,
                scale as int,
            );
            assert((scale * 10240 - 1) / (scale as int) < 10240) by {
                vstd::arithmetic::div_mod::lemma_fundamental_div_mod(
                    (scale * 10240 - 1) as int,
                    scale as int,
                );
                vstd::arithmetic::div_mod::lemma_mod_pos_bound((scale * 10240 - 1) as int, scale as int);
                let d = (scale * 10240 - 1) / (scale as int);
                let r = (scale * 10240 - 1) % (scale as int);
                assert(d < 10240) by (nonlinear_arith)
                    requires
                        scale * 10240 - 1 == scale * d + r,
                        0 <= r,
                        scale > 0,
                ;
            }
        }
    }
}

/// Scaling a figure reported in KiB to bytes is exact whenever the product
/// fits in a `u64`, and saturates only beyond it; so with the available
/// memory at most the total and the total in range, the used memory is the
/// difference, scaled.
pub proof fn lemma_memory_scaling_exact(total: u64, available: u64)
    ensures
        total * 1024 <= u64::MAX ==> scaled_kib(total) == total * 1024,
        total * 1024 > u64::MAX ==> scaled_kib(total) == u64::MAX,
        available <= total && total * 1024 <= u64::MAX ==> {
            &&& scaled_kib(available) <= scaled_kib(total)
            &&& scaled_kib(total) - scaled_kib(available) == (total - available) * 1024
        },
{
}

/// A sum of `k` equal shares `x / n` is `k * (x / n)`.
proof fn lemma_share_sum_constant(values: Seq<u64>, n: nat, x: u64)
    requires
        n > 0,
        forall|i: int| 0 <= i < values.len() ==> values[i] == x,
    ensures
        share_sum(values, n) == values.len() * (x as nat / n),
    decreases values.len(),
{
    if values.len() > 0 {
        lemma_share_sum_constant(values.drop_last(), n, x);
        vstd::arithmetic::mul::lemma_mul_is_distributive_add_other_way(
            (x as nat / n) as int,
            (values.len() - 1) as int,
            1,
        );
    }
}

/// Averaging `n` copies of one sample gives that sample's total, and for its
/// used and available bytes `n` shares of `x / n`, which is `x` less the
/// remainder of `x` divided by `n`: within `n - 1` bytes of `x`, and exactly `x`
/// when `n` divides it.
pub proof fn lemma_average_of_equal_samples(samples: Seq<MemoryUsage>, m: MemoryUsage)
    requires
        samples.len() > 0,
        forall|i: int| 0 <= i < samples.len() ==> samples[i] == m,
    ensures
        samples.last().total_bytes == m.total_bytes,
        share_sum(used_of(samples), samples.len()) == m.used_bytes - m.used_bytes as nat
            % samples.len(),
        share_sum(available_of(samples), samples.len()) == m.available_bytes
            - m.available_bytes as nat % samples.len(),
{
    let n = samples.len();
    lemma_share_sum_constant(used_of(samples), n, m.used_bytes);
    lemma_share_sum_constant(available_of(samples), n, m.available_bytes);
    vstd::arithmetic::div_mod::lemma_fundamental_div_mod(m.used_bytes as int, n as int);
    vstd::arithmetic::div_mod::lemma_fundamental_div_mod(m.available_bytes as int, n as int);
    vstd::arithmetic::mul::lemma_mul_is_commutative(n as int, (m.used_bytes as nat / n) as int);
    vstd::arithmetic::mul::lemma_mul_is_commutative(
        n as int,
        (m.available_bytes as nat / n) as int,
    );
}

} // verus!
