//! Brightness adjustment of RGBA pixel data, leaving alpha untouched.
//!
//! Pixels are stored interleaved, four samples per pixel: red, green, blue and
//! alpha. Sample `i` belongs to channel `i % 4`; channel 3 is alpha.

use vstd::prelude::*;

verus! {

/// `v` moved by `amount`, held inside `0..=max`.
pub open spec fn clamped(v: int, amount: int, max: int) -> int {
    if v + amount < 0 {
        0
    } else if v + amount > max {
        max
    } else {
        v + amount
    }
}

/// Sample `i` of RGBA data after brightening by `amount`, with channel
/// values ranging over `0..=max`: color samples move, alpha samples stay.
pub open spec fn brightened_sample(data: Seq<int>, i: int, amount: int, max: int) -> int {
    if i % 4 == 3 {
        data[i]
    } else {
        clamped(data[i], amount, max)
    }
}

/// Brightens 8-bit RGBA data in place: each red, green and blue sample becomes
/// `sample + amount` clamped to `0..=255`; alpha samples keep their value.
pub fn brighten_rgba8(data: &mut Vec<u8>, amount: i32)
    requires
        forall|i: int|
            0 <= i < old(data)@.len() && i % 4 != 3 ==> #[trigger] old(data)@[i] + amount
                <= i32::MAX,
    ensures
        final(data)@.len() == old(data)@.len(),
        forall|i: int|
            0 <= i < old(data)@.len() ==> #[trigger] final(data)@[i] == brightened_sample(
                old(data)@.map_values(|v: u8| v as int),
                i,
                amount as int,
                255,
            ),
        forall|i: int|
            0 <= i < old(data)@.len() && i % 4 != 3 ==> {
                let moved = old(data)@[i] + amount;
                &&& 0 <= moved <= 255 ==> #[trigger] final(data)@[i] == moved
                &&& moved < 0 ==> final(data)@[i] == 0
                &&& moved > 255 ==> final(data)@[i] == 255
            },
        forall|i: int|
            0 <= i < old(data)@.len() && i % 4 == 3 ==> #[trigger] final(data)@[i] == old(
                data,
            )@[i],
{
    let n: usize = data.len();
    let mut i: usize = 0;
    while i < n
        invariant
            forall|j: int|
                0 <= j < old(data)@.len() && j % 4 != 3 ==> #[trigger] old(data)@[j] + amount
                    <= i32::MAX,
            n == old(data)@.len(),
            data@.len() == n,
            i <= n,
            forall|j: int| i <= j < n ==> data@[j] == old(data)@[j],
            forall|j: int|
                0 <= j < i ==> #[trigger] data@[j] == brightened_sample(
                    old(data)@.map_values(|v: u8| v as int),
                    j,
                    amount as int,
                    255,
                ),
        decreases n - i,
    {
        if i % 4 != 3 {
            let v: i32 = data[i] as i32 + amount;
            let c: u8 = if v < 0 {
                0
            } else if v > 255 {
                255
            } else {
                v as u8
            };
            data.set(i, c);
        }
        i = i + 1;
    }
}

/// Brightens 16-bit RGBA data in place: each red, green and blue sample
/// becomes `sample + amount` clamped to `0..=65535`; alpha samples keep their
/// value.
pub fn brighten_rgba16(data: &mut Vec<u16>, amount: i32)
    requires
        forall|i: int|
            0 <= i < old(data)@.len() && i % 4 != 3 ==> #[trigger] old(data)@[i] + amount
                <= i32::MAX,
    ensures
        final(data)@.len() == old(data)@.len(),
        forall|i: int|
            0 <= i < old(data)@.len() ==> #[trigger] final(data)@[i] == brightened_sample(
                old(data)@.map_values(|v: u16| v as int),
                i,
                amount as int,
                65535,
            ),
        forall|i: int|
            0 <= i < old(data)@.len() && i % 4 != 3 ==> {
                let moved = old(data)@[i] + amount;
                &&& 0 <= moved <= 65535 ==> #[trigger] final(data)@[i] == moved
                &&& moved < 0 ==> final(data)@[i] == 0
                &&& moved > 65535 ==> final(data)@[i] == 65535
            },
        forall|i: int|
            0 <= i < old(data)@.len() && i % 4 == 3 ==> #[trigger] final(data)@[i] == old(
                data,
            )@[i],
{
    let n: usize = data.len();
    let mut i: usize = 0;
    while i < n
        invariant
            forall|j: int|
                0 <= j < old(data)@.len() && j % 4 != 3 ==> #[trigger] old(data)@[j] + amount
                    <= i32::MAX,
            n == old(data)@.len(),
            data@.len() == n,
            i <= n,
            forall|j: int| i <= j < n ==> data@[j] == old(data)@[j],
            forall|j: int|
                0 <= j < i ==> #[trigger] data@[j] == brightened_sample(
                    old(data)@.map_values(|v: u16| v as int),
                    j,
                    amount as int,
                    65535,
                ),
        decreases n - i,
    {
        if i % 4 != 3 {
            let v: i32 = data[i] as i32 + amount;
            let c: u16 = if v < 0 {
                0
            } else if v > 65535 {
                65535
            } else {
                v as u16
            };
            data.set(i, c);
        }
        i = i + 1;
    }
}

/// Brightening by zero changes no sample.
pub proof fn lemma_brighten_by_zero(data: Seq<int>, i: int, max: int)
    requires
        0 <= i < data.len(),
        0 <= data[i] <= max,
    ensures
        brightened_sample(data, i, 0, max) == data[i],
{
}

/// A larger amount never gives a darker sample.
pub proof fn lemma_brighten_monotone(data: Seq<int>, i: int, a: int, b: int, max: int)
    requires
        0 <= i < data.len(),
        a <= b,
        0 <= max,
    ensures
        brightened_sample(data, i, a, max) <= brightened_sample(data, i, b, max),
{
}

/// Every brightened sample stays a valid channel value.
pub proof fn lemma_brighten_in_range(data: Seq<int>, i: int, amount: int, max: int)
    requires
        0 <= i < data.len(),
        0 <= data[i] <= max,
    ensures
        0 <= brightened_sample(data, i, amount, max) <= max,
{
}

/// Brightening moves every color sample, wherever it stands, by the amount,
/// and stops at the ends of the channel range; alpha samples never move.
pub proof fn lemma_brighten_moves_every_color_sample(data: Seq<int>, i: int, amount: int, max: int)
    requires
        0 <= i < data.len(),
        0 <= max,
    ensures
        i % 4 != 3 && 0 <= data[i] + amount <= max ==> brightened_sample(data, i, amount, max)
            == data[i] + amount,
        i % 4 != 3 && data[i] + amount < 0 ==> brightened_sample(data, i, amount, max) == 0,
        i % 4 != 3 && data[i] + amount > max ==> brightened_sample(data, i, amount, max) == max,
        i % 4 == 3 ==> brightened_sample(data, i, amount, max) == data[i],
{
}

} // verus!
