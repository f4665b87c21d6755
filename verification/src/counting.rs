//! The rules by which a channel counts its receivers and the inboxes it halts.
use vstd::prelude::*;

verus! {

/// `n`, capped at `i32::MAX`.
pub open spec fn capped_halt_amount(n: u32) -> i32 {
    if n > i32::MAX {
        i32::MAX
    } else {
        n as i32
    }
}

/// The halt count after `n` more inboxes are asked to halt: a negative count counts as
/// zero, and the sum saturates at the bounds of `i32`.
pub open spec fn next_halt_count_spec(count: i32, n: i32) -> i32 {
    if count < 0 {
        n
    } else if count + n > i32::MAX {
        i32::MAX
    } else if count + n < i32::MIN {
        i32::MIN
    } else {
        (count + n) as i32
    }
}

/// How many inboxes a call to `halt(n)` asks to halt: `n`, capped at `i32::MAX`.
pub fn halt_amount(n: u32) -> (r: i32)
    ensures
        r == capped_halt_amount(n),
        0 <= r,
{
    if n > 0x7fff_ffff {
        i32::MAX
    } else {
        n as i32
    }
}

/// How many listeners a halt of `n` inboxes notifies: `n` itself.
pub fn listeners_for_halt(n: i32) -> (r: usize)
    requires
        0 <= n,
    ensures
        r == n,
{
    n as usize
}

/// The new halt count when `n` more inboxes are asked to halt, for an atomic update
/// that never declines: always `Some(next_halt_count_spec(count, n))`.
pub fn next_halt_count(count: i32, n: i32) -> (r: Option<i32>)
    ensures
        r == Some(next_halt_count_spec(count, n)),
{
    if count < 0 {
        Some(n)
    } else {
        // The sum, saturating at the bounds of `i32`.
        if n >= 0 {
            if count > i32::MAX - n {
                Some(i32::MAX)
            } else {
                Some(count + n)
            }
        } else {
            if count < i32::MIN - n {
                Some(i32::MIN)
            } else {
                Some(count + n)
            }
        }
    }
}

/// The new receiver count when a receiver is added to a channel that has `count`:
/// none once the count has dropped to zero (the channel has exited, and no receiver
/// may join it), nor where one more would not fit in a `usize`; otherwise one more.
pub open spec fn receiver_added(count: usize) -> Option<usize> {
    if 1 <= count < usize::MAX {
        Some((count + 1) as usize)
    } else {
        None
    }
}

/// The update that adds a receiver to a channel with `count` receivers
/// (see `receiver_added`).
pub fn receiver_count_after_add(count: usize) -> (r: Option<usize>)
    ensures
        r == receiver_added(count),
{
    if count < 1 {
        None
    } else {
        count.checked_add(1)
    }
}

/// What adding or removing a receiver, or removing a sender, makes of the count it
/// found before changing it: a count of 0 means there was nothing to add to or remove
/// from (the channel had exited, or every sender was gone), which is refused.
pub fn previous_count_checked(prev: usize) -> (r: Result<usize, ()>)
    ensures
        r == if prev != 0 {
            Ok::<usize, ()>(prev)
        } else {
            Err::<usize, ()>(())
        },
{
    if prev != 0 {
        Ok(prev)
    } else {
        Err(())
    }
}

/// Whether the receiver removed from a channel, which had `prev` receivers before, was
/// the last one: then the channel has exited.
pub fn was_last_receiver(prev: usize) -> (r: bool)
    ensures
        r == (prev == 1),
{
    prev == 1
}

/// Whether a channel with `count` receivers has exited: none is left.
pub fn no_receivers_left(count: usize) -> (r: bool)
    ensures
        r == (count == 0),
{
    count == 0
}

/// Whether a halt count of `count` still asks an inbox to halt: only a positive one
/// does; a count that was decremented below 0 counts as 0.
pub fn halt_due(count: i32) -> (r: bool)
    ensures
        r == (count > 0),
{
    count > 0
}

/// After a halt of `n` inboxes, at least `n` inboxes (as many as `i32` holds) are
/// due to halt, whatever the count was before: a halt is never lost.
pub proof fn halt_is_never_lost(count: i32, n: u32)
    ensures
        next_halt_count_spec(count, capped_halt_amount(n)) >= capped_halt_amount(n),
        next_halt_count_spec(count, capped_halt_amount(n)) > 0 <==> n > 0 || count > 0,
{
}

/// How many of `k` inboxes that ask one after the other whether to halt are told to,
/// when the halt count is `count` before them and nothing else changes it: an inbox is
/// told to halt while the count is positive (`halt_due`), and takes one from it.
pub open spec fn halts_taken(count: int, k: nat) -> nat
    decreases k,
{
    if k == 0 {
        0
    } else if count > 0 {
        1 + halts_taken(count - 1, (k - 1) as nat)
    } else {
        halts_taken(count, (k - 1) as nat)
    }
}

/// Of `k` inboxes asking in turn, as many are halted as the count allows: all `k` of
/// them while the count lasts, and never more than a positive count; none for a count
/// that is zero or negative.
pub proof fn halts_taken_is_bounded_by_count(count: int, k: nat)
    ensures
        halts_taken(count, k) == if count <= 0 {
            0
        } else if k <= count {
            k as int
        } else {
            count
        },
    decreases k,
{
    if k > 0 {
        if count > 0 {
            halts_taken_is_bounded_by_count(count - 1, (k - 1) as nat);
        } else {
            halts_taken_is_bounded_by_count(count, (k - 1) as nat);
        }
    }
}

/// `halt(n)` halts `n` inboxes (at most `i32::MAX`): after it, from a halt count of
/// zero or below, exactly `min(n, i32::MAX)` of any `k >= n` inboxes asking in turn are
/// told to halt, and each of the first `min(k, n)` of them is.
pub proof fn halt_halts_that_many(count: i32, n: u32, k: nat)
    requires
        count <= 0,
    ensures
        halts_taken(next_halt_count_spec(count, capped_halt_amount(n)) as int, k) == if k
            <= capped_halt_amount(n) {
            k as int
        } else {
            capped_halt_amount(n) as int
        },
{
    halts_taken_is_bounded_by_count(next_halt_count_spec(count, capped_halt_amount(n)) as int, k);
}

/// Two halts compose into one: halting `a` inboxes and then `b` more leaves the same
/// halt count as one halt of `a + b` inboxes, capped at `i32::MAX`.
pub proof fn halts_compose(count: i32, a: i32, b: i32)
    requires
        0 <= a,
        0 <= b,
    ensures
        next_halt_count_spec(next_halt_count_spec(count, a), b) == next_halt_count_spec(
            count,
            if a + b > i32::MAX {
                i32::MAX
            } else {
                (a + b) as i32
            },
        ),
{
}

} // verus!
