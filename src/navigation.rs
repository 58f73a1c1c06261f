use vstd::prelude::*;
use vstd::arithmetic::div_mod::*;

verus! {

/// The row after `c` in a list of `n + 1` rows, wrapping from the last to the first.
pub open spec fn next_slot(c: nat, n: nat) -> nat {
    (c + 1) % (n + 1)
}

/// The row before `c` in a list of `n + 1` rows, wrapping from the first to the last.
pub open spec fn prev_slot(c: nat, n: nat) -> nat {
    (c + n) % (n + 1)
}

/// Moves a cursor down in a list of `tags_len + 1` rows.
pub fn slot_down(cursor: usize, tags_len: usize) -> (r: usize)
    requires
        tags_len < usize::MAX,
    ensures
        r == next_slot(cursor as nat, tags_len as nat),
        r <= tags_len,
{
    let slots: usize = tags_len + 1;
    let c: usize = cursor % slots;
    proof {
        lemma_mod_bound(cursor as int, slots as int);
        lemma_add_mod_noop(cursor as int, 1, slots as int);
        lemma_add_mod_noop(c as int, 1, slots as int);
        lemma_small_mod(c as nat, slots as nat);
        lemma_mod_bound((c + 1) as int, slots as int);
    }
    (c + 1) % slots
}

/// Moves a cursor up in a list of `tags_len + 1` rows.
pub fn slot_up(cursor: usize, tags_len: usize) -> (r: usize)
    requires
        tags_len < usize::MAX,
    ensures
        r == prev_slot(cursor as nat, tags_len as nat),
        r <= tags_len,
{
    let slots: usize = tags_len + 1;
    let c: usize = cursor % slots;
    proof {
        lemma_mod_bound(cursor as int, slots as int);
        lemma_add_mod_noop(cursor as int, tags_len as int, slots as int);
        lemma_add_mod_noop(c as int, tags_len as int, slots as int);
        lemma_small_mod(c as nat, slots as nat);
        lemma_small_mod(tags_len as nat, slots as nat);
        if c == 0 {
            lemma_small_mod(tags_len as nat, slots as nat);
        } else {
            lemma_mod_add_multiples_vanish((c - 1) as int, slots as int);
            lemma_small_mod((c - 1) as nat, slots as nat);
        }
    }
    if c == 0 {
        tags_len
    } else {
        c - 1
    }
}

/// The cursor after `k` moves down from `c` in a list of `n + 1` rows.
pub open spec fn downs(c: nat, n: nat, k: nat) -> nat
    decreases k,
{
    if k == 0 {
        c
    } else {
        next_slot(downs(c, n, (k - 1) as nat), n)
    }
}

/// Moving down then up, or up then down, brings a cursor in range back to where it was.
pub proof fn lemma_down_up_round_trip(c: nat, n: nat)
    requires
        c <= n,
    ensures
        prev_slot(next_slot(c, n), n) == c,
        next_slot(prev_slot(c, n), n) == c,
{
    let m = (n + 1) as int;
    lemma_add_mod_noop_right(n as int, (c + 1) as int, m);
    lemma_add_mod_noop_right(1, (c + n) as int, m);
    lemma_mod_add_multiples_vanish(c as int, m);
    lemma_small_mod(c, n + 1);
}

/// `k` moves down from `c` land on `(c + k) mod (n + 1)`.
pub proof fn lemma_downs_offset(c: nat, n: nat, k: nat)
    requires
        c <= n,
    ensures
        downs(c, n, k) == (c + k) % (n + 1),
    decreases k,
{
    if k == 0 {
        lemma_small_mod(c, n + 1);
    } else {
        lemma_downs_offset(c, n, (k - 1) as nat);
        lemma_add_mod_noop_right(1, (c + k - 1) as int, (n + 1) as int);
    }
}

/// Moving down once per row, `n + 1` times, brings a cursor in range back to where it was.
pub proof fn lemma_down_cycle(c: nat, n: nat)
    requires
        c <= n,
    ensures
        downs(c, n, n + 1) == c,
{
    lemma_downs_offset(c, n, n + 1);
    lemma_mod_add_multiples_vanish(c as int, (n + 1) as int);
    lemma_small_mod(c, n + 1);
}

/// With a single row, moving up or down leaves every cursor on row 0.
pub proof fn lemma_single_row_fixed(c: nat)
    ensures
        next_slot(c, 0) == 0,
        prev_slot(c, 0) == 0,
{
}

} // verus!
