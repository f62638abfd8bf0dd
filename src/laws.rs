use vstd::prelude::*;

use crate::app::{is_new_user, registered, App, EFFECT_TICKS};

verus! {

/// The session after `n` forward cursor moves.
pub open spec fn nexts(s: App, n: nat) -> App
    decreases n,
{
    if n == 0 {
        s
    } else {
        nexts(s, (n - 1) as nat).after_next()
    }
}

/// The session after `n` frame ticks.
pub open spec fn ticks(s: App, n: nat) -> App
    decreases n,
{
    if n == 0 {
        s
    } else {
        ticks(s, (n - 1) as nat).after_tick()
    }
}

/// How often `name` occurs in `users`.
pub open spec fn occurrences(users: Seq<Seq<char>>, name: Seq<char>) -> nat
    decreases users.len(),
{
    if users.len() == 0 {
        0
    } else {
        occurrences(users.drop_last(), name) + if users.last() == name {
            1nat
        } else {
            0nat
        }
    }
}

proof fn lemma_nexts_cursor(s: App, k: nat)
    requires
        s.list_len() > 0,
        s.list_len() <= usize::MAX,
        s.cursor < s.list_len(),
    ensures
        nexts(s, k).list_len() == s.list_len(),
        nexts(s, k).cursor == (s.cursor + k) % (s.list_len() as int),
    decreases k,
{
    if k > 0 {
        lemma_nexts_cursor(s, (k - 1) as nat);
        let prev = nexts(s, (k - 1) as nat);
        vstd::arithmetic::div_mod::lemma_add_mod_noop_right(
            1,
            s.cursor + k - 1,
            s.list_len() as int,
        );

    } else {
        vstd::arithmetic::div_mod::lemma_small_mod(s.cursor as nat, s.list_len());
    }
}

/// On a non-empty list, as many forward moves as the list has entries bring the cursor
/// back to where it started. (A list's length fits in `usize`, as every `Vec`'s does.)
pub proof fn lemma_next_item_wraps(s: App)
    requires
        s.wf(),
        s.list_len() > 0,
        s.list_len() <= usize::MAX,
    ensures
        nexts(s, s.list_len()).cursor == s.cursor,
{
    lemma_nexts_cursor(s, s.list_len());
    vstd::arithmetic::div_mod::lemma_add_mod_noop_right(
        s.cursor as int,
        s.list_len() as int,
        s.list_len() as int,
    );
    vstd::arithmetic::div_mod::lemma_mod_self_0(s.list_len() as int);
    vstd::arithmetic::div_mod::lemma_small_mod(s.cursor as nat, s.list_len());
}

proof fn lemma_ticks_effect(s: App, i: usize, n: usize, k: nat)
    requires
        s.selection_effect == Some((i, n)),
        k <= n,
    ensures
        k < n ==> ticks(s, k).selection_effect == Some((i, (n - k) as usize)),
        n > 0 && k == n ==> ticks(s, k).selection_effect is None,
    decreases k,
{
    if k > 0 {
        lemma_ticks_effect(s, i, n, (k - 1) as nat);
    }
}

/// An effect armed for its full duration stays, counting down, for that many ticks less
/// one, and is gone after exactly that many; any cursor move on a non-empty list clears
/// it at once.
pub proof fn lemma_effect_lifetime(s: App, i: usize)
    requires
        s.selection_effect == Some((i, EFFECT_TICKS)),
    ensures
        forall|k: nat|
            k < EFFECT_TICKS ==> #[trigger] ticks(s, k).selection_effect == Some(
                (i, (EFFECT_TICKS - k) as usize),
            ),
        ticks(s, EFFECT_TICKS as nat).selection_effect is None,
        s.list_len() > 0 ==> s.after_next().selection_effect is None,
        s.list_len() > 0 ==> s.after_prev().selection_effect is None,
{
    assert forall|k: nat| k < EFFECT_TICKS implies #[trigger] ticks(s, k).selection_effect
        == Some((i, (EFFECT_TICKS - k) as usize)) by {
        lemma_ticks_effect(s, i, EFFECT_TICKS, k);
    }
    lemma_ticks_effect(s, i, EFFECT_TICKS, EFFECT_TICKS as nat);
}

proof fn lemma_absent_occurs_never(users: Seq<Seq<char>>, name: Seq<char>)
    requires
        !users.contains(name),
    ensures
        occurrences(users, name) == 0,
    decreases users.len(),
{
    if users.len() > 0 {
        assert(!users.drop_last().contains(name)) by {
            if users.drop_last().contains(name) {
                let j = choose|j: int| 0 <= j < users.drop_last().len() && users.drop_last()[j] == name;
                assert(users[j] == name);
            }
        }
        lemma_absent_occurs_never(users.drop_last(), name);
        assert(users.last() != name) by {
            if users.last() == name {
                assert(users[users.len() - 1] == name);
            }
        }
    }
}

/// Registering a name twice is the same as registering it once, and a new, non-empty name
/// then occurs exactly once.
pub proof fn lemma_register_twice(users: Seq<Seq<char>>, name: Seq<char>)
    ensures
        registered(registered(users, name), name) == registered(users, name),
        is_new_user(users, name) ==> occurrences(registered(registered(users, name), name), name)
            == 1,
{
    if is_new_user(users, name) {
        let once = users.push(name);
        assert(once[users.len() as int] == name);
        assert(once.contains(name));
        assert(once.drop_last() =~= users);
        lemma_absent_occurs_never(users, name);
    }
}

} // verus!
