//! What holds of every run of the machine, proved over [`Snapshot`].

use crate::atm::{decimal_value, digits_only, Action, Auth, Key, Snapshot};
use crate::hashing::spec_hash;
use vstd::arithmetic::power::pow;
use vstd::prelude::*;

verus! {

/// The state after the keys were pressed one after the other, the first of
/// them first.
pub open spec fn press_all(start: Snapshot, keys: Seq<Key>) -> Snapshot
    decreases keys.len(),
{
    if keys.len() == 0 {
        start
    } else {
        press_all(start, keys.drop_last()).next_state(Action::PressKey(keys.last()))
    }
}

/// Whether a state is one that a run reaches from an idle machine: a waiting
/// machine holds no keys, and the register never holds `Enter`.
pub open spec fn settled(state: Snapshot) -> bool {
    &&& state.phase is Waiting ==> state.register.len() == 0
    &&& digits_only(state.register)
}

/// A card swiped while a session is under way changes nothing: neither the
/// digest that the session began with nor the keys pressed so far.
pub proof fn swipe_ignored_in_session(state: Snapshot, digest: u64)
    requires
        !(state.phase is Waiting),
    ensures
        state.next_state(Action::SwipeCard(digest)) == state,
{
}

/// A key pressed before any card was swiped changes nothing.
pub proof fn key_ignored_while_waiting(state: Snapshot, key: Key)
    requires
        state.phase is Waiting,
    ensures
        state.next_state(Action::PressKey(key)) == state,
{
}

/// Whether the state has no use for the action: a card during a session, or a
/// key before any card.
pub open spec fn out_of_order(state: Snapshot, action: Action) -> bool {
    match action {
        Action::SwipeCard(_) => !(state.phase is Waiting),
        Action::PressKey(_) => state.phase is Waiting,
    }
}

/// The actions that change nothing are exactly those that come out of order,
/// so that a caller sees a rejection by comparing the two states.
pub proof fn unchanged_means_out_of_order(state: Snapshot, action: Action)
    ensures
        state.next_state(action) == state <==> out_of_order(state, action),
{
    if let Action::PressKey(key) = action {
        if !(state.phase is Waiting) && !(key is Enter) {
            assert(state.next_state(action).register.len() == state.register.len() + 1);
        }
    }
}

/// `Enter` while a PIN is awaited decides the session by the digest of the
/// register alone: the digest that the card gave authenticates, any other
/// sends the machine back to waiting and forgets the card's digest. The
/// register is empty afterwards and the reserve untouched in both cases.
pub proof fn enter_decides_pin(state: Snapshot, expected: u64)
    requires
        state.phase == Auth::Authenticating(expected),
    ensures
        spec_hash(state.register) == expected ==> state.next_state(Action::PressKey(Key::Enter))
            == (Snapshot {
            cash: state.cash,
            phase: Auth::Authenticated,
            register: Seq::empty(),
        }),
        spec_hash(state.register) != expected ==> state.next_state(Action::PressKey(Key::Enter))
            == (Snapshot { cash: state.cash, phase: Auth::Waiting, register: Seq::empty() }),
{
}

/// Digit keys pressed during a session join the register in the order in
/// which they were pressed, and change nothing else.
pub proof fn digits_accumulate(state: Snapshot, digits: Seq<Key>)
    requires
        !(state.phase is Waiting),
        digits_only(digits),
    ensures
        press_all(state, digits) == (Snapshot { register: state.register + digits, ..state }),
    decreases digits.len(),
{
    if digits.len() == 0 {
        assert(state.register + digits == state.register);
    } else {
        digits_accumulate(state, digits.drop_last());
        assert(digits.last() != Key::Enter);
        assert((state.register + digits.drop_last()).push(digits.last()) == state.register
            + digits);
    }
}

/// Keying in the digits of a PIN and `Enter` on a machine that has just taken
/// the card with the digest of that very PIN authenticates, with an empty
/// register.
pub proof fn right_pin_authenticates(cash: nat, pin: Seq<Key>)
    requires
        digits_only(pin),
    ensures
        press_all(
            (Snapshot { cash, phase: Auth::Waiting, register: Seq::empty() }).next_state(
                Action::SwipeCard(spec_hash(pin)),
            ),
            pin,
        ).next_state(Action::PressKey(Key::Enter)) == (Snapshot {
            cash,
            phase: Auth::Authenticated,
            register: Seq::empty(),
        }),
{
    let swiped = Snapshot {
        cash,
        phase: Auth::Authenticating(spec_hash(pin)),
        register: Seq::empty(),
    };
    digits_accumulate(swiped, pin);
    assert(Seq::<Key>::empty() + pin == pin);
}

/// Keying in digits whose digest is not the one that the card gave, and
/// `Enter`, sends the machine back to waiting with an empty register and the
/// reserve untouched.
pub proof fn wrong_pin_resets(cash: nat, expected: u64, entered: Seq<Key>)
    requires
        digits_only(entered),
        spec_hash(entered) != expected,
    ensures
        press_all(
            (Snapshot { cash, phase: Auth::Waiting, register: Seq::empty() }).next_state(
                Action::SwipeCard(expected),
            ),
            entered,
        ).next_state(Action::PressKey(Key::Enter)) == (Snapshot {
            cash,
            phase: Auth::Waiting,
            register: Seq::empty(),
        }),
{
    let swiped = Snapshot { cash, phase: Auth::Authenticating(expected), register: Seq::empty() };
    digits_accumulate(swiped, entered);
    assert(Seq::<Key>::empty() + entered == entered);
}

/// Asking for an amount takes exactly that amount from the reserve if the
/// reserve holds it and nothing otherwise, so the reserve never falls below
/// zero. The session is over afterwards in both cases.
pub proof fn dispense_is_bounded(state: Snapshot, amount: nat)
    ensures
        amount <= state.cash ==> state.dispense(amount).cash == state.cash - amount,
        amount > state.cash ==> state.dispense(amount).cash == state.cash,
        state.dispense(amount).phase is Waiting,
        state.dispense(amount).register.len() == 0,
{
}

/// `Enter` after authentication asks for the amount that the register
/// spells.
pub proof fn enter_withdraws(state: Snapshot)
    requires
        state.phase is Authenticated,
    ensures
        state.next_state(Action::PressKey(Key::Enter)) == state.dispense(
            decimal_value(state.register),
        ),
{
}

/// Keying in the digits of an amount and `Enter` in a session that has just
/// been authenticated asks for the amount that the digits spell.
pub proof fn keyed_amount_is_asked_for(cash: nat, digits: Seq<Key>)
    requires
        digits_only(digits),
    ensures
        press_all(
            (Snapshot { cash, phase: Auth::Authenticated, register: Seq::empty() }),
            digits,
        ).next_state(Action::PressKey(Key::Enter)) == (Snapshot {
            cash: if decimal_value(digits) <= cash {
                (cash - decimal_value(digits)) as nat
            } else {
                cash
            },
            phase: Auth::Waiting,
            register: Seq::empty(),
        }),
{
    let authenticated = Snapshot { cash, phase: Auth::Authenticated, register: Seq::empty() };
    digits_accumulate(authenticated, digits);
    assert(Seq::<Key>::empty() + digits == digits);
}

/// No action adds to the reserve.
pub proof fn cash_never_grows(state: Snapshot, action: Action)
    ensures
        state.next_state(action).cash <= state.cash,
{
}

/// Cash leaves the machine only on `Enter` in an authenticated session.
pub proof fn cash_leaves_only_after_authentication(state: Snapshot, action: Action)
    ensures
        state.next_state(action).cash != state.cash ==> state.phase is Authenticated && action
            == Action::PressKey(Key::Enter),
{
}

/// A session becomes authenticated only on `Enter` while the register's
/// digest is the one that the card gave.
pub proof fn authentication_needs_matching_pin(state: Snapshot, action: Action)
    ensures
        !(state.phase is Authenticated) && state.next_state(action).phase is Authenticated
            ==> action == Action::PressKey(Key::Enter) && state.phase == Auth::Authenticating(
            spec_hash(state.register),
        ),
{
}

/// Whenever an action ends a session, the register is empty afterwards.
pub proof fn reset_clears_register(state: Snapshot, action: Action)
    ensures
        !(state.phase is Waiting) && state.next_state(action).phase is Waiting
            ==> state.next_state(action).register.len() == 0,
{
}

/// Every action keeps a settled state settled: `Enter` never reaches the
/// register, so no decoded amount ever holds its digit.
pub proof fn next_state_keeps_settled(state: Snapshot, action: Action)
    requires
        settled(state),
    ensures
        settled(state.next_state(action)),
{
}

/// The amount is positional: the keys pressed before the last `later.len()`
/// ones weigh ten to that power.
pub proof fn decimal_value_is_positional(earlier: Seq<Key>, later: Seq<Key>)
    ensures
        decimal_value(earlier + later) == decimal_value(earlier) * pow(10, later.len())
            + decimal_value(later),
    decreases later.len(),
{
    reveal(pow);
    if later.len() == 0 {
        assert(earlier + later == earlier);
    } else {
        let shorter = later.drop_last();
        decimal_value_is_positional(earlier, shorter);
        assert((earlier + later).drop_last() == earlier + shorter);
        assert((earlier + later).last() == later.last());
        let high = decimal_value(earlier) as int;
        let weight = pow(10, shorter.len());
        assert(pow(10, later.len()) == 10 * weight);
        assert(10 * (high * weight) == high * (10 * weight)) by (nonlinear_arith);
    }
}

/// An amount of `keys.len()` digits is below ten to that power.
pub proof fn decimal_value_is_below_its_power(keys: Seq<Key>)
    ensures
        decimal_value(keys) < pow(10, keys.len()),
    decreases keys.len(),
{
    reveal(pow);
    if keys.len() > 0 {
        decimal_value_is_below_its_power(keys.drop_last());
    }
}

/// Up to nineteen keys always spell an amount that a `u64` holds, so that
/// [`crate::atm::keys_into_u64`] can be called on them.
pub proof fn short_amounts_fit(keys: Seq<Key>)
    requires
        keys.len() <= 19,
    ensures
        decimal_value(keys) <= u64::MAX,
    decreases 19 - keys.len(),
{
    if keys.len() == 19 {
        decimal_value_is_below_its_power(keys);
        assert(pow(10, 19) == 10_000_000_000_000_000_000) by {
            reveal_with_fuel(pow, 20);
        }
    } else {
        let longer = keys.push(Key::One);
        short_amounts_fit(longer);
        assert(longer.drop_last() == keys);
    }
}

} // verus!
