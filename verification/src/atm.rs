//! The teller machine: keypad, actions, authentication phases and the
//! transition between machine states.
//!
//! A machine state is a value. [`Atm::next_state`] reads one state and one
//! action and returns the state that follows; nothing else is read or changed.
//! What it returns is stated over [`Snapshot`], the mathematical view of a
//! state.

use crate::hashing::{hash, spec_hash};
use vstd::prelude::*;

verus! {

/// The keys on the keypad.
#[derive(Hash, Debug, PartialEq, Eq, Structural, Clone, Copy)]
pub enum Key {
    One,
    Two,
    Three,
    Four,
    Enter,
}

impl Key {
    /// The number a key stands for. `Enter` has one too, although no amount
    /// that the machine decodes ever reads it: the register of a machine that
    /// started with digits only holds digits only.
    pub open spec fn digit(self) -> nat {
        match self {
            Key::One => 1,
            Key::Two => 2,
            Key::Three => 3,
            Key::Four => 4,
            Key::Enter => 5,
        }
    }

    /// The label printed on a key.
    pub open spec fn label(self) -> Seq<char> {
        match self {
            Key::One => "one"@,
            Key::Two => "two"@,
            Key::Three => "three"@,
            Key::Four => "four"@,
            Key::Enter => "enter"@,
        }
    }
}

impl<'a> From<Key> for &'a str {
    fn from(value: Key) -> (label: &'a str)
        ensures
            label@ == value.label(),
    {
        match value {
            Key::One => "one",
            Key::Two => "two",
            Key::Three => "three",
            Key::Four => "four",
            Key::Enter => "enter",
        }
    }
}

impl<'a> vstd::std_specs::convert::FromSpecImpl<Key> for &'a str {
    open spec fn obeys_from_spec() -> bool {
        true
    }

    open spec fn from_spec(value: Key) -> &'a str {
        match value {
            Key::One => "one",
            Key::Two => "two",
            Key::Three => "three",
            Key::Four => "four",
            Key::Enter => "enter",
        }
    }
}

impl From<Key> for u64 {
    fn from(value: Key) -> (number: u64)
        ensures
            number == value.digit(),
    {
        match value {
            Key::One => 1,
            Key::Two => 2,
            Key::Three => 3,
            Key::Four => 4,
            Key::Enter => 5,
        }
    }
}

impl vstd::std_specs::convert::FromSpecImpl<Key> for u64 {
    open spec fn obeys_from_spec() -> bool {
        true
    }

    open spec fn from_spec(value: Key) -> u64 {
        value.digit() as u64
    }
}

/// The amount that a sequence of keys spells in decimal: the key pressed
/// first is the most significant digit, the key pressed last the least
/// significant one. No key spells zero.
pub open spec fn decimal_value(keys: Seq<Key>) -> nat
    decreases keys.len(),
{
    if keys.len() == 0 {
        0
    } else {
        10 * decimal_value(keys.drop_last()) + keys.last().digit()
    }
}

/// Whether none of the keys is `Enter`.
pub open spec fn digits_only(keys: Seq<Key>) -> bool {
    forall|i: int| 0 <= i < keys.len() ==> keys[i] != Key::Enter
}

/// The keys pressed so far never spell more than all of them do.
pub proof fn decimal_value_of_prefix(keys: Seq<Key>, n: int)
    requires
        0 <= n <= keys.len(),
    ensures
        decimal_value(keys.take(n)) <= decimal_value(keys),
    decreases keys.len(),
{
    if n == keys.len() {
        assert(keys.take(n) == keys);
    } else {
        assert(keys.drop_last().take(n) == keys.take(n));
        decimal_value_of_prefix(keys.drop_last(), n);
    }
}

/// Decodes the amount that the keys spell, where a `u64` can hold it.
pub fn checked_keys_into_u64(keys: &Vec<Key>) -> (amount: Option<u64>)
    ensures
        decimal_value(keys@) <= u64::MAX ==> amount == Some(decimal_value(keys@) as u64),
        decimal_value(keys@) > u64::MAX ==> amount is None,
{
    let mut value: u64 = 0;
    let mut i: usize = 0;
    while i < keys.len()
        invariant
            i <= keys.len(),
            value == decimal_value(keys@.take(i as int)),
        decreases keys.len() - i,
    {
        let digit: u64 = u64::from(keys[i]);
        proof {
            let upto = keys@.take(i + 1);
            assert(upto.drop_last() == keys@.take(i as int));
            assert(upto.last() == keys@[i as int]);
            assert(decimal_value(upto) == 10 * value + digit);
            decimal_value_of_prefix(keys@, i + 1);
        }
        let shifted: u64 = match value.checked_mul(10) {
            Some(shifted) => shifted,
            None => {
                return None;
            },
        };
        value = match shifted.checked_add(digit) {
            Some(sum) => sum,
            None => {
                return None;
            },
        };
        i += 1;
    }
    assert(keys@.take(i as int) == keys@);
    Some(value)
}

/// Decodes the amount that the keys spell.
pub fn keys_into_u64(keys: &Vec<Key>) -> (amount: u64)
    requires
        decimal_value(keys@) <= u64::MAX,
    ensures
        amount == decimal_value(keys@),
{
    checked_keys_into_u64(keys).unwrap()
}

/// Something a user can do to the machine.
#[derive(Debug, PartialEq, Eq, Structural, Clone, Copy)]
pub enum Action {
    /// Swipe a card. The value is the digest of the PIN that has to be keyed
    /// in next.
    SwipeCard(u64),
    /// Press a key on the keypad.
    PressKey(Key),
}

/// How far a session has got.
#[derive(Debug, PartialEq, Eq, Structural, Clone, Copy)]
pub enum Auth {
    /// No session has begun. The machine waits for a card.
    Waiting,
    /// A card was swiped and gave the enclosed digest of its PIN. The machine
    /// waits for the PIN.
    Authenticating(u64),
    /// The PIN matched. The machine waits for the amount to hand out.
    Authenticated,
}

impl Default for Auth {
    fn default() -> (phase: Auth)
        ensures
            phase == Auth::Waiting,
    {
        Auth::Waiting
    }
}

/// One state of the machine. A card tells the machine the digest of its PIN;
/// any number of digit keys followed by `Enter` is then taken as the PIN. A
/// wrong PIN ends the session. After the right one the next digits and
/// `Enter` are taken as an amount, which is handed out if the machine holds
/// that much. There is no account balance.
#[derive(Debug, PartialEq, Eq)]
pub struct Atm {
    /// How much money is in the machine.
    pub cash_inside: u64,
    /// How far the session has got, with the digest of the PIN while one is
    /// awaited.
    pub expected_pin_hash: Auth,
    /// The keys pressed since the last `Enter`.
    pub keystroke_register: Vec<Key>,
}

/// A machine state as a mathematical value.
pub struct Snapshot {
    /// The cash reserve.
    pub cash: nat,
    /// The authentication phase.
    pub phase: Auth,
    /// The keys pressed and not yet confirmed, oldest first.
    pub register: Seq<Key>,
}

impl View for Atm {
    type V = Snapshot;

    open spec fn view(&self) -> Snapshot {
        Snapshot {
            cash: self.cash_inside as nat,
            phase: self.expected_pin_hash,
            register: self.keystroke_register@,
        }
    }
}

impl Clone for Atm {
    fn clone(&self) -> (copy: Atm)
        ensures
            copy@ == self@,
    {
        Atm {
            cash_inside: self.cash_inside,
            expected_pin_hash: self.expected_pin_hash,
            keystroke_register: self.keystroke_register.clone(),
        }
    }
}

impl Snapshot {
    /// The state after a card with the given PIN digest was swiped: a waiting
    /// machine takes the digest, any other ignores the card. The register and
    /// the reserve are left as they are.
    pub open spec fn swipe_card(self, digest: u64) -> Snapshot {
        if self.phase is Waiting {
            Snapshot { phase: Auth::Authenticating(digest), ..self }
        } else {
            self
        }
    }

    /// The state after a digit key joined the register.
    pub open spec fn append(self, key: Key) -> Snapshot {
        Snapshot { register: self.register.push(key), ..self }
    }

    /// The state after a PIN with the given digest was confirmed: the session
    /// goes on if that is the digest the card gave, and ends otherwise. The
    /// register is empty afterwards either way.
    pub open spec fn confirm_pin(self, entered: u64) -> Snapshot {
        Snapshot {
            cash: self.cash,
            phase: if self.phase == Auth::Authenticating(entered) {
                Auth::Authenticated
            } else {
                Auth::Waiting
            },
            register: Seq::empty(),
        }
    }

    /// The state after a key was pressed while a PIN is keyed in.
    pub open spec fn pin_check(self, key: Key) -> Snapshot {
        if key is Enter {
            self.confirm_pin(spec_hash(self.register))
        } else {
            self.append(key)
        }
    }

    /// The state after the given amount was asked for: it leaves the reserve
    /// if the reserve holds that much. The session ends either way.
    pub open spec fn dispense(self, amount: nat) -> Snapshot {
        Snapshot {
            cash: if amount <= self.cash {
                (self.cash - amount) as nat
            } else {
                self.cash
            },
            phase: Auth::Waiting,
            register: Seq::empty(),
        }
    }

    /// The state after a key was pressed while an amount is keyed in.
    pub open spec fn withdraw(self, key: Key) -> Snapshot {
        if key is Enter {
            self.dispense(decimal_value(self.register))
        } else {
            self.append(key)
        }
    }

    /// The state after a key was pressed. A waiting machine ignores it.
    pub open spec fn key_press(self, key: Key) -> Snapshot {
        match self.phase {
            Auth::Waiting => self,
            Auth::Authenticating(_) => self.pin_check(key),
            Auth::Authenticated => self.withdraw(key),
        }
    }

    /// The state that follows this one on the given action.
    pub open spec fn next_state(self, action: Action) -> Snapshot {
        match action {
            Action::SwipeCard(digest) => self.swipe_card(digest),
            Action::PressKey(key) => self.key_press(key),
        }
    }
}

impl Atm {
    /// Takes a card's PIN digest if the machine is waiting for a card, and
    /// ignores the card otherwise.
    pub fn swip_card(&mut self, hash_pin: u64)
        ensures
            final(self)@ == old(self)@.swipe_card(hash_pin),
    {
        match self.expected_pin_hash {
            Auth::Waiting => {
                self.expected_pin_hash = Auth::Authenticating(hash_pin);
            },
            _ => {},
        }
    }

    /// Handles a key according to the phase of the session.
    pub fn key_press(&mut self, key: Key)
        ensures
            final(self)@ == old(self)@.key_press(key),
    {
        match self.expected_pin_hash {
            Auth::Authenticating(_) => self.pin_check(key),
            Auth::Authenticated => self.withdraw(key),
            Auth::Waiting => {},
        }
    }

    /// Ends the keying in of a PIN whose digest is `entered`.
    pub fn confirm_pin(&mut self, entered: u64)
        ensures
            final(self)@ == old(self)@.confirm_pin(entered),
    {
        let matched = match self.expected_pin_hash {
            Auth::Authenticating(expected) => expected == entered,
            _ => false,
        };
        self.keystroke_register.clear();
        if matched {
            self.expected_pin_hash = Auth::Authenticated;
        } else {
            self.expected_pin_hash = Auth::default();
        }
    }

    /// Handles a key of the PIN: a digit joins the register, `Enter` has the
    /// register digested and compared with what the card gave.
    pub fn pin_check(&mut self, key: Key)
        ensures
            final(self)@ == old(self)@.pin_check(key),
    {
        match key {
            Key::Enter => {
                let pin_hash = hash(&self.keystroke_register);
                self.confirm_pin(pin_hash);
            },
            _ => self.keystroke_register.push(key),
        }
    }

    /// Handles a key of the amount: a digit joins the register, `Enter` has
    /// the register decoded and that amount handed out, if the machine holds
    /// it.
    pub fn withdraw(&mut self, key: Key)
        ensures
            final(self)@ == old(self)@.withdraw(key),
    {
        match key {
            Key::Enter => {
                match checked_keys_into_u64(&self.keystroke_register) {
                    Some(amount) => {
                        if self.cash_inside >= amount {
                            self.cash_inside -= amount;
                        }
                    },
                    None => {},
                }
                self.expected_pin_hash = Auth::default();
                self.keystroke_register.clear();
            },
            _ => self.keystroke_register.push(key),
        }
    }

    /// Returns the state that follows `starting_state` on the action `t`.
    pub fn next_state(starting_state: &Atm, t: &Action) -> (next: Atm)
        ensures
            next@ == starting_state@.next_state(*t),
    {
        let mut atm = starting_state.clone();
        match t {
            Action::SwipeCard(value) => atm.swip_card(*value),
            Action::PressKey(value) => atm.key_press(*value),
        }
        atm
    }
}

} // verus!
