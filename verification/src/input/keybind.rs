use vstd::prelude::*;

use crate::input::KeyCode;
use crate::input::KeyState;
use crate::input::KeyStatus;

verus! {

/// A combination of keys that acts when all of them are held down at once.
///
/// Its view is the list of its keys in the order in which they were given.
#[derive(Debug)]
pub struct Keybind {
    keys: Vec<KeyCode>,
}

impl View for Keybind {
    type V = Seq<KeyCode>;

    closed spec fn view(&self) -> Seq<KeyCode> {
        self.keys@
    }
}

impl Keybind {
    /// When a keybind with the keys `keys` is triggered under `state`: it has
    /// at least one key, and every one of its keys is pressed.
    pub open spec fn triggers(keys: Seq<KeyCode>, state: &KeyState) -> bool {
        keys.len() > 0 && forall|i: int|
            0 <= i < keys.len() ==> state.status(#[trigger] keys[i]) == KeyStatus::Pressed
    }

    /// Whether this keybind is triggered under `state`.
    pub open spec fn triggered_in(&self, state: &KeyState) -> bool {
        Self::triggers(self@, state)
    }

    /// The text shown for a keybind with the keys `keys`: the labels of the
    /// keys in order, with " + " between neighbours.
    pub open spec fn text_of(keys: Seq<KeyCode>) -> Seq<char>
        decreases keys.len(),
    {
        if keys.len() == 0 {
            Seq::<char>::empty()
        } else if keys.len() == 1 {
            keys[0].label()
        } else {
            Self::text_of(keys.drop_last()) + " + "@ + keys.last().label()
        }
    }

    /// Creates a keybind without keys. It is never triggered.
    pub fn empty() -> (r: Self)
        ensures
            r@ == Seq::<KeyCode>::empty(),
    {
        Self { keys: Vec::new() }
    }

    /// Creates a keybind from the given keys.
    pub fn new(keys: Vec<KeyCode>) -> (r: Self)
        ensures
            r@ == keys@,
    {
        Self { keys }
    }

    /// Appends `key` to the keys of this keybind and returns the keybind, so
    /// that calls can be chained.
    pub fn add(&mut self, key: KeyCode) -> (r: &Self)
        ensures
            final(self)@ == old(self)@.push(key),
            r@ == old(self)@.push(key),
    {
        self.keys.push(key);
        self
    }

    /// True if this keybind has at least one key and all its keys are pressed
    /// in `state`.
    pub fn triggered(&self, state: &KeyState) -> (r: bool)
        ensures
            r == self.triggered_in(state),
    {
        if self.keys.len() == 0 {
            return false;
        }
        let mut i: usize = 0;
        while i < self.keys.len()
            invariant
                0 <= i <= self.keys.len(),
                forall|j: int|
                    0 <= j < i ==> state.status(#[trigger] self.keys@[j]) == KeyStatus::Pressed,
            decreases self.keys.len() - i,
        {
            if state.released(self.keys[i]) {
                return false;
            }
            i = i + 1;
        }
        true
    }

    /// Returns the text shown for this keybind, such as "Left Control + A".
    pub fn to_string(&self) -> (r: String)
        ensures
            r@ == Self::text_of(self@),
    {
        let mut formatted = String::new();
        let mut i: usize = 0;
        while i < self.keys.len()
            invariant
                0 <= i <= self.keys.len(),
                formatted@ == Self::text_of(self.keys@.take(i as int)),
            decreases self.keys.len() - i,
        {
            proof {
                assert(self.keys@.take(i + 1).drop_last() =~= self.keys@.take(i as int));
            }
            if i > 0 {
                formatted.append(" + ");
            }
            formatted.append(self.keys[i].as_str());
            i = i + 1;
        }
        proof {
            assert(self.keys@.take(i as int) =~= self.keys@);
        }
        formatted
    }

    /// Returns the keys of this keybind in order.
    pub fn keycodes(self) -> (r: Vec<KeyCode>)
        ensures
            r@ == self@,
    {
        self.keys
    }
}

impl Clone for Keybind {
    /// The copy has the same keys in the same order.
    fn clone(&self) -> (r: Self)
        ensures
            r@ == self@,
    {
        let mut keys: Vec<KeyCode> = Vec::new();
        let mut i: usize = 0;
        while i < self.keys.len()
            invariant
                0 <= i <= self.keys.len(),
                keys@ == self.keys@.take(i as int),
            decreases self.keys.len() - i,
        {
            keys.push(self.keys[i]);
            proof {
                assert(self.keys@.take(i + 1) =~= self.keys@.take(i as int).push(self.keys@[i as int]));
            }
            i = i + 1;
        }
        proof {
            assert(self.keys@.take(i as int) =~= self.keys@);
        }
        Self { keys }
    }
}

/// A keybind without keys is never triggered.
pub proof fn lemma_empty_never_triggers(state: &KeyState)
    ensures
        !Keybind::triggers(Seq::<KeyCode>::empty(), state),
{
}

/// A keybind with at least one key is triggered exactly when every key that
/// occurs in it is pressed.
pub proof fn lemma_triggered_iff_all_pressed(keybind: &Keybind, state: &KeyState)
    requires
        keybind@.len() > 0,
    ensures
        keybind.triggered_in(state) <==> (forall|keycode: KeyCode|
            keybind@.contains(keycode) ==> state.status(keycode) == KeyStatus::Pressed),
{
    let keys = keybind@;
    if keybind.triggered_in(state) {
        assert forall|keycode: KeyCode| keys.contains(keycode) implies state.status(keycode)
            == KeyStatus::Pressed by {
            let i = choose|i: int| 0 <= i < keys.len() && keys[i] == keycode;
            assert(state.status(keys[i]) == KeyStatus::Pressed);
        }
    }
    if forall|keycode: KeyCode|
        keys.contains(keycode) ==> state.status(keycode) == KeyStatus::Pressed {
        assert forall|i: int| 0 <= i < keys.len() implies state.status(#[trigger] keys[i])
            == KeyStatus::Pressed by {
            assert(keys.contains(keys[i]));
        }
    }
}

/// Whatever the keybind: it is triggered exactly when it has a key and every
/// key that occurs in it is pressed.
pub proof fn lemma_triggered_exactly(keybind: &Keybind, state: &KeyState)
    ensures
        keybind.triggered_in(state) <==> keybind@.len() > 0 && (forall|keycode: KeyCode|
            keybind@.contains(keycode) ==> state.status(keycode) == KeyStatus::Pressed),
{
    if keybind@.len() > 0 {
        lemma_triggered_iff_all_pressed(keybind, state);
    }
}

/// A keybind in which any key is released is not triggered. In particular a
/// keybind is not triggered while all keys are released.
pub proof fn lemma_released_key_blocks(keybind: &Keybind, state: &KeyState, keycode: KeyCode)
    requires
        keybind@.contains(keycode),
        state.status(keycode) == KeyStatus::Released,
    ensures
        !keybind.triggered_in(state),
{
    let keys = keybind@;
    let i = choose|i: int| 0 <= i < keys.len() && keys[i] == keycode;
    assert(state.status(keys[i]) == KeyStatus::Released);
}

/// A keybind with a single key is triggered exactly when that key is pressed.
pub proof fn lemma_single_key(keybind: &Keybind, state: &KeyState)
    requires
        keybind@.len() == 1,
    ensures
        keybind.triggered_in(state) <==> state.status(keybind@[0]) == KeyStatus::Pressed,
{
}

/// Only the set of keys matters: two keybinds in which the same keys occur,
/// however often and in whatever order, are triggered by the same states.
pub proof fn lemma_duplicates_do_not_matter(a: &Keybind, b: &Keybind, state: &KeyState)
    requires
        a@.to_set() == b@.to_set(),
    ensures
        a.triggered_in(state) == b.triggered_in(state),
{
    if a@.len() == 0 {
        if b@.len() > 0 {
            assert(b@.contains(b@[0]));
            assert(b@.to_set().contains(b@[0]));
            assert(a@.to_set().contains(b@[0]));
            assert(a@.contains(b@[0]));
        }
    } else {
        assert(a@.contains(a@[0]));
        assert(a@.to_set().contains(a@[0]));
        assert(b@.to_set().contains(a@[0]));
        assert(b@.contains(a@[0]));
        lemma_triggered_iff_all_pressed(a, state);
        lemma_triggered_iff_all_pressed(b, state);
        assert forall|keycode: KeyCode| a@.contains(keycode) == b@.contains(keycode) by {
            assert(a@.contains(keycode) == a@.to_set().contains(keycode));
            assert(b@.contains(keycode) == b@.to_set().contains(keycode));
        }
    }
}

/// Holding the keys of a keybind down in any order triggers it only once
/// the last of them is down: recording a press can trigger a keybind only if
/// the pressed key belongs to it, and recording a release of one of its keys
/// always leaves it untriggered.
pub proof fn lemma_transition(
    keybind: &Keybind,
    before: &KeyState,
    after: &KeyState,
    keycode: KeyCode,
    keystatus: KeyStatus,
)
    requires
        after@ == before@.insert(keycode, keystatus),
    ensures
        keystatus == KeyStatus::Released && keybind@.contains(keycode) ==> !keybind.triggered_in(
            after,
        ),
        !keybind@.contains(keycode) ==> keybind.triggered_in(after) == keybind.triggered_in(
            before,
        ),
        keystatus == KeyStatus::Pressed && keybind@.len() > 0 ==> (keybind.triggered_in(after)
            <==> (forall|other: KeyCode|
            keybind@.contains(other) && other != keycode ==> before.status(other)
                == KeyStatus::Pressed)),
{
    let keys = keybind@;
    assert(after.status(keycode) == keystatus);
    assert forall|other: KeyCode| other != keycode implies after.status(other) == before.status(
        other,
    ) by {}
    if keystatus == KeyStatus::Released && keys.contains(keycode) {
        lemma_released_key_blocks(keybind, after, keycode);
    }
    if !keys.contains(keycode) {
        assert forall|i: int| 0 <= i < keys.len() implies after.status(#[trigger] keys[i])
            == before.status(keys[i]) by {
            assert(keys.contains(keys[i]));
        }
    }
    if keystatus == KeyStatus::Pressed && keys.len() > 0 {
        lemma_triggered_iff_all_pressed(keybind, after);
    }
}

} // verus!
