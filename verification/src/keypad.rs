//! The sixteen-key hexadecimal keypad and its mapping to host keys.

use vstd::prelude::*;

verus! {

/// A key of the host keyboard that stands for a keypad key. The variants
/// are named after the key caps of a QWERTY keyboard.
#[derive(Clone, Copy, Debug, PartialEq, Eq)]
pub enum HostKey {
    X,
    Key1,
    Key2,
    Key3,
    Q,
    W,
    E,
    A,
    S,
    D,
    Z,
    C,
    Key4,
    R,
    F,
    V,
}

/// The host keys in the order of the logical keys `0x0..=0xF`.
pub open spec fn keymap() -> Seq<HostKey> {
    seq![
        HostKey::X,
        HostKey::Key1,
        HostKey::Key2,
        HostKey::Key3,
        HostKey::Q,
        HostKey::W,
        HostKey::E,
        HostKey::A,
        HostKey::S,
        HostKey::D,
        HostKey::Z,
        HostKey::C,
        HostKey::Key4,
        HostKey::R,
        HostKey::F,
        HostKey::V,
    ]
}

/// The host key that stands for the logical key `key`, or `None` if `key`
/// is no keypad key.
pub fn host_key(key: u8) -> (host: Option<HostKey>)
    ensures
        host == (if key < 16 {
            Some(keymap()[key as int])
        } else {
            None
        }),
{
    match key {
        0x0 => Some(HostKey::X),
        0x1 => Some(HostKey::Key1),
        0x2 => Some(HostKey::Key2),
        0x3 => Some(HostKey::Key3),
        0x4 => Some(HostKey::Q),
        0x5 => Some(HostKey::W),
        0x6 => Some(HostKey::E),
        0x7 => Some(HostKey::A),
        0x8 => Some(HostKey::S),
        0x9 => Some(HostKey::D),
        0xA => Some(HostKey::Z),
        0xB => Some(HostKey::C),
        0xC => Some(HostKey::Key4),
        0xD => Some(HostKey::R),
        0xE => Some(HostKey::F),
        0xF => Some(HostKey::V),
        _ => None,
    }
}

/// Which of the sixteen logical keys are held down.
#[derive(Clone, Copy, Debug, PartialEq, Eq)]
pub struct Keypad {
    /// `down[k]` is whether logical key `k` is held down.
    pub down: [bool; 16],
}

impl View for Keypad {
    type V = Seq<bool>;

    open spec fn view(&self) -> Seq<bool> {
        self.down@
    }
}

/// Whether `key` is down and no key with a lower index is.
pub open spec fn is_lowest_down(keys: Seq<bool>, key: int) -> bool {
    &&& 0 <= key < keys.len()
    &&& keys[key]
    &&& forall|j: int| 0 <= j < key ==> !keys[j]
}

/// The lowest-indexed key that is down, or `None` if no key is down.
pub open spec fn lowest_down(keys: Seq<bool>) -> Option<u8> {
    if exists|key: int| is_lowest_down(keys, key) {
        Some((choose|key: int| is_lowest_down(keys, key)) as u8)
    } else {
        None
    }
}

/// At most one key is the lowest key down, so `lowest_down` is that key;
/// and where no key is down at all, it is `None`.
pub proof fn lemma_lowest_down(keys: Seq<bool>)
    ensures
        forall|key: int| is_lowest_down(keys, key) && key < 256 ==> lowest_down(keys) == Some(
            key as u8,
        ),
        (forall|j: int| 0 <= j < keys.len() ==> !keys[j]) ==> lowest_down(keys).is_none(),
{
    assert forall|key: int| is_lowest_down(keys, key) && key < 256 implies lowest_down(keys)
        == Some(key as u8) by {
        let chosen = choose|key: int| is_lowest_down(keys, key);
        assert(is_lowest_down(keys, chosen));
        if chosen < key {
            assert(!keys[chosen]);
        }
        if key < chosen {
            assert(!keys[key]);
        }
    }
}

impl Keypad {
    /// A keypad with no key down.
    pub fn new() -> (keypad: Self)
        ensures
            keypad@ == Seq::new(16, |k: int| false),
    {
        Keypad { down: [false; 16] }
    }

    /// Records whether `key` is down. A `key` above `0xF` is ignored.
    pub fn set_key(&mut self, key: u8, down: bool)
        ensures
            final(self)@ == (if key < 16 {
                old(self)@.update(key as int, down)
            } else {
                old(self)@
            }),
    {
        if key < 16 {
            self.down[key as usize] = down;
        }
    }

    /// Whether `key` is down, or `None` if `key` is no keypad key.
    pub fn is_down(&self, key: u8) -> (down: Option<bool>)
        ensures
            down == (if key < 16 {
                Some(self@[key as int])
            } else {
                None
            }),
    {
        if key < 16 {
            Some(self.down[key as usize])
        } else {
            None
        }
    }

    /// Scans the keys in index order and returns the first one that is
    /// down, or `None` if none is.
    pub fn first_down(&self) -> (key: Option<u8>)
        ensures
            key == lowest_down(self@),
            key matches Some(k) ==> is_lowest_down(self@, k as int),
            key.is_none() ==> forall|j: int| 0 <= j < 16 ==> !self@[j],
    {
        let mut k: u8 = 0;
        while k < 16
            invariant
                k <= 16,
                forall|j: int| 0 <= j < k ==> !self@[j],
            decreases 16 - k,
        {
            if self.down[k as usize] {
                proof {
                    lemma_lowest_down(self@);
                    assert(is_lowest_down(self@, k as int));
                }
                return Some(k);
            }
            k += 1;
        }
        proof {
            lemma_lowest_down(self@);
        }
        None
    }
}

} // verus!
