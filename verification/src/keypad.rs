//! The cabinet's buttons and what they set in the input ports.
use vstd::prelude::*;
use crate::cpu::Registers;

verus! {

/// The keys the cabinet reacts to; every other key is `Other`.
#[derive(Debug, Copy, Clone, PartialEq, Eq, Structural)]
pub enum Key {
    Enter,
    C,
    Space,
    Key2,
    Key3,
    Left,
    Right,
    Escape,
    Other,
}

/// The bit each control sets in its input port.
pub struct Keypad {
    /// Port 2 bit 7: coin info shown in the demo screen when clear.
    pub coin_info: u8,
    /// Port 1 bit 0: set while a coin is deposited.
    pub credit: u8,
    /// Tilt (not used).
    pub tilt: u8,
    /// DIP switches: number of ships and when the extra ship comes.
    pub dip3: u8,
    pub dip5: u8,
    pub dip6: u8,
    /// Player 1: start, fire, left, right (port 1).
    pub p1_start: u8,
    pub p1_fire: u8,
    pub p1_left: u8,
    pub p1_right: u8,
    /// Player 2: start, fire, left, right (port 2).
    pub p2_start: u8,
    pub p2_fire: u8,
    pub p2_left: u8,
    pub p2_right: u8,
}

/// Input ports 1 and 2 after `key` goes down.
pub open spec fn press(k: Keypad, port_1: u8, port_2: u8, key: Key) -> (u8, u8) {
    match key {
        Key::Enter => (port_1 | k.p1_start, port_2),
        Key::C => (port_1 | k.credit, port_2),
        Key::Space => (port_1 | k.p1_fire, port_2),
        Key::Key2 => (port_1, port_2 | k.p2_start),
        Key::Key3 => (port_1, port_2 | k.coin_info),
        Key::Left => (port_1 | k.p1_left, port_2),
        Key::Right => (port_1 | k.p1_right, port_2),
        _ => (port_1, port_2),
    }
}

/// Input ports 1 and 2 after `key` goes up.
pub open spec fn release(k: Keypad, port_1: u8, port_2: u8, key: Key) -> (u8, u8) {
    match key {
        Key::Enter => (port_1 & !k.p1_start, port_2),
        Key::C => (port_1 & !k.credit, port_2),
        Key::Space => (port_1 & !k.p1_fire, port_2),
        Key::Key2 => (port_1, port_2 & !k.p2_start),
        Key::Key3 => (port_1, port_2 & !k.coin_info),
        Key::Left => (port_1 & !k.p1_left, port_2),
        Key::Right => (port_1 & !k.p1_right, port_2),
        _ => (port_1, port_2),
    }
}

/// Ports 1 and 2 after the pressed keys are taken in order, and whether
/// Escape (which ends the program and the scan) was among them.
pub open spec fn keys_down(k: Keypad, port_1: u8, port_2: u8, keys: Seq<Key>) -> (u8, u8, bool)
    decreases keys.len(),
{
    if keys.len() == 0 {
        (port_1, port_2, false)
    } else if keys[0] == Key::Escape {
        (port_1, port_2, true)
    } else {
        let (p1, p2) = press(k, port_1, port_2, keys[0]);
        keys_down(k, p1, p2, keys.drop_first())
    }
}

/// Ports 1 and 2 after the held keys are released in order.
pub open spec fn keys_up(k: Keypad, port_1: u8, port_2: u8, keys: Seq<Key>) -> (u8, u8)
    decreases keys.len(),
{
    if keys.len() == 0 {
        (port_1, port_2)
    } else {
        let (p1, p2) = release(k, port_1, port_2, keys[0]);
        keys_up(k, p1, p2, keys.drop_first())
    }
}

/// Port 1 with every player-1 and coin bit cleared.
pub open spec fn cleared_port_1(k: Keypad, port_1: u8) -> u8 {
    port_1 & !k.credit & !k.p1_left & !k.p1_right & !k.p1_fire & !k.p1_start
}

/// Port 2 with the player-2 start and coin-info bits cleared.
pub open spec fn cleared_port_2(k: Keypad, port_2: u8) -> u8 {
    port_2 & !k.p2_start & !k.coin_info
}

/// `after` is `before` with input ports 1 and 2 replaced.
pub open spec fn ports_set(before: Registers, after: Registers, port_1: u8, port_2: u8) -> bool {
    after == (Registers { port_1_in: port_1, port_2_in: port_2, ..before })
}

impl Keypad {
    /// The cabinet's wiring.
    pub open spec fn new_spec() -> Keypad {
        Keypad {
            coin_info: 0x80,
            p1_start: 0x04,
            p1_fire: 0x10,
            p1_left: 0x20,
            p1_right: 0x40,
            p2_fire: 0,
            p2_start: 0x02,
            p2_left: 0,
            p2_right: 0,
            credit: 0x01,
            tilt: 0,
            dip3: 0,
            dip5: 0,
            dip6: 0,
        }
    }

    pub fn new() -> (k: Keypad)
        ensures
            k == Keypad::new_spec(),
    {
        Keypad {
            coin_info: 0x80,
            p1_start: 0x04,
            p1_fire: 0x10,
            p1_left: 0x20,
            p1_right: 0x40,
            p2_fire: 0,
            p2_start: 0x02,
            p2_left: 0,
            p2_right: 0,
            credit: 0x01,
            tilt: 0,
            dip3: 0,
            dip5: 0,
            dip6: 0,
        }
    }

    pub fn key_value(&self) -> (k: &Keypad)
        ensures
            *k == *self,
    {
        self
    }

    /// Sets the port bits of the pressed keys, in order. Returns true when
    /// Escape was pressed: the scan stops there and the program is to end.
    pub fn key_down(&self, reg: &mut Registers, keys: &[Key]) -> (quit: bool)
        ensures
            ({
                let (p1, p2, q) = keys_down(*self, old(reg).port_1_in, old(reg).port_2_in, keys@);
                &&& ports_set(*old(reg), *final(reg), p1, p2)
                &&& quit == q
            }),
    {
        let n = keys.len();
        let mut i: usize = 0;
        assert(keys@.skip(0) =~= keys@);
        while i < n
            invariant
                n == keys@.len(),
                i <= n,
                ports_set(*old(reg), *reg, reg.port_1_in, reg.port_2_in),
                keys_down(*self, old(reg).port_1_in, old(reg).port_2_in, keys@) == keys_down(
                    *self,
                    reg.port_1_in,
                    reg.port_2_in,
                    keys@.skip(i as int),
                ),
            decreases n - i,
        {
            assert(keys@.skip(i as int).drop_first() =~= keys@.skip(i + 1));
            match keys[i] {
                Key::Enter => reg.port_1_in = reg.port_1_in | self.p1_start,
                Key::C => reg.port_1_in = reg.port_1_in | self.credit,
                Key::Space => reg.port_1_in = reg.port_1_in | self.p1_fire,
                Key::Key2 => reg.port_2_in = reg.port_2_in | self.p2_start,
                Key::Key3 => reg.port_2_in = reg.port_2_in | self.coin_info,
                Key::Left => reg.port_1_in = reg.port_1_in | self.p1_left,
                Key::Right => reg.port_1_in = reg.port_1_in | self.p1_right,
                Key::Escape => {
                    return true;
                },
                Key::Other => {},
            }
            i = i + 1;
        }
        assert(keys@.skip(n as int) =~= Seq::<Key>::empty());
        false
    }

    /// Clears the port bits of the held keys.
    pub fn key_up(&self, reg: &mut Registers, keys: &[Key])
        ensures
            ({
                let (p1, p2) = keys_up(*self, old(reg).port_1_in, old(reg).port_2_in, keys@);
                ports_set(*old(reg), *final(reg), p1, p2)
            }),
    {
        let n = keys.len();
        let mut i: usize = 0;
        assert(keys@.skip(0) =~= keys@);
        while i < n
            invariant
                n == keys@.len(),
                i <= n,
                ports_set(*old(reg), *reg, reg.port_1_in, reg.port_2_in),
                keys_up(*self, old(reg).port_1_in, old(reg).port_2_in, keys@) == keys_up(
                    *self,
                    reg.port_1_in,
                    reg.port_2_in,
                    keys@.skip(i as int),
                ),
            decreases n - i,
        {
            assert(keys@.skip(i as int).drop_first() =~= keys@.skip(i + 1));
            match keys[i] {
                Key::Enter => reg.port_1_in = reg.port_1_in & !self.p1_start,
                Key::C => reg.port_1_in = reg.port_1_in & !self.credit,
                Key::Space => reg.port_1_in = reg.port_1_in & !self.p1_fire,
                Key::Key2 => reg.port_2_in = reg.port_2_in & !self.p2_start,
                Key::Key3 => reg.port_2_in = reg.port_2_in & !self.coin_info,
                Key::Left => reg.port_1_in = reg.port_1_in & !self.p1_left,
                Key::Right => reg.port_1_in = reg.port_1_in & !self.p1_right,
                _ => {},
            }
            i = i + 1;
        }
        assert(keys@.skip(n as int) =~= Seq::<Key>::empty());
    }

    /// Clears every button bit of ports 1 and 2.
    pub fn reset_ports(&self, reg: &mut Registers)
        ensures
            ports_set(
                *old(reg),
                *final(reg),
                cleared_port_1(*self, old(reg).port_1_in),
                cleared_port_2(*self, old(reg).port_2_in),
            ),
    {
        reg.port_1_in = reg.port_1_in & !self.credit;
        reg.port_1_in = reg.port_1_in & !self.p1_left;
        reg.port_1_in = reg.port_1_in & !self.p1_right;
        reg.port_1_in = reg.port_1_in & !self.p1_fire;
        reg.port_1_in = reg.port_1_in & !self.p1_start;
        reg.port_2_in = reg.port_2_in & !self.p2_start;
        reg.port_2_in = reg.port_2_in & !self.coin_info;
    }
}

} // verus!
