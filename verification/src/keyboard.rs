use vstd::prelude::*;

verus! {

/// Number of virtual key slots on the machine's hexadecimal keypad.
pub const NUM_KEYS: usize = 16;

/// The pressed/released state of the 16 virtual keys. Mutated only by the
/// input bridge; instructions read it through `is_pressed`.
#[derive(Debug)]
pub struct KeyboardState {
    pub keys: Vec<bool>,
}

impl KeyboardState {
    /// One boolean per virtual key, true while the key is held down.
    pub open spec fn view_keys(self) -> Seq<bool> {
        self.keys@
    }

    pub open spec fn wf(self) -> bool {
        self.keys@.len() == NUM_KEYS
    }

    pub fn new() -> (r: KeyboardState)
        ensures
            r.wf(),
            forall|k: int| 0 <= k < NUM_KEYS ==> !r.view_keys()[k],
    {
        let mut keys: Vec<bool> = Vec::new();
        let mut i: usize = 0;
        while i < NUM_KEYS
            invariant
                i <= NUM_KEYS,
                keys@.len() == i,
                forall|k: int| 0 <= k < i ==> !keys@[k],
            decreases NUM_KEYS - i,
        {
            keys.push(false);
            i = i + 1;
        }
        KeyboardState { keys }
    }

    pub fn key_down(&mut self, k: u8)
        requires
            old(self).wf(),
            k < NUM_KEYS,
        ensures
            final(self).wf(),
            final(self).view_keys() == old(self).view_keys().update(k as int, true),
    {
        self.keys.set(k as usize, true);
    }

    pub fn key_up(&mut self, k: u8)
        requires
            old(self).wf(),
            k < NUM_KEYS,
        ensures
            final(self).wf(),
            final(self).view_keys() == old(self).view_keys().update(k as int, false),
    {
        self.keys.set(k as usize, false);
    }

    pub fn is_pressed(&self, k: u8) -> (r: bool)
        requires
            self.wf(),
            k < NUM_KEYS,
        ensures
            r == self.view_keys()[k as int],
    {
        self.keys[k as usize]
    }
}

/// The virtual key slot a host key identifier stands for, or nothing for an
/// identifier outside the fixed table. The table maps the lower-case ASCII
/// codes of the 4 x 4 block `1234` / `qwer` / `asdf` / `zxcv` onto the
/// machine's hexadecimal keypad in its conventional layout.
pub open spec fn spec_key_map(code: usize) -> Option<u8> {
    if code == 49 { Some(0x1u8) }       // '1'
    else if code == 50 { Some(0x2u8) }  // '2'
    else if code == 51 { Some(0x3u8) }  // '3'
    else if code == 52 { Some(0xCu8) }  // '4'
    else if code == 113 { Some(0x4u8) } // 'q'
    else if code == 119 { Some(0x5u8) } // 'w'
    else if code == 101 { Some(0x6u8) } // 'e'
    else if code == 114 { Some(0xDu8) } // 'r'
    else if code == 97 { Some(0x7u8) }  // 'a'
    else if code == 115 { Some(0x8u8) } // 's'
    else if code == 100 { Some(0x9u8) } // 'd'
    else if code == 102 { Some(0xEu8) } // 'f'
    else if code == 122 { Some(0xAu8) } // 'z'
    else if code == 120 { Some(0x0u8) } // 'x'
    else if code == 99 { Some(0xBu8) }  // 'c'
    else if code == 118 { Some(0xFu8) } // 'v'
    else { None }
}

/// Translate a host key identifier through the fixed mapping table.
/// Identifiers not present in the table are inert.
pub fn map_host_key(code: usize) -> (r: Option<u8>)
    ensures
        r == spec_key_map(code),
        r matches Some(k) ==> k < NUM_KEYS,
{
    match code {
        49 => Some(0x1),
        50 => Some(0x2),
        51 => Some(0x3),
        52 => Some(0xC),
        113 => Some(0x4),
        119 => Some(0x5),
        101 => Some(0x6),
        114 => Some(0xD),
        97 => Some(0x7),
        115 => Some(0x8),
        100 => Some(0x9),
        102 => Some(0xE),
        122 => Some(0xA),
        120 => Some(0x0),
        99 => Some(0xB),
        118 => Some(0xF),
        _ => None,
    }
}

} // verus!
