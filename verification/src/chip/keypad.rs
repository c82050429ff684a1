use vstd::prelude::*;

verus! {

/// The key of the hexadecimal pad that a key of the keyboard stands for.
/// The four rows `1234`, `qwer`, `asdf`, `zxcv` of the keyboard lie over the
/// four rows `123C`, `456D`, `789E`, `A0BF` of the pad.
pub open spec fn pad_key(key: char) -> Option<usize> {
    if key == '1' {
        Some(0x1usize)
    } else if key == '2' {
        Some(0x2usize)
    } else if key == '3' {
        Some(0x3usize)
    } else if key == '4' {
        Some(0xCusize)
    } else if key == 'q' {
        Some(0x4usize)
    } else if key == 'w' {
        Some(0x5usize)
    } else if key == 'e' {
        Some(0x6usize)
    } else if key == 'r' {
        Some(0xDusize)
    } else if key == 'a' {
        Some(0x7usize)
    } else if key == 's' {
        Some(0x8usize)
    } else if key == 'd' {
        Some(0x9usize)
    } else if key == 'f' {
        Some(0xEusize)
    } else if key == 'z' {
        Some(0xAusize)
    } else if key == 'x' {
        Some(0x0usize)
    } else if key == 'c' {
        Some(0xBusize)
    } else if key == 'v' {
        Some(0xFusize)
    } else {
        None
    }
}

/// Maps a key of the keyboard to the key of the pad that it stands for.
pub fn key_index(key: char) -> (slot: Option<usize>)
    ensures
        slot == pad_key(key),
        slot matches Some(k) ==> k < 16,
{
    match key {
        '1' => Some(0x1),
        '2' => Some(0x2),
        '3' => Some(0x3),
        '4' => Some(0xc),
        'q' => Some(0x4),
        'w' => Some(0x5),
        'e' => Some(0x6),
        'r' => Some(0xd),
        'a' => Some(0x7),
        's' => Some(0x8),
        'd' => Some(0x9),
        'f' => Some(0xe),
        'z' => Some(0xa),
        'x' => Some(0x0),
        'c' => Some(0xb),
        'v' => Some(0xf),
        _ => None,
    }
}

/// The snapshot of the pad for the keys of the keyboard that are down: a
/// key of the pad is down exactly if a key that stands for it is.
pub fn keyset(pressed: &[char]) -> (chip8_keys: [bool; 16])
    ensures
        forall|k: int|
            0 <= k < 16 ==> (#[trigger] chip8_keys[k] <==> exists|i: int|
                0 <= i < pressed@.len() && pad_key(#[trigger] pressed@[i]) == Some(k as usize)),
{
    let mut chip8_keys = [false; 16];
    let mut n: usize = 0;
    while n < pressed.len()
        invariant
            n <= pressed@.len(),
            forall|k: int|
                0 <= k < 16 ==> (#[trigger] chip8_keys[k] <==> exists|i: int|
                    0 <= i < n && pad_key(#[trigger] pressed@[i]) == Some(k as usize)),
        decreases pressed@.len() - n,
    {
        let ghost earlier = chip8_keys;
        let index = key_index(pressed[n]);
        if let Some(i) = index {
            chip8_keys[i] = true;
        }
        proof {
            assert forall|k: int| 0 <= k < 16 implies (#[trigger] chip8_keys[k] <==> exists|i: int|
                0 <= i < n + 1 && pad_key(#[trigger] pressed@[i]) == Some(k as usize)) by {
                if chip8_keys[k] {
                    if earlier[k] {
                        let i = choose|i: int|
                            0 <= i < n && pad_key(#[trigger] pressed@[i]) == Some(k as usize);
                        assert(0 <= i < n + 1 && pad_key(pressed@[i]) == Some(k as usize));
                    } else {
                        assert(pad_key(pressed@[n as int]) == Some(k as usize));
                    }
                }
                if exists|i: int|
                    0 <= i < n + 1 && pad_key(#[trigger] pressed@[i]) == Some(k as usize) {
                    let i = choose|i: int|
                        0 <= i < n + 1 && pad_key(#[trigger] pressed@[i]) == Some(k as usize);
                    if i < n {
                        assert(earlier[k]);
                    }
                }
            }
        }
        n += 1;
    }
    chip8_keys
}

} // verus!
