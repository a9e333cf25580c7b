//! From what a terminal delivers for one keystroke to the sixteen keys of the
//! machine.
//!
//! The keypad is laid over the left of a keyboard:
//!
//! ```text
//! 1 2 3 C        1 2 3 4
//! 4 5 6 D   <-   Q W E R
//! 7 8 9 E        A S D F
//! A 0 B F        Y X C V
//! ```

use vstd::prelude::*;

verus! {

/// The byte that a terminal delivers for the escape key.
pub const ESCAPE: u8 = 0x1b;

/// What a keystroke means to the machine.
#[derive(Debug, Clone, Copy, PartialEq, Eq, Structural)]
pub enum KeyInput {
    /// One of the sixteen keys, by its code.
    Key(u8),
    /// The request to leave.
    Quit,
    /// Nothing.
    Ignored,
}

/// The character, in lower case, that stands for each key code.
pub open spec fn keypad() -> Seq<u8> {
    seq![
        0x78u8, 0x31u8, 0x32u8, 0x33u8,
        0x71u8, 0x77u8, 0x65u8, 0x61u8,
        0x73u8, 0x64u8, 0x79u8, 0x63u8,
        0x34u8, 0x72u8, 0x66u8, 0x76u8,
    ]
}

/// A character with an upper-case letter turned into its lower case.
pub open spec fn folded(byte: u8) -> u8 {
    if 0x41 <= byte <= 0x5A {
        (byte + 0x20) as u8
    } else {
        byte
    }
}

/// Whether the four bytes are a single character: the other three are zero.
pub open spec fn single(data: Seq<u8>) -> bool {
    data.len() == 4 && data[1] == 0 && data[2] == 0 && data[3] == 0
}

/// What a keystroke means: the key whose character it is, in either case;
/// the request to leave for the escape key; nothing for anything else.
pub open spec fn meaning(data: Seq<u8>) -> KeyInput {
    if !single(data) {
        KeyInput::Ignored
    } else if data[0] == ESCAPE {
        KeyInput::Quit
    } else if keypad().contains(folded(data[0])) {
        KeyInput::Key(keypad().index_of(folded(data[0])) as u8)
    } else {
        KeyInput::Ignored
    }
}

/// What the bytes of one keystroke mean.
pub fn interpret(data: &[u8; 4]) -> (r: KeyInput)
    ensures
        r == meaning(data@),
        r matches KeyInput::Key(key) ==> key < 0x10,
{
    proof {
        lemma_keypad();
    }
    if data[1] != 0 || data[2] != 0 || data[3] != 0 {
        return KeyInput::Ignored;
    }
    let r = match data[0] {
        0x58 | 0x78 => KeyInput::Key(0x0),
        0x31 => KeyInput::Key(0x1),
        0x32 => KeyInput::Key(0x2),
        0x33 => KeyInput::Key(0x3),
        0x51 | 0x71 => KeyInput::Key(0x4),
        0x57 | 0x77 => KeyInput::Key(0x5),
        0x45 | 0x65 => KeyInput::Key(0x6),
        0x41 | 0x61 => KeyInput::Key(0x7),
        0x53 | 0x73 => KeyInput::Key(0x8),
        0x44 | 0x64 => KeyInput::Key(0x9),
        0x59 | 0x79 => KeyInput::Key(0xA),
        0x43 | 0x63 => KeyInput::Key(0xB),
        0x34 => KeyInput::Key(0xC),
        0x52 | 0x72 => KeyInput::Key(0xD),
        0x46 | 0x66 => KeyInput::Key(0xE),
        0x56 | 0x76 => KeyInput::Key(0xF),
        0x1b => KeyInput::Quit,
        _ => KeyInput::Ignored,
    };
    proof {
        let ch = folded(data@[0]);
        match r {
            KeyInput::Key(key) => {
                assert(keypad()[key as int] == ch);
                assert(keypad().contains(ch));
                let found = keypad().index_of(ch);
                assert(0 <= found < 16 && keypad()[found] == ch);
            },
            KeyInput::Quit => {},
            KeyInput::Ignored => {
                if keypad().contains(ch) {
                    let found = keypad().index_of(ch);
                    assert(0 <= found < 16 && keypad()[found] == ch);
                }
            },
        }
    }
    r
}

/// The keypad has sixteen keys, each with a character of its own.
pub proof fn lemma_keypad()
    ensures
        keypad().len() == 16,
        forall|j: int, k: int| 0 <= j < 16 && 0 <= k < 16 && keypad()[j] == keypad()[k] ==> j == k,
{
}

} // verus!
