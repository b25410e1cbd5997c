//! The inputs that the platform knows: the keys of the keyboard, each with
//! its virtual key code and the character it stands for, the mouse buttons
//! and the mouse axes.

use vstd::prelude::*;

verus! {

/// What kind of input an [`Input`] is, with what tells it apart from the
/// others of its kind.
#[derive(Copy, Clone, Debug, PartialEq, Eq, Structural)]
pub enum InputVariant {
    Unknown,
    Key { virtual_code: u8, symbol: char },
    MouseButton(u8),
    MouseAxis,
}

/// Static information about one input.
#[derive(Copy, Clone, Debug, PartialEq, Eq)]
pub struct Input {
    pub display_name: &'static str,
    pub variant: InputVariant,
}

/// The number of known inputs.
pub const NUM_INPUTS: usize = 114;

impl Input {
    /// The key with this virtual key code and this character.
    #[verifier::allow_in_spec]
    pub fn key(display_name: &'static str, virtual_code: u8, symbol: char) -> Input
        returns
            (Input { display_name, variant: InputVariant::Key { virtual_code, symbol } }),
    {
        Input { display_name, variant: InputVariant::Key { virtual_code, symbol } }
    }

    /// The mouse button with this index.
    #[verifier::allow_in_spec]
    pub fn mouse_button(display_name: &'static str, index: u8) -> Input
        returns
            (Input { display_name, variant: InputVariant::MouseButton(index) }),
    {
        Input { display_name, variant: InputVariant::MouseButton(index) }
    }

    /// A mouse axis.
    #[verifier::allow_in_spec]
    pub fn mouse_axis(display_name: &'static str) -> Input
        returns
            (Input { display_name, variant: InputVariant::MouseAxis }),
    {
        Input { display_name, variant: InputVariant::MouseAxis }
    }

    /// The input that stands for none.
    #[verifier::allow_in_spec]
    pub fn unknown() -> Input
        returns
            (Input { display_name: "Unknown", variant: InputVariant::Unknown }),
    {
        Input { display_name: "Unknown", variant: InputVariant::Unknown }
    }

    /// The table of known inputs: the input at `index`, and the unknown
    /// input beyond the table's end.
    pub open spec fn entry(index: usize) -> Input {
        match index {
            0 => Input::key("Backspace", 0x08, '\0'),
            1 => Input::key("Tab", 0x09, '\t'),
            2 => Input::key("Enter", 0x0D, '\0'),
            3 => Input::key("Zero Key", 0x30, '0'),
            4 => Input::key("One Key", 0x31, '1'),
            5 => Input::key("Two Key", 0x32, '2'),
            6 => Input::key("Three Key", 0x33, '3'),
            7 => Input::key("Four Key", 0x34, '4'),
            8 => Input::key("Five Key", 0x35, '5'),
            9 => Input::key("Six Key", 0x36, '6'),
            10 => Input::key("Seven Key", 0x37, '7'),
            11 => Input::key("Eight Key", 0x38, '8'),
            12 => Input::key("Nine Key", 0x39, '9'),
            13 => Input::key("A Key", 0x41, 'A'),
            14 => Input::key("B Key", 0x42, 'B'),
            15 => Input::key("C Key", 0x43, 'C'),
            16 => Input::key("D Key", 0x44, 'D'),
            17 => Input::key("E Key", 0x45, 'E'),
            18 => Input::key("F Key", 0x46, 'F'),
            19 => Input::key("G Key", 0x47, 'G'),
            20 => Input::key("H Key", 0x48, 'H'),
            21 => Input::key("I Key", 0x49, 'I'),
            22 => Input::key("J Key", 0x4A, 'J'),
            23 => Input::key("K Key", 0x4B, 'K'),
            24 => Input::key("L Key", 0x4C, 'L'),
            25 => Input::key("M Key", 0x4D, 'M'),
            26 => Input::key("N Key", 0x4E, 'N'),
            27 => Input::key("O Key", 0x4F, 'O'),
            28 => Input::key("P Key", 0x50, 'P'),
            29 => Input::key("Q Key", 0x51, 'Q'),
            30 => Input::key("R Key", 0x52, 'R'),
            31 => Input::key("S Key", 0x53, 'S'),
            32 => Input::key("T Key", 0x54, 'T'),
            33 => Input::key("U Key", 0x55, 'U'),
            34 => Input::key("V Key", 0x56, 'V'),
            35 => Input::key("W Key", 0x57, 'W'),
            36 => Input::key("X Key", 0x58, 'X'),
            37 => Input::key("Y Key", 0x59, 'Y'),
            38 => Input::key("Z Key", 0x5A, 'Z'),
            39 => Input::key("Escape Key", 0x1B, '\0'),
            40 => Input::key("Shift Key", 0x10, '\0'),
            41 => Input::key("Ctrl Key", 0x11, '\0'),
            42 => Input::key("Alt Key", 0x12, '\0'),
            43 => Input::key("Pause Key", 0x13, '\0'),
            44 => Input::key("Capital Key", 0x14, '\0'),
            45 => Input::key("Space Key", 0x20, '\0'),
            46 => Input::key("Prior Key", 0x21, '\0'),
            47 => Input::key("Next Key", 0x22, '\0'),
            48 => Input::key("End Key", 0x23, '\0'),
            49 => Input::key("Home Key", 0x24, '\0'),
            50 => Input::key("Left Key", 0x25, '\0'),
            51 => Input::key("Up Key", 0x26, '\0'),
            52 => Input::key("Right Key", 0x27, '\0'),
            53 => Input::key("Down Key", 0x28, '\0'),
            54 => Input::key("Select Key", 0x29, '\0'),
            55 => Input::key("Print Key", 0x2A, '\0'),
            56 => Input::key("Snapshot Key", 0x2C, '\0'),
            57 => Input::key("Insert Key", 0x2D, '\0'),
            58 => Input::key("Delete Key", 0x2E, '\0'),
            59 => Input::key("Help Key", 0x2F, '\0'),
            60 => Input::key("Numpad 0 Key", 0x60, '0'),
            61 => Input::key("Numpad 1 Key", 0x61, '1'),
            62 => Input::key("Numpad 2 Key", 0x62, '2'),
            63 => Input::key("Numpad 3 Key", 0x63, '3'),
            64 => Input::key("Numpad 4 Key", 0x64, '4'),
            65 => Input::key("Numpad 5 Key", 0x65, '5'),
            66 => Input::key("Numpad 6 Key", 0x66, '6'),
            67 => Input::key("Numpad 7 Key", 0x67, '7'),
            68 => Input::key("Numpad 8 Key", 0x68, '8'),
            69 => Input::key("Numpad 9 Key", 0x69, '9'),
            70 => Input::key("* Key", 0x6A, '*'),
            71 => Input::key("+ Key", 0x6B, '+'),
            72 => Input::key("| Key", 0x6C, '|'),
            73 => Input::key("- Key", 0x6D, '-'),
            74 => Input::key(". Key", 0x6E, '.'),
            75 => Input::key("/ Key", 0x6F, '/'),
            76 => Input::key("F1 Key", 0x70, '\0'),
            77 => Input::key("F2 Key", 0x71, '\0'),
            78 => Input::key("F3 Key", 0x72, '\0'),
            79 => Input::key("F4 Key", 0x73, '\0'),
            80 => Input::key("F5 Key", 0x74, '\0'),
            81 => Input::key("F6 Key", 0x75, '\0'),
            82 => Input::key("F7 Key", 0x76, '\0'),
            83 => Input::key("F8 Key", 0x77, '\0'),
            84 => Input::key("F9 Key", 0x78, '\0'),
            85 => Input::key("F10 Key", 0x79, '\0'),
            86 => Input::key("F11 Key", 0x7A, '\0'),
            87 => Input::key("F12 Key", 0x7B, '\0'),
            88 => Input::key("F13 Key", 0x7C, '\0'),
            89 => Input::key("F14 Key", 0x7D, '\0'),
            90 => Input::key("F15 Key", 0x7E, '\0'),
            91 => Input::key("F16 Key", 0x7F, '\0'),
            92 => Input::key("F17 Key", 0x80, '\0'),
            93 => Input::key("F18 Key", 0x81, '\0'),
            94 => Input::key("F19 Key", 0x82, '\0'),
            95 => Input::key("F20 Key", 0x83, '\0'),
            96 => Input::key("F21 Key", 0x84, '\0'),
            97 => Input::key("F22 Key", 0x85, '\0'),
            98 => Input::key("F23 Key", 0x86, '\0'),
            99 => Input::key("F24 Key", 0x87, '\0'),
            100 => Input::key("Numlock Key", 0x90, '\0'),
            101 => Input::key("Scroll Key", 0x91, '\0'),
            102 => Input::key("Left Shift Key", 0xA0, '\0'),
            103 => Input::key("Right Shift Key", 0xA1, '\0'),
            104 => Input::key("Left Ctrl Key", 0xA2, '\0'),
            105 => Input::key("Right Ctrl", 0xA3, '\0'),
            106 => Input::key("Left Menu Key", 0xA4, '\0'),
            107 => Input::key("Right Menu Key", 0xA5, '\0'),
            108 => Input::key("Tilde Key", 0xC0, '~'),
            109 => Input::mouse_button("Left Mouse Button", 0),
            110 => Input::mouse_button("Middle Mouse Button", 1),
            111 => Input::mouse_button("Right Mouse Button", 2),
            112 => Input::mouse_axis("Mouse Axis X"),
            113 => Input::mouse_axis("Mouse Axis Y"),
            _ => Input::unknown(),
        }
    }

    /// Whether the input is the key with this virtual key code.
    pub open spec fn is_key_with_code(self, virtual_code: u8) -> bool {
        match self.variant {
            InputVariant::Key { virtual_code: code, symbol: _ } => code == virtual_code,
            _ => false,
        }
    }

    /// The first key with this virtual key code among the table's entries
    /// from `from` on, if there is one.
    pub open spec fn first_key_from(virtual_code: u8, from: usize) -> Option<Input>
        decreases NUM_INPUTS - from,
    {
        if from >= NUM_INPUTS {
            None
        } else if Input::entry(from).is_key_with_code(virtual_code) {
            Some(Input::entry(from))
        } else {
            Input::first_key_from(virtual_code, (from + 1) as usize)
        }
    }

    /// Reads the table of known inputs.
    pub fn at(index: usize) -> (input: Input)
        ensures
            input == Input::entry(index),
    {
        match index {
            0 => Input::key("Backspace", 0x08, '\0'),
            1 => Input::key("Tab", 0x09, '\t'),
            2 => Input::key("Enter", 0x0D, '\0'),
            3 => Input::key("Zero Key", 0x30, '0'),
            4 => Input::key("One Key", 0x31, '1'),
            5 => Input::key("Two Key", 0x32, '2'),
            6 => Input::key("Three Key", 0x33, '3'),
            7 => Input::key("Four Key", 0x34, '4'),
            8 => Input::key("Five Key", 0x35, '5'),
            9 => Input::key("Six Key", 0x36, '6'),
            10 => Input::key("Seven Key", 0x37, '7'),
            11 => Input::key("Eight Key", 0x38, '8'),
            12 => Input::key("Nine Key", 0x39, '9'),
            13 => Input::key("A Key", 0x41, 'A'),
            14 => Input::key("B Key", 0x42, 'B'),
            15 => Input::key("C Key", 0x43, 'C'),
            16 => Input::key("D Key", 0x44, 'D'),
            17 => Input::key("E Key", 0x45, 'E'),
            18 => Input::key("F Key", 0x46, 'F'),
            19 => Input::key("G Key", 0x47, 'G'),
            20 => Input::key("H Key", 0x48, 'H'),
            21 => Input::key("I Key", 0x49, 'I'),
            22 => Input::key("J Key", 0x4A, 'J'),
            23 => Input::key("K Key", 0x4B, 'K'),
            24 => Input::key("L Key", 0x4C, 'L'),
            25 => Input::key("M Key", 0x4D, 'M'),
            26 => Input::key("N Key", 0x4E, 'N'),
            27 => Input::key("O Key", 0x4F, 'O'),
            28 => Input::key("P Key", 0x50, 'P'),
            29 => Input::key("Q Key", 0x51, 'Q'),
            30 => Input::key("R Key", 0x52, 'R'),
            31 => Input::key("S Key", 0x53, 'S'),
            32 => Input::key("T Key", 0x54, 'T'),
            33 => Input::key("U Key", 0x55, 'U'),
            34 => Input::key("V Key", 0x56, 'V'),
            35 => Input::key("W Key", 0x57, 'W'),
            36 => Input::key("X Key", 0x58, 'X'),
            37 => Input::key("Y Key", 0x59, 'Y'),
            38 => Input::key("Z Key", 0x5A, 'Z'),
            39 => Input::key("Escape Key", 0x1B, '\0'),
            40 => Input::key("Shift Key", 0x10, '\0'),
            41 => Input::key("Ctrl Key", 0x11, '\0'),
            42 => Input::key("Alt Key", 0x12, '\0'),
            43 => Input::key("Pause Key", 0x13, '\0'),
            44 => Input::key("Capital Key", 0x14, '\0'),
            45 => Input::key("Space Key", 0x20, '\0'),
            46 => Input::key("Prior Key", 0x21, '\0'),
            47 => Input::key("Next Key", 0x22, '\0'),
            48 => Input::key("End Key", 0x23, '\0'),
            49 => Input::key("Home Key", 0x24, '\0'),
            50 => Input::key("Left Key", 0x25, '\0'),
            51 => Input::key("Up Key", 0x26, '\0'),
            52 => Input::key("Right Key", 0x27, '\0'),
            53 => Input::key("Down Key", 0x28, '\0'),
            54 => Input::key("Select Key", 0x29, '\0'),
            55 => Input::key("Print Key", 0x2A, '\0'),
            56 => Input::key("Snapshot Key", 0x2C, '\0'),
            57 => Input::key("Insert Key", 0x2D, '\0'),
            58 => Input::key("Delete Key", 0x2E, '\0'),
            59 => Input::key("Help Key", 0x2F, '\0'),
            60 => Input::key("Numpad 0 Key", 0x60, '0'),
            61 => Input::key("Numpad 1 Key", 0x61, '1'),
            62 => Input::key("Numpad 2 Key", 0x62, '2'),
            63 => Input::key("Numpad 3 Key", 0x63, '3'),
            64 => Input::key("Numpad 4 Key", 0x64, '4'),
            65 => Input::key("Numpad 5 Key", 0x65, '5'),
            66 => Input::key("Numpad 6 Key", 0x66, '6'),
            67 => Input::key("Numpad 7 Key", 0x67, '7'),
            68 => Input::key("Numpad 8 Key", 0x68, '8'),
            69 => Input::key("Numpad 9 Key", 0x69, '9'),
            70 => Input::key("* Key", 0x6A, '*'),
            71 => Input::key("+ Key", 0x6B, '+'),
            72 => Input::key("| Key", 0x6C, '|'),
            73 => Input::key("- Key", 0x6D, '-'),
            74 => Input::key(". Key", 0x6E, '.'),
            75 => Input::key("/ Key", 0x6F, '/'),
            76 => Input::key("F1 Key", 0x70, '\0'),
            77 => Input::key("F2 Key", 0x71, '\0'),
            78 => Input::key("F3 Key", 0x72, '\0'),
            79 => Input::key("F4 Key", 0x73, '\0'),
            80 => Input::key("F5 Key", 0x74, '\0'),
            81 => Input::key("F6 Key", 0x75, '\0'),
            82 => Input::key("F7 Key", 0x76, '\0'),
            83 => Input::key("F8 Key", 0x77, '\0'),
            84 => Input::key("F9 Key", 0x78, '\0'),
            85 => Input::key("F10 Key", 0x79, '\0'),
            86 => Input::key("F11 Key", 0x7A, '\0'),
            87 => Input::key("F12 Key", 0x7B, '\0'),
            88 => Input::key("F13 Key", 0x7C, '\0'),
            89 => Input::key("F14 Key", 0x7D, '\0'),
            90 => Input::key("F15 Key", 0x7E, '\0'),
            91 => Input::key("F16 Key", 0x7F, '\0'),
            92 => Input::key("F17 Key", 0x80, '\0'),
            93 => Input::key("F18 Key", 0x81, '\0'),
            94 => Input::key("F19 Key", 0x82, '\0'),
            95 => Input::key("F20 Key", 0x83, '\0'),
            96 => Input::key("F21 Key", 0x84, '\0'),
            97 => Input::key("F22 Key", 0x85, '\0'),
            98 => Input::key("F23 Key", 0x86, '\0'),
            99 => Input::key("F24 Key", 0x87, '\0'),
            100 => Input::key("Numlock Key", 0x90, '\0'),
            101 => Input::key("Scroll Key", 0x91, '\0'),
            102 => Input::key("Left Shift Key", 0xA0, '\0'),
            103 => Input::key("Right Shift Key", 0xA1, '\0'),
            104 => Input::key("Left Ctrl Key", 0xA2, '\0'),
            105 => Input::key("Right Ctrl", 0xA3, '\0'),
            106 => Input::key("Left Menu Key", 0xA4, '\0'),
            107 => Input::key("Right Menu Key", 0xA5, '\0'),
            108 => Input::key("Tilde Key", 0xC0, '~'),
            109 => Input::mouse_button("Left Mouse Button", 0),
            110 => Input::mouse_button("Middle Mouse Button", 1),
            111 => Input::mouse_button("Right Mouse Button", 2),
            112 => Input::mouse_axis("Mouse Axis X"),
            113 => Input::mouse_axis("Mouse Axis Y"),
            _ => Input::unknown(),
        }
    }

    /// Finds the key with this virtual key code: the first such entry of the
    /// table, and `None` exactly when the table holds no key with this code.
    pub fn key_from_code(in_virtual_code: u8) -> (found: Option<Input>)
        ensures
            found == Input::first_key_from(in_virtual_code, 0),
            (match found {
                Some(input) => input.is_key_with_code(in_virtual_code) && exists|index: usize|
                    index < NUM_INPUTS && #[trigger] Input::entry(index) == input,
                None => forall|index: usize|
                    index < NUM_INPUTS ==> !(#[trigger] Input::entry(index)).is_key_with_code(
                        in_virtual_code,
                    ),
            }),
    {
        let mut index: usize = 0;
        while index < NUM_INPUTS
            invariant
                index <= NUM_INPUTS,
                Input::first_key_from(in_virtual_code, 0) == Input::first_key_from(
                    in_virtual_code,
                    index,
                ),
                forall|before: usize|
                    before < index ==> !(#[trigger] Input::entry(before)).is_key_with_code(
                        in_virtual_code,
                    ),
            decreases NUM_INPUTS - index,
        {
            let input = Input::at(index);
            if let InputVariant::Key { virtual_code: code, symbol: _ } = input.variant {
                if in_virtual_code == code {
                    return Some(input);
                }
            }
            index = index + 1;
        }
        None
    }

    /// The virtual key code and the character of a key. The input must be a
    /// key.
    pub fn as_key(self) -> (key: (u8, char))
        requires
            self.variant is Key,
        ensures
            self.variant == (InputVariant::Key { virtual_code: key.0, symbol: key.1 }),
    {
        match self.variant {
            InputVariant::Key { virtual_code: code, symbol } => (code, symbol),
            _ => unreached(),
        }
    }

    /// The index of a mouse button. The input must be a mouse button.
    pub fn as_mouse_button(self) -> (index: u8)
        requires
            self.variant is MouseButton,
        ensures
            self.variant == InputVariant::MouseButton(index),
    {
        match self.variant {
            InputVariant::MouseButton(code) => code,
            _ => unreached(),
        }
    }
}

/// No two entries of the table are keys with the same virtual key code: the
/// key that a code finds is the only one with that code.
pub proof fn law_key_codes_are_unique(first: usize, second: usize, virtual_code: u8)
    requires
        first < NUM_INPUTS,
        second < NUM_INPUTS,
        Input::entry(first).is_key_with_code(virtual_code),
        Input::entry(second).is_key_with_code(virtual_code),
    ensures
        first == second,
{
}

} // verus!
