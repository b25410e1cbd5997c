use newport_imgui::{Input, InputVariant, NUM_INPUTS};

#[test]
fn a_key_is_found_by_its_code() {
    let a_key = Input::key_from_code(0x41);
    assert_eq!(
        a_key,
        Some(Input {
            display_name: "A Key",
            variant: InputVariant::Key { virtual_code: 0x41, symbol: 'A' },
        })
    );
}

#[test]
fn keys_are_found_by_their_codes() {
    assert_eq!(Input::key_from_code(0x08).unwrap().display_name, "Backspace");
    assert_eq!(Input::key_from_code(0x09).unwrap().as_key(), (0x09, '\t'));
    assert_eq!(Input::key_from_code(0x0D).unwrap().display_name, "Enter");
    assert_eq!(Input::key_from_code(0x30).unwrap().display_name, "Zero Key");
    assert_eq!(Input::key_from_code(0x39).unwrap().as_key(), (0x39, '9'));
    assert_eq!(Input::key_from_code(0x5A).unwrap().display_name, "Z Key");
    assert_eq!(Input::key_from_code(0x1B).unwrap().display_name, "Escape Key");
    assert_eq!(Input::key_from_code(0x20).unwrap().display_name, "Space Key");
    assert_eq!(Input::key_from_code(0x6A).unwrap().as_key(), (0x6A, '*'));
    assert_eq!(Input::key_from_code(0x7B).unwrap().display_name, "F12 Key");
    assert_eq!(Input::key_from_code(0x87).unwrap().display_name, "F24 Key");
    assert_eq!(Input::key_from_code(0xA3).unwrap().display_name, "Right Ctrl");
    assert_eq!(Input::key_from_code(0xC0).unwrap().as_key(), (0xC0, '~'));
}

#[test]
fn unknown_codes_find_nothing() {
    assert_eq!(Input::key_from_code(0x00), None);
    assert_eq!(Input::key_from_code(0x07), None);
    assert_eq!(Input::key_from_code(0x2B), None);
    assert_eq!(Input::key_from_code(0x5B), None);
    assert_eq!(Input::key_from_code(0xFF), None);
}

#[test]
fn every_code_finds_a_key_with_that_code_or_nothing() {
    let mut found = 0;
    for code in 0..=255u8 {
        let from_table = (0..NUM_INPUTS).map(Input::at).find(|input| match input.variant {
            InputVariant::Key { virtual_code, .. } => virtual_code == code,
            _ => false,
        });
        assert_eq!(Input::key_from_code(code), from_table);
        if let Some(input) = Input::key_from_code(code) {
            assert_eq!(input.as_key().0, code);
            found += 1;
        }
    }
    assert_eq!(found, 109);
}

#[test]
fn mouse_codes_are_not_keys() {
    let left = Input::at(109);
    assert_eq!(
        left,
        Input { display_name: "Left Mouse Button", variant: InputVariant::MouseButton(0) }
    );
    assert_eq!(left.as_mouse_button(), 0);
    assert_eq!(Input::at(110).as_mouse_button(), 1);
    assert_eq!(Input::at(110).display_name, "Middle Mouse Button");
    assert_eq!(Input::at(111).as_mouse_button(), 2);
    assert_eq!(Input::at(111).display_name, "Right Mouse Button");
    assert_eq!(Input::key_from_code(0), None);
    assert_eq!(Input::key_from_code(1), None);
    assert_eq!(Input::key_from_code(2), None);
}

#[test]
fn the_table_has_its_entries_in_order() {
    assert_eq!(NUM_INPUTS, 114);
    assert_eq!(Input::at(0), Input::key("Backspace", 0x08, '\0'));
    assert_eq!(Input::at(1), Input::key("Tab", 0x09, '\t'));
    assert_eq!(Input::at(2), Input::key("Enter", 0x0D, '\0'));
    assert_eq!(Input::at(3), Input::key("Zero Key", 0x30, '0'));
    assert_eq!(Input::at(13), Input::key("A Key", 0x41, 'A'));
    assert_eq!(Input::at(38), Input::key("Z Key", 0x5A, 'Z'));
    assert_eq!(Input::at(39), Input::key("Escape Key", 0x1B, '\0'));
    assert_eq!(Input::at(108), Input::key("Tilde Key", 0xC0, '~'));
    assert_eq!(Input::at(112), Input::mouse_axis("Mouse Axis X"));
    assert_eq!(Input::at(113), Input::mouse_axis("Mouse Axis Y"));
}

#[test]
fn beyond_the_table_is_the_unknown_input() {
    let unknown = Input { display_name: "Unknown", variant: InputVariant::Unknown };
    assert_eq!(Input::unknown(), unknown);
    assert_eq!(Input::at(114), unknown);
    assert_eq!(Input::at(usize::MAX), unknown);
}

#[test]
fn constructors_fill_the_variant() {
    assert_eq!(
        Input::key("K", 7, 'k'),
        Input { display_name: "K", variant: InputVariant::Key { virtual_code: 7, symbol: 'k' } }
    );
    assert_eq!(
        Input::mouse_button("M", 4),
        Input { display_name: "M", variant: InputVariant::MouseButton(4) }
    );
    assert_eq!(
        Input::mouse_axis("X"),
        Input { display_name: "X", variant: InputVariant::MouseAxis }
    );
    assert_eq!(Input::key("K", 7, 'k').as_key(), (7, 'k'));
    assert_eq!(Input::mouse_button("M", 4).as_mouse_button(), 4);
}
