use dial::editor::GapBuffer;

#[test]
fn test_from_str() {
    let gap_buffer = GapBuffer::from_str("Hello", 4);
    assert_eq!(gap_buffer.gap_start, 5);
    assert_eq!(gap_buffer.gap_end, 8);
    assert_eq!(
        &gap_buffer.buffer[..],
        &['H', 'e', 'l', 'l', 'o', '\0', '\0', '\0', '\0']
    );
}

#[test]
fn test_move_gap_left() {
    let mut gap_buffer = GapBuffer::from_str("Hello", 3);
    gap_buffer.move_gap_left(1);
    assert_eq!(gap_buffer.gap_start, 1);
    assert_eq!(gap_buffer.gap_end, 3);
    assert_eq!(
        &gap_buffer.buffer[..],
        &['H', '\0', '\0', '\0', 'e', 'l', 'l', 'o']
    )
}

#[test]
fn test_move_gap_right() {
    let mut gap_buffer = GapBuffer::from_str("Hello", 3);
    gap_buffer.move_gap_left(1);
    gap_buffer.move_gap_right(5);
    assert_eq!(
        &gap_buffer.buffer[..],
        &['H', 'e', 'l', 'l', 'o', '\0', '\0', '\0']
    );
}

#[test]
fn test_move_gap() {
    let mut gap_buffer = GapBuffer::from_str("Hello", 3);
    gap_buffer.move_gap(2);
    assert_eq!(
        &gap_buffer.buffer[..],
        &['H', 'e', '\0', '\0', '\0', 'l', 'l', 'o']
    );
    // should do nothing
    gap_buffer.move_gap(7);
    assert_eq!(
        &gap_buffer.buffer[..],
        &['H', 'e', '\0', '\0', '\0', 'l', 'l', 'o']
    );
    gap_buffer.move_gap(3);
    assert_eq!(
        &gap_buffer.buffer[..],
        &['H', 'e', 'l', '\0', '\0', '\0', 'l', 'o']
    )
}

#[test]
fn test_grow() {
    let mut gap_buffer = GapBuffer::from_str("Hello", 3);
    gap_buffer.move_gap(1);
    gap_buffer.grow();
    assert_eq!(
        &gap_buffer.buffer[..],
        &['H', '\0', '\0', '\0', '\0', '\0', '\0', 'e', 'l', 'l', 'o']
    )
}

#[test]
fn test_insert_with_move() {
    let mut gap_buffer = GapBuffer::from_str("Hello", 2);
    gap_buffer.insert_char(' ');
    assert_eq!(
        &gap_buffer.buffer[..],
        &['H', 'e', 'l', 'l', 'o', ' ', '\0', '\0', '\0']
    );
}

#[test]
fn insert_into_roomy_gap_keeps_the_backing_store() {
    let mut gap_buffer = GapBuffer::from_str("Hello", 4);
    gap_buffer.insert_char(' ');
    assert_eq!(gap_buffer.to_string(), "Hello ");
    assert_eq!(gap_buffer.len(), 6);
    assert_eq!(gap_buffer.buffer.len(), 9);
    assert_eq!(gap_buffer.capacity, 4);
    assert_eq!(gap_buffer.gap_start, 6);
    assert_eq!(gap_buffer.gap_end, 8);
}

#[test]
fn insert_into_tight_gap_grows_first() {
    let mut gap_buffer = GapBuffer::from_str("Hello", 2);
    let before = gap_buffer.buffer.len();
    gap_buffer.insert_char(' ');
    assert!(gap_buffer.buffer.len() > before);
    assert_eq!(gap_buffer.buffer.len(), 9);
    assert_eq!(gap_buffer.capacity, 4);
    assert_eq!(gap_buffer.gap_start, 6);
    assert_eq!(gap_buffer.gap_end, 8);
    assert_eq!(gap_buffer.to_string(), "Hello ");
}

#[test]
fn single_slot_gap_never_closes() {
    let mut gap_buffer = GapBuffer::from_str("ab", 1);
    for c in "cdefghij".chars() {
        gap_buffer.insert_char(c);
        assert!(gap_buffer.gap_start <= gap_buffer.gap_end);
        assert!(gap_buffer.gap_end < gap_buffer.buffer.len());
    }
    assert_eq!(gap_buffer.to_string(), "abcdefghij");
    assert_eq!(gap_buffer.len(), 10);
}

#[test]
fn grow_doubles_the_spare_capacity_each_time() {
    let mut gap_buffer = GapBuffer::from_str("xy", 3);
    gap_buffer.grow();
    assert_eq!(gap_buffer.capacity, 6);
    assert_eq!(gap_buffer.buffer.len(), 8);
    assert_eq!((gap_buffer.gap_start, gap_buffer.gap_end), (2, 7));
    gap_buffer.grow();
    assert_eq!(gap_buffer.capacity, 12);
    assert_eq!(gap_buffer.buffer.len(), 14);
    assert_eq!((gap_buffer.gap_start, gap_buffer.gap_end), (2, 13));
    assert_eq!(gap_buffer.to_string(), "xy");
}

#[test]
fn grow_keeps_text_on_both_sides_of_the_gap() {
    let mut gap_buffer = GapBuffer::from_str("Hello", 3);
    gap_buffer.move_gap(2);
    let before = gap_buffer.buffer.len();
    gap_buffer.grow();
    assert_eq!(gap_buffer.to_string(), "Hello");
    assert_eq!(gap_buffer.gap_start, 2);
    assert!(gap_buffer.buffer.len() > before);
    assert_eq!(
        &gap_buffer.buffer[..],
        &['H', 'e', '\0', '\0', '\0', '\0', '\0', '\0', 'l', 'l', 'o']
    );
}

#[test]
fn delete_at_start_is_a_no_op() {
    let mut gap_buffer = GapBuffer::from_str("Hello", 3);
    gap_buffer.move_gap(0);
    gap_buffer.delete_char();
    assert_eq!(gap_buffer.gap_start, 0);
    assert_eq!(gap_buffer.gap_end, 2);
    assert_eq!(gap_buffer.to_string(), "Hello");
    assert_eq!(
        &gap_buffer.buffer[..],
        &['\0', '\0', '\0', 'H', 'e', 'l', 'l', 'o']
    );
}

#[test]
fn delete_removes_the_character_left_of_the_gap() {
    let mut gap_buffer = GapBuffer::from_str("Hello", 3);
    gap_buffer.move_gap(2);
    gap_buffer.delete_char();
    assert_eq!(gap_buffer.to_string(), "Hllo");
    assert_eq!((gap_buffer.gap_start, gap_buffer.gap_end), (1, 4));
    assert_eq!(
        &gap_buffer.buffer[..],
        &['H', '\0', '\0', '\0', '\0', 'l', 'l', 'o']
    );
}

#[test]
fn move_gap_keeps_the_content() {
    for target in 0..=5 {
        let mut gap_buffer = GapBuffer::from_str("Hello", 3);
        gap_buffer.move_gap(target);
        assert_eq!(gap_buffer.gap_start, target);
        assert_eq!(gap_buffer.gap_end, target + 2);
        assert_eq!(gap_buffer.to_string(), "Hello");
        assert_eq!(gap_buffer.buffer.len(), 8);
    }
}

#[test]
fn move_gap_past_the_text_is_ignored() {
    let mut gap_buffer = GapBuffer::from_str("Hello", 3);
    gap_buffer.move_gap(2);
    for target in [6, 7, 8, 100, usize::MAX] {
        gap_buffer.move_gap(target);
        assert_eq!((gap_buffer.gap_start, gap_buffer.gap_end), (2, 4));
        assert_eq!(
            &gap_buffer.buffer[..],
            &['H', 'e', '\0', '\0', '\0', 'l', 'l', 'o']
        );
    }
}

#[test]
fn move_gap_to_the_end_of_the_text() {
    let mut gap_buffer = GapBuffer::from_str("Hello", 3);
    gap_buffer.move_gap(2);
    gap_buffer.move_gap(5);
    assert_eq!((gap_buffer.gap_start, gap_buffer.gap_end), (5, 7));
    assert_eq!(
        &gap_buffer.buffer[..],
        &['H', 'e', 'l', 'l', 'o', '\0', '\0', '\0']
    );
}

#[test]
fn edits_match_a_plain_sequence() {
    let mut gap_buffer = GapBuffer::from_str("abc", 2);
    let mut plain: Vec<char> = "abc".chars().collect();
    let mut cursor = 3usize;
    let script = "ixiyddizdddddiqiw";
    let mut pending = script.chars();
    while let Some(op) = pending.next() {
        if op == 'i' {
            let c = pending.next().unwrap();
            gap_buffer.insert_char(c);
            plain.insert(cursor, c);
            cursor += 1;
        } else {
            gap_buffer.delete_char();
            if cursor > 0 {
                plain.remove(cursor - 1);
                cursor -= 1;
            }
        }
        assert_eq!(gap_buffer.to_string(), plain.iter().collect::<String>());
        assert_eq!(gap_buffer.gap_start, cursor);
        assert_eq!(gap_buffer.len(), plain.len());
    }
    assert_eq!(gap_buffer.to_string(), "qw");
}

#[test]
fn insert_in_the_middle_after_a_move() {
    let mut gap_buffer = GapBuffer::from_str("Helo", 8);
    gap_buffer.move_gap(3);
    gap_buffer.insert_char('l');
    assert_eq!(gap_buffer.to_string(), "Hello");
    assert_eq!(gap_buffer.gap_start, 4);
}

#[test]
fn from_str_counts_characters_not_bytes() {
    let gap_buffer = GapBuffer::from_str("héllo", 2);
    assert_eq!(gap_buffer.gap_start, 5);
    assert_eq!(gap_buffer.gap_end, 6);
    assert_eq!(gap_buffer.len(), 5);
    assert_eq!(gap_buffer.to_string(), "héllo");
}

#[test]
fn growth_after_a_backspace_still_enlarges_the_gap() {
    let mut gap_buffer = GapBuffer::from_str("ab", 1);
    gap_buffer.delete_char();
    assert_eq!(gap_buffer.buffer.len(), 3);
    assert_eq!((gap_buffer.gap_start, gap_buffer.gap_end, gap_buffer.capacity), (1, 2, 1));
    gap_buffer.insert_char('x');
    assert_eq!(&gap_buffer.buffer[..], &['a', 'x', '\0', '\0', '\0']);
    assert_eq!((gap_buffer.gap_start, gap_buffer.gap_end, gap_buffer.capacity), (2, 4, 4));
    assert_eq!(gap_buffer.to_string(), "ax");
}

#[test]
fn grow_takes_the_wider_of_gap_and_spare_capacity() {
    let mut wide = GapBuffer::from_str("abcdef", 2);
    wide.delete_char();
    wide.delete_char();
    wide.delete_char();
    assert_eq!((wide.gap_start, wide.gap_end, wide.capacity), (3, 7, 2));
    wide.grow();
    assert_eq!((wide.gap_start, wide.gap_end, wide.capacity), (3, 12, 10));
    assert_eq!(wide.buffer.len(), 13);
    assert_eq!(wide.to_string(), "abc");
    let mut narrow = GapBuffer::from_str("abc", 8);
    narrow.insert_char('d');
    narrow.insert_char('e');
    assert_eq!((narrow.gap_start, narrow.gap_end, narrow.capacity), (5, 10, 8));
    narrow.grow();
    assert_eq!((narrow.gap_start, narrow.gap_end, narrow.capacity), (5, 20, 16));
    assert_eq!(narrow.buffer.len(), 21);
    assert_eq!(narrow.to_string(), "abcde");
}

#[test]
fn grow_always_enlarges_gap_and_backing_store() {
    for capacity in 1..6 {
        for deletes in 0..5 {
            let mut gap_buffer = GapBuffer::from_str("hello", capacity);
            for _ in 0..deletes {
                gap_buffer.delete_char();
            }
            let text = gap_buffer.to_string();
            let length = gap_buffer.buffer.len();
            let width = gap_buffer.gap_end - gap_buffer.gap_start + 1;
            let cursor = gap_buffer.gap_start;
            gap_buffer.grow();
            assert!(gap_buffer.buffer.len() > length);
            assert!(gap_buffer.gap_end - gap_buffer.gap_start + 1 > width);
            assert_eq!(gap_buffer.gap_start, cursor);
            assert_eq!(gap_buffer.to_string(), text);
        }
    }
}
