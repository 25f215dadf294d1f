use kthread::debug::{AddrRange, Backtrace, Frame, StackEntry, StackImage, UnwindLayout};

fn layout() -> UnwindLayout {
    UnwindLayout {
        stack: AddrRange { bottom: 0x1000, top: 0x1030 },
        code: AddrRange { bottom: 0x40_0000, top: 0x50_0000 },
    }
}

/// Frames at 0x1000, 0x1010, 0x1020 and 0x1030; the last links to 0.
fn chain() -> StackImage {
    StackImage {
        base: 0x1000,
        words: vec![0x1010, 0x40_0100, 0x1020, 0x40_0200, 0x1030, 0x40_0300, 0, 0x40_0400],
    }
}

fn frames(b: Backtrace) -> Vec<StackEntry> {
    match b {
        Backtrace::Frames(es) => es,
        Backtrace::Unavailable { .. } => panic!("expected frames"),
    }
}

#[test]
fn walks_the_whole_chain() {
    let es = frames(Frame::new(0, 0x0ff0, 0x1000).unwind(5, &chain(), &layout()));
    assert_eq!(
        es,
        vec![
            StackEntry { index: 0, rip: 0x40_00f8, rbp: 0x1000 },
            StackEntry { index: 1, rip: 0x40_01f8, rbp: 0x1020 },
            StackEntry { index: 2, rip: 0x40_02f8, rbp: 0x1030 },
        ]
    );
}

#[test]
fn never_more_than_depth_frames() {
    assert_eq!(frames(Frame::new(0, 0, 0x1000).unwind(2, &chain(), &layout())).len(), 2);
    assert_eq!(frames(Frame::new(0, 0, 0x1000).unwind(1, &chain(), &layout())).len(), 1);
    assert!(frames(Frame::new(0, 0, 0x1000).unwind(0, &chain(), &layout())).is_empty());
}

#[test]
fn self_referential_frame_terminates() {
    let img = StackImage { base: 0x1000, words: vec![0x1000, 0x40_0100] };
    let es = frames(Frame::new(0, 0, 0x1000).unwind(100, &img, &layout()));
    assert_eq!(es, vec![StackEntry { index: 0, rip: 0x40_00f8, rbp: 0x1000 }]);
}

#[test]
fn base_pointer_outside_stack_is_unavailable() {
    for rbp in [0x0fff_u64, 0x1031, 0, u64::MAX] {
        match Frame::new(0, 0, rbp).unwind(5, &chain(), &layout()) {
            Backtrace::Unavailable { rbp: r } => assert_eq!(r, rbp),
            Backtrace::Frames(_) => panic!("walked from {:#x}", rbp),
        }
    }
}

#[test]
fn base_pointer_at_the_bounds_is_walked() {
    let es = frames(Frame::new(0, 0, 0x1000).unwind(5, &chain(), &layout()));
    assert_eq!(es[0].rbp, 0x1000);
    let es = frames(Frame::new(0, 0, 0x1030).unwind(5, &chain(), &layout()));
    assert_eq!(es, vec![StackEntry { index: 0, rip: 0x40_03f8, rbp: 0x1030 }]);
}

#[test]
fn return_address_outside_code_stops_the_walk() {
    let img = StackImage { base: 0x1000, words: vec![0x1010, 0x9999, 0, 0] };
    assert!(frames(Frame::new(0, 0, 0x1000).unwind(5, &img, &layout())).is_empty());
    let img = StackImage { base: 0x1000, words: vec![0x1010, 0x40_0100, 0x1020, 0x12, 0, 0] };
    assert_eq!(frames(Frame::new(0, 0, 0x1000).unwind(5, &img, &layout())).len(), 1);
}

#[test]
fn unreadable_words_stop_the_walk() {
    let img = StackImage { base: 0x1000, words: vec![0x1010] };
    assert!(frames(Frame::new(0, 0, 0x1000).unwind(5, &img, &layout())).is_empty());
    assert_eq!(img.read_word(0x1000), Some(0x1010));
    assert_eq!(img.read_word(0x1004), None);
    assert_eq!(img.read_word(0x1008), None);
    assert_eq!(img.read_word(0x0ff8), None);
}

#[test]
fn repeated_return_address_is_not_counted_twice() {
    let img = StackImage {
        base: 0x1000,
        words: vec![0x1010, 0x40_0100, 0x1020, 0x40_0100, 0, 0x40_0300],
    };
    let es = frames(Frame::new(0, 0, 0x1000).unwind(5, &img, &layout()));
    assert_eq!(es, vec![StackEntry { index: 0, rip: 0x40_00f8, rbp: 0x1000 }]);
}

#[test]
fn frame_new_keeps_registers() {
    let f = Frame::new(1, 2, 3);
    assert_eq!((f.rip, f.rsp, f.rbp), (1, 2, 3));
    assert!(AddrRange { bottom: 4, top: 8 }.contains(8));
    assert!(!AddrRange { bottom: 4, top: 8 }.contains(3));
}

#[test]
fn first_frame_is_printed_even_at_address_zero() {
    let lay = UnwindLayout {
        stack: AddrRange { bottom: 0x1000, top: 0x1030 },
        code: AddrRange { bottom: 0, top: 0x50_0000 },
    };
    let img = StackImage { base: 0x1000, words: vec![0x1000, 0] };
    let es = frames(Frame::new(0, 0, 0x1000).unwind(5, &img, &lay));
    assert_eq!(es, vec![StackEntry { index: 0, rip: 0, rbp: 0x1000 }]);
}
