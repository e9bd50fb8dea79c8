use aurora_kernel::context::{
    pop_word, push_word, restore_context, save_context, Context, CONTEXT_WORDS,
    INTERRUPT_CONTEXT_SIZE,
};

fn sample() -> Context {
    Context {
        r15: 15, r14: 14, r13: 13, r12: 12, r11: 11, r10: 10, r9: 9, r8: 8,
        rbp: 0xb9, rsi: 0x51, rdi: 0xd1, rdx: 0xd, rcx: 0xc, rbx: 0xb, rax: 0xa,
        rip: 0xffff_8000_0012_3456,
        cs: 0x08,
        rflags: 0x202,
        rsp: 0x0000_7fff_ffff_e000,
        ss: 0x10,
    }
}

#[test]
fn context_has_twenty_words() {
    assert_eq!(CONTEXT_WORDS, 20);
    assert_eq!(INTERRUPT_CONTEXT_SIZE, 160);
    assert_eq!(sample().to_words().len(), 20);
}

#[test]
fn words_are_in_memory_order() {
    let words = sample().to_words();
    assert_eq!(words[0], 15);
    assert_eq!(words[14], 0xa);
    assert_eq!(words[15], 0xffff_8000_0012_3456);
    assert_eq!(words[16], 0x08);
    assert_eq!(words[17], 0x202);
    assert_eq!(words[18], 0x0000_7fff_ffff_e000);
    assert_eq!(words[19], 0x10);
    assert_eq!(Context::of_words(&words), sample());
}

#[test]
fn push_writes_little_endian_below_the_stack_pointer() {
    let mut memory = vec![0xeeu8; 32];
    let sp = push_word(&mut memory, 24, 0x0102_0304_0506_0708);
    assert_eq!(sp, 16);
    assert_eq!(&memory[16..24], &[8, 7, 6, 5, 4, 3, 2, 1]);
    assert!(memory[..16].iter().all(|b| *b == 0xee));
    assert!(memory[24..].iter().all(|b| *b == 0xee));
    assert_eq!(pop_word(&memory, 16), (0x0102_0304_0506_0708, 24));
}

#[test]
fn save_lays_the_context_out_from_the_new_stack_pointer() {
    let mut memory = vec![0u8; 256];
    let sp = save_context(&sample(), &mut memory, 200);
    assert_eq!(sp, 40);
    // r15 was pushed last and lies lowest; the stack segment lies highest.
    assert_eq!(memory[40], 15);
    assert_eq!(memory[40 + 8 * 14], 0xa);
    assert_eq!(&memory[40 + 8 * 15..40 + 8 * 16], &0xffff_8000_0012_3456u64.to_le_bytes());
    assert_eq!(memory[40 + 8 * 19], 0x10);
    assert!(memory[..40].iter().all(|b| *b == 0));
    assert!(memory[200..].iter().all(|b| *b == 0));
}

#[test]
fn saved_context_round_trips_through_the_pop_sequence() {
    let mut memory = vec![0x55u8; 8192];
    let sp = save_context(&sample(), &mut memory, 8192);
    assert_eq!(sp, 8192 - 160);
    let (restored, after) = restore_context(&memory, sp);
    assert_eq!(after, 8192);
    assert_eq!(restored, sample());
    assert_eq!(restored.rip, 0xffff_8000_0012_3456);
    assert_eq!(restored.rsp, 0x0000_7fff_ffff_e000);
    assert_eq!(restored.rflags, 0x202);
    assert_eq!((restored.cs, restored.ss), (0x08, 0x10));
}

#[test]
fn initial_context_has_interrupts_enabled_and_clear_registers() {
    let context = Context::initial(0x4000, 0x9000, 0x2b, 0x33);
    assert_eq!(context.rip, 0x4000);
    assert_eq!(context.rsp, 0x9000);
    assert_eq!(context.rflags, 0x200);
    assert_eq!(context.cs, 0x2b);
    assert_eq!(context.ss, 0x33);
    assert_eq!(context.to_words()[..15], [0u64; 15]);
}
