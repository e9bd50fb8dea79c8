//! The saved register context and the stack discipline of a context switch.
//!
//! On a timer interrupt the CPU pushes five words (stack segment, stack
//! pointer, flags, code segment, instruction pointer) and the entry stub
//! pushes the fifteen general-purpose registers after them. The stack grows
//! downwards, so the register pushed last lies at the lowest address. A
//! [`Context`] names these twenty words from the lowest address up, and
//! [`save_context`] and [`restore_context`] are the push and pop sequences
//! of the stub, written over a stack held as bytes.

use vstd::prelude::*;
use vstd::bytes::{
    lemma_auto_spec_u64_to_from_le_bytes, spec_u64_from_le_bytes, spec_u64_to_le_bytes,
    u64_from_le_bytes, u64_to_le_bytes,
};
use vstd::slice::slice_subrange;

verus! {

/// Number of machine words in a saved context.
pub const CONTEXT_WORDS: usize = 20;

/// Size of a saved context in bytes: five words from the CPU, fifteen from
/// the entry stub.
pub const INTERRUPT_CONTEXT_SIZE: usize = 40 + 120;

/// The flags word of a fresh thread: interrupts enabled, all else clear.
pub const RFLAGS_INTERRUPTS_ENABLED: u64 = 0x200;

/// The registers of a suspended thread, in the order in which they lie in
/// memory, lowest address first.
#[derive(Debug, Clone, Copy, PartialEq, Eq, Structural)]
pub struct Context {
    // Pushed by the entry stub.
    pub r15: u64,
    pub r14: u64,
    pub r13: u64,
    pub r12: u64,
    pub r11: u64,
    pub r10: u64,
    pub r9: u64,
    pub r8: u64,
    pub rbp: u64,
    pub rsi: u64,
    pub rdi: u64,
    pub rdx: u64,
    pub rcx: u64,
    pub rbx: u64,
    pub rax: u64,
    // Pushed by the CPU on interrupt entry.
    /// Instruction pointer.
    pub rip: u64,
    /// Code segment selector.
    pub cs: u64,
    /// Processor flags.
    pub rflags: u64,
    /// Stack pointer.
    pub rsp: u64,
    /// Stack segment selector.
    pub ss: u64,
}

/// The word that `memory` holds at `offset`, little-endian.
pub open spec fn word_at(memory: Seq<u8>, offset: int) -> u64 {
    spec_u64_from_le_bytes(memory.subrange(offset, offset + 8))
}

/// `memory` holds `words` from `base` upwards, eight bytes each.
pub open spec fn words_stored_at(memory: Seq<u8>, base: int, words: Seq<u64>) -> bool {
    forall|j: int|
        0 <= j < words.len() ==> #[trigger] memory.subrange(base + 8 * j, base + 8 * j + 8)
            == spec_u64_to_le_bytes(words[j])
}

/// The words that `memory` holds from `base` upwards.
pub open spec fn words_read_at(memory: Seq<u8>, base: int, count: nat) -> Seq<u64> {
    Seq::new(count, |j: int| word_at(memory, base + 8 * j))
}

/// The bytes of `words`, eight for each word, little-endian.
pub open spec fn words_bytes(words: Seq<u64>) -> Seq<u8> {
    Seq::new(8 * words.len(), |k: int| spec_u64_to_le_bytes(words[k / 8])[k % 8])
}

/// `memory` after `context` was pushed with the stack pointer at `top`: the
/// 160 bytes below `top` hold the context, the rest is as before.
pub open spec fn spec_pushed(memory: Seq<u8>, top: int, context: Context) -> Seq<u8> {
    memory.subrange(0, top - 160) + context.bytes() + memory.subrange(top, memory.len() as int)
}

impl Context {
    /// The 160 bytes of the context in memory.
    pub open spec fn bytes(self) -> Seq<u8> {
        words_bytes(self.words())
    }

    /// The twenty words of the context, lowest address first.
    pub open spec fn words(self) -> Seq<u64> {
        seq![
            self.r15, self.r14, self.r13, self.r12, self.r11,
            self.r10, self.r9, self.r8, self.rbp, self.rsi,
            self.rdi, self.rdx, self.rcx, self.rbx, self.rax,
            self.rip, self.cs, self.rflags, self.rsp, self.ss,
        ]
    }

    /// The context whose words are `w`.
    pub open spec fn from_words(w: Seq<u64>) -> Context {
        Context {
            r15: w[0],
            r14: w[1],
            r13: w[2],
            r12: w[3],
            r11: w[4],
            r10: w[5],
            r9: w[6],
            r8: w[7],
            rbp: w[8],
            rsi: w[9],
            rdi: w[10],
            rdx: w[11],
            rcx: w[12],
            rbx: w[13],
            rax: w[14],
            rip: w[15],
            cs: w[16],
            rflags: w[17],
            rsp: w[18],
            ss: w[19],
        }
    }

    /// `memory` holds this context at `base`.
    pub open spec fn stored_at(self, memory: Seq<u8>, base: int) -> bool {
        words_stored_at(memory, base, self.words())
    }

    /// The context that the pop sequence takes out of `memory` at `base`.
    pub open spec fn read_at(memory: Seq<u8>, base: int) -> Context {
        Context::from_words(words_read_at(memory, base, 20))
    }

    /// The context of a thread that has not run yet: it starts at `entry`
    /// on the stack `stack_top`, with interrupts enabled, in the segments
    /// `code_selector` and `data_selector`, and with every general-purpose
    /// register zero.
    pub open spec fn spec_initial(
        entry: u64,
        stack_top: u64,
        code_selector: u16,
        data_selector: u16,
    ) -> Context {
        Context {
            r15: 0,
            r14: 0,
            r13: 0,
            r12: 0,
            r11: 0,
            r10: 0,
            r9: 0,
            r8: 0,
            rbp: 0,
            rsi: 0,
            rdi: 0,
            rdx: 0,
            rcx: 0,
            rbx: 0,
            rax: 0,
            rip: entry,
            cs: code_selector as u64,
            rflags: RFLAGS_INTERRUPTS_ENABLED,
            rsp: stack_top,
            ss: data_selector as u64,
        }
    }

    /// Builds the context of a thread that has not run yet.
    pub fn initial(entry: u64, stack_top: u64, code_selector: u16, data_selector: u16) -> (ctx:
        Context)
        ensures
            ctx == Context::spec_initial(entry, stack_top, code_selector, data_selector),
    {
        Context {
            r15: 0,
            r14: 0,
            r13: 0,
            r12: 0,
            r11: 0,
            r10: 0,
            r9: 0,
            r8: 0,
            rbp: 0,
            rsi: 0,
            rdi: 0,
            rdx: 0,
            rcx: 0,
            rbx: 0,
            rax: 0,
            rip: entry,
            cs: code_selector as u64,
            rflags: RFLAGS_INTERRUPTS_ENABLED,
            rsp: stack_top,
            ss: data_selector as u64,
        }
    }

    /// The words of the context as a list, lowest address first.
    pub fn to_words(&self) -> (w: Vec<u64>)
        ensures
            w@ == self.words(),
    {
        let w = vec![
            self.r15, self.r14, self.r13, self.r12, self.r11,
            self.r10, self.r9, self.r8, self.rbp, self.rsi,
            self.rdi, self.rdx, self.rcx, self.rbx, self.rax,
            self.rip, self.cs, self.rflags, self.rsp, self.ss,
        ];
        assert(w@ =~= self.words());
        w
    }

    /// The context made of twenty words, lowest address first.
    pub fn of_words(w: &Vec<u64>) -> (ctx: Context)
        requires
            w.len() == 20,
        ensures
            ctx == Context::from_words(w@),
    {
        Context {
            r15: w[0],
            r14: w[1],
            r13: w[2],
            r12: w[3],
            r11: w[4],
            r10: w[5],
            r9: w[6],
            r8: w[7],
            rbp: w[8],
            rsi: w[9],
            rdi: w[10],
            rdx: w[11],
            rcx: w[12],
            rbx: w[13],
            rax: w[14],
            rip: w[15],
            cs: w[16],
            rflags: w[17],
            rsp: w[18],
            ss: w[19],
        }
    }
}

/// Pushes one word: moves the stack pointer down by eight and writes the
/// word there. Nothing else in `memory` changes.
pub fn push_word(memory: &mut Vec<u8>, sp: usize, value: u64) -> (new_sp: usize)
    requires
        8 <= sp <= old(memory).len(),
    ensures
        new_sp == sp - 8,
        final(memory).len() == old(memory).len(),
        final(memory)@.subrange(new_sp as int, sp as int) == spec_u64_to_le_bytes(value),
        forall|k: int|
            0 <= k < old(memory).len() && !(new_sp <= k < sp) ==> final(memory)@[k] == old(
                memory,
            )@[k],
{
    let bytes = u64_to_le_bytes(value);
    proof {
        lemma_auto_spec_u64_to_from_le_bytes();
    }
    let new_sp = sp - 8;
    let mut i: usize = 0;
    while i < 8
        invariant
            0 <= i <= 8,
            new_sp == sp - 8,
            8 <= sp <= memory.len(),
            memory.len() == old(memory).len(),
            bytes@ == spec_u64_to_le_bytes(value),
            bytes.len() == 8,
            forall|k: int| 0 <= k < i ==> memory@[new_sp + k] == bytes@[k],
            forall|k: int|
                0 <= k < memory.len() && !(new_sp <= k < sp) ==> memory@[k] == old(memory)@[k],
        decreases 8 - i,
    {
        memory.set(new_sp + i, bytes[i]);
        i += 1;
    }
    assert(memory@.subrange(new_sp as int, sp as int) =~= bytes@);
    new_sp
}

/// Pops one word: reads the word at the stack pointer and moves the stack
/// pointer up by eight.
pub fn pop_word(memory: &Vec<u8>, sp: usize) -> (popped: (u64, usize))
    requires
        sp + 8 <= memory.len(),
    ensures
        popped.0 == word_at(memory@, sp as int),
        popped.1 == sp + 8,
{
    let value = u64_from_le_bytes(slice_subrange(memory.as_slice(), sp, sp + 8));
    (value, sp + 8)
}

/// The push sequence of interrupt entry. Starting with the stack pointer at
/// `top`, the five words of the CPU and then the fifteen registers are
/// pushed, each in the order that leaves `context` laid out from the new
/// stack pointer upwards. Returns the new stack pointer, which is the
/// address of the saved context.
pub fn save_context(context: &Context, memory: &mut Vec<u8>, top: usize) -> (sp: usize)
    requires
        INTERRUPT_CONTEXT_SIZE <= top <= old(memory).len(),
    ensures
        sp == top - INTERRUPT_CONTEXT_SIZE,
        final(memory)@ == spec_pushed(old(memory)@, top as int, *context),
        final(memory).len() == old(memory).len(),
        context.stored_at(final(memory)@, sp as int),
{
    let words = context.to_words();
    let base = top - INTERRUPT_CONTEXT_SIZE;
    let mut sp = top;
    let mut i: usize = CONTEXT_WORDS;
    while i > 0
        invariant
            0 <= i <= 20,
            words@ == context.words(),
            160 <= top <= memory.len(),
            base == top - 160,
            sp == base + 8 * i,
            memory.len() == old(memory).len(),
            forall|j: int|
                i <= j < 20 ==> #[trigger] memory@.subrange(base + 8 * j, base + 8 * j + 8)
                    == spec_u64_to_le_bytes(words@[j]),
            forall|k: int|
                0 <= k < memory.len() && !(sp <= k < top) ==> memory@[k] == old(memory)@[k],
        decreases i,
    {
        i -= 1;
        let ghost before = memory@;
        let ghost old_sp = sp;
        sp = push_word(memory, sp, words[i]);
        assert forall|j: int| i <= j < 20 implies #[trigger] memory@.subrange(
            base + 8 * j,
            base + 8 * j + 8,
        ) == spec_u64_to_le_bytes(words@[j]) by {
            if j > i {
                assert(memory@.subrange(base + 8 * j, base + 8 * j + 8) =~= before.subrange(
                    base + 8 * j,
                    base + 8 * j + 8,
                ));
            }
        }
    }
    proof {
        lemma_auto_spec_u64_to_from_le_bytes();
        let image = spec_pushed(old(memory)@, top as int, *context);
        assert(image.len() == memory@.len());
        assert forall|k: int| 0 <= k < memory@.len() implies memory@[k] == image[k] by {
            if base <= k < top {
                let j = (k - base) / 8;
                assert(memory@.subrange(base + 8 * j, base + 8 * j + 8)[(k - base) % 8]
                    == memory@[k]);
            }
        }
        assert(memory@ =~= image);
    }
    sp
}

/// Memory into which a context was pushed holds that context below the
/// old stack pointer.
pub proof fn lemma_pushed_is_stored(memory: Seq<u8>, top: int, context: Context)
    requires
        160 <= top <= memory.len(),
    ensures
        spec_pushed(memory, top, context).len() == memory.len(),
        context.stored_at(spec_pushed(memory, top, context), top - 160),
        Context::read_at(spec_pushed(memory, top, context), top - 160) == context,
{
    lemma_auto_spec_u64_to_from_le_bytes();
    let image = spec_pushed(memory, top, context);
    let words = context.words();
    assert forall|j: int| 0 <= j < words.len() implies #[trigger] image.subrange(
        top - 160 + 8 * j,
        top - 160 + 8 * j + 8,
    ) == spec_u64_to_le_bytes(words[j]) by {
        let part = image.subrange(top - 160 + 8 * j, top - 160 + 8 * j + 8);
        assert forall|i: int| 0 <= i < 8 implies part[i] == spec_u64_to_le_bytes(words[j])[i] by {
            assert(part[i] == context.bytes()[8 * j + i]);
            assert((8 * j + i) / 8 == j);
            assert((8 * j + i) % 8 == i);
        }
        assert(part =~= spec_u64_to_le_bytes(words[j]));
    }
    lemma_context_round_trip(image, top - 160, context);
}

/// The pop sequence of interrupt exit. Starting with the stack pointer at
/// `sp`, the fifteen registers are popped in the reverse of the order in
/// which they were pushed, and then the five words that the interrupt
/// return takes. Returns the registers and the stack pointer after the
/// last pop.
pub fn restore_context(memory: &Vec<u8>, sp: usize) -> (popped: (Context, usize))
    requires
        sp + INTERRUPT_CONTEXT_SIZE <= memory.len(),
    ensures
        popped.0 == Context::read_at(memory@, sp as int),
        popped.1 == sp + INTERRUPT_CONTEXT_SIZE,
{
    let mut words: Vec<u64> = Vec::new();
    let mut cursor = sp;
    let mut i: usize = 0;
    while i < CONTEXT_WORDS
        invariant
            0 <= i <= 20,
            sp + 160 <= memory.len(),
            cursor == sp + 8 * i,
            words.len() == i,
            forall|j: int| 0 <= j < i ==> words@[j] == word_at(memory@, sp + 8 * j),
        decreases 20 - i,
    {
        let (word, next) = pop_word(memory, cursor);
        words.push(word);
        cursor = next;
        i += 1;
    }
    assert(words@ =~= words_read_at(memory@, sp as int, 20));
    (Context::of_words(&words), cursor)
}

/// Words that are stored are read back unchanged.
pub proof fn lemma_words_round_trip(memory: Seq<u8>, base: int, words: Seq<u64>)
    requires
        words_stored_at(memory, base, words),
    ensures
        words_read_at(memory, base, words.len()) == words,
{
    lemma_auto_spec_u64_to_from_le_bytes();
    assert forall|j: int| 0 <= j < words.len() implies words_read_at(memory, base, words.len())[j]
        == words[j] by {
        assert(memory.subrange(base + 8 * j, base + 8 * j + 8) == spec_u64_to_le_bytes(words[j]));
    }
    assert(words_read_at(memory, base, words.len()) =~= words);
}

/// A saved context that goes through the pop sequence comes back as it was
/// written: every register, and with them the instruction pointer, the
/// stack pointer, the flags and both segment selectors.
pub proof fn lemma_context_round_trip(memory: Seq<u8>, base: int, context: Context)
    requires
        context.stored_at(memory, base),
    ensures
        Context::read_at(memory, base) == context,
        Context::read_at(memory, base).rip == context.rip,
        Context::read_at(memory, base).rsp == context.rsp,
        Context::read_at(memory, base).rflags == context.rflags,
        Context::read_at(memory, base).cs == context.cs,
        Context::read_at(memory, base).ss == context.ss,
{
    lemma_words_round_trip(memory, base, context.words());
}

} // verus!
