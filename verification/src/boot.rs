use vstd::prelude::*;

use crate::framebuffer::FrameBuffer;
use crate::state::KernelEvent;
use crate::state::KernelState;
use crate::state::step;

verus! {

/// The liveness probe byte: the character 'A', written once to the base of
/// the framebuffer before anything else, to show bytewise addressability.
pub const PROBE_BYTE: u8 = 0x41;

/// The display attribute written beside every message character: light cyan
/// on black, per the legacy text-mode convention.
pub const ATTRIBUTE_BYTE: u8 = 0x0b;

/// The boot message: the bytes of "Hello World!".
pub open spec fn boot_message_spec() -> Seq<u8> {
    seq![0x48u8, 0x65u8, 0x6cu8, 0x6cu8, 0x6fu8, 0x20u8, 0x57u8, 0x6fu8, 0x72u8, 0x6cu8, 0x64u8, 0x21u8]
}

/// The boot message as a vector of bytes.
pub fn boot_message() -> (msg: Vec<u8>)
    ensures
        msg@ == boot_message_spec(),
{
    let mut msg: Vec<u8> = Vec::new();
    msg.push(0x48);
    msg.push(0x65);
    msg.push(0x6c);
    msg.push(0x6c);
    msg.push(0x6f);
    msg.push(0x20);
    msg.push(0x57);
    msg.push(0x6f);
    msg.push(0x72);
    msg.push(0x6c);
    msg.push(0x64);
    msg.push(0x21);
    proof {
        assert(msg@ =~= boot_message_spec());
    }
    msg
}

/// Every write the boot sequence performs, oldest first: the probe at
/// offset 0, then, for each message index in increasing order, the
/// character byte at twice the index followed by the attribute byte at the
/// next odd offset.
pub open spec fn boot_log(msg: Seq<u8>) -> Seq<(usize, u8)> {
    Seq::new(
        2 * msg.len() + 1,
        |j: int|
            if j == 0 {
                (0usize, PROBE_BYTE)
            } else if (j - 1) % 2 == 0 {
                ((j - 1) as usize, msg[(j - 1) / 2])
            } else {
                ((j - 1) as usize, ATTRIBUTE_BYTE)
            },
    )
}

/// The buffer contents after the probe and the first `k` message bytes have
/// been written over `init`: message characters at even offsets below `2*k`,
/// the attribute at the odd ones, the probe at offset 0 while no character
/// has covered it, and everything else untouched.
pub open spec fn cells_after(init: Seq<u8>, msg: Seq<u8>, k: int) -> Seq<u8> {
    Seq::new(
        init.len(),
        |o: int|
            if o < 2 * k {
                if o % 2 == 0 {
                    msg[o / 2]
                } else {
                    ATTRIBUTE_BYTE
                }
            } else if o == 0 {
                PROBE_BYTE
            } else {
                init[o]
            },
    )
}

/// The buffer contents once the whole boot sequence has run over `init`.
pub open spec fn booted_cells(init: Seq<u8>, msg: Seq<u8>) -> Seq<u8> {
    cells_after(init, msg, msg.len() as int)
}

/// The visible work of the cold start, over any message: one probe write to
/// the base of the buffer, then the message bytes in strictly increasing
/// index order, each followed by its attribute byte, none skipped and none
/// revisited.
pub fn write_message(fb: &mut FrameBuffer, msg: &Vec<u8>)
    requires
        old(fb).cells().len() >= 1,
        old(fb).cells().len() >= 2 * msg@.len(),
    ensures
        final(fb).cells() == booted_cells(old(fb).cells(), msg@),
        final(fb).log() == old(fb).log() + boot_log(msg@),
{
    proof {
        old(fb).lemma_len_fits();
    }
    fb.write(0, PROBE_BYTE);
    proof {
        assert(fb.cells() =~= cells_after(old(fb).cells(), msg@, 0));
        assert(fb.log() =~= old(fb).log() + boot_log(msg@).take(1));
    }
    let mut i: usize = 0;
    while i < msg.len()
        invariant
            i <= msg@.len(),
            old(fb).cells().len() >= 2 * msg@.len(),
            old(fb).cells().len() <= usize::MAX,
            fb.cells() == cells_after(old(fb).cells(), msg@, i as int),
            fb.log() == old(fb).log() + boot_log(msg@).take(1 + 2 * i),
        decreases msg@.len() - i,
    {
        fb.write(2 * i, msg[i]);
        fb.write(2 * i + 1, ATTRIBUTE_BYTE);
        proof {
            assert(fb.cells() =~= cells_after(old(fb).cells(), msg@, i + 1));
            assert(fb.log() =~= old(fb).log() + boot_log(msg@).take(1 + 2 * (i + 1)));
        }
        i = i + 1;
    }
    proof {
        assert(boot_log(msg@).take(1 + 2 * msg@.len() as int) =~= boot_log(msg@));
    }
}

/// The entry point's cold-start sequence, modelled over the framebuffer:
/// the liveness probe, then the boot message with its attributes, after
/// which the machine settles into its idle loop — observably the halted
/// state, which the returned value records. The freestanding symbol the
/// bootloader jumps to performs these writes against the memory-mapped
/// buffer and then spins forever; it stands outside the verified library.
pub fn kernel_main(fb: &mut FrameBuffer) -> (s: KernelState)
    requires
        old(fb).cells().len() >= 1,
        old(fb).cells().len() >= 2 * boot_message_spec().len(),
    ensures
        final(fb).cells() == booted_cells(old(fb).cells(), boot_message_spec()),
        final(fb).log() == old(fb).log() + boot_log(boot_message_spec()),
        s == step(KernelState::Running, KernelEvent::BootWorkDone),
        s == KernelState::Halted,
{
    let msg = boot_message();
    write_message(fb, &msg);
    KernelState::Halted
}

/// After the boot sequence, every message byte stands at twice its index
/// and the fixed attribute byte at the following odd offset.
pub proof fn lemma_message_cells(init: Seq<u8>, msg: Seq<u8>, i: int)
    requires
        0 <= i < msg.len(),
        init.len() >= 2 * msg.len(),
    ensures
        booted_cells(init, msg)[2 * i] == msg[i],
        booted_cells(init, msg)[2 * i + 1] == ATTRIBUTE_BYTE,
{
}

/// The write sequence in order: the probe comes first, and for each message
/// index the character write at the even offset is followed at once by the
/// attribute write at the odd offset.
pub proof fn lemma_write_order(msg: Seq<u8>, i: int)
    requires
        0 <= i < msg.len(),
        2 * msg.len() <= usize::MAX,
    ensures
        boot_log(msg)[0] == (0usize, PROBE_BYTE),
        boot_log(msg)[2 * i + 1] == (((2 * i) as usize, msg[i])),
        boot_log(msg)[2 * i + 2] == (((2 * i + 1) as usize, ATTRIBUTE_BYTE)),
{
}

/// Offset 0 is written twice when the message is non-empty: first by the
/// probe, then by the first message byte, whose value is the one that
/// remains. With an empty message the probe's value stays.
pub proof fn lemma_probe_then_first_byte(init: Seq<u8>, msg: Seq<u8>)
    requires
        init.len() >= 1,
        init.len() >= 2 * msg.len(),
    ensures
        boot_log(msg)[0] == (0usize, PROBE_BYTE),
        msg.len() > 0 ==> boot_log(msg)[1] == (0usize, msg[0]),
        msg.len() > 0 ==> booted_cells(init, msg)[0] == msg[0],
        msg.len() == 0 ==> booted_cells(init, msg)[0] == PROBE_BYTE,
{
}

/// Exactly `2 * len(msg) + 1` write operations occur during the boot
/// sequence: one per message character, one per attribute, and the probe.
pub proof fn lemma_write_count(msg: Seq<u8>)
    ensures
        boot_log(msg).len() == 2 * msg.len() + 1,
{
}

/// Cells beyond the message region — among them, for an empty message, the
/// attribute cell at offset 1 — keep the value they held before boot; only
/// offset 0 is touched outside that region, by the probe.
pub proof fn lemma_untouched_cells(init: Seq<u8>, msg: Seq<u8>, o: int)
    requires
        2 * msg.len() <= o < init.len(),
        o != 0,
    ensures
        booted_cells(init, msg)[o] == init[o],
{
}

} // verus!
