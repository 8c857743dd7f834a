use rskernel::boot::boot_message;
use rskernel::boot::kernel_main;
use rskernel::boot::write_message;
use rskernel::boot::ATTRIBUTE_BYTE;
use rskernel::boot::PROBE_BYTE;
use rskernel::framebuffer::FrameBuffer;
use rskernel::state::KernelState;

#[test]
fn boot_message_is_hello_world() {
    assert_eq!(boot_message(), b"Hello World!".to_vec());
    assert_eq!(boot_message().len(), 12);
}

#[test]
fn hello_world_cells_in_order() {
    let mut fb = FrameBuffer::new(vec![0u8; 4000]);
    let s = kernel_main(&mut fb);
    assert_eq!(s, KernelState::Halted);
    let expected = b"Hello World!";
    for i in 0..12 {
        assert_eq!(fb.cell(2 * i), expected[i]);
        assert_eq!(fb.cell(2 * i + 1), ATTRIBUTE_BYTE);
    }
}

#[test]
fn offset_zero_ends_as_h_not_probe() {
    let mut fb = FrameBuffer::new(vec![0u8; 4000]);
    kernel_main(&mut fb);
    assert_eq!(fb.cell(0), 0x48);
    assert_ne!(fb.cell(0), PROBE_BYTE);
}

#[test]
fn probe_written_first_then_first_byte() {
    let mut fb = FrameBuffer::new(vec![0u8; 4000]);
    kernel_main(&mut fb);
    assert_eq!(fb.write_at(0), (0, PROBE_BYTE));
    assert_eq!(fb.write_at(1), (0, 0x48));
}

#[test]
fn write_count_is_twice_len_plus_one() {
    let mut fb = FrameBuffer::new(vec![0u8; 4000]);
    kernel_main(&mut fb);
    assert_eq!(fb.write_count(), 2 * 12 + 1);
}

#[test]
fn full_write_log_in_order() {
    let mut fb = FrameBuffer::new(vec![0u8; 4000]);
    kernel_main(&mut fb);
    let msg = b"Hello World!";
    assert_eq!(fb.write_at(0), (0, PROBE_BYTE));
    for i in 0..12 {
        assert_eq!(fb.write_at(2 * i + 1), (2 * i, msg[i]));
        assert_eq!(fb.write_at(2 * i + 2), (2 * i + 1, ATTRIBUTE_BYTE));
    }
}

#[test]
fn empty_message_probe_only() {
    let mut fb = FrameBuffer::new(vec![0xffu8; 10]);
    let empty: Vec<u8> = Vec::new();
    write_message(&mut fb, &empty);
    assert_eq!(fb.write_count(), 1);
    assert_eq!(fb.write_at(0), (0, PROBE_BYTE));
    assert_eq!(fb.cell(0), PROBE_BYTE);
}

#[test]
fn empty_message_leaves_attribute_cell_untouched() {
    let mut fb = FrameBuffer::new(vec![0xffu8; 10]);
    let empty: Vec<u8> = Vec::new();
    write_message(&mut fb, &empty);
    assert_eq!(fb.cell(1), 0xff);
    for o in 1..10 {
        assert_eq!(fb.cell(o), 0xff);
    }
}

#[test]
fn cells_beyond_message_keep_old_value() {
    let mut fb = FrameBuffer::new(vec![0x7fu8; 4000]);
    kernel_main(&mut fb);
    assert_eq!(fb.cell(24), 0x7f);
    assert_eq!(fb.cell(25), 0x7f);
    assert_eq!(fb.cell(3999), 0x7f);
}

#[test]
fn single_byte_message() {
    let mut fb = FrameBuffer::new(vec![0u8; 4]);
    let msg = vec![0x58u8];
    write_message(&mut fb, &msg);
    assert_eq!(fb.write_count(), 3);
    assert_eq!(fb.cell(0), 0x58);
    assert_eq!(fb.cell(1), ATTRIBUTE_BYTE);
    assert_eq!(fb.cell(2), 0);
    assert_eq!(fb.cell(3), 0);
}

#[test]
fn framebuffer_new_and_write() {
    let mut fb = FrameBuffer::new(vec![1u8, 2, 3]);
    assert_eq!(fb.len(), 3);
    assert_eq!(fb.write_count(), 0);
    assert_eq!(fb.cell(1), 2);
    fb.write(1, 9);
    assert_eq!(fb.cell(1), 9);
    assert_eq!(fb.cell(0), 1);
    assert_eq!(fb.cell(2), 3);
    assert_eq!(fb.write_count(), 1);
    assert_eq!(fb.write_at(0), (1, 9));
}
