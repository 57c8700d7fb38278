//! Whole-protocol runs over a simulated guest address space: a byte vector
//! standing in for guest memory, with the shared structure and the payload
//! placed at fixed spots, and every remote read and write spelled out.
use mirror::guest::{Frame, GuestPublisher};
use mirror::host::{CaptureData, CaptureProcess};
use mirror::layout::{CaptureConfig, GlobalBufferHost};
use mirror::reader::{decode_image, Rgba8};
use mirror::wire::{decode_global_buffer, encode_global_buffer, LAYOUT_SIZE};

const BASE: u64 = 0x0040_0000;
const STRUCT_OFF: usize = 0x180;
const PAYLOAD_OFF: usize = 0x2000;

/// Mirrors the guest publisher's state into the simulated memory, as the
/// guest's own address space would expose it: the structure's byte image at
/// its fixed spot, with the payload field holding the payload's virtual
/// address, and the payload bytes at that address.
fn sync_guest_to_memory(p: &GuestPublisher, mem: &mut Vec<u8>) {
    let wire = GlobalBufferHost {
        marker: p.buffer.marker,
        width: p.buffer.width,
        height: p.buffer.height,
        config: p.buffer.config,
        frame_counter: p.buffer.frame_counter,
        frame_read_counter: p.buffer.frame_read_counter,
        frame_texmode: p.buffer.frame_texmode,
        frame_buffer: BASE + PAYLOAD_OFF as u64,
        frame_buffer_pad: [0u8; 32],
        cursor: p.buffer.cursor,
        screen_index: p.buffer.screen_index,
    };
    let bytes = encode_global_buffer(&wire);
    mem[STRUCT_OFF..STRUCT_OFF + LAYOUT_SIZE].copy_from_slice(&bytes);
    let len = p.buffer.frame_buffer.len();
    mem[PAYLOAD_OFF..PAYLOAD_OFF + len].copy_from_slice(&p.buffer.frame_buffer);
}

#[test]
fn marker_to_red_pixels() {
    let mut mem = vec![0xCCu8; 0x4000];

    // Guest side: publish frame 1, a solid-red 2x2 frame in BGRA order.
    let mut guest = GuestPublisher::new((2, 2), 0);
    let red_bgra: Vec<u8> = [0x00u8, 0x00, 0xFF, 0xFF].repeat(4);
    guest.tick(Some(Frame::DXGI((&red_bgra, (2, 2)))), None);
    assert_eq!(guest.buffer.frame_counter, 1);
    sync_guest_to_memory(&guest, &mut mem);

    // Host side: discover the structure by scanning the module image.
    let mut proc = CaptureProcess::new(BASE, &mem).expect("marker must be found");
    assert_eq!(proc.marker_addr, BASE + STRUCT_OFF as u64);

    // First remote read: the structure itself.
    let struct_off = (proc.marker_addr - BASE) as usize;
    let metadata = decode_global_buffer(&mem[struct_off..]).expect("structure decodes");
    assert_eq!(metadata.frame_counter, 1);
    assert_eq!(metadata.frame_read_counter, 0);

    // A new frame exists: fetch the payload through the advertised address.
    let mut data = CaptureData::default();
    let config = CaptureConfig::default();
    let req = proc.update_begin(&mut data, Some(metadata)).expect("fresh frame");
    assert_eq!(req.addr, BASE + PAYLOAD_OFF as u64);
    assert_eq!(req.len, 16);
    let payload_off = (req.addr - BASE) as usize;
    let payload = mem[payload_off..payload_off + req.len].to_vec();
    let ack = proc.update_finish(&mut data, &config, Some(payload));

    // The acknowledgment write lands in guest memory; the guest adopts it.
    let ack_bytes = encode_global_buffer(&ack);
    mem[STRUCT_OFF..STRUCT_OFF + LAYOUT_SIZE].copy_from_slice(&ack_bytes);
    let written = decode_global_buffer(&mem[STRUCT_OFF..]).unwrap();
    guest.apply_host_ack(written.frame_read_counter, written.config);
    assert_eq!(guest.buffer.frame_read_counter, 1);

    // The host decodes the frame applying the advertised texture mode: all
    // four pixels come out red.
    let img = decode_image(
        &data.frame_buffer,
        data.global_buffer.width,
        data.global_buffer.height,
        data.global_buffer.frame_texmode,
    )
    .expect("consistent image");
    assert_eq!(img.pixels.len(), 4);
    for px in &img.pixels {
        assert_eq!(*px, Rgba8 { r: 0xFF, g: 0x00, b: 0x00, a: 0xFF });
    }

    // The channel is idle again: the guest may publish frame 2.
    let green_bgra: Vec<u8> = [0x00u8, 0xFF, 0x00, 0xFF].repeat(4);
    guest.tick(Some(Frame::DXGI((&green_bgra, (2, 2)))), None);
    assert_eq!(guest.buffer.frame_counter, 2);
    assert_eq!(guest.buffer.frame_buffer, green_bgra);
}

#[test]
fn resolution_change_end_to_end() {
    let mut mem = vec![0xCCu8; 0x200_0000];

    // Guest publishes at 800x600.
    let mut guest = GuestPublisher::new((800, 600), 0);
    let frame1 = vec![0x11u8; 800 * 600 * 4];
    guest.tick(Some(Frame::DXGI((&frame1, (800, 600)))), None);
    sync_guest_to_memory(&guest, &mut mem);

    let mut proc = CaptureProcess::new(BASE, &mem).unwrap();
    let mut data = CaptureData::default();
    let config = CaptureConfig::default();

    let metadata = decode_global_buffer(&mem[STRUCT_OFF..]).unwrap();
    let req = proc.update_begin(&mut data, Some(metadata)).unwrap();
    assert_eq!(req.len, 1_920_000);
    let off = (req.addr - BASE) as usize;
    let ack = proc.update_finish(&mut data, &config, Some(mem[off..off + req.len].to_vec()));
    guest.apply_host_ack(ack.frame_read_counter, ack.config);

    // Guest republishes at 1024x768.
    let frame2 = vec![0x22u8; 1024 * 768 * 4];
    guest.tick(Some(Frame::DXGI((&frame2, (1024, 768)))), None);
    assert_eq!(guest.resolution, (1024, 768));
    sync_guest_to_memory(&guest, &mut mem);

    let metadata = decode_global_buffer(&mem[STRUCT_OFF..]).unwrap();
    let req = proc.update_begin(&mut data, Some(metadata)).unwrap();
    assert_eq!(req.len, 3_145_728);
    let off = (req.addr - BASE) as usize;
    proc.update_finish(&mut data, &config, Some(mem[off..off + req.len].to_vec()));

    // The host's buffer was reallocated and holds only the second frame.
    assert_eq!(data.frame_buffer.len(), 3_145_728);
    assert!(data.frame_buffer.iter().all(|&b| b == 0x22));
}
