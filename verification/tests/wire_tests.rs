use mirror::layout::{CaptureConfig, Cursor, GlobalBufferHost, TextureMode};
use mirror::wire::{decode_global_buffer, encode_global_buffer, LAYOUT_SIZE};
use mirror::layout::{CaptureTarget, CaptureTargetType, GlobalFrameBuffer, BGRA8};

fn sample_mirror() -> GlobalBufferHost {
    GlobalBufferHost {
        marker: [0x0D, 0x0E, 0x0A, 0x0D, 0x0B, 0x0A, 0x0B, 0x0E],
        width: 1024,
        height: 768,
        config: CaptureConfig { gdi: false, dxgi: true, obs: true },
        frame_counter: 41,
        frame_read_counter: 40,
        frame_texmode: 1,
        frame_buffer: 0x7FFE_0000_1234,
        frame_buffer_pad: [7u8; 32],
        cursor: Cursor { is_visible: 1, cursor_id: 65541, x: -17, y: 923 },
        screen_index: 2,
    }
}

#[test]
fn encode_produces_fixed_size_image() {
    let g = sample_mirror();
    let bytes = encode_global_buffer(&g);
    assert_eq!(bytes.len(), LAYOUT_SIZE);
    assert_eq!(bytes.len(), 104);
}

#[test]
fn encode_places_fields_at_fixed_offsets() {
    let g = sample_mirror();
    let bytes = encode_global_buffer(&g);
    assert_eq!(&bytes[0..8], &[0x0D, 0x0E, 0x0A, 0x0D, 0x0B, 0x0A, 0x0B, 0x0E]);
    assert_eq!(&bytes[8..16], &1024u64.to_le_bytes());
    assert_eq!(&bytes[16..24], &768u64.to_le_bytes());
    assert_eq!(&bytes[24..28], &[0, 1, 1, 0]); // gdi, dxgi, obs, padding
    assert_eq!(&bytes[28..32], &41u32.to_le_bytes());
    assert_eq!(&bytes[32..36], &40u32.to_le_bytes());
    assert_eq!(bytes[36], 1);
    assert_eq!(&bytes[40..48], &0x7FFE_0000_1234u64.to_le_bytes());
    assert_eq!(&bytes[48..80], &[7u8; 32]);
    assert_eq!(&bytes[80..84], &1u32.to_le_bytes());
    assert_eq!(&bytes[84..88], &65541u32.to_le_bytes());
    assert_eq!(&bytes[88..92], &(-17i32).to_le_bytes());
    assert_eq!(&bytes[92..96], &923i32.to_le_bytes());
    assert_eq!(&bytes[96..104], &2u64.to_le_bytes());
}

#[test]
fn decode_round_trips_encode() {
    let g = sample_mirror();
    let bytes = encode_global_buffer(&g);
    let d = decode_global_buffer(&bytes).expect("a full image must decode");
    assert_eq!(d, g);
}

#[test]
fn decode_rejects_short_input() {
    let g = sample_mirror();
    let bytes = encode_global_buffer(&g);
    assert!(decode_global_buffer(&bytes[..103]).is_none());
    assert!(decode_global_buffer(&[]).is_none());
}

#[test]
fn decode_ignores_trailing_bytes() {
    let g = sample_mirror();
    let mut bytes = encode_global_buffer(&g);
    bytes.extend_from_slice(&[0xAB; 40]);
    let d = decode_global_buffer(&bytes).expect("a longer image still decodes");
    assert_eq!(d, g);
}

#[test]
fn decode_reads_any_nonzero_flag_byte_as_set() {
    let g = sample_mirror();
    let mut bytes = encode_global_buffer(&g);
    bytes[24] = 0x80; // gdi flag stored non-canonically
    let d = decode_global_buffer(&bytes).unwrap();
    assert!(d.config.gdi);
}

#[test]
fn texture_mode_tag_round_trips() {
    assert_eq!(TextureMode::from_u8(TextureMode::RGBA.as_u8()), Some(TextureMode::RGBA));
    assert_eq!(TextureMode::from_u8(TextureMode::BGRA.as_u8()), Some(TextureMode::BGRA));
    assert_eq!(TextureMode::from_u8(2), None);
    assert_eq!(TextureMode::from_u8(255), None);
}

#[test]
fn layout_value_types_hold_their_contents() {
    let t = CaptureTarget { ty: 1, name: "Game".to_string() };
    assert_eq!(t.name, "Game");
    assert_ne!(CaptureTargetType::Desktop, CaptureTargetType::Window);
    let px = BGRA8 { b: 1, g: 2, r: 3, a: 4 };
    let f = GlobalFrameBuffer {
        marker: [0x0D, 0x0E, 0x0A, 0x0D, 0x0B, 0x0A, 0x0B, 0x0E],
        resolution: (2, 2),
        frame_counter: 0,
        frame_buffer: vec![px; 4],
        cursor: mirror::layout::Cursor::new(),
    };
    assert_eq!(f.frame_buffer.len(), 4);
    assert_eq!(f.frame_buffer[0].r, 3);
}
