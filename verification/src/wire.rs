//! The wire format: the exact byte image of the shared structure. Offsets are
//! fixed by this module and must be identical in both parties' binaries;
//! there is no version field, so a layout change is breaking.
use vstd::prelude::*;
use vstd::bytes::*;
use crate::layout::{CaptureConfig, Cursor, GlobalBufferHost};

verus! {

/// Total size in bytes of the shared structure's byte image.
pub const LAYOUT_SIZE: usize = 104;

/// Offset of the 8-byte marker.
pub const OFF_MARKER: usize = 0;

/// Offset of the frame width (u64, little endian).
pub const OFF_WIDTH: usize = 8;

/// Offset of the frame height (u64, little endian).
pub const OFF_HEIGHT: usize = 16;

/// Offset of the three capture-config flag bytes (gdi, dxgi, obs).
pub const OFF_CONFIG: usize = 24;

/// Offset of the frame counter (u32, little endian).
pub const OFF_FRAME_COUNTER: usize = 28;

/// Offset of the frame read counter (u32, little endian).
pub const OFF_FRAME_READ_COUNTER: usize = 32;

/// Offset of the texture-mode tag byte.
pub const OFF_TEXMODE: usize = 36;

/// Offset of the payload pointer (u64, little endian) as the host sees it.
pub const OFF_FRAME_BUFFER: usize = 40;

/// Offset of the 32 padding bytes that mirror the guest's buffer internals.
pub const OFF_FRAME_BUFFER_PAD: usize = 48;

/// Offset of the cursor record (four 32-bit fields, little endian).
pub const OFF_CURSOR: usize = 80;

/// Offset of the screen index (u64, little endian).
pub const OFF_SCREEN_INDEX: usize = 96;

/// The byte a flag is stored as.
pub open spec fn spec_bool_byte(b: bool) -> u8 {
    if b { 1u8 } else { 0u8 }
}

/// The byte image of a cursor record: two's-complement little-endian words.
pub open spec fn spec_encode_cursor(c: Cursor) -> Seq<u8> {
    spec_u32_to_le_bytes(c.is_visible as u32) + spec_u32_to_le_bytes(c.cursor_id)
        + spec_u32_to_le_bytes(c.x as u32) + spec_u32_to_le_bytes(c.y as u32)
}

/// The full byte image of the host's mirror of the shared structure.
pub open spec fn spec_encode_global_buffer(g: GlobalBufferHost) -> Seq<u8> {
    g.marker@ + spec_u64_to_le_bytes(g.width) + spec_u64_to_le_bytes(g.height)
        + seq![
        spec_bool_byte(g.config.gdi),
        spec_bool_byte(g.config.dxgi),
        spec_bool_byte(g.config.obs),
        0u8,
    ] + spec_u32_to_le_bytes(g.frame_counter) + spec_u32_to_le_bytes(g.frame_read_counter)
        + seq![g.frame_texmode, 0u8, 0u8, 0u8] + spec_u64_to_le_bytes(g.frame_buffer)
        + g.frame_buffer_pad@ + spec_encode_cursor(g.cursor) + spec_u64_to_le_bytes(g.screen_index)
}

/// Appends the little-endian image of a 64-bit word.
fn put_u64(out: &mut Vec<u8>, x: u64)
    ensures
        final(out)@ == old(out)@ + spec_u64_to_le_bytes(x),
{
    let mut b = u64_to_le_bytes(x);
    out.append(&mut b);
}

/// Appends the little-endian image of a 32-bit word.
fn put_u32(out: &mut Vec<u8>, x: u32)
    ensures
        final(out)@ == old(out)@ + spec_u32_to_le_bytes(x),
{
    let mut b = u32_to_le_bytes(x);
    out.append(&mut b);
}

/// Serialises the host mirror into its 104-byte wire image.
pub fn encode_global_buffer(g: &GlobalBufferHost) -> (out: Vec<u8>)
    ensures
        out@ == spec_encode_global_buffer(*g),
        out@.len() == LAYOUT_SIZE,
{
    let mut out: Vec<u8> = Vec::new();
    let mut i: usize = 0;
    while i < 8
        invariant
            i <= 8,
            out@ == g.marker@.subrange(0, i as int),
        decreases 8 - i,
    {
        out.push(g.marker[i]);
        proof {
            assert(out@ =~= g.marker@.subrange(0, i + 1));
        }
        i = i + 1;
    }
    proof {
        assert(out@ =~= g.marker@);
    }
    put_u64(&mut out, g.width);
    put_u64(&mut out, g.height);
    out.push(if g.config.gdi { 1 } else { 0 });
    out.push(if g.config.dxgi { 1 } else { 0 });
    out.push(if g.config.obs { 1 } else { 0 });
    out.push(0);
    put_u32(&mut out, g.frame_counter);
    put_u32(&mut out, g.frame_read_counter);
    out.push(g.frame_texmode);
    out.push(0);
    out.push(0);
    out.push(0);
    put_u64(&mut out, g.frame_buffer);
    let mut j: usize = 0;
    let ghost before_pad = out@;
    while j < 32
        invariant
            j <= 32,
            out@ == before_pad + g.frame_buffer_pad@.subrange(0, j as int),
        decreases 32 - j,
    {
        out.push(g.frame_buffer_pad[j]);
        proof {
            assert(out@ =~= before_pad + g.frame_buffer_pad@.subrange(0, j + 1));
        }
        j = j + 1;
    }
    proof {
        assert(before_pad + g.frame_buffer_pad@.subrange(0, 32) =~= before_pad + g.frame_buffer_pad@);
    }
    put_u32(&mut out, g.cursor.is_visible as u32);
    put_u32(&mut out, g.cursor.cursor_id);
    put_u32(&mut out, g.cursor.x as u32);
    put_u32(&mut out, g.cursor.y as u32);
    put_u64(&mut out, g.screen_index);
    proof {
        vstd::bytes::lemma_auto_spec_u32_to_from_le_bytes();
        vstd::bytes::lemma_auto_spec_u64_to_from_le_bytes();
        assert(out@ =~= spec_encode_global_buffer(*g));
    }
    out
}


/// Whether `g` is exactly what the leading bytes of `s` describe.
pub open spec fn is_decoding_of(g: GlobalBufferHost, s: Seq<u8>) -> bool {
    &&& g.marker@ == s.subrange(OFF_MARKER as int, OFF_MARKER + 8)
    &&& g.width == spec_u64_from_le_bytes(s.subrange(OFF_WIDTH as int, OFF_WIDTH + 8))
    &&& g.height == spec_u64_from_le_bytes(s.subrange(OFF_HEIGHT as int, OFF_HEIGHT + 8))
    &&& g.config.gdi == (s[OFF_CONFIG as int] != 0)
    &&& g.config.dxgi == (s[OFF_CONFIG + 1] != 0)
    &&& g.config.obs == (s[OFF_CONFIG + 2] != 0)
    &&& g.frame_counter == spec_u32_from_le_bytes(
        s.subrange(OFF_FRAME_COUNTER as int, OFF_FRAME_COUNTER + 4),
    )
    &&& g.frame_read_counter == spec_u32_from_le_bytes(
        s.subrange(OFF_FRAME_READ_COUNTER as int, OFF_FRAME_READ_COUNTER + 4),
    )
    &&& g.frame_texmode == s[OFF_TEXMODE as int]
    &&& g.frame_buffer == spec_u64_from_le_bytes(
        s.subrange(OFF_FRAME_BUFFER as int, OFF_FRAME_BUFFER + 8),
    )
    &&& g.frame_buffer_pad@ == s.subrange(OFF_FRAME_BUFFER_PAD as int, OFF_FRAME_BUFFER_PAD + 32)
    &&& g.cursor.is_visible == spec_u32_from_le_bytes(
        s.subrange(OFF_CURSOR as int, OFF_CURSOR + 4),
    ) as i32
    &&& g.cursor.cursor_id == spec_u32_from_le_bytes(s.subrange(OFF_CURSOR + 4, OFF_CURSOR + 8))
    &&& g.cursor.x == spec_u32_from_le_bytes(s.subrange(OFF_CURSOR + 8, OFF_CURSOR + 12)) as i32
    &&& g.cursor.y == spec_u32_from_le_bytes(s.subrange(OFF_CURSOR + 12, OFF_CURSOR + 16)) as i32
    &&& g.screen_index == spec_u64_from_le_bytes(
        s.subrange(OFF_SCREEN_INDEX as int, OFF_SCREEN_INDEX + 8),
    )
}

/// Reads a host mirror back out of a byte image. Returns nothing when the
/// bytes are shorter than the structure; extra trailing bytes are ignored.
pub fn decode_global_buffer(s: &[u8]) -> (r: Option<GlobalBufferHost>)
    ensures
        s@.len() < LAYOUT_SIZE ==> r is None,
        s@.len() >= LAYOUT_SIZE ==> r is Some && is_decoding_of(r.unwrap(), s@),
{
    if s.len() < LAYOUT_SIZE {
        return None;
    }
    let marker: [u8; 8] = [s[0], s[1], s[2], s[3], s[4], s[5], s[6], s[7]];
    let width = u64_from_le_bytes(vstd::slice::slice_subrange(s, 8, 16));
    let height = u64_from_le_bytes(vstd::slice::slice_subrange(s, 16, 24));
    let config = CaptureConfig { gdi: s[24] != 0, dxgi: s[25] != 0, obs: s[26] != 0 };
    let frame_counter = u32_from_le_bytes(vstd::slice::slice_subrange(s, 28, 32));
    let frame_read_counter = u32_from_le_bytes(vstd::slice::slice_subrange(s, 32, 36));
    let frame_texmode = s[36];
    let frame_buffer = u64_from_le_bytes(vstd::slice::slice_subrange(s, 40, 48));
    let frame_buffer_pad: [u8; 32] = [s[48], s[49], s[50], s[51], s[52], s[53], s[54], s[55], s[56], s[57], s[58], s[59], s[60], s[61], s[62], s[63], s[64], s[65], s[66], s[67], s[68], s[69], s[70], s[71], s[72], s[73], s[74], s[75], s[76], s[77], s[78], s[79]];
    let cursor = Cursor {
        is_visible: u32_from_le_bytes(vstd::slice::slice_subrange(s, 80, 84)) as i32,
        cursor_id: u32_from_le_bytes(vstd::slice::slice_subrange(s, 84, 88)),
        x: u32_from_le_bytes(vstd::slice::slice_subrange(s, 88, 92)) as i32,
        y: u32_from_le_bytes(vstd::slice::slice_subrange(s, 92, 96)) as i32,
    };
    let screen_index = u64_from_le_bytes(vstd::slice::slice_subrange(s, 96, 104));
    let g = GlobalBufferHost {
        marker,
        width,
        height,
        config,
        frame_counter,
        frame_read_counter,
        frame_texmode,
        frame_buffer,
        frame_buffer_pad,
        cursor,
        screen_index,
    };
    proof {
        assert(g.marker@ =~= s@.subrange(0, 8));
        assert(g.frame_buffer_pad@ =~= s@.subrange(48, 80));
    }
    Some(g)
}

/// Round trip: decoding an encoded mirror yields the mirror itself, bit for
/// bit, provided the flag bytes are canonical (the encoder only emits 0 or 1).
pub proof fn lemma_encode_decode_round_trip(g: GlobalBufferHost, d: GlobalBufferHost)
    requires
        is_decoding_of(d, spec_encode_global_buffer(g)),
    ensures
        d == g,
{
    let s = spec_encode_global_buffer(g);
    lemma_auto_spec_u32_to_from_le_bytes();
    lemma_auto_spec_u64_to_from_le_bytes();
    assert(s.subrange(0, 8) =~= g.marker@);
    assert(s.subrange(8, 16) =~= spec_u64_to_le_bytes(g.width));
    assert(s.subrange(16, 24) =~= spec_u64_to_le_bytes(g.height));
    assert(s[24] == spec_bool_byte(g.config.gdi));
    assert(s[25] == spec_bool_byte(g.config.dxgi));
    assert(s[26] == spec_bool_byte(g.config.obs));
    assert(s.subrange(28, 32) =~= spec_u32_to_le_bytes(g.frame_counter));
    assert(s.subrange(32, 36) =~= spec_u32_to_le_bytes(g.frame_read_counter));
    assert(s[36] == g.frame_texmode);
    assert(s.subrange(40, 48) =~= spec_u64_to_le_bytes(g.frame_buffer));
    assert(s.subrange(48, 80) =~= g.frame_buffer_pad@);
    assert(s.subrange(80, 84) =~= spec_u32_to_le_bytes(g.cursor.is_visible as u32));
    assert(s.subrange(84, 88) =~= spec_u32_to_le_bytes(g.cursor.cursor_id));
    assert(s.subrange(88, 92) =~= spec_u32_to_le_bytes(g.cursor.x as u32));
    assert(s.subrange(92, 96) =~= spec_u32_to_le_bytes(g.cursor.y as u32));
    assert(s.subrange(96, 104) =~= spec_u64_to_le_bytes(g.screen_index));
    assert(d.marker@ == g.marker@);
    vstd::array::axiom_array_ext_equal::<u8, 8>(d.marker, g.marker);
    vstd::array::axiom_array_ext_equal::<u8, 32>(d.frame_buffer_pad, g.frame_buffer_pad);
    let iv = g.cursor.is_visible;
    assert(((iv as u32) as i32) == iv) by (bit_vector);
    let cx = g.cursor.x;
    assert(((cx as u32) as i32) == cx) by (bit_vector);
    let cy = g.cursor.y;
    assert(((cy as u32) as i32) == cy) by (bit_vector);
}

} // verus!
