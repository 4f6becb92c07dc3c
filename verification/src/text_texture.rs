//! Text textures: the font that the caption is drawn with, and the
//! NUL-terminated Shift_JIS text handed to the game's texture manager.

use vstd::prelude::*;
use crate::shift_jis::{ascii_codes, encodable, shift_jis_encode, shift_jis_encoded};

verus! {

/// Length of a font's face name buffer.
pub const FACE_NAME_LEN: usize = 0x100;

/// The fields of the game's font descriptor: the face name (a NUL-padded
/// buffer), the gradient colours, the size and style, and the glyph buffer
/// and spacing.
pub struct FontDesc {
    pub face_name: Vec<u8>,
    pub r1: u8,
    pub r2: u8,
    pub g1: u8,
    pub g2: u8,
    pub b1: u8,
    pub b2: u8,
    pub height: i32,
    pub weight: i32,
    pub italic: u8,
    pub shadow: u8,
    pub use_offset: u8,
    pub buffer_size: u32,
    pub offset_x: u32,
    pub offset_y: u32,
    pub char_space_x: u32,
    pub char_space_y: u32,
}

/// The face name buffer of the caption font: "MS Gothic", then NULs up to
/// [`FACE_NAME_LEN`] bytes.
pub open spec fn caption_face_name() -> Seq<u8> {
    ascii_codes("MS Gothic"@) + Seq::new((FACE_NAME_LEN - 9) as nat, |i: int| 0u8)
}

/// The caption font: 32-pixel MS Gothic of weight 300 with a shadow, white
/// fading to light grey in red and green, blue kept full, a 100000-byte
/// glyph buffer and 2 pixels between lines.
pub open spec fn caption_font(desc: FontDesc) -> bool {
    &&& desc.face_name@ == caption_face_name()
    &&& desc.r1 == 0xFF && desc.r2 == 0xA0
    &&& desc.g1 == 0xFF && desc.g2 == 0xA0
    &&& desc.b1 == 0xFF && desc.b2 == 0xFF
    &&& desc.height == 0x20 && desc.weight == 300
    &&& desc.italic == 0 && desc.shadow == 1 && desc.use_offset == 0
    &&& desc.buffer_size == 100000
    &&& desc.offset_x == 0 && desc.offset_y == 0
    &&& desc.char_space_x == 0 && desc.char_space_y == 2
}

/// The descriptor of the caption font; see [`caption_font`].
pub fn create_font_desc() -> (desc: FontDesc)
    ensures
        caption_font(desc),
{
    let name = "MS Gothic";
    proof {
        reveal_strlit("MS Gothic");
    }
    let mut face_name: Vec<u8> = Vec::new();
    let mut i: usize = 0;
    while i < 9
        invariant
            i <= 9,
            name@ == "MS Gothic"@,
            name@.len() == 9,
            face_name@ == ascii_codes(name@).take(i as int),
        decreases 9 - i,
    {
        let c = name.get_char(i);
        face_name.push(c as u8);
        assert(face_name@ =~= ascii_codes(name@).take(i + 1));
        i = i + 1;
    }
    while i < FACE_NAME_LEN
        invariant
            9 <= i <= FACE_NAME_LEN,
            name@ == "MS Gothic"@,
            name@.len() == 9,
            face_name@ == ascii_codes(name@) + Seq::new((i - 9) as nat, |k: int| 0u8),
        decreases FACE_NAME_LEN - i,
    {
        face_name.push(0);
        assert(face_name@ =~= ascii_codes(name@) + Seq::new((i + 1 - 9) as nat, |k: int| 0u8));
        i = i + 1;
    }
    FontDesc {
        face_name,
        r1: 0xFF,
        r2: 0xA0,
        g1: 0xFF,
        g2: 0xA0,
        b1: 0xFF,
        b2: 0xFF,
        height: 0x20,
        weight: 300,
        italic: 0,
        shadow: 1,
        use_offset: 0,
        buffer_size: 100000,
        offset_x: 0,
        offset_y: 0,
        char_space_x: 0,
        char_space_y: 2,
    }
}

/// Makes the text textures of the caption, all in the caption font.
pub struct TextTextureFactory {
    font: FontDesc,
}

impl TextTextureFactory {
    /// The font that the factory draws with.
    pub closed spec fn font_spec(&self) -> FontDesc {
        self.font
    }

    /// A factory drawing in the caption font.
    pub fn new() -> (factory: TextTextureFactory)
        ensures
            caption_font(factory.font_spec()),
    {
        TextTextureFactory { font: create_font_desc() }
    }

    /// The descriptor of the font that the factory draws with.
    pub fn font(&self) -> (font: &FontDesc)
        ensures
            *font == self.font_spec(),
    {
        &self.font
    }

    /// The bytes handed to the game for a texture showing `text`: the text
    /// with a NUL appended, in Shift_JIS.
    pub fn texture_text(&self, text: &str) -> (bytes: Vec<u8>)
        requires
            text@.len() < usize::MAX / 256,
        ensures
            bytes@ == shift_jis_encoded(text@.push('\0')),
    {
        let mut terminated = text.to_owned();
        terminated.append("\0");
        proof {
            reveal_strlit("\0");
            assert(terminated@ =~= text@.push('\0'));
        }
        shift_jis_encode(terminated.as_str())
    }
}

} // verus!
