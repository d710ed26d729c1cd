use vstd::prelude::*;

verus! {

/// Size of the addressable memory, in bytes.
pub const MEMORY_SIZE: usize = 0x1000;

/// Offset at which a program is loaded.
pub const PROGRAM_OFFSET: usize = 0x200;

/// Offset of the first digit glyph.
pub const DIGITS_OFFSET: usize = 0x000;

/// Number of digit glyphs: one per hexadecimal digit.
pub const DIGIT_AMOUNT: usize = 16;

/// Rows in one digit glyph.
pub const DIGIT_SPRITE_LENGTH: usize = 5;

/// The built-in glyphs of the sixteen hexadecimal digits, five rows each,
/// the leftmost pixel in the most significant bit.
pub open spec fn font() -> Seq<u8> {
    seq![
        // 0
        0xF0, 0x90, 0x90, 0x90, 0xF0,
        // 1
        0x20, 0x60, 0x20, 0x20, 0x70,
        // 2
        0xF0, 0x10, 0xF0, 0x80, 0xF0,
        // 3
        0xF0, 0x10, 0xF0, 0x10, 0xF0,
        // 4
        0x90, 0x90, 0xF0, 0x10, 0x10,
        // 5
        0xF0, 0x80, 0xF0, 0x10, 0xF0,
        // 6
        0xF0, 0x80, 0xF0, 0x90, 0xF0,
        // 7
        0xF0, 0x10, 0x20, 0x40, 0x40,
        // 8
        0xF0, 0x90, 0xF0, 0x90, 0xF0,
        // 9
        0xF0, 0x90, 0xF0, 0x10, 0xF0,
        // A
        0xF0, 0x90, 0xF0, 0x90, 0x90,
        // B
        0xE0, 0x90, 0xE0, 0x90, 0xE0,
        // C
        0xF0, 0x80, 0x80, 0x80, 0xF0,
        // D
        0xE0, 0x90, 0x90, 0x90, 0xE0,
        // E
        0xF0, 0x80, 0xF0, 0x80, 0xF0,
        // F
        0xF0, 0x80, 0xF0, 0x80, 0x80,
    ]
}

/// Memory as it stands right after loading `rom`: glyphs from the digits
/// offset, the program from the program offset, zeros elsewhere.
pub open spec fn initial_memory(rom: Seq<u8>) -> Seq<u8> {
    Seq::new(
        MEMORY_SIZE as nat,
        |k: int|
            if DIGITS_OFFSET <= k < DIGITS_OFFSET + font().len() {
                font()[k - DIGITS_OFFSET]
            } else if PROGRAM_OFFSET <= k < PROGRAM_OFFSET + rom.len() {
                rom[k - PROGRAM_OFFSET]
            } else {
                0
            },
    )
}

/// Stores the current state of the machine's memory.
pub struct Memory {
    bytes: [u8; 4096],
}

impl View for Memory {
    type V = Seq<u8>;

    closed spec fn view(&self) -> Seq<u8> {
        self.bytes@
    }
}

fn font_table() -> (r: [u8; 80])
    ensures
        r@ == font(),
{
    let r: [u8; 80] = [
        // 0
        0xF0, 0x90, 0x90, 0x90, 0xF0,
        // 1
        0x20, 0x60, 0x20, 0x20, 0x70,
        // 2
        0xF0, 0x10, 0xF0, 0x80, 0xF0,
        // 3
        0xF0, 0x10, 0xF0, 0x10, 0xF0,
        // 4
        0x90, 0x90, 0xF0, 0x10, 0x10,
        // 5
        0xF0, 0x80, 0xF0, 0x10, 0xF0,
        // 6
        0xF0, 0x80, 0xF0, 0x90, 0xF0,
        // 7
        0xF0, 0x10, 0x20, 0x40, 0x40,
        // 8
        0xF0, 0x90, 0xF0, 0x90, 0xF0,
        // 9
        0xF0, 0x90, 0xF0, 0x10, 0xF0,
        // A
        0xF0, 0x90, 0xF0, 0x90, 0x90,
        // B
        0xE0, 0x90, 0xE0, 0x90, 0xE0,
        // C
        0xF0, 0x80, 0x80, 0x80, 0xF0,
        // D
        0xE0, 0x90, 0x90, 0x90, 0xE0,
        // E
        0xF0, 0x80, 0xF0, 0x80, 0xF0,
        // F
        0xF0, 0x80, 0xF0, 0x80, 0x80,
    ];
    assert(r@ =~= font());
    r
}

impl Memory {
    /// Every memory holds exactly `MEMORY_SIZE` bytes.
    pub proof fn lemma_size(&self)
        ensures
            self@.len() == MEMORY_SIZE,
    {
    }

    /// Loads a program into memory, beside the digit glyphs.
    pub fn new(rom: &[u8]) -> (m: Memory)
        requires
            PROGRAM_OFFSET + rom@.len() <= MEMORY_SIZE,
        ensures
            m@ == initial_memory(rom@),
    {
        let mut bytes = [0u8; 4096];
        let digits = font_table();
        let mut index: usize = 0;
        while index < 80
            invariant
                digits@ == font(),
                0 <= index <= 80,
                forall|k: int| 0 <= k < index ==> bytes@[k] == font()[k],
                forall|k: int| index <= k < MEMORY_SIZE ==> bytes@[k] == 0,
            decreases 80 - index,
        {
            bytes[DIGITS_OFFSET + index] = digits[index];
            index += 1;
        }
        let mut index: usize = 0;
        while index < rom.len()
            invariant
                PROGRAM_OFFSET + rom@.len() <= MEMORY_SIZE,
                0 <= index <= rom@.len(),
                forall|k: int| 0 <= k < 80 ==> bytes@[k] == font()[k],
                forall|k: int| 80 <= k < PROGRAM_OFFSET ==> bytes@[k] == 0,
                forall|k: int|
                    PROGRAM_OFFSET <= k < PROGRAM_OFFSET + index ==> bytes@[k] == rom@[k
                        - PROGRAM_OFFSET],
                forall|k: int| PROGRAM_OFFSET + index <= k < MEMORY_SIZE ==> bytes@[k] == 0,
            decreases rom@.len() - index,
        {
            bytes[PROGRAM_OFFSET + index] = rom[index];
            index += 1;
        }
        let m = Memory { bytes };
        assert(m@ =~= initial_memory(rom@));
        m
    }

    /// Returns the position in memory of the glyph of `digit`.
    pub fn calculate_digit_offset(digit: u8) -> (r: usize)
        requires
            (digit as usize) < DIGIT_AMOUNT,
        ensures
            r == DIGITS_OFFSET + digit * DIGIT_SPRITE_LENGTH,
    {
        DIGITS_OFFSET + digit as usize * DIGIT_SPRITE_LENGTH
    }

    /// Returns the byte stored at `offset`.
    pub fn get_byte(&self, offset: usize) -> (r: u8)
        requires
            offset < MEMORY_SIZE,
        ensures
            r == self@[offset as int],
    {
        self.bytes[offset]
    }

    /// Returns the two-byte instruction stored at `offset`, high byte first.
    pub fn get_instruction(&self, offset: usize) -> (r: u16)
        requires
            offset + 1 < MEMORY_SIZE,
        ensures
            r == self@[offset as int] * 0x100 + self@[offset + 1],
    {
        let byte_1 = self.bytes[offset];
        let byte_2 = self.bytes[offset + 1];
        byte_1 as u16 * 0x100 + byte_2 as u16
    }

    /// Returns the `n` bytes from `offset` on, to be drawn as a sprite.
    pub fn get_sprite(&self, offset: usize, n: usize) -> (r: &[u8])
        requires
            offset + n <= MEMORY_SIZE,
        ensures
            r@ == self@.subrange(offset as int, offset + n),
    {
        vstd::slice::slice_subrange(self.bytes.as_slice(), offset, offset + n)
    }

    /// Replaces the byte at `offset` with `byte`.
    pub fn set_byte(&mut self, offset: usize, byte: u8)
        requires
            offset < MEMORY_SIZE,
        ensures
            final(self)@ == old(self)@.update(offset as int, byte),
    {
        self.bytes[offset] = byte;
    }
}

} // verus!
