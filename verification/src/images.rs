//! The image and label files of a digit data set, held as raw bytes.

use vstd::prelude::*;

verus! {

/// The number that four bytes spell, most significant byte first.
pub open spec fn be_value(bytes: Seq<u8>) -> int
    recommends
        bytes.len() >= 4,
{
    bytes[0] * 0x100_0000 + bytes[1] * 0x1_0000 + bytes[2] * 0x100 + bytes[3]
}

/// The signed 32-bit reading of a value below `2^32`.
pub open spec fn as_signed(value: int) -> int {
    if value < 0x8000_0000 {
        value
    } else {
        value - 0x1_0000_0000
    }
}

proof fn lemma_be_shifts(a: u8, b: u8, c: u8, d: u8)
    by (bit_vector)
    ensures
        ((a as i32) << 24) == (if a < 128 { (a as i32) * 0x100_0000 } else { (a as i32) * 0x100_0000 - 0x1_0000_0000 }),
        ((b as i32) << 16) == (b as i32) * 0x1_0000,
        ((c as i32) << 8) == (c as i32) * 0x100,
        ((d as i32) << 0) == (d as i32),
{
}

/// Reads the first four bytes of `array` as a big-endian word and hands it
/// back as an `i32` with the same bits.
pub fn as_u32_be(array: &[u8]) -> (value: i32)
    requires
        array@.len() >= 4,
    ensures
        value == as_signed(be_value(array@)),
{
    proof {
        lemma_be_shifts(array[0], array[1], array[2], array[3]);
    }
    ((array[0] as i32) << 24) + ((array[1] as i32) << 16) + ((array[2] as i32) << 8) + ((array[3] as i32) << 0)
}

/// Rows of one image.
pub const IMAGE_HEIGHT: usize = 28;

/// Columns of one image.
pub const IMAGE_WIDTH: usize = 28;

/// Pixels, and so bytes, of one image.
pub const IMAGE_SIZE: usize = 784;

/// Bytes that precede the first image in an image file.
pub const IMAGE_HEADER_SIZE: usize = 16;

/// Bytes that precede the first label in a label file.
pub const LABEL_HEADER_SIZE: usize = 8;

/// An image file and its label file, with the counts that the image file's
/// header announces.
pub struct Images {
    amount: u32,
    width: u32,
    height: u32,
    buffer: Vec<u8>,
    idents: Vec<u8>,
}

/// What an [`Images`] holds: the two files and the three header counts.
pub struct ImagesView {
    pub amount: nat,
    pub width: nat,
    pub height: nat,
    /// The whole image file, header included.
    pub image_file: Seq<u8>,
    /// The whole label file, header included.
    pub label_file: Seq<u8>,
}

impl View for Images {
    type V = ImagesView;

    closed spec fn view(&self) -> ImagesView {
        ImagesView {
            amount: self.amount as nat,
            width: self.width as nat,
            height: self.height as nat,
            image_file: self.buffer@,
            label_file: self.idents@,
        }
    }
}

proof fn lemma_signed_round_trip(value: u32, signed: i32)
    by (bit_vector)
    requires
        signed == (if value < 0x8000_0000u32 { value as int } else { value as int - 0x1_0000_0000 }),
    ensures
        signed as u32 == value,
{
}

/// The header word that starts at byte `at`, read as an unsigned number.
fn header_word(bytes: &[u8], at: usize) -> (word: u32)
    requires
        at + 4 <= bytes@.len(),
    ensures
        word == be_value(bytes@.subrange(at as int, at + 4)),
{
    assert(bytes@.len() == bytes.len());
    let field = vstd::slice::slice_subrange(bytes, at, at + 4);
    let signed = as_u32_be(field);
    proof {
        lemma_signed_round_trip(be_value(field@) as u32, signed);
    }
    #[verifier::truncate]
    (signed as u32)
}

impl Images {
    /// Where image `id` starts in the image file.
    pub open spec fn image_start(id: int) -> int {
        IMAGE_HEADER_SIZE + IMAGE_SIZE * id
    }

    /// Whether both files reach far enough to hold image `id` and its label.
    pub open spec fn holds(&self, id: int) -> bool {
        &&& 0 <= id
        &&& Self::image_start(id) + IMAGE_SIZE <= self@.image_file.len()
        &&& LABEL_HEADER_SIZE + id < self@.label_file.len()
    }

    /// Takes the bytes of an image file and of a label file and reads the
    /// image count, the height and the width from the image file's header.
    pub fn new(image_buffer: Vec<u8>, label_buffer: Vec<u8>) -> (images: Images)
        requires
            image_buffer@.len() >= IMAGE_HEADER_SIZE,
        ensures
            images@.image_file == image_buffer@,
            images@.label_file == label_buffer@,
            images@.amount == be_value(image_buffer@.subrange(4, 8)),
            images@.height == be_value(image_buffer@.subrange(8, 12)),
            images@.width == be_value(image_buffer@.subrange(12, 16)),
    {
        let amount = header_word(image_buffer.as_slice(), 4);
        let height = header_word(image_buffer.as_slice(), 8);
        let width = header_word(image_buffer.as_slice(), 12);
        Images { amount, width, height, buffer: image_buffer, idents: label_buffer }
    }

    /// The number of images that the header announces.
    pub fn amount(&self) -> (amount: u32)
        ensures
            amount == self@.amount,
    {
        self.amount
    }

    /// The width of an image that the header announces.
    pub fn width(&self) -> (width: u32)
        ensures
            width == self@.width,
    {
        self.width
    }

    /// The height of an image that the header announces.
    pub fn height(&self) -> (height: u32)
        ensures
            height == self@.height,
    {
        self.height
    }

    /// Whether `get` may be asked for image `id`.
    pub fn has_image(&self, id: usize) -> (present: bool)
        ensures
            present == self.holds(id as int),
    {
        let image_len = self.buffer.len();
        let label_len = self.idents.len();
        image_len >= IMAGE_HEADER_SIZE + IMAGE_SIZE
            && id <= (image_len - IMAGE_HEADER_SIZE - IMAGE_SIZE) / IMAGE_SIZE
            && label_len > LABEL_HEADER_SIZE
            && id < label_len - LABEL_HEADER_SIZE
    }

    /// Image `id` with its label.
    pub fn get(&self, id: usize) -> (entry: ([u8; IMAGE_SIZE], u8))
        requires
            self.holds(id as int),
        ensures
            entry.0@ == self@.image_file.subrange(
                Self::image_start(id as int),
                Self::image_start(id as int) + IMAGE_SIZE,
            ),
            entry.1 == self@.label_file[LABEL_HEADER_SIZE + id],
    {
        assert(self.buffer@.len() == self.buffer.len());
        let buffer_start = IMAGE_HEADER_SIZE + IMAGE_SIZE * id;
        let mut image = [0u8; IMAGE_SIZE];
        let mut offset: usize = 0;
        while offset < IMAGE_SIZE
            invariant
                offset <= IMAGE_SIZE,
                buffer_start == Self::image_start(id as int),
                buffer_start + IMAGE_SIZE <= self.buffer.len(),
                forall|k: int| 0 <= k < offset ==> image@[k] == self.buffer@[buffer_start + k],
            decreases IMAGE_SIZE - offset,
        {
            image[offset] = self.buffer[buffer_start + offset];
            offset += 1;
        }
        (image, self.idents[LABEL_HEADER_SIZE + id])
    }
}

} // verus!
