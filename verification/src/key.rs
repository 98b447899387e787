use vstd::prelude::*;

verus! {

/// Width of a cache key in bytes: keys are 256-bit content hashes.
pub const KEY_BYTES: usize = 32;

/// Lowercase hexadecimal digits, indexed by value.
pub const HEX_DIGITS: [char; 16] = [
    '0', '1', '2', '3', '4', '5', '6', '7', '8', '9', 'a', 'b', 'c', 'd', 'e', 'f',
];

/// The lowercase hexadecimal digit character for a value below sixteen.
pub open spec fn hex_digit(d: int) -> char {
    HEX_DIGITS@[d]
}

/// The lowercase hexadecimal rendering of a byte sequence, two digits per byte.
pub open spec fn hex_chars_of(bytes: Seq<u8>) -> Seq<char>
    decreases bytes.len(),
{
    if bytes.len() == 0 {
        seq![]
    } else {
        seq![hex_digit(bytes.first() as int / 16), hex_digit(bytes.first() as int % 16)]
            + hex_chars_of(bytes.drop_first())
    }
}

/// The file name under which a key's snapshot is stored: `0x`, the key's
/// lowercase hex digits, then `.json`. The extension is a fixed naming
/// convention of the on-disk layout; the contents are compressed binary,
/// not JSON.
pub open spec fn file_name_of(key: Seq<u8>) -> Seq<char> {
    seq!['0', 'x'] + hex_chars_of(key) + seq!['.', 'j', 's', 'o', 'n']
}

/// Relies on `alloc::string::String::push`: appends the given character to
/// the end of the string.
pub assume_specification[ String::push ](s: &mut String, ch: char)
    ensures
        final(s)@ == old(s)@.push(ch),
;

/// A fixed-width identifier naming one cached snapshot, typically a content
/// hash of the value it names. Used only for path derivation.
#[derive(Clone, Copy)]
pub struct CacheKey {
    bytes: [u8; KEY_BYTES],
}

impl View for CacheKey {
    type V = Seq<u8>;

    closed spec fn view(&self) -> Seq<u8> {
        self.bytes@
    }
}

impl CacheKey {
    /// Wraps the given 32 bytes as a key.
    pub fn new(bytes: [u8; KEY_BYTES]) -> (r: Self)
        ensures
            r@ == bytes@,
    {
        CacheKey { bytes }
    }

    /// Renders the file name for this key: `0x`, 64 lowercase hex digits,
    /// `.json`.
    pub fn file_name(&self) -> (r: String)
        ensures
            r@ == file_name_of(self@),
    {
        let mut name = String::new();
        name.push('0');
        name.push('x');
        for i in 0..KEY_BYTES
            invariant
                name@ == seq!['0', 'x'] + hex_chars_of(self@.take(i as int)),
                self@.len() == KEY_BYTES,
        {
            let b = self.bytes[i];
            name.push(HEX_DIGITS[(b / 16) as usize]);
            name.push(HEX_DIGITS[(b % 16) as usize]);
            proof {
                lemma_hex_chars_of_snoc(self@, i as int);
            }
        }
        assert(self@.take(KEY_BYTES as int) == self@);
        name.push('.');
        name.push('j');
        name.push('s');
        name.push('o');
        name.push('n');
        assert(name@ =~= file_name_of(self@));
        name
    }
}

/// Extending the prefix by one byte appends that byte's two hex digits.
proof fn lemma_hex_chars_of_snoc(bytes: Seq<u8>, i: int)
    requires
        0 <= i < bytes.len(),
    ensures
        hex_chars_of(bytes.take(i + 1)) == hex_chars_of(bytes.take(i)) + seq![
            hex_digit(bytes[i] as int / 16),
            hex_digit(bytes[i] as int % 16),
        ],
    decreases i,
{
    if i == 0 {
        assert(bytes.take(1).first() == bytes[0]);
        assert(bytes.take(1).drop_first() =~= Seq::<u8>::empty());
        assert(bytes.take(0) =~= Seq::<u8>::empty());
        assert(hex_chars_of(bytes.take(1)) =~= seq![
            hex_digit(bytes[0] as int / 16),
            hex_digit(bytes[0] as int % 16),
        ]);
    } else {
        lemma_hex_chars_of_snoc(bytes.drop_first(), i - 1);
        assert(bytes.take(i + 1).first() == bytes[0]);
        assert(bytes.take(i + 1).drop_first() =~= bytes.drop_first().take(i));
        assert(bytes.take(i).first() == bytes[0]);
        assert(bytes.take(i).drop_first() =~= bytes.drop_first().take(i - 1));
        assert(bytes.drop_first()[i - 1] == bytes[i]);
    }
}

} // verus!
