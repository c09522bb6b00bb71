//! Values of the blob store that need no native call.

use vstd::prelude::*;
use vstd::string::StringExecFns;

verus! {

/// Identity of a blob in a blob store.
#[derive(Clone, Copy, Debug, PartialEq, Eq, Hash, Structural)]
pub struct BlobId {
    pub id: u64,
}

/// The character that stands for a value below ten.
pub open spec fn digit(value: nat) -> char {
    if value == 0 {
        '0'
    } else if value == 1 {
        '1'
    } else if value == 2 {
        '2'
    } else if value == 3 {
        '3'
    } else if value == 4 {
        '4'
    } else if value == 5 {
        '5'
    } else if value == 6 {
        '6'
    } else if value == 7 {
        '7'
    } else if value == 8 {
        '8'
    } else {
        '9'
    }
}

/// A number written in decimal, without leading zeros.
pub open spec fn decimal(value: nat) -> Seq<char>
    decreases value,
{
    if value < 10 {
        seq![digit(value)]
    } else {
        decimal(value / 10).push(digit(value % 10))
    }
}

fn digit_str(value: u64) -> (text: &'static str)
    requires
        value < 10,
    ensures
        text@ == seq![digit(value as nat)],
{
    proof {
        reveal_strlit("0");
        reveal_strlit("1");
        reveal_strlit("2");
        reveal_strlit("3");
        reveal_strlit("4");
        reveal_strlit("5");
        reveal_strlit("6");
        reveal_strlit("7");
        reveal_strlit("8");
        reveal_strlit("9");
    }
    let text = if value == 0 {
        "0"
    } else if value == 1 {
        "1"
    } else if value == 2 {
        "2"
    } else if value == 3 {
        "3"
    } else if value == 4 {
        "4"
    } else if value == 5 {
        "5"
    } else if value == 6 {
        "6"
    } else if value == 7 {
        "7"
    } else if value == 8 {
        "8"
    } else {
        "9"
    };
    assert(text@ =~= seq![digit(value as nat)]);
    text
}

/// Appends `value`, written in decimal, to `text`.
fn append_decimal(text: &mut String, value: u64)
    ensures
        final(text)@ == old(text)@ + decimal(value as nat),
    decreases value,
{
    if value >= 10 {
        append_decimal(text, value / 10);
    }
    text.append(digit_str(value % 10));
    assert(text@ =~= old(text)@ + decimal(value as nat));
}

impl BlobId {
    /// The identity that the native layer knows under the number `id`.
    pub fn set_blob_id(id: u64) -> (blob: BlobId)
        ensures
            blob.id == id,
    {
        BlobId { id }
    }

    /// How a blob identity is written out.
    pub open spec fn text(self) -> Seq<char> {
        "BlobId("@ + decimal(self.id as nat) + ")"@
    }

    /// The identity written out: `BlobId(`, the number in decimal, `)`.
    pub fn to_string(&self) -> (text: String)
        ensures
            text@ == self.text(),
    {
        let mut text = String::from_str("BlobId(");
        append_decimal(&mut text, self.id);
        text.append(")");
        text
    }
}

impl Default for BlobId {
    fn default() -> (blob: BlobId)
        ensures
            blob.id == 0,
    {
        BlobId { id: 0 }
    }
}

/// The unit size of a blob that has not been opened on a store.
pub const DEFAULT_IO_UNIT_SIZE: u64 = 512;

/// Whether a transfer of `len` bytes is a whole number of I/O units.
pub fn is_io_aligned(len: u64, io_unit_size: u64) -> (aligned: bool)
    ensures
        aligned == (io_unit_size != 0 && len % io_unit_size == 0),
{
    io_unit_size != 0 && len % io_unit_size == 0
}

/// The number of I/O units that a transfer of `len` bytes takes. Blob I/O moves
/// whole units only: a length that is not a multiple of the unit size is a
/// programming error, excluded here.
pub fn io_units(len: u64, io_unit_size: u64) -> (units: u64)
    requires
        io_unit_size != 0,
        len % io_unit_size == 0,
    ensures
        units * io_unit_size == len,
        units == len / io_unit_size,
{
    let units = len / io_unit_size;
    assert(units * io_unit_size == len) by (nonlinear_arith)
        requires
            io_unit_size != 0,
            len % io_unit_size == 0,
            units == len / io_unit_size,
    ;
    units
}

} // verus!
