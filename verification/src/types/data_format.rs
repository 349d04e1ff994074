use vstd::prelude::*;

use crate::types::flags::{UDbFlg, UDbFlgBit, selected_flags, select_flags};

verus! {

/// A format an action answers in, held as its flag bit.
#[derive(Clone, Copy, PartialEq, Eq, Structural, Debug)]
pub struct DataFormat(pub UDbFlgBit);

/// The flag bits of the data formats, in their fixed order.
pub open spec fn data_format_flags() -> Seq<UDbFlgBit> {
    seq![1i64, 2, 4, 8]
}

/// The bits of a list of data formats.
pub open spec fn format_bits(fs: Seq<DataFormat>) -> Seq<UDbFlgBit> {
    fs.map_values(|f: DataFormat| f.0)
}

impl DataFormat {
    pub const DATA_FORMAT_STATIC: UDbFlgBit = 1;
    pub const DATA_FORMAT_HTML: UDbFlgBit = 2;
    pub const DATA_FORMAT_TEXT: UDbFlgBit = 4;
    pub const DATA_FORMAT_JSON: UDbFlgBit = 8;

    pub const FLAGS: [UDbFlgBit; 4] = [1, 2, 4, 8];

    /// Static files, served from disk.
    pub fn static_file() -> (r: DataFormat)
        ensures
            r == DataFormat(1),
    {
        DataFormat(1)
    }

    /// HTML.
    pub fn html() -> (r: DataFormat)
        ensures
            r == DataFormat(2),
    {
        DataFormat(2)
    }

    /// Plain text.
    pub fn text() -> (r: DataFormat)
        ensures
            r == DataFormat(4),
    {
        DataFormat(4)
    }

    /// JSON.
    pub fn json() -> (r: DataFormat)
        ensures
            r == DataFormat(8),
    {
        DataFormat(8)
    }

    /// The formats whose bit is set in `flag`, in the order of `FLAGS`.
    pub fn from_flag(flag: UDbFlg) -> (r: Vec<DataFormat>)
        ensures
            format_bits(r@) == selected_flags(flag, data_format_flags()),
    {
        let flags = Self::FLAGS;
        assert(flags@ =~= data_format_flags());
        let bits = select_flags(flag, flags.as_slice());
        let mut r: Vec<DataFormat> = Vec::new();
        let mut i: usize = 0;
        while i < bits.len()
            invariant
                i <= bits@.len(),
                r@.len() == i,
                forall|k: int| 0 <= k < i ==> #[trigger] r@[k].0 == bits@[k],
            decreases bits@.len() - i,
        {
            r.push(DataFormat(bits[i]));
            i = i + 1;
        }
        assert(format_bits(r@) =~= bits@);
        r
    }

    /// Whether `formats` holds this format.
    pub fn is_in(self, formats: &Vec<DataFormat>) -> (r: bool)
        ensures
            r == format_bits(formats@).contains(self.0),
    {
        let mut i: usize = 0;
        while i < formats.len()
            invariant
                i <= formats@.len(),
                forall|k: int| 0 <= k < i ==> formats@[k].0 != self.0,
            decreases formats@.len() - i,
        {
            if formats[i].0 == self.0 {
                assert(format_bits(formats@)[i as int] == self.0);
                return true;
            }
            i = i + 1;
        }
        proof {
            if format_bits(formats@).contains(self.0) {
                let k = choose|k: int| 0 <= k < format_bits(formats@).len() && format_bits(formats@)[k] == self.0;
                assert(formats@[k].0 == self.0);
            }
        }
        false
    }
}

} // verus!
