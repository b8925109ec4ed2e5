//! File metadata as represented in FAT32 on-disk structures.

use vstd::prelude::*;

verus! {

/// A date as represented in FAT32 on-disk structures: year since 1980 in
/// the top seven bits, month in four, day in five.
#[derive(Default, Debug, Copy, Clone, PartialEq, Eq, Structural)]
pub struct Date(pub u16);

/// Time as represented in FAT32 on-disk structures: hour in the top five
/// bits, minute in six, two-second count in five.
#[derive(Default, Debug, Copy, Clone, PartialEq, Eq, Structural)]
pub struct Time(pub u16);

/// File attributes as represented in FAT32 on-disk structures.
#[derive(Default, Debug, Copy, Clone, PartialEq, Eq, Structural)]
pub struct Attributes(pub u8);

/// A structure containing a date and time.
#[derive(Default, Copy, Clone, Debug, PartialEq, Eq, Structural)]
pub struct Timestamp {
    /// The date half of the stamp.
    pub date: Date,
    /// The time half of the stamp.
    pub time: Time,
}

/// Metadata for a directory entry.
#[derive(Default, Debug, Clone, Copy, PartialEq, Eq, Structural)]
pub struct Metadata {
    /// When the entry was created.
    pub created: Timestamp,
    /// When the entry was last accessed.
    pub accessed: Timestamp,
    /// When the entry was last modified.
    pub modified: Timestamp,
    /// The entry's attribute bits.
    pub attr: Attributes,
}

/// The extracted date and time fields fit their value ranges.
proof fn lemma_field_bounds(d: u16, t: u16)
    by (bit_vector)
    ensures
        (d >> 9) & 0x7f <= 0x7f,
        (d >> 5) & 0xf <= 0xf,
        d & 0x1f <= 0x1f,
        (t >> 11) & 0x1f <= 0x1f,
        (t >> 5) & 0x3f <= 0x3f,
        t & 0x1f <= 0x1f,
{
}

impl Timestamp {
    /// The calendar year of the stamp.
    pub fn year(&self) -> (r: usize)
        ensures
            r == ((self.date.0 >> 9) & 0x7f) + 1980,
    {
        proof {
            lemma_field_bounds(self.date.0, self.time.0);
        }
        (((self.date.0 >> 9) & 0x7f) + 1980) as usize
    }

    /// The month of the stamp, one-based.
    pub fn month(&self) -> (r: u8)
        ensures
            r == (self.date.0 >> 5) & 0xf,
    {
        proof {
            lemma_field_bounds(self.date.0, self.time.0);
        }
        ((self.date.0 >> 5) & 0xf) as u8
    }

    /// The day of the month of the stamp, one-based.
    pub fn day(&self) -> (r: u8)
        ensures
            r == self.date.0 & 0x1f,
    {
        proof {
            lemma_field_bounds(self.date.0, self.time.0);
        }
        (self.date.0 & 0x1f) as u8
    }

    /// The hour of the stamp.
    pub fn hour(&self) -> (r: u8)
        ensures
            r == (self.time.0 >> 11) & 0x1f,
    {
        proof {
            lemma_field_bounds(self.date.0, self.time.0);
        }
        ((self.time.0 >> 11) & 0x1f) as u8
    }

    /// The minute of the stamp.
    pub fn minute(&self) -> (r: u8)
        ensures
            r == (self.time.0 >> 5) & 0x3f,
    {
        proof {
            lemma_field_bounds(self.date.0, self.time.0);
        }
        ((self.time.0 >> 5) & 0x3f) as u8
    }

    /// The second of the stamp; the field stores two-second units.
    pub fn second(&self) -> (r: u8)
        ensures
            r == (self.time.0 & 0x1f) * 2,
    {
        proof {
            lemma_field_bounds(self.date.0, self.time.0);
        }
        (self.time.0 & 0x1f) as u8 * 2
    }
}

impl Metadata {
    /// Whether the entry is marked read-only.
    pub fn read_only(&self) -> (r: bool)
        ensures
            r == (self.attr.0 & 1 > 0),
    {
        (self.attr.0 & 1) > 0
    }

    /// Whether the entry is marked hidden.
    pub fn hidden(&self) -> (r: bool)
        ensures
            r == (self.attr.0 & 2 > 0),
    {
        (self.attr.0 & 2) > 0
    }

    /// When the entry was created.
    pub fn created(&self) -> (r: Timestamp)
        ensures
            r == self.created,
    {
        self.created
    }

    /// When the entry was last accessed.
    pub fn accessed(&self) -> (r: Timestamp)
        ensures
            r == self.accessed,
    {
        self.accessed
    }

    /// When the entry was last modified.
    pub fn modified(&self) -> (r: Timestamp)
        ensures
            r == self.modified,
    {
        self.modified
    }
}

} // verus!
