use vstd::prelude::*;

verus! {

/// Attribute bit: the file may not be written.
pub const READ_ONLY: u8 = 0x01;
/// Attribute bit: the file is hidden.
pub const HIDDEN: u8 = 0x02;
/// Attribute bit: the file belongs to the system.
pub const SYSTEM: u8 = 0x04;
/// Attribute bit: the entry is a volume label.
pub const VOLUME: u8 = 0x08;
/// Attribute bit: the entry is a directory.
pub const DIR: u8 = 0x10;
/// Attribute bit: the file is marked for archiving.
pub const ARCHIVE: u8 = 0x20;

/// The attribute bits of a file, as the platform's file system keeps them.
#[derive(Clone, Copy, Debug, PartialEq, Eq, Structural)]
pub struct FileAttributes(pub u8);

/// The bits after setting (`val`) or clearing the bits of `mask`.
pub open spec fn with_bits(bits: u8, mask: u8, val: bool) -> u8 {
    if val {
        bits | mask
    } else {
        bits & !mask
    }
}

impl FileAttributes {
    /// No attribute set.
    pub fn empty() -> (res: Self)
        ensures
            res.0 == 0,
    {
        FileAttributes(0)
    }

    pub fn is_read_only(&self) -> (res: bool)
        ensures
            res == (self.0 & READ_ONLY != 0),
    {
        (self.0 & READ_ONLY) != 0
    }

    pub fn is_hidden(&self) -> (res: bool)
        ensures
            res == (self.0 & HIDDEN != 0),
    {
        (self.0 & HIDDEN) != 0
    }

    pub fn is_system(&self) -> (res: bool)
        ensures
            res == (self.0 & SYSTEM != 0),
    {
        (self.0 & SYSTEM) != 0
    }

    pub fn is_dir(&self) -> (res: bool)
        ensures
            res == (self.0 & DIR != 0),
    {
        (self.0 & DIR) != 0
    }

    pub fn is_archive(&self) -> (res: bool)
        ensures
            res == (self.0 & ARCHIVE != 0),
    {
        (self.0 & ARCHIVE) != 0
    }

    pub fn set_read_only(&mut self, val: bool)
        ensures
            final(self).0 == with_bits(old(self).0, READ_ONLY, val),
    {
        if val {
            self.0 = self.0 | READ_ONLY;
        } else {
            self.0 = self.0 & !READ_ONLY;
        }
    }

    pub fn set_hidden(&mut self, val: bool)
        ensures
            final(self).0 == with_bits(old(self).0, HIDDEN, val),
    {
        if val {
            self.0 = self.0 | HIDDEN;
        } else {
            self.0 = self.0 & !HIDDEN;
        }
    }

    pub fn set_archive(&mut self, val: bool)
        ensures
            final(self).0 == with_bits(old(self).0, ARCHIVE, val),
    {
        if val {
            self.0 = self.0 | ARCHIVE;
        } else {
            self.0 = self.0 & !ARCHIVE;
        }
    }

    /// The bits that may be handed to the platform when setting attributes:
    /// the volume and directory bits are always cleared.
    pub fn settable_bits(&self) -> (res: u8)
        ensures
            res == self.0 & !(VOLUME | DIR),
    {
        self.0 & !(VOLUME | DIR)
    }
}

/// Setting a single attribute bit makes its query answer the value that was
/// set, and leaves every other bit as it was.
pub proof fn lemma_set_then_query(bits: u8, mask: u8, val: bool)
    requires
        mask == READ_ONLY || mask == HIDDEN || mask == ARCHIVE,
    ensures
        (with_bits(bits, mask, val) & mask != 0) == val,
        with_bits(bits, mask, val) & !mask == bits & !mask,
{
    if val {
        assert((bits | mask) & mask != 0 && (bits | mask) & !mask == bits & !mask) by (bit_vector)
            requires
                mask == 1 || mask == 2 || mask == 0x20,
        ;
    } else {
        assert((bits & !mask) & mask == 0 && (bits & !mask) & !mask == bits & !mask) by (bit_vector);
    }
}

/// The bits handed to the platform never mark a volume or a directory, and
/// keep every other bit.
pub proof fn lemma_settable_bits(bits: u8)
    ensures
        (bits & !(VOLUME | DIR)) & VOLUME == 0,
        (bits & !(VOLUME | DIR)) & DIR == 0,
        (bits & !(VOLUME | DIR)) & !(VOLUME | DIR) == bits & !(VOLUME | DIR),
{
    assert((bits & !(0x08u8 | 0x10u8)) & 0x08u8 == 0) by (bit_vector);
    assert((bits & !(0x08u8 | 0x10u8)) & 0x10u8 == 0) by (bit_vector);
    assert((bits & !(0x08u8 | 0x10u8)) & !(0x08u8 | 0x10u8) == bits & !(0x08u8 | 0x10u8)) by (bit_vector);
}

/// The attributes of a file, from the status the platform's query returned:
/// -1 is the error, any other value holds the attribute bits in its low byte.
pub fn get_attributes(status: i32) -> (res: Result<FileAttributes, i32>)
    ensures
        status == -1 ==> res == Err::<FileAttributes, i32>(-1i32),
        status != -1 ==> res == Ok::<FileAttributes, i32>(FileAttributes(status as u8)),
{
    if status == -1 {
        Err(status)
    } else {
        Ok(FileAttributes(status as u8))
    }
}

/// The outcome of setting attributes, from the platform's status: any non-zero status is an error.
pub fn set_attributes(status: i32) -> (res: Result<(), i32>)
    ensures
        status == 0 ==> res is Ok,
        status != 0 ==> res == Err::<(), i32>(status),
{
    if status != 0 {
        Err(status)
    } else {
        Ok(())
    }
}

} // verus!
