use vstd::prelude::*;
use vstd::string::StringSliceAdditionalSpecFns;

verus! {

/// The bytes of a resource that was loaded from the application file.
pub struct ResourceData {
    bytes: Vec<u8>,
}

impl View for ResourceData {
    type V = Seq<u8>;

    closed spec fn view(&self) -> Seq<u8> {
        self.bytes@
    }
}

impl ResourceData {
    /// The resource with these bytes.
    pub fn from_bytes(bytes: Vec<u8>) -> (res: ResourceData)
        ensures
            res@ == bytes@,
    {
        ResourceData { bytes }
    }

    /// The resource's bytes.
    pub fn as_slice(&self) -> (res: &[u8])
        ensures
            res@ == self@,
    {
        self.bytes.as_slice()
    }

    /// The number of bytes.
    pub fn len(&self) -> (res: usize)
        ensures
            res == self@.len(),
    {
        self.bytes.len()
    }
}

/// The bytes of `s` followed by a zero: a C string for the platform.
pub fn to_c_string(s: &str) -> (res: Vec<u8>)
    ensures
        res@ == s.spec_bytes().push(0u8),
{
    let b = s.as_bytes();
    let mut bytes: Vec<u8> = Vec::new();
    let mut i: usize = 0;
    while i < b.len()
        invariant
            i <= b@.len(),
            bytes@ == b@.take(i as int),
        decreases b@.len() - i,
    {
        bytes.push(b[i]);
        assert(b@.take(i + 1) =~= b@.take(i as int).push(b@[i as int]));
        i = i + 1;
    }
    bytes.push(0);
    assert(b@.take(b@.len() as int) =~= b@);
    bytes
}

/// The size of a loaded resource, from what the platform's load call gave:
/// nothing when it returned no data or a size of zero or less.
pub fn load_resource(found: bool, size: i32) -> (res: Option<usize>)
    ensures
        (!found || size <= 0) ==> res is None,
        (found && size > 0) ==> res == Some(size as usize),
{
    if !found || size <= 0 {
        return None;
    }
    Some(size as usize)
}

/// The offset of a resource in the application file: zero means it is absent.
pub fn get_resource_offset(offset: u32) -> (res: Option<u32>)
    ensures
        offset == 0 ==> res is None,
        offset != 0 ==> res == Some(offset),
{
    if offset == 0 {
        None
    } else {
        Some(offset)
    }
}

/// The outcome of reading part of the resources, from the platform's status: non-zero is an error.
pub fn read_resource_chunk(status: i32) -> (res: Result<(), ()>)
    ensures
        status == 0 <==> res is Ok,
{
    if status == 0 {
        Ok(())
    } else {
        Err(())
    }
}

} // verus!
