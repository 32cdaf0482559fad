//! Chips controlling sensors and actuators: their identity, and the
//! decisions around the backend's two-pass formatting of a chip's name.

use crate::bus::Bus;
use crate::errors::{Error, IoErrorKind};
use vstd::prelude::*;

verus! {

/// Raw address of a chip at any address.
pub const CHIP_NAME_ADDR_ANY: i32 = -1;

/// Name of the backend procedure that formats a chip's name.
pub const FORMAT_CHIP_NAME: &'static str = "sensors_snprintf_chip_name()";

/// The bytes of an optional backend string.
pub open spec fn bytes_view(o: Option<Vec<u8>>) -> Option<Seq<u8>> {
    match o {
        Some(v) => Some(v@),
        None => None,
    }
}

/// Identity of a chip, as the backend records it: an optional name prefix,
/// a bus, an address, and an optional driver path. A chip that the backend
/// enumerated and one parsed from a pattern have the same identity when
/// these four agree.
#[derive(Debug, Clone)]
pub struct ChipName {
    /// The name prefix, if any, without its terminating nul.
    pub prefix: Option<Vec<u8>>,
    /// The bus the chip is connected to.
    pub bus: Bus,
    /// The raw address, or [`CHIP_NAME_ADDR_ANY`].
    pub raw_address: i32,
    /// The driver path, if any, without its terminating nul.
    pub path: Option<Vec<u8>>,
}

/// Two chips are the same chip: same bus, address, prefix and path.
pub open spec fn same_chip(a: ChipName, b: ChipName) -> bool {
    &&& a.bus == b.bus
    &&& a.raw_address == b.raw_address
    &&& bytes_view(a.prefix) == bytes_view(b.prefix)
    &&& bytes_view(a.path) == bytes_view(b.path)
}

pub(crate) fn same_bytes(a: &Option<Vec<u8>>, b: &Option<Vec<u8>>) -> (r: bool)
    ensures
        r == (bytes_view(*a) == bytes_view(*b)),
{
    match (a, b) {
        (Some(x), Some(y)) => {
            if x.len() != y.len() {
                return false;
            }
            let mut i: usize = 0;
            while i < x.len()
                invariant
                    bytes_view(*a) == Some(x@),
                    bytes_view(*b) == Some(y@),
                    x@.len() == y@.len(),
                    i <= x@.len(),
                    forall|j: int| 0 <= j < i ==> x@[j] == y@[j],
                decreases x@.len() - i,
            {
                if x[i] != y[i] {
                    assert(x@[i as int] != y@[i as int]);
                    return false;
                }
                i = i + 1;
            }
            assert(x@ =~= y@);
            true
        },
        (None, None) => true,
        _ => false,
    }
}

impl PartialEq for ChipName {
    fn eq(&self, other: &ChipName) -> (r: bool) {
        self.bus == other.bus && self.raw_address == other.raw_address && same_bytes(
            &self.prefix,
            &other.prefix,
        ) && same_bytes(&self.path, &other.path)
    }
}

impl vstd::std_specs::cmp::PartialEqSpecImpl for ChipName {
    open spec fn obeys_eq_spec() -> bool {
        true
    }

    open spec fn eq_spec(&self, other: &ChipName) -> bool {
        same_chip(*self, *other)
    }
}

impl ChipName {
    /// Return a chip identity from its parts.
    pub fn new(prefix: Option<Vec<u8>>, bus: Bus, raw_address: i32, path: Option<Vec<u8>>) -> (r:
        ChipName)
        ensures
            r.prefix == prefix,
            r.bus == bus,
            r.raw_address == raw_address,
            r.path == path,
    {
        ChipName { prefix, bus, raw_address, path }
    }

    /// Return the address of this chip, if it has a specific one.
    pub fn address(&self) -> (r: Option<i32>)
        ensures
            self.raw_address == CHIP_NAME_ADDR_ANY ==> r is None,
            self.raw_address != CHIP_NAME_ADDR_ANY ==> r == Some(self.raw_address),
    {
        if self.raw_address == CHIP_NAME_ADDR_ANY {
            None
        } else {
            Some(self.raw_address)
        }
    }

    /// Return the raw address of this chip.
    pub fn raw_address(&self) -> (r: i32)
        ensures
            r == self.raw_address,
    {
        self.raw_address
    }

    /// Return a copy of the bus connected to this chip.
    pub fn bus(&self) -> (r: Bus)
        ensures
            r == self.bus,
    {
        self.bus
    }

    /// Return the raw prefix of this chip, if available.
    pub fn raw_prefix(&self) -> (r: Option<&Vec<u8>>)
        ensures
            r matches Some(p) ==> self.prefix == Some(*p),
            r is None <==> self.prefix is None,
    {
        match &self.prefix {
            Some(p) => Some(p),
            None => None,
        }
    }

    /// Return the raw driver path of this chip, if available.
    pub fn raw_path(&self) -> (r: Option<&Vec<u8>>)
        ensures
            r matches Some(p) ==> self.path == Some(*p),
            r is None <==> self.path is None,
    {
        match &self.path {
            Some(p) => Some(p),
            None => None,
        }
    }

    /// Set the bus connected to this chip.
    pub fn set_bus(&mut self, new_bus: &Bus)
        ensures
            final(self).bus == *new_bus,
            final(self).raw_address == old(self).raw_address,
            final(self).prefix == old(self).prefix,
            final(self).path == old(self).path,
    {
        self.bus = *new_bus;
    }

    /// Return whether this chip and `other` are the same chip.
    pub fn same_as(&self, other: &ChipName) -> (r: bool)
        ensures
            r == same_chip(*self, *other),
    {
        self.bus == other.bus && self.raw_address == other.raw_address && same_bytes(
            &self.prefix,
            &other.prefix,
        ) && same_bytes(&self.path, &other.path)
    }
}

/// Chip identity is decided by bus, address, prefix and path alone: two
/// chips that agree on these four compare equal, however each was obtained,
/// and two that differ in one of them compare unequal.
pub proof fn lemma_chip_identity(a: ChipName, b: ChipName)
    ensures
        same_chip(a, b) <==> (a.bus == b.bus && a.raw_address == b.raw_address && bytes_view(a.prefix)
            == bytes_view(b.prefix) && bytes_view(a.path) == bytes_view(b.path)),
        same_chip(a, b) == same_chip(b, a),
        same_chip(a, a),
{
}

/// Return the length of the buffer to hand to the backend for a chip's
/// name, given what asking for the name's length returned: the length plus
/// one for the terminating nul, or nothing where the backend failed.
pub fn name_buffer_len(probe: i32) -> (r: Option<usize>)
    ensures
        probe < 0 ==> r is None,
        probe >= 0 ==> r == Some((probe + 1) as usize),
{
    if probe < 0 {
        None
    } else {
        Some(probe as usize + 1)
    }
}

/// The first nul byte among the first `len` bytes, if any.
pub open spec fn first_nul(s: Seq<u8>, len: int, p: int) -> bool {
    &&& 0 <= p < len
    &&& s[p] == 0
    &&& forall|j: int| 0 <= j < p ==> s[j] != 0
}

/// Return the name that the backend wrote into `buffer`, given the status it
/// returned: the name's length, or a negative error status that the backend
/// describes as `description`. A length that does not leave room for the
/// terminating nul means the name was cut short; a name holding a nul byte
/// is refused.
pub fn name_from_buffer(status: i32, buffer: Vec<u8>, description: String) -> (r: Result<
    Vec<u8>,
    Error,
>)
    requires
        status != i32::MIN,
    ensures
        status < 0 ==> r == Err::<Vec<u8>, Error>(
            Error::LMSensors { operation: FORMAT_CHIP_NAME, number: -status as i32, description },
        ),
        status >= 0 && status >= buffer@.len() ==> r == Err::<Vec<u8>, Error>(
            Error::IO { operation: FORMAT_CHIP_NAME, kind: IoErrorKind::InvalidData },
        ),
        0 <= status < buffer@.len() ==> {
            &&& (forall|j: int| 0 <= j < status ==> buffer@[j] != 0) ==> (r matches Ok(name) && name@
                == buffer@.subrange(0, status as int))
            &&& (exists|j: int| 0 <= j < status && buffer@[j] == 0) ==> (r matches Err(
                Error::UnexpectedNul(p),
            ) && first_nul(buffer@, status as int, p as int))
        },
{
    if status < 0 {
        return Err(Error::from_lm_sensors(FORMAT_CHIP_NAME, status, description));
    }
    let len = status as usize;
    if len >= buffer.len() {
        return Err(Error::from_io(FORMAT_CHIP_NAME, IoErrorKind::InvalidData));
    }
    let mut i: usize = 0;
    while i < len
        invariant
            0 <= status,
            len == status as usize,
            len < buffer@.len(),
            i <= len,
            forall|j: int| 0 <= j < i ==> buffer@[j] != 0,
        decreases len - i,
    {
        if buffer[i] == 0 {
            return Err(Error::UnexpectedNul(i));
        }
        i = i + 1;
    }
    let mut name = buffer;
    name.truncate(len);
    assert(name@ =~= buffer@.subrange(0, status as int));
    Ok(name)
}

} // verus!
