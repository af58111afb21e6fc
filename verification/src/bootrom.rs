//! Optional 256-byte boot ROM overlaid at 0x0000..=0x00FF while the
//! boot-mode latch is on. Without one, the machine starts from the standard
//! post-boot register values instead.

use vstd::prelude::*;

verus! {

/// Why a boot ROM image was rejected.
#[derive(Clone, Copy, PartialEq, Eq, Structural, Debug)]
pub enum BootromError {
    /// The image is not exactly 256 bytes long.
    WrongSize,
}

impl BootromError {
    pub fn describe(&self) -> (r: &'static str) {
        "boot ROM must be exactly 256 bytes"
    }
}

pub struct Bootrom {
    pub buf: Option<Vec<u8>>,
}

impl View for Bootrom {
    type V = Option<Seq<u8>>;

    open spec fn view(&self) -> Option<Seq<u8>> {
        match self.buf {
            Some(b) => Some(b@),
            None => None,
        }
    }
}

/// The byte a boot ROM view shows at `addr`, 0xFF when absent.
pub open spec fn spec_brom_readb(v: Option<Seq<u8>>, addr: u16) -> u8 {
    match v {
        Some(b) => b[addr as int],
        None => 0xFF,
    }
}

impl Bootrom {
    pub open spec fn wf(self) -> bool {
        self.buf matches Some(b) ==> b@.len() == 256
    }

    /// Accepts either no image (boot skipped) or exactly 256 bytes.
    pub fn new(data: Option<Vec<u8>>) -> (r: Result<Bootrom, BootromError>)
        ensures
            match r {
                Ok(b) => {
                    &&& b.wf()
                    &&& b.buf == data
                    &&& (data matches Some(d) ==> d@.len() == 256)
                },
                Err(e) => {
                    &&& e == BootromError::WrongSize
                    &&& (data matches Some(d) && d@.len() != 256)
                },
            },
    {
        match data {
            Some(d) => {
                if d.len() == 256 {
                    Ok(Bootrom { buf: Some(d) })
                } else {
                    Err(BootromError::WrongSize)
                }
            },
            None => Ok(Bootrom { buf: None }),
        }
    }

    /// The byte the overlay shows at `addr`, or 0xFF when no boot ROM was
    /// provided.
    pub open spec fn spec_readb(self, addr: u16) -> u8 {
        match self.buf {
            Some(b) => b@[addr as int],
            None => 0xFF,
        }
    }

    pub fn readb(&self, addr: u16) -> (r: u8)
        requires
            self.wf(),
            addr < 256,
        ensures
            r == self.spec_readb(addr),
            r == spec_brom_readb(self@, addr),
    {
        match &self.buf {
            Some(b) => b[addr as usize],
            None => 0xFF,
        }
    }

    /// Whether a boot ROM was provided.
    pub fn is_used(&self) -> (r: bool)
        ensures
            r == (self.buf matches Some(_)),
    {
        match &self.buf {
            Some(_) => true,
            None => false,
        }
    }
}

} // verus!
