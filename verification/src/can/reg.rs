//! Register values of the message RAM elements and their bit fields.
use vstd::prelude::*;

verus! {

/// Value of the field of `data` that starts at bit `start` and has the bit mask `mask`.
pub open spec fn field_get(data: u32, start: u32, mask: u32) -> u32 {
    (data >> start) & mask
}

/// `data` with the field at `start` (mask `mask`) replaced by the low bits of `v`.
pub open spec fn field_set(data: u32, start: u32, mask: u32, v: u32) -> u32 {
    (data & !(mask << start)) | ((v & mask) << start)
}

/// Reads a bit field.
pub fn get_field(data: u32, start: u32, mask: u32) -> (r: u32)
    requires
        start < 32,
    ensures
        r == field_get(data, start, mask),
{
    (data >> start) & mask
}

/// Writes a bit field.
pub fn set_field(data: u32, start: u32, mask: u32, v: u32) -> (r: u32)
    requires
        start < 32,
    ensures
        r == field_set(data, start, mask, v),
{
    (data & !(mask << start)) | ((v & mask) << start)
}

/// A field value never exceeds its mask.
pub proof fn lemma_field_get_bound(data: u32, start: u32, mask: u32)
    ensures
        field_get(data, start, mask) <= mask,
{
    assert(((data >> start) & mask) <= mask) by (bit_vector);
}

/// Reading a field gives back what was written to it, cut to the field's width.
pub proof fn lemma_field_set_get(data: u32, start: u32, mask: u32, v: u32)
    requires
        start < 32,
        (mask << start) >> start == mask,
    ensures
        field_get(field_set(data, start, mask, v), start, mask) == v & mask,
{
    assert((((data & !(mask << start)) | ((v & mask) << start)) >> start) & mask == v & mask)
        by (bit_vector)
        requires
            start < 32,
            (mask << start) >> start == mask,
    ;
}

/// Writing a field leaves every field that does not overlap it unchanged.
pub proof fn lemma_field_set_other(data: u32, s1: u32, m1: u32, v: u32, s2: u32, m2: u32)
    requires
        s1 < 32,
        s2 < 32,
        (m2 << s2) >> s2 == m2,
        (m1 << s1) & (m2 << s2) == 0,
    ensures
        field_get(field_set(data, s1, m1, v), s2, m2) == field_get(data, s2, m2),
{
    assert((((data & !(m1 << s1)) | ((v & m1) << s1)) >> s2) & m2 == (data >> s2) & m2)
        by (bit_vector)
        requires
            s1 < 32,
            s2 < 32,
            (m2 << s2) >> s2 == m2,
            (m1 << s1) & (m2 << s2) == 0,
    ;
}

/// Word 0 of a transmit buffer element.
/// `data` is the register value, `mask` the bits written since the value was built.
#[derive(Copy, Clone, PartialEq, Eq, Structural, Debug)]
pub struct T0 {
    pub data: u32,
    pub mask: u32,
}

impl T0 {
    /// A value with the given data and write mask.
    pub fn new(data: u32, write_mask: u32) -> (r: Self)
        ensures
            r.data == data,
            r.mask == write_mask,
    {
        T0 { data, mask: write_mask }
    }

    /// The register value.
    pub fn data(&self) -> (r: u32)
        ensures
            r == self.data,
    {
        self.data
    }

    /// The bits written since the value was built.
    pub fn get_mask(&self) -> (r: u32)
        ensures
            r == self.mask,
    {
        self.mask
    }


    /// Identifier (bits 0 and up, mask 0x1fffffff).
    pub fn id(self) -> (r: u32)
        ensures
            r == field_get(self.data, 0, 0x1fffffff),
    {
        proof {
            lemma_field_get_bound(self.data, 0, 0x1fffffff);
        }
        get_field(self.data, 0, 0x1fffffff)
    }

    /// Sets the identifier field to `v` (bits outside the field mask are dropped).
    pub fn set_id(self, v: u32) -> (r: Self)
        ensures
            r.data == field_set(self.data, 0, 0x1fffffff, v as u32),
            r.mask == self.mask | (0x1fffffffu32 << 0u32),
    {
        T0 {
            data: set_field(self.data, 0, 0x1fffffff, v),
            mask: self.mask | (0x1fffffffu32 << 0u32),
        }
    }


    /// Remote transmission request (bit 29).
    pub fn rtr(self) -> (r: bool)
        ensures
            r == (field_get(self.data, 29, 1) == 1),
    {
        get_field(self.data, 29, 1) == 1
    }

    /// Sets the remote transmission request bit.
    pub fn set_rtr(self, v: bool) -> (r: Self)
        ensures
            r.data == field_set(self.data, 29, 1, if v { 1 } else { 0 }),
            r.mask == self.mask | (1u32 << 29u32),
    {
        T0 {
            data: set_field(self.data, 29, 1, if v { 1 } else { 0 }),
            mask: self.mask | (1u32 << 29u32),
        }
    }


    /// Extended identifier (bit 30).
    pub fn xtd(self) -> (r: bool)
        ensures
            r == (field_get(self.data, 30, 1) == 1),
    {
        get_field(self.data, 30, 1) == 1
    }

    /// Sets the extended identifier bit.
    pub fn set_xtd(self, v: bool) -> (r: Self)
        ensures
            r.data == field_set(self.data, 30, 1, if v { 1 } else { 0 }),
            r.mask == self.mask | (1u32 << 30u32),
    {
        T0 {
            data: set_field(self.data, 30, 1, if v { 1 } else { 0 }),
            mask: self.mask | (1u32 << 30u32),
        }
    }


    /// Error state indicator (bit 31).
    pub fn esi(self) -> (r: bool)
        ensures
            r == (field_get(self.data, 31, 1) == 1),
    {
        get_field(self.data, 31, 1) == 1
    }

    /// Sets the error state indicator bit.
    pub fn set_esi(self, v: bool) -> (r: Self)
        ensures
            r.data == field_set(self.data, 31, 1, if v { 1 } else { 0 }),
            r.mask == self.mask | (1u32 << 31u32),
    {
        T0 {
            data: set_field(self.data, 31, 1, if v { 1 } else { 0 }),
            mask: self.mask | (1u32 << 31u32),
        }
    }

}

/// Word 1 of a transmit buffer element.
/// `data` is the register value, `mask` the bits written since the value was built.
#[derive(Copy, Clone, PartialEq, Eq, Structural, Debug)]
pub struct T1 {
    pub data: u32,
    pub mask: u32,
}

impl T1 {
    /// A value with the given data and write mask.
    pub fn new(data: u32, write_mask: u32) -> (r: Self)
        ensures
            r.data == data,
            r.mask == write_mask,
    {
        T1 { data, mask: write_mask }
    }

    /// The register value.
    pub fn data(&self) -> (r: u32)
        ensures
            r == self.data,
    {
        self.data
    }

    /// The bits written since the value was built.
    pub fn get_mask(&self) -> (r: u32)
        ensures
            r == self.mask,
    {
        self.mask
    }


    /// Data length code (bits 16 and up, mask 0xf).
    pub fn dlc(self) -> (r: u8)
        ensures
            r == field_get(self.data, 16, 0xf),
    {
        proof {
            lemma_field_get_bound(self.data, 16, 0xf);
        }
        get_field(self.data, 16, 0xf) as u8
    }

    /// Sets the data length code field to `v` (bits outside the field mask are dropped).
    pub fn set_dlc(self, v: u8) -> (r: Self)
        ensures
            r.data == field_set(self.data, 16, 0xf, v as u32),
            r.mask == self.mask | (0xfu32 << 16u32),
    {
        T1 {
            data: set_field(self.data, 16, 0xf, v as u32),
            mask: self.mask | (0xfu32 << 16u32),
        }
    }


    /// Bit rate switch (bit 20).
    pub fn brs(self) -> (r: bool)
        ensures
            r == (field_get(self.data, 20, 1) == 1),
    {
        get_field(self.data, 20, 1) == 1
    }

    /// Sets the bit rate switch bit.
    pub fn set_brs(self, v: bool) -> (r: Self)
        ensures
            r.data == field_set(self.data, 20, 1, if v { 1 } else { 0 }),
            r.mask == self.mask | (1u32 << 20u32),
    {
        T1 {
            data: set_field(self.data, 20, 1, if v { 1 } else { 0 }),
            mask: self.mask | (1u32 << 20u32),
        }
    }


    /// FD format (bit 21).
    pub fn fdf(self) -> (r: bool)
        ensures
            r == (field_get(self.data, 21, 1) == 1),
    {
        get_field(self.data, 21, 1) == 1
    }

    /// Sets the fd format bit.
    pub fn set_fdf(self, v: bool) -> (r: Self)
        ensures
            r.data == field_set(self.data, 21, 1, if v { 1 } else { 0 }),
            r.mask == self.mask | (1u32 << 21u32),
    {
        T1 {
            data: set_field(self.data, 21, 1, if v { 1 } else { 0 }),
            mask: self.mask | (1u32 << 21u32),
        }
    }


    /// Event FIFO control (bit 23).
    pub fn efc(self) -> (r: bool)
        ensures
            r == (field_get(self.data, 23, 1) == 1),
    {
        get_field(self.data, 23, 1) == 1
    }

    /// Sets the event fifo control bit.
    pub fn set_efc(self, v: bool) -> (r: Self)
        ensures
            r.data == field_set(self.data, 23, 1, if v { 1 } else { 0 }),
            r.mask == self.mask | (1u32 << 23u32),
    {
        T1 {
            data: set_field(self.data, 23, 1, if v { 1 } else { 0 }),
            mask: self.mask | (1u32 << 23u32),
        }
    }


    /// Message marker (bits 24 and up, mask 0xff).
    pub fn mm(self) -> (r: u8)
        ensures
            r == field_get(self.data, 24, 0xff),
    {
        proof {
            lemma_field_get_bound(self.data, 24, 0xff);
        }
        get_field(self.data, 24, 0xff) as u8
    }

    /// Sets the message marker field to `v` (bits outside the field mask are dropped).
    pub fn set_mm(self, v: u8) -> (r: Self)
        ensures
            r.data == field_set(self.data, 24, 0xff, v as u32),
            r.mask == self.mask | (0xffu32 << 24u32),
    {
        T1 {
            data: set_field(self.data, 24, 0xff, v as u32),
            mask: self.mask | (0xffu32 << 24u32),
        }
    }

}

/// Word 0 of a receive buffer element.
/// `data` is the register value, `mask` the bits written since the value was built.
#[derive(Copy, Clone, PartialEq, Eq, Structural, Debug)]
pub struct R0 {
    pub data: u32,
    pub mask: u32,
}

impl R0 {
    /// A value with the given data and write mask.
    pub fn new(data: u32, write_mask: u32) -> (r: Self)
        ensures
            r.data == data,
            r.mask == write_mask,
    {
        R0 { data, mask: write_mask }
    }

    /// The register value.
    pub fn data(&self) -> (r: u32)
        ensures
            r == self.data,
    {
        self.data
    }

    /// The bits written since the value was built.
    pub fn get_mask(&self) -> (r: u32)
        ensures
            r == self.mask,
    {
        self.mask
    }


    /// Identifier (bits 0 and up, mask 0x1fffffff).
    pub fn id(self) -> (r: u32)
        ensures
            r == field_get(self.data, 0, 0x1fffffff),
    {
        proof {
            lemma_field_get_bound(self.data, 0, 0x1fffffff);
        }
        get_field(self.data, 0, 0x1fffffff)
    }

    /// Sets the identifier field to `v` (bits outside the field mask are dropped).
    pub fn set_id(self, v: u32) -> (r: Self)
        ensures
            r.data == field_set(self.data, 0, 0x1fffffff, v as u32),
            r.mask == self.mask | (0x1fffffffu32 << 0u32),
    {
        R0 {
            data: set_field(self.data, 0, 0x1fffffff, v),
            mask: self.mask | (0x1fffffffu32 << 0u32),
        }
    }


    /// Remote transmission request (bit 29).
    pub fn rtr(self) -> (r: bool)
        ensures
            r == (field_get(self.data, 29, 1) == 1),
    {
        get_field(self.data, 29, 1) == 1
    }

    /// Sets the remote transmission request bit.
    pub fn set_rtr(self, v: bool) -> (r: Self)
        ensures
            r.data == field_set(self.data, 29, 1, if v { 1 } else { 0 }),
            r.mask == self.mask | (1u32 << 29u32),
    {
        R0 {
            data: set_field(self.data, 29, 1, if v { 1 } else { 0 }),
            mask: self.mask | (1u32 << 29u32),
        }
    }


    /// Extended identifier (bit 30).
    pub fn xtd(self) -> (r: bool)
        ensures
            r == (field_get(self.data, 30, 1) == 1),
    {
        get_field(self.data, 30, 1) == 1
    }

    /// Sets the extended identifier bit.
    pub fn set_xtd(self, v: bool) -> (r: Self)
        ensures
            r.data == field_set(self.data, 30, 1, if v { 1 } else { 0 }),
            r.mask == self.mask | (1u32 << 30u32),
    {
        R0 {
            data: set_field(self.data, 30, 1, if v { 1 } else { 0 }),
            mask: self.mask | (1u32 << 30u32),
        }
    }


    /// Error state indicator (bit 31).
    pub fn esi(self) -> (r: bool)
        ensures
            r == (field_get(self.data, 31, 1) == 1),
    {
        get_field(self.data, 31, 1) == 1
    }

    /// Sets the error state indicator bit.
    pub fn set_esi(self, v: bool) -> (r: Self)
        ensures
            r.data == field_set(self.data, 31, 1, if v { 1 } else { 0 }),
            r.mask == self.mask | (1u32 << 31u32),
    {
        R0 {
            data: set_field(self.data, 31, 1, if v { 1 } else { 0 }),
            mask: self.mask | (1u32 << 31u32),
        }
    }

}

/// Word 1 of a receive buffer element.
/// `data` is the register value, `mask` the bits written since the value was built.
#[derive(Copy, Clone, PartialEq, Eq, Structural, Debug)]
pub struct R1 {
    pub data: u32,
    pub mask: u32,
}

impl R1 {
    /// A value with the given data and write mask.
    pub fn new(data: u32, write_mask: u32) -> (r: Self)
        ensures
            r.data == data,
            r.mask == write_mask,
    {
        R1 { data, mask: write_mask }
    }

    /// The register value.
    pub fn data(&self) -> (r: u32)
        ensures
            r == self.data,
    {
        self.data
    }

    /// The bits written since the value was built.
    pub fn get_mask(&self) -> (r: u32)
        ensures
            r == self.mask,
    {
        self.mask
    }


    /// Receive timestamp (bits 0 and up, mask 0xffff).
    pub fn rxts(self) -> (r: u16)
        ensures
            r == field_get(self.data, 0, 0xffff),
    {
        proof {
            lemma_field_get_bound(self.data, 0, 0xffff);
        }
        get_field(self.data, 0, 0xffff) as u16
    }

    /// Sets the receive timestamp field to `v` (bits outside the field mask are dropped).
    pub fn set_rxts(self, v: u16) -> (r: Self)
        ensures
            r.data == field_set(self.data, 0, 0xffff, v as u32),
            r.mask == self.mask | (0xffffu32 << 0u32),
    {
        R1 {
            data: set_field(self.data, 0, 0xffff, v as u32),
            mask: self.mask | (0xffffu32 << 0u32),
        }
    }


    /// Data length code (bits 16 and up, mask 0xf).
    pub fn dlc(self) -> (r: u8)
        ensures
            r == field_get(self.data, 16, 0xf),
    {
        proof {
            lemma_field_get_bound(self.data, 16, 0xf);
        }
        get_field(self.data, 16, 0xf) as u8
    }

    /// Sets the data length code field to `v` (bits outside the field mask are dropped).
    pub fn set_dlc(self, v: u8) -> (r: Self)
        ensures
            r.data == field_set(self.data, 16, 0xf, v as u32),
            r.mask == self.mask | (0xfu32 << 16u32),
    {
        R1 {
            data: set_field(self.data, 16, 0xf, v as u32),
            mask: self.mask | (0xfu32 << 16u32),
        }
    }


    /// Bit rate switch (bit 20).
    pub fn brs(self) -> (r: bool)
        ensures
            r == (field_get(self.data, 20, 1) == 1),
    {
        get_field(self.data, 20, 1) == 1
    }

    /// Sets the bit rate switch bit.
    pub fn set_brs(self, v: bool) -> (r: Self)
        ensures
            r.data == field_set(self.data, 20, 1, if v { 1 } else { 0 }),
            r.mask == self.mask | (1u32 << 20u32),
    {
        R1 {
            data: set_field(self.data, 20, 1, if v { 1 } else { 0 }),
            mask: self.mask | (1u32 << 20u32),
        }
    }


    /// FD format (bit 21).
    pub fn fdf(self) -> (r: bool)
        ensures
            r == (field_get(self.data, 21, 1) == 1),
    {
        get_field(self.data, 21, 1) == 1
    }

    /// Sets the fd format bit.
    pub fn set_fdf(self, v: bool) -> (r: Self)
        ensures
            r.data == field_set(self.data, 21, 1, if v { 1 } else { 0 }),
            r.mask == self.mask | (1u32 << 21u32),
    {
        R1 {
            data: set_field(self.data, 21, 1, if v { 1 } else { 0 }),
            mask: self.mask | (1u32 << 21u32),
        }
    }


    /// Filter index (bits 24 and up, mask 0x7f).
    pub fn fidx(self) -> (r: u8)
        ensures
            r == field_get(self.data, 24, 0x7f),
    {
        proof {
            lemma_field_get_bound(self.data, 24, 0x7f);
        }
        get_field(self.data, 24, 0x7f) as u8
    }

    /// Sets the filter index field to `v` (bits outside the field mask are dropped).
    pub fn set_fidx(self, v: u8) -> (r: Self)
        ensures
            r.data == field_set(self.data, 24, 0x7f, v as u32),
            r.mask == self.mask | (0x7fu32 << 24u32),
    {
        R1 {
            data: set_field(self.data, 24, 0x7f, v as u32),
            mask: self.mask | (0x7fu32 << 24u32),
        }
    }


    /// Accepted non-matching frame (bit 31).
    pub fn anmf(self) -> (r: bool)
        ensures
            r == (field_get(self.data, 31, 1) == 1),
    {
        get_field(self.data, 31, 1) == 1
    }

    /// Sets the accepted non-matching frame bit.
    pub fn set_anmf(self, v: bool) -> (r: Self)
        ensures
            r.data == field_set(self.data, 31, 1, if v { 1 } else { 0 }),
            r.mask == self.mask | (1u32 << 31u32),
    {
        R1 {
            data: set_field(self.data, 31, 1, if v { 1 } else { 0 }),
            mask: self.mask | (1u32 << 31u32),
        }
    }

}

/// Standard message ID filter element.
/// `data` is the register value, `mask` the bits written since the value was built.
#[derive(Copy, Clone, PartialEq, Eq, Structural, Debug)]
pub struct S0 {
    pub data: u32,
    pub mask: u32,
}

impl S0 {
    /// A value with the given data and write mask.
    pub fn new(data: u32, write_mask: u32) -> (r: Self)
        ensures
            r.data == data,
            r.mask == write_mask,
    {
        S0 { data, mask: write_mask }
    }

    /// The register value.
    pub fn data(&self) -> (r: u32)
        ensures
            r == self.data,
    {
        self.data
    }

    /// The bits written since the value was built.
    pub fn get_mask(&self) -> (r: u32)
        ensures
            r == self.mask,
    {
        self.mask
    }


    /// Standard filter ID 2 (bits 0 and up, mask 0x7ff).
    pub fn sfid2(self) -> (r: u16)
        ensures
            r == field_get(self.data, 0, 0x7ff),
    {
        proof {
            lemma_field_get_bound(self.data, 0, 0x7ff);
        }
        get_field(self.data, 0, 0x7ff) as u16
    }

    /// Sets the standard filter id 2 field to `v` (bits outside the field mask are dropped).
    pub fn set_sfid2(self, v: u16) -> (r: Self)
        ensures
            r.data == field_set(self.data, 0, 0x7ff, v as u32),
            r.mask == self.mask | (0x7ffu32 << 0u32),
    {
        S0 {
            data: set_field(self.data, 0, 0x7ff, v as u32),
            mask: self.mask | (0x7ffu32 << 0u32),
        }
    }


    /// Standard filter ID 1 (bits 16 and up, mask 0x7ff).
    pub fn sfid1(self) -> (r: u16)
        ensures
            r == field_get(self.data, 16, 0x7ff),
    {
        proof {
            lemma_field_get_bound(self.data, 16, 0x7ff);
        }
        get_field(self.data, 16, 0x7ff) as u16
    }

    /// Sets the standard filter id 1 field to `v` (bits outside the field mask are dropped).
    pub fn set_sfid1(self, v: u16) -> (r: Self)
        ensures
            r.data == field_set(self.data, 16, 0x7ff, v as u32),
            r.mask == self.mask | (0x7ffu32 << 16u32),
    {
        S0 {
            data: set_field(self.data, 16, 0x7ff, v as u32),
            mask: self.mask | (0x7ffu32 << 16u32),
        }
    }


    /// Standard filter element configuration (bits 27 and up, mask 0x7).
    pub fn sfec(self) -> (r: u8)
        ensures
            r == field_get(self.data, 27, 0x7),
    {
        proof {
            lemma_field_get_bound(self.data, 27, 0x7);
        }
        get_field(self.data, 27, 0x7) as u8
    }

    /// Sets the standard filter element configuration field to `v` (bits outside the field mask are dropped).
    pub fn set_sfec(self, v: u8) -> (r: Self)
        ensures
            r.data == field_set(self.data, 27, 0x7, v as u32),
            r.mask == self.mask | (0x7u32 << 27u32),
    {
        S0 {
            data: set_field(self.data, 27, 0x7, v as u32),
            mask: self.mask | (0x7u32 << 27u32),
        }
    }


    /// Standard filter type (bits 30 and up, mask 0x3).
    pub fn sft(self) -> (r: u8)
        ensures
            r == field_get(self.data, 30, 0x3),
    {
        proof {
            lemma_field_get_bound(self.data, 30, 0x3);
        }
        get_field(self.data, 30, 0x3) as u8
    }

    /// Sets the standard filter type field to `v` (bits outside the field mask are dropped).
    pub fn set_sft(self, v: u8) -> (r: Self)
        ensures
            r.data == field_set(self.data, 30, 0x3, v as u32),
            r.mask == self.mask | (0x3u32 << 30u32),
    {
        S0 {
            data: set_field(self.data, 30, 0x3, v as u32),
            mask: self.mask | (0x3u32 << 30u32),
        }
    }

}

/// Word 0 of an extended message ID filter element.
/// `data` is the register value, `mask` the bits written since the value was built.
#[derive(Copy, Clone, PartialEq, Eq, Structural, Debug)]
pub struct F0 {
    pub data: u32,
    pub mask: u32,
}

impl F0 {
    /// A value with the given data and write mask.
    pub fn new(data: u32, write_mask: u32) -> (r: Self)
        ensures
            r.data == data,
            r.mask == write_mask,
    {
        F0 { data, mask: write_mask }
    }

    /// The register value.
    pub fn data(&self) -> (r: u32)
        ensures
            r == self.data,
    {
        self.data
    }

    /// The bits written since the value was built.
    pub fn get_mask(&self) -> (r: u32)
        ensures
            r == self.mask,
    {
        self.mask
    }


    /// Extended filter ID 1 (bits 0 and up, mask 0x1fffffff).
    pub fn efid1(self) -> (r: u32)
        ensures
            r == field_get(self.data, 0, 0x1fffffff),
    {
        proof {
            lemma_field_get_bound(self.data, 0, 0x1fffffff);
        }
        get_field(self.data, 0, 0x1fffffff)
    }

    /// Sets the extended filter id 1 field to `v` (bits outside the field mask are dropped).
    pub fn set_efid1(self, v: u32) -> (r: Self)
        ensures
            r.data == field_set(self.data, 0, 0x1fffffff, v as u32),
            r.mask == self.mask | (0x1fffffffu32 << 0u32),
    {
        F0 {
            data: set_field(self.data, 0, 0x1fffffff, v),
            mask: self.mask | (0x1fffffffu32 << 0u32),
        }
    }


    /// Extended filter element configuration (bits 29 and up, mask 0x7).
    pub fn efec(self) -> (r: u8)
        ensures
            r == field_get(self.data, 29, 0x7),
    {
        proof {
            lemma_field_get_bound(self.data, 29, 0x7);
        }
        get_field(self.data, 29, 0x7) as u8
    }

    /// Sets the extended filter element configuration field to `v` (bits outside the field mask are dropped).
    pub fn set_efec(self, v: u8) -> (r: Self)
        ensures
            r.data == field_set(self.data, 29, 0x7, v as u32),
            r.mask == self.mask | (0x7u32 << 29u32),
    {
        F0 {
            data: set_field(self.data, 29, 0x7, v as u32),
            mask: self.mask | (0x7u32 << 29u32),
        }
    }

}

/// Word 1 of an extended message ID filter element.
/// `data` is the register value, `mask` the bits written since the value was built.
#[derive(Copy, Clone, PartialEq, Eq, Structural, Debug)]
pub struct F1 {
    pub data: u32,
    pub mask: u32,
}

impl F1 {
    /// A value with the given data and write mask.
    pub fn new(data: u32, write_mask: u32) -> (r: Self)
        ensures
            r.data == data,
            r.mask == write_mask,
    {
        F1 { data, mask: write_mask }
    }

    /// The register value.
    pub fn data(&self) -> (r: u32)
        ensures
            r == self.data,
    {
        self.data
    }

    /// The bits written since the value was built.
    pub fn get_mask(&self) -> (r: u32)
        ensures
            r == self.mask,
    {
        self.mask
    }


    /// Extended filter ID 2 (bits 0 and up, mask 0x1fffffff).
    pub fn efid2(self) -> (r: u32)
        ensures
            r == field_get(self.data, 0, 0x1fffffff),
    {
        proof {
            lemma_field_get_bound(self.data, 0, 0x1fffffff);
        }
        get_field(self.data, 0, 0x1fffffff)
    }

    /// Sets the extended filter id 2 field to `v` (bits outside the field mask are dropped).
    pub fn set_efid2(self, v: u32) -> (r: Self)
        ensures
            r.data == field_set(self.data, 0, 0x1fffffff, v as u32),
            r.mask == self.mask | (0x1fffffffu32 << 0u32),
    {
        F1 {
            data: set_field(self.data, 0, 0x1fffffff, v),
            mask: self.mask | (0x1fffffffu32 << 0u32),
        }
    }


    /// Extended filter type (bits 30 and up, mask 0x3).
    pub fn eft(self) -> (r: u8)
        ensures
            r == field_get(self.data, 30, 0x3),
    {
        proof {
            lemma_field_get_bound(self.data, 30, 0x3);
        }
        get_field(self.data, 30, 0x3) as u8
    }

    /// Sets the extended filter type field to `v` (bits outside the field mask are dropped).
    pub fn set_eft(self, v: u8) -> (r: Self)
        ensures
            r.data == field_set(self.data, 30, 0x3, v as u32),
            r.mask == self.mask | (0x3u32 << 30u32),
    {
        F1 {
            data: set_field(self.data, 30, 0x3, v as u32),
            mask: self.mask | (0x3u32 << 30u32),
        }
    }

}

/// A data word of a buffer element.
/// `data` is the register value, `mask` the bits written since the value was built.
#[derive(Copy, Clone, PartialEq, Eq, Structural, Debug)]
pub struct Db {
    pub data: u32,
    pub mask: u32,
}

impl Db {
    /// A value with the given data and write mask.
    pub fn new(data: u32, write_mask: u32) -> (r: Self)
        ensures
            r.data == data,
            r.mask == write_mask,
    {
        Db { data, mask: write_mask }
    }

    /// The register value.
    pub fn data(&self) -> (r: u32)
        ensures
            r == self.data,
    {
        self.data
    }

    /// The bits written since the value was built.
    pub fn get_mask(&self) -> (r: u32)
        ensures
            r == self.mask,
    {
        self.mask
    }

}
} // verus!

verus! {

/// A transmit buffer element in the message RAM, by its address.
#[derive(Copy, Clone, PartialEq, Eq, Structural)]
pub struct TxMsg(pub usize);

impl TxMsg {
    /// Address of word 0.
    pub fn t0(self) -> (r: usize)
        ensures
            r == self.0,
    {
        self.0
    }

    /// Address of word 1.
    pub fn t1(self) -> (r: usize)
        requires
            self.0 + 4 <= usize::MAX,
        ensures
            r == self.0 + 4,
    {
        self.0 + 4
    }

    /// Address of the first data word.
    pub fn db(self) -> (r: usize)
        requires
            self.0 + 8 <= usize::MAX,
        ensures
            r == self.0 + 8,
    {
        self.0 + 8
    }
}

/// A receive buffer element in the message RAM, by its address.
#[derive(Copy, Clone, PartialEq, Eq, Structural)]
pub struct RxMsg(pub usize);

impl RxMsg {
    /// Address of word 0.
    pub fn r0(self) -> (r: usize)
        ensures
            r == self.0,
    {
        self.0
    }

    /// Address of word 1.
    pub fn r1(self) -> (r: usize)
        requires
            self.0 + 4 <= usize::MAX,
        ensures
            r == self.0 + 4,
    {
        self.0 + 4
    }

    /// Address of the first data word.
    pub fn db(self) -> (r: usize)
        requires
            self.0 + 8 <= usize::MAX,
        ensures
            r == self.0 + 8,
    {
        self.0 + 8
    }
}

/// A standard message ID filter element in the message RAM, by its address.
#[derive(Copy, Clone, PartialEq, Eq, Structural)]
pub struct StdMsg(pub usize);

impl StdMsg {
    /// Address of the filter word.
    pub fn s0(self) -> (r: usize)
        ensures
            r == self.0,
    {
        self.0
    }
}

/// An extended message ID filter element in the message RAM, by its address.
#[derive(Copy, Clone, PartialEq, Eq, Structural)]
pub struct ExtMsg(pub usize);

impl ExtMsg {
    /// Address of word 0.
    pub fn f0(self) -> (r: usize)
        ensures
            r == self.0,
    {
        self.0
    }

    /// Address of word 1.
    pub fn f1(self) -> (r: usize)
        requires
            self.0 + 4 <= usize::MAX,
        ensures
            r == self.0 + 4,
    {
        self.0 + 4
    }
}

} // verus!
