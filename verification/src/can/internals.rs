//! Images of the message RAM elements: transmit and receive buffer elements
//! and filter elements, with the operations the node performs on them.
use vstd::prelude::*;
use crate::can::frame::{DataLenghtCode, dlc_code, dlc_length, dlc_from_code};
use crate::can::msg::{
    FilterElementConfiguration, FilterType, FrameMode, MessageId, MessageIdLenght, RxBufferId,
    TxBufferId,
};
use crate::can::reg::{F0, F1, R0, R1, S0, T0, T1, field_get, field_set};

verus! {

/// `(fdf, brs)`: the FD format and bit rate switch bits of a frame mode.
pub open spec fn frame_mode_bits(fm: FrameMode) -> (bool, bool) {
    match fm {
        FrameMode::Standard => (false, false),
        FrameMode::FdLong => (true, false),
        FrameMode::FdLongAndFast => (true, true),
    }
}

pub open spec fn bit(b: bool) -> u32 {
    if b { 1 } else { 0 }
}

/// Left shift of the identifier inside the 29-bit field: standard identifiers
/// occupy the upper 11 bits.
pub open spec fn id_shift(len: MessageIdLenght) -> u32 {
    if len == MessageIdLenght::Standard { 18 } else { 0 }
}

/// Word 0 of an element after writing the identifier `id` into `t0`.
pub open spec fn encode_id(t0: u32, id: MessageId) -> u32 {
    field_set(
        field_set(t0, 30, 1, bit(id.length == MessageIdLenght::Extended)),
        0,
        0x1FFFFFFF,
        id.data << id_shift(id.length),
    )
}

/// Identifier length stored in word 0 of an element.
pub open spec fn decode_id_length(r0: u32) -> MessageIdLenght {
    if field_get(r0, 30, 1) == 1 { MessageIdLenght::Extended } else { MessageIdLenght::Standard }
}

/// Identifier stored in word 0 of an element.
pub open spec fn decode_id(r0: u32) -> u32 {
    field_get(r0, 0, 0x1FFFFFFF) >> id_shift(decode_id_length(r0))
}

/// Frame mode stored in word 1 of an element.
pub open spec fn decode_frame_mode(r1: u32) -> FrameMode {
    if field_get(r1, 21, 1) == 1 {
        if field_get(r1, 20, 1) == 1 { FrameMode::FdLongAndFast } else { FrameMode::FdLong }
    } else {
        FrameMode::Standard
    }
}

/// Whether an identifier fits its format (11 or 29 bits).
pub open spec fn id_fits(id: MessageId) -> bool {
    ||| id.length == MessageIdLenght::Standard && id.data <= 0x7FF
    ||| id.length == MessageIdLenght::Extended && id.data <= 0x1FFF_FFFF
}

/// An identifier written into word 0 is read back unchanged, with its format,
/// whatever word 0 held before.
pub proof fn lemma_message_id_round_trip(t0: u32, id: MessageId)
    requires
        id_fits(id),
    ensures
        decode_id(encode_id(t0, id)) == id.data,
        decode_id_length(encode_id(t0, id)) == id.length,
{
    let d = id.data;
    let x = bit(id.length == MessageIdLenght::Extended);
    let sh = id_shift(id.length);
    let w1 = field_set(t0, 30, 1, x);
    assert((0x1FFFFFFFu32 << 0u32) & (1u32 << 30u32) == 0) by (bit_vector);
    assert((1u32 << 30u32) >> 30u32 == 1) by (bit_vector);
    assert((0x1FFFFFFFu32 << 0u32) >> 0u32 == 0x1FFFFFFFu32) by (bit_vector);
    crate::can::reg::lemma_field_set_other(w1, 0, 0x1FFFFFFF, d << sh, 30, 1);
    crate::can::reg::lemma_field_set_get(t0, 30, 1, x);
    crate::can::reg::lemma_field_set_get(w1, 0, 0x1FFFFFFF, d << sh);
    if id.length == MessageIdLenght::Standard {
        assert(x & 1 == 0) by (bit_vector)
            requires
                x == 0,
        ;
        assert(((d << 18u32) & 0x1FFFFFFFu32) >> 18u32 == d) by (bit_vector)
            requires
                d <= 0x7FF,
        ;
    } else {
        assert(x & 1 == 1) by (bit_vector)
            requires
                x == 1,
        ;
        assert(((d << 0u32) & 0x1FFFFFFFu32) >> 0u32 == d) by (bit_vector)
            requires
                d <= 0x1FFF_FFFF,
        ;
    }
}

/// A data length code written into word 1 is read back unchanged.
pub proof fn lemma_data_length_round_trip(t1: u32, d: DataLenghtCode)
    ensures
        dlc_from_code(field_get(field_set(t1, 16, 0xf, dlc_code(d) as u32), 16, 0xf) as u8)
            == Some(d),
{
    assert((0xfu32 << 16u32) >> 16u32 == 0xfu32) by (bit_vector);
    crate::can::reg::lemma_field_set_get(t1, 16, 0xf, dlc_code(d) as u32);
    crate::can::frame::lemma_code_round_trip(d, 0);
    let c = dlc_code(d) as u32;
    assert(c & 0xf == c) by (bit_vector)
        requires
            c < 16,
    ;
}

/// A frame mode written into word 1 is read back unchanged.
pub proof fn lemma_frame_mode_round_trip(t1: u32, fm: FrameMode)
    ensures
        decode_frame_mode(
            field_set(
                field_set(t1, 21, 1, bit(frame_mode_bits(fm).0)),
                20,
                1,
                bit(frame_mode_bits(fm).1),
            ),
        ) == fm,
{
    let f = bit(frame_mode_bits(fm).0);
    let b = bit(frame_mode_bits(fm).1);
    let w1 = field_set(t1, 21, 1, f);
    assert((1u32 << 20u32) & (1u32 << 21u32) == 0) by (bit_vector);
    assert((1u32 << 21u32) >> 21u32 == 1) by (bit_vector);
    assert((1u32 << 20u32) >> 20u32 == 1) by (bit_vector);
    crate::can::reg::lemma_field_set_other(w1, 20, 1, b, 21, 1);
    crate::can::reg::lemma_field_set_get(t1, 21, 1, f);
    crate::can::reg::lemma_field_set_get(w1, 20, 1, b);
    assert(f & 1 == f) by (bit_vector)
        requires
            f <= 1,
    ;
    assert(b & 1 == b) by (bit_vector)
        requires
            b <= 1,
    ;
}

/// Image of a transmit buffer element: its two header words and its data bytes.
pub struct Tx {
    pub t0: T0,
    pub t1: T1,
    pub db: Vec<u8>,
}

impl Tx {
    /// The element with the given header words and data field.
    pub fn new(t0: T0, t1: T1, db: Vec<u8>) -> (r: Self)
        ensures
            r.t0 == t0,
            r.t1 == t1,
            r.db@ == db@,
    {
        Tx { t0, t1, db }
    }

    /// Requests the frame format of `frame_mode`.
    pub fn set_frame_mode_req(&mut self, frame_mode: FrameMode)
        ensures
            final(self).t0 == old(self).t0,
            final(self).db@ == old(self).db@,
            final(self).t1.data == field_set(
                field_set(old(self).t1.data, 21, 1, bit(frame_mode_bits(frame_mode).0)),
                20,
                1,
                bit(frame_mode_bits(frame_mode).1),
            ),
    {
        let (fdf, brs) = match frame_mode {
            FrameMode::Standard => (false, false),
            FrameMode::FdLong => (true, false),
            FrameMode::FdLongAndFast => (true, true),
        };
        self.t1 = self.t1.set_fdf(fdf).set_brs(brs);
    }

    /// Writes the identifier and its format.
    pub fn set_msg_id(&mut self, message_id: MessageId)
        ensures
            final(self).t1 == old(self).t1,
            final(self).db@ == old(self).db@,
            final(self).t0.data == encode_id(old(self).t0.data, message_id),
    {
        let shift: u32 = if message_id.length == MessageIdLenght::Standard {
            18
        } else {
            0
        };
        let id = message_id.data << shift;
        self.t0 = self.t0.set_xtd(message_id.length == MessageIdLenght::Extended).set_id(id);
    }

    /// Sets the event FIFO control bit.
    pub fn set_tx_event_fifo_ctrl(&mut self, enable: bool)
        ensures
            final(self).t0 == old(self).t0,
            final(self).db@ == old(self).db@,
            final(self).t1.data == field_set(old(self).t1.data, 23, 1, bit(enable)),
    {
        self.t1 = self.t1.set_efc(enable);
    }

    /// Writes the message marker.
    pub fn set_message_marker(&mut self, buffer_id: TxBufferId)
        ensures
            final(self).t0 == old(self).t0,
            final(self).db@ == old(self).db@,
            final(self).t1.data == field_set(old(self).t1.data, 24, 0xff, buffer_id@ as u32),
    {
        self.t1 = self.t1.set_mm(u8::from(buffer_id));
    }

    /// Sets the remote transmission request bit.
    pub fn set_remote_transmit_req(&mut self, enable: bool)
        ensures
            final(self).t1 == old(self).t1,
            final(self).db@ == old(self).db@,
            final(self).t0.data == field_set(old(self).t0.data, 29, 1, bit(enable)),
    {
        self.t0 = self.t0.set_rtr(enable);
    }

    /// Sets the error state indicator bit.
    pub fn set_err_state_indicator(&mut self, enable: bool)
        ensures
            final(self).t1 == old(self).t1,
            final(self).db@ == old(self).db@,
            final(self).t0.data == field_set(old(self).t0.data, 31, 1, bit(enable)),
    {
        self.t0 = self.t0.set_esi(enable);
    }

    /// Writes the data length code.
    pub fn set_data_length(&mut self, data_length_code: DataLenghtCode)
        ensures
            final(self).t0 == old(self).t0,
            final(self).db@ == old(self).db@,
            final(self).t1.data == field_set(
                old(self).t1.data,
                16,
                0xf,
                dlc_code(data_length_code) as u32,
            ),
    {
        self.t1 = self.t1.set_dlc(u8::from(data_length_code));
    }

    /// Copies the payload of `data_length_code` bytes into the data field.
    pub fn write_tx_buf_data(&mut self, data_length_code: DataLenghtCode, data: &[u8])
        requires
            data@.len() >= dlc_length(data_length_code),
            old(self).db@.len() >= dlc_length(data_length_code),
        ensures
            final(self).t0 == old(self).t0,
            final(self).t1 == old(self).t1,
            final(self).db@ == data@.subrange(0, dlc_length(data_length_code) as int)
                + old(self).db@.subrange(
                dlc_length(data_length_code) as int,
                old(self).db@.len() as int,
            ),
    {
        let length = data_length_code.to_length();
        let mut i: usize = 0;
        while i < length
            invariant
                length == dlc_length(data_length_code),
                i <= length,
                data@.len() >= length,
                self.db@.len() == old(self).db@.len(),
                old(self).db@.len() >= length,
                self.t0 == old(self).t0,
                self.t1 == old(self).t1,
                forall|k: int| 0 <= k < i ==> self.db@[k] == data@[k],
                forall|k: int| i <= k < self.db@.len() ==> self.db@[k] == old(self).db@[k],
            decreases length - i,
        {
            self.db.set(i, data[i]);
            i = i + 1;
        }
        assert(self.db@ =~= data@.subrange(0, length as int) + old(self).db@.subrange(
            length as int,
            old(self).db@.len() as int,
        ));
    }
}

/// Image of a receive buffer element: its two header words and its data bytes.
pub struct Rx {
    pub r0: R0,
    pub r1: R1,
    pub db: Vec<u8>,
}

impl Rx {
    /// The element with the given header words and data field.
    pub fn new(r0: R0, r1: R1, db: Vec<u8>) -> (r: Self)
        ensures
            r.r0 == r0,
            r.r1 == r1,
            r.db@ == db@,
    {
        Rx { r0, r1, db }
    }

    /// The identifier of the received message.
    pub fn get_message_id(&self) -> (r: u32)
        ensures
            r == decode_id(self.r0.data),
    {
        let message_length = if self.r0.xtd() {
            MessageIdLenght::Extended
        } else {
            MessageIdLenght::Standard
        };
        let id = self.r0.id();
        let shift: u32 = if message_length == MessageIdLenght::Standard {
            18
        } else {
            0
        };
        id >> shift
    }

    /// Whether the received identifier is standard or extended.
    pub fn get_message_id_length(&self) -> (r: MessageIdLenght)
        ensures
            r == decode_id_length(self.r0.data),
    {
        if self.r0.xtd() {
            MessageIdLenght::Extended
        } else {
            MessageIdLenght::Standard
        }
    }

    /// The data length code of the received message.
    pub fn get_data_length(&self) -> (r: DataLenghtCode)
        ensures
            dlc_from_code(field_get(self.r1.data, 16, 0xf) as u8) == Some(r),
    {
        let d = self.r1.dlc();
        proof {
            crate::can::reg::lemma_field_get_bound(self.r1.data, 16, 0xf);
        }
        match DataLenghtCode::try_from(d) {
            Ok(dlc) => dlc,
            Err(_) => DataLenghtCode::_64,
        }
    }

    /// The frame format of the received message.
    pub fn get_frame_mode(&self) -> (r: FrameMode)
        ensures
            r == decode_frame_mode(self.r1.data),
    {
        if self.r1.fdf() {
            if self.r1.brs() {
                FrameMode::FdLongAndFast
            } else {
                FrameMode::FdLong
            }
        } else {
            FrameMode::Standard
        }
    }

    /// Copies the payload of `data_length_code` bytes out of the data field.
    pub fn read_data(&self, data_length_code: DataLenghtCode, data: &mut [u8])
        requires
            old(data)@.len() >= dlc_length(data_length_code),
            self.db@.len() >= dlc_length(data_length_code),
        ensures
            final(data)@ == self.db@.subrange(0, dlc_length(data_length_code) as int)
                + old(data)@.subrange(
                dlc_length(data_length_code) as int,
                old(data)@.len() as int,
            ),
    {
        let length = data_length_code.to_length();
        let mut i: usize = 0;
        while i < length
            invariant
                length == dlc_length(data_length_code),
                i <= length,
                self.db@.len() >= length,
                data@.len() == old(data)@.len(),
                old(data)@.len() >= length,
                forall|k: int| 0 <= k < i ==> data@[k] == self.db@[k],
                forall|k: int| i <= k < data@.len() ==> data@[k] == old(data)@[k],
            decreases length - i,
        {
            data[i] = self.db[i];
            i = i + 1;
        }
        assert(data@ =~= self.db@.subrange(0, length as int) + old(data)@.subrange(
            length as int,
            old(data)@.len() as int,
        ));
    }
}

/// Register code of a filter element configuration.
pub open spec fn filter_config_code(c: FilterElementConfiguration) -> u8 {
    match c {
        FilterElementConfiguration::Disable => 0,
        FilterElementConfiguration::StoreInRxFifo0 => 1,
        FilterElementConfiguration::StoreInRxFifo1 => 2,
        FilterElementConfiguration::RejectId => 3,
        FilterElementConfiguration::SetPriority => 4,
        FilterElementConfiguration::SetPriorityAndStoreInFifo0 => 5,
        FilterElementConfiguration::SetPriorityAndStoreInFifo1 => 6,
        FilterElementConfiguration::StoreInRxBuffer => 7,
    }
}

/// Register code of a filter type.
pub open spec fn filter_type_code(t: FilterType) -> u8 {
    match t {
        FilterType::Range => 0,
        FilterType::Dualid => 1,
        FilterType::Classic => 2,
        FilterType::NoFilter => 3,
    }
}

fn filter_config_value(c: FilterElementConfiguration) -> (r: u8)
    ensures
        r == filter_config_code(c),
{
    match c {
        FilterElementConfiguration::Disable => 0,
        FilterElementConfiguration::StoreInRxFifo0 => 1,
        FilterElementConfiguration::StoreInRxFifo1 => 2,
        FilterElementConfiguration::RejectId => 3,
        FilterElementConfiguration::SetPriority => 4,
        FilterElementConfiguration::SetPriorityAndStoreInFifo0 => 5,
        FilterElementConfiguration::SetPriorityAndStoreInFifo1 => 6,
        FilterElementConfiguration::StoreInRxBuffer => 7,
    }
}

fn filter_type_value(t: FilterType) -> (r: u8)
    ensures
        r == filter_type_code(t),
{
    match t {
        FilterType::Range => 0,
        FilterType::Dualid => 1,
        FilterType::Classic => 2,
        FilterType::NoFilter => 3,
    }
}

/// Image of a standard message ID filter element.
pub struct StdMsg {
    pub s0: S0,
}

impl StdMsg {
    /// The element with the given filter word.
    pub fn new(s0: S0) -> (r: Self)
        ensures
            r.s0 == s0,
    {
        StdMsg { s0 }
    }

    /// Writes the second identifier (its low 11 bits).
    pub fn set_standard_filter_id2(&mut self, id: u32)
        ensures
            final(self).s0.data == field_set(old(self).s0.data, 0, 0x7ff, id as u16 as u32),
    {
        self.s0 = self.s0.set_sfid2(id as u16);
    }

    /// Writes the receive buffer that matching messages are stored in.
    pub fn set_standard_filter_rx_buffer_offset(&mut self, rx_buffer_number: RxBufferId)
        ensures
            final(self).s0.data == field_set(old(self).s0.data, 0, 0x7ff, rx_buffer_number@ as u32),
    {
        self.s0 = self.s0.set_sfid2(u16::from(rx_buffer_number));
    }

    /// Writes the first identifier (its low 11 bits).
    pub fn set_standard_filter_id1(&mut self, id: u32)
        ensures
            final(self).s0.data == field_set(old(self).s0.data, 16, 0x7ff, id as u16 as u32),
    {
        self.s0 = self.s0.set_sfid1(id as u16);
    }

    /// Writes what the filter does with matching messages.
    pub fn set_standard_filter_configuration(
        &mut self,
        filter_element_configuration: FilterElementConfiguration,
    )
        ensures
            final(self).s0.data == field_set(
                old(self).s0.data,
                27,
                0x7,
                filter_config_code(filter_element_configuration) as u32,
            ),
    {
        self.s0 = self.s0.set_sfec(filter_config_value(filter_element_configuration));
    }

    /// Writes the filter type.
    pub fn set_standard_filter_type(&mut self, filter_type: FilterType)
        ensures
            final(self).s0.data == field_set(
                old(self).s0.data,
                30,
                0x3,
                filter_type_code(filter_type) as u32,
            ),
    {
        self.s0 = self.s0.set_sft(filter_type_value(filter_type));
    }
}

/// Image of an extended message ID filter element.
pub struct ExtMsg {
    pub f0: F0,
    pub f1: F1,
}

impl ExtMsg {
    /// The element with the given filter words.
    pub fn new(f0: F0, f1: F1) -> (r: Self)
        ensures
            r.f0 == f0,
            r.f1 == f1,
    {
        ExtMsg { f0, f1 }
    }

    /// Writes the second identifier.
    pub fn set_extended_filter_id2(&mut self, id: u32)
        ensures
            final(self).f0 == old(self).f0,
            final(self).f1.data == field_set(old(self).f1.data, 0, 0x1FFFFFFF, id),
    {
        self.f1 = self.f1.set_efid2(id);
    }

    /// Writes the receive buffer that matching messages are stored in.
    pub fn set_extended_filter_rx_buffer_offset(&mut self, rx_buffer_number: RxBufferId)
        ensures
            final(self).f0 == old(self).f0,
            final(self).f1.data == field_set(
                old(self).f1.data,
                0,
                0x1FFFFFFF,
                rx_buffer_number@ as u32,
            ),
    {
        self.f1 = self.f1.set_efid2(u32::from(rx_buffer_number));
    }

    /// Writes the first identifier.
    pub fn set_extended_filter_id1(&mut self, id: u32)
        ensures
            final(self).f1 == old(self).f1,
            final(self).f0.data == field_set(old(self).f0.data, 0, 0x1FFFFFFF, id),
    {
        self.f0 = self.f0.set_efid1(id);
    }

    /// Writes what the filter does with matching messages.
    pub fn set_extended_filter_configuration(
        &mut self,
        filter_element_configuration: FilterElementConfiguration,
    )
        ensures
            final(self).f1 == old(self).f1,
            final(self).f0.data == field_set(
                old(self).f0.data,
                29,
                0x7,
                filter_config_code(filter_element_configuration) as u32,
            ),
    {
        self.f0 = self.f0.set_efec(filter_config_value(filter_element_configuration));
    }

    /// Writes the filter type.
    pub fn set_extended_filter_type(&mut self, filter_type: FilterType)
        ensures
            final(self).f0 == old(self).f0,
            final(self).f1.data == field_set(
                old(self).f1.data,
                30,
                0x3,
                filter_type_code(filter_type) as u32,
            ),
    {
        self.f1 = self.f1.set_eft(filter_type_value(filter_type));
    }
}

} // verus!
