//! CAN modules: their type states, clock selection and node bookkeeping.
use vstd::prelude::*;
use core::marker::PhantomData;
use vstd::std_specs::convert::FromSpecImpl;
use crate::can::can_node::{Configurable, NodeConfig, NodeId, InterruptLine, Tos};
use crate::can::can_node::effects::NodeEffect;
use crate::can::can_node::node::{Node, clock_source_set, config_timings_encodable, spec_new_effects};
use crate::can::reg::{field_get, field_set, get_field, set_field};
use crate::cpu::Priority;

verus! {

/// Marker of a CAN module.
pub trait ModuleId {
    /// Index of the module.
    spec fn index_spec() -> u8;

    /// Index of the module.
    fn module_index() -> (r: u8)
        ensures
            r == Self::index_spec(),
    ;
}

/// CAN module 0.
pub struct Module0;

impl ModuleId for Module0 {
    open spec fn index_spec() -> u8 {
        0
    }

    fn module_index() -> (r: u8) {
        0
    }
}

/// CAN module 1.
pub struct Module1;

impl ModuleId for Module1 {
    open spec fn index_spec() -> u8 {
        1
    }

    fn module_index() -> (r: u8) {
        1
    }
}

/// Module configuration (no settings yet).
pub struct ModuleConfig {}

/// Type state: the module clock is disabled.
pub struct Disabled;

/// Type state: the module clock is enabled.
pub struct Enabled;

/// A CAN module in type state `State`, with the record of which of its four
/// nodes have been handed out.
pub struct Module<M, State> {
    pub nodes_taken: [bool; 4],
    pub ram_base_address: u32,
    pub _phantom: PhantomData<(M, State)>,
}

/// Which clock a node uses.
#[derive(Clone, Copy, PartialEq, Eq, Structural)]
pub enum ClockSource {
    Asynchronous,
    Synchronous,
    Both,
}

impl Default for ClockSource {
    fn default() -> (r: Self)
        ensures
            r == ClockSource::Both,
    {
        ClockSource::Both
    }
}

/// Value of the clock selection field for a clock source.
pub open spec fn clock_source_code(x: ClockSource) -> u8 {
    match x {
        ClockSource::Asynchronous => 1,
        ClockSource::Synchronous => 2,
        ClockSource::Both => 3,
    }
}

impl From<ClockSource> for u8 {
    fn from(x: ClockSource) -> (r: u8) {
        match x {
            ClockSource::Asynchronous => 1,
            ClockSource::Synchronous => 2,
            ClockSource::Both => 3,
        }
    }
}

impl FromSpecImpl<ClockSource> for u8 {
    open spec fn obeys_from_spec() -> bool {
        true
    }

    open spec fn from_spec(v: ClockSource) -> u8 {
        clock_source_code(v)
    }
}

/// The clock selection field of a node (its index, 0 to 3).
pub struct ClockSelect(pub u8);

impl ClockSelect {
    /// The clock selection of the node `node_id`.
    pub fn from_node<T: NodeId>(node_id: &T) -> (r: Self)
        ensures
            r.0 == node_id.index_spec(),
            r.0 < 4,
    {
        ClockSelect(node_id.as_index() as u8)
    }
}

/// Start bit of the clock selection field of node `sel` in the MCR register.
pub open spec fn clksel_start(sel: u8) -> u32 {
    (2 * sel) as u32
}

/// MCR values written to switch the clock of node `clock_select` to
/// `clock_source`, starting from the value `mcr` read: first the change
/// enable bits (CCCE, bit 30, and CI, bit 31) are set, then the clock
/// selection field is written, then the enable bits are cleared.
pub open spec fn spec_clock_source_writes(mcr: u32, clock_select: u8, clock_source: ClockSource) -> Seq<
    u32,
> {
    let w1 = field_set(field_set(mcr, 30, 1, 1), 31, 1, 1);
    let w2 = field_set(w1, clksel_start(clock_select), 3, clock_source_code(clock_source) as u32);
    let w3 = field_set(field_set(w2, 30, 1, 0), 31, 1, 0);
    seq![w1, w2, w3]
}

impl<M: ModuleId> Module<M, Disabled> {
    /// A new (disabled) CAN module whose message RAM starts at `ram_base_address`.
    pub fn new(_module_id: M, ram_base_address: u32) -> (r: Self)
        ensures
            r.nodes_taken@ == seq![false, false, false, false],
            r.ram_base_address == ram_base_address,
    {
        Module { nodes_taken: [false;4], ram_base_address, _phantom: PhantomData }
    }

    /// The module once its clock has been enabled; no node is taken.
    pub fn enable(self) -> (r: Module<M, Enabled>)
        ensures
            r.nodes_taken@ == seq![false, false, false, false],
            r.ram_base_address == self.ram_base_address,
    {
        Module { nodes_taken: [false;4], ram_base_address: self.ram_base_address, _phantom: PhantomData }
    }
}

impl<M: ModuleId> Module<M, Enabled> {
    /// Takes node `node_id`, configured with `cfg`: `None` if it was taken
    /// before, or if its clock could not be switched (`mcr` is the MCR value
    /// read back after the writes of [`Self::set_clock_source`]); see
    /// [`Node::new`]. The node counts as taken either way.
    pub fn take_node<I: NodeId>(
        &mut self,
        node_id: I,
        cfg: NodeConfig,
        mcr: u32,
        module_freq: u32,
    ) -> (r: Option<(Node<M, I, Configurable>, Vec<NodeEffect>)>)
        requires
            !old(self).nodes_taken@[node_id.index_spec() as int] && clock_source_set(
                mcr,
                node_id.index_spec() as u8,
                cfg,
            ) ==> config_timings_encodable(cfg, module_freq),
        ensures
            final(self).nodes_taken@ == old(self).nodes_taken@.update(node_id.index_spec() as int, true),
            final(self).ram_base_address == old(self).ram_base_address,
            r is Some <==> !old(self).nodes_taken@[node_id.index_spec() as int] && clock_source_set(
                mcr,
                node_id.index_spec() as u8,
                cfg,
            ),
            r matches Some((n, e)) ==> {
                &&& n.frame_mode == cfg.frame_mode
                &&& n.ram_base_address == old(self).ram_base_address
                &&& n.rx_config is None
                &&& e@ == spec_new_effects(cfg, module_freq)
            },
    {
        let node_index = node_id.as_index();
        if self.nodes_taken[node_index] {
            return None;
        }
        self.nodes_taken[node_index] = true;
        match Node::new(self, node_id, cfg, mcr, module_freq) {
            Ok(n) => Some(n),
            Err(_) => None,
        }
    }

    /// The MCR values to write to switch the clock of a node, given the value read.
    pub fn set_clock_source(&self, clock_select: &ClockSelect, clock_source: ClockSource, mcr: u32) -> (r: Vec<u32>)
        requires
            clock_select.0 < 4,
        ensures
            r@ == spec_clock_source_writes(mcr, clock_select.0, clock_source),
    {
        let w1 = set_field(set_field(mcr, 30, 1, 1), 31, 1, 1);
        let w2 = set_field(w1, 2 * clock_select.0 as u32, 3, u8::from(clock_source) as u32);
        let w3 = set_field(set_field(w2, 30, 1, 0), 31, 1, 0);
        vec![w1, w2, w3]
    }

    /// Whether the clock switch took effect: the clock selection field of the
    /// MCR value read back equals the requested source.
    pub fn check_clock_source(&self, clock_select: &ClockSelect, clock_source: ClockSource, mcr: u32) -> (r: Result<(), ()>)
        requires
            clock_select.0 < 4,
        ensures
            r is Ok <==> field_get(mcr, clksel_start(clock_select.0), 3) == clock_source_code(clock_source) as u32,
    {
        let actual = get_field(mcr, 2 * clock_select.0 as u32, 3);
        if actual != u8::from(clock_source) as u32 {
            return Err(());
        }
        Ok(())
    }

    /// Start address of the module's message RAM.
    pub fn ram_base_address(&self) -> (r: u32)
        ensures
            r == self.ram_base_address,
    {
        self.ram_base_address
    }
}

/// A node is handed out at most once: once [`Module::take_node`] has marked
/// node `index` as taken, a later `take_node` of it finds it taken and
/// returns `None`, and the other nodes keep their state.
pub proof fn lemma_node_taken_once(taken: Seq<bool>, index: int, other: int)
    requires
        0 <= index < taken.len(),
        0 <= other < taken.len(),
        other != index,
    ensures
        taken.update(index, true)[index],
        taken.update(index, true)[other] == taken[other],
{
}

/// Priority and type of service written into a service request register,
/// with the request cleared (CLRR, bit 25) and enabled (SRE, bit 10):
/// SRPN is bits 0..8, TOS bits 11..13.
pub open spec fn spec_service_request_writes(src: u32, priority: u8, tos: u8) -> Seq<u32> {
    let w1 = field_set(field_set(src, 0, 0xff, priority as u32), 11, 0x3, tos as u32);
    let w2 = field_set(w1, 25, 1, 1);
    let w3 = field_set(w2, 10, 1, 1);
    seq![w1, w2, w3]
}

/// The service request register of an interrupt line of a module.
pub struct ServiceRequest {
    pub module_index: u8,
    pub line: u8,
}

impl ServiceRequest {
    /// The register values to write to enable the request with `priority`
    /// and `tos`, given the value `src` read.
    pub fn enable(&self, priority: Priority, tos: Tos, src: u32) -> (r: Vec<u32>)
        ensures
            r@ == spec_service_request_writes(src, priority@, crate::can::can_node::tos_code(tos)),
    {
        let priority = u8::from(priority);
        let tos = u8::from(tos);
        let w1 = set_field(set_field(src, 0, 0xff, priority as u32), 11, 0x3, tos as u32);
        let w2 = set_field(w1, 25, 1, 1);
        let w3 = set_field(w2, 10, 1, 1);
        vec![w1, w2, w3]
    }
}

/// The service request of `interrupt_line` of module `module_id`.
pub fn module_service_request(module_id: u8, interrupt_line: InterruptLine) -> (r: ServiceRequest)
    ensures
        r.module_index == module_id,
        r.line == crate::can::can_node::interrupt_line_code(interrupt_line),
{
    ServiceRequest { module_index: module_id, line: u8::from(interrupt_line) }
}

impl Module0 {
    /// The service request of `line` of module 0.
    pub fn service_request(line: InterruptLine) -> (r: ServiceRequest)
        ensures
            r.module_index == 0,
            r.line == crate::can::can_node::interrupt_line_code(line),
    {
        module_service_request(0, line)
    }
}

impl Module1 {
    /// The service request of `line` of module 1.
    pub fn service_request(line: InterruptLine) -> (r: ServiceRequest)
        ensures
            r.module_index == 1,
            r.line == crate::can::can_node::interrupt_line_code(line),
    {
        module_service_request(1, line)
    }
}

} // verus!
