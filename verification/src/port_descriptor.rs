//! The ports that a module asks a driver to register.

use vstd::prelude::*;

verus! {

/// What a port carries.
#[derive(Debug, Clone, Copy, PartialEq, Eq, Structural)]
pub enum PortType {
    Midi,
}

/// One port of a module: the identifier the module knows it by, the name it is
/// registered under, its direction and what it carries.
pub struct PortDescriptor<I> where I: Copy {
    identifier: I,
    name: &'static str,
    is_input: bool,
    port_type: PortType,
}

impl<I> PortDescriptor<I> where I: Copy {
    pub closed spec fn identifier_spec(&self) -> I {
        self.identifier
    }

    pub closed spec fn name_spec(&self) -> &'static str {
        self.name
    }

    pub closed spec fn is_input_spec(&self) -> bool {
        self.is_input
    }

    pub closed spec fn port_type_spec(&self) -> PortType {
        self.port_type
    }

    pub fn identifier(&self) -> (identifier: I)
        ensures
            identifier == self.identifier_spec(),
    {
        self.identifier
    }

    pub fn name(&self) -> (name: &'static str)
        ensures
            name == self.name_spec(),
    {
        self.name
    }

    pub fn is_input(&self) -> (input: bool)
        ensures
            input == self.is_input_spec(),
    {
        self.is_input
    }

    pub fn is_output(&self) -> (output: bool)
        ensures
            output == !self.is_input_spec(),
    {
        !self.is_input()
    }

    pub fn port_type(&self) -> (port_type: PortType)
        ensures
            port_type == self.port_type_spec(),
    {
        self.port_type
    }

    /// A port that takes MIDI messages in.
    pub fn midi_in(identifier: I, name: &'static str) -> (port: Self)
        ensures
            port.identifier_spec() == identifier,
            port.name_spec() == name,
            port.is_input_spec(),
            port.port_type_spec() == PortType::Midi,
    {
        PortDescriptor { identifier, name, is_input: true, port_type: PortType::Midi }
    }

    /// A port that sends MIDI messages out.
    pub fn midi_out(identifier: I, name: &'static str) -> (port: Self)
        ensures
            port.identifier_spec() == identifier,
            port.name_spec() == name,
            !port.is_input_spec(),
            port.port_type_spec() == PortType::Midi,
    {
        PortDescriptor { identifier, name, is_input: false, port_type: PortType::Midi }
    }
}

/// Whether a port carries MIDI in the given direction.
pub open spec fn is_midi_port<I: Copy>(port: PortDescriptor<I>, input: bool) -> bool {
    port.is_input_spec() == input && port.port_type_spec() == PortType::Midi
}

/// The identifiers and names of the MIDI ports of one direction among the ports.
pub open spec fn midi_ports_of<I: Copy>(ports: Seq<PortDescriptor<I>>, input: bool) -> Seq<
    (I, &'static str),
> {
    ports.filter(|port: PortDescriptor<I>| is_midi_port(port, input)).map_values(
        |port: PortDescriptor<I>| (port.identifier_spec(), port.name_spec()),
    )
}

/// The MIDI ports that are to be registered in one direction: the inputs where
/// `input` holds, else the outputs. Each comes with its identifier and name, in
/// the order of `descriptors`.
pub fn midi_ports<I: Copy>(descriptors: &[PortDescriptor<I>], input: bool) -> (ports: Vec<
    (I, &'static str),
>)
    ensures
        ports@ == midi_ports_of(descriptors@, input),
{
    let mut ports: Vec<(I, &'static str)> = Vec::new();
    proof {
        reveal(Seq::filter);
        assert(descriptors@.take(0) =~= Seq::empty());
        assert(ports@ =~= midi_ports_of(descriptors@.take(0), input));
    }
    for i in 0..descriptors.len()
        invariant
            ports@ == midi_ports_of(descriptors@.take(i as int), input),
    {
        let descriptor = &descriptors[i];
        proof {
            reveal(Seq::filter);
            assert(descriptors@.take(i + 1).drop_last() =~= descriptors@.take(i as int));
            assert(descriptors@.take(i + 1).last() == *descriptor);
        }
        if descriptor.is_input() == input && descriptor.port_type() == PortType::Midi {
            ports.push((descriptor.identifier(), descriptor.name()));
            assert(ports@ =~= midi_ports_of(descriptors@.take(i + 1), input));
        } else {
            assert(ports@ =~= midi_ports_of(descriptors@.take(i + 1), input));
        }
    }
    assert(descriptors@.take(descriptors@.len() as int) =~= descriptors@);
    ports
}

} // verus!
