//! A set of virtual sensors, kept as one bit per sensor.

use crate::sensor::VirtualSensorOutput;
use crate::sensor::VIRTUAL_SENSOR_COUNT;
use vstd::prelude::*;

verus! {

/// The bit that stands for the sensor at a position of the enumeration.
pub open spec fn bit_at(position: nat) -> u32 {
    1u32 << (position as u32)
}

proof fn lemma_bit_set(bits: u32, i: u32, j: u32)
    requires
        i < 32,
        j < 32,
    ensures
        ((bits | (1u32 << i)) & (1u32 << j) != 0) == (i == j || bits & (1u32 << j) != 0),
{
    assert(i < 32 && j < 32 ==> (((bits | (1u32 << i)) & (1u32 << j) != 0) == (i == j || bits & (
    1u32 << j) != 0))) by (bit_vector);
}

proof fn lemma_bit_cleared(bits: u32, i: u32, j: u32)
    requires
        i < 32,
        j < 32,
    ensures
        ((bits & !(1u32 << i)) & (1u32 << j) != 0) == (i != j && bits & (1u32 << j) != 0),
{
    assert(i < 32 && j < 32 ==> (((bits & !(1u32 << i)) & (1u32 << j) != 0) == (i != j && bits & (
    1u32 << j) != 0))) by (bit_vector);
}

proof fn lemma_bit_joined(left: u32, right: u32, j: u32)
    requires
        j < 32,
    ensures
        ((left | right) & (1u32 << j) != 0) == (left & (1u32 << j) != 0 || right & (1u32 << j)
            != 0),
        0u32 & (1u32 << j) == 0,
{
    assert(j < 32 ==> (((left | right) & (1u32 << j) != 0) == (left & (1u32 << j) != 0 || right & (
    1u32 << j) != 0))) by (bit_vector);
    assert(0u32 & (1u32 << j) == 0) by (bit_vector);
}

/// A set of virtual sensors.
#[derive(Clone, Copy, Debug)]
pub struct SensorSet {
    bits: u32,
}

impl View for SensorSet {
    type V = Set<VirtualSensorOutput>;

    closed spec fn view(&self) -> Set<VirtualSensorOutput> {
        Set::new(|sensor: VirtualSensorOutput| self.bits & bit_at(sensor.position()) != 0)
    }
}

impl SensorSet {
    /// The members whose position in the enumeration is below a bound.
    pub open spec fn below(self, bound: nat) -> Set<VirtualSensorOutput> {
        Set::new(|sensor: VirtualSensorOutput| sensor.position() < bound && self@.contains(sensor))
    }

    proof fn lemma_below_step(self, position: nat)
        requires
            position < VIRTUAL_SENSOR_COUNT,
        ensures
            self.below(position + 1) == if self@.contains(
                VirtualSensorOutput::at_position(position),
            ) {
                self.below(position).insert(VirtualSensorOutput::at_position(position))
            } else {
                self.below(position)
            },
            !self.below(position).contains(VirtualSensorOutput::at_position(position)),
    {
        let here = VirtualSensorOutput::at_position(position);
        VirtualSensorOutput::lemma_position_bijective(here, position);
        let next = if self@.contains(here) {
            self.below(position).insert(here)
        } else {
            self.below(position)
        };
        assert forall|sensor: VirtualSensorOutput|
            self.below(position + 1).contains(sensor) == next.contains(sensor) by {
            VirtualSensorOutput::lemma_position_bijective(sensor, position);
        }
        assert(self.below(position + 1) =~= next);
    }

    /// The set without members.
    pub fn empty() -> (set: SensorSet)
        ensures
            set@ == Set::<VirtualSensorOutput>::empty(),
    {
        let set = SensorSet { bits: 0 };
        proof {
            assert forall|sensor: VirtualSensorOutput| !set@.contains(sensor) by {
                VirtualSensorOutput::lemma_position_bijective(sensor, 0);
                lemma_bit_joined(0, 0, sensor.position() as u32);
            }
            assert(set@ =~= Set::<VirtualSensorOutput>::empty());
        }
        set
    }

    fn bit(sensor: VirtualSensorOutput) -> (bit: u32)
        ensures
            bit == bit_at(sensor.position()),
    {
        let position: u32 = match sensor {
            VirtualSensorOutput::Iaq => 0,
            VirtualSensorOutput::StaticIaq => 1,
            VirtualSensorOutput::Co2Equivalent => 2,
            VirtualSensorOutput::BreathVocEquivalent => 3,
            VirtualSensorOutput::RawTemperature => 4,
            VirtualSensorOutput::RawPressure => 5,
            VirtualSensorOutput::RawHumidity => 6,
            VirtualSensorOutput::RawGas => 7,
            VirtualSensorOutput::StabilizationStatus => 8,
            VirtualSensorOutput::RunInStatus => 9,
            VirtualSensorOutput::SensorHeatCompensatedTemperature => 10,
            VirtualSensorOutput::SensorHeatCompensatedHumidity => 11,
            VirtualSensorOutput::DebugCompensatedGas => 12,
            VirtualSensorOutput::GasPercentage => 13,
        };
        1u32 << position
    }

    /// Whether a sensor is a member.
    pub fn contains(&self, sensor: VirtualSensorOutput) -> (found: bool)
        ensures
            found == self@.contains(sensor),
    {
        self.bits & SensorSet::bit(sensor) != 0
    }

    /// Makes a sensor a member.
    pub fn insert(&mut self, sensor: VirtualSensorOutput)
        ensures
            final(self)@ == old(self)@.insert(sensor),
    {
        let before = self.bits;
        self.bits = before | SensorSet::bit(sensor);
        proof {
            assert forall|other: VirtualSensorOutput|
                self@.contains(other) == old(self)@.insert(sensor).contains(other) by {
                VirtualSensorOutput::lemma_position_bijective(sensor, other.position());
                VirtualSensorOutput::lemma_position_bijective(other, sensor.position());
                lemma_bit_set(before, sensor.position() as u32, other.position() as u32);
            }
            assert(self@ =~= old(self)@.insert(sensor));
        }
    }

    /// Takes a sensor out of the set.
    pub fn remove(&mut self, sensor: VirtualSensorOutput)
        ensures
            final(self)@ == old(self)@.remove(sensor),
    {
        let before = self.bits;
        self.bits = before & !SensorSet::bit(sensor);
        proof {
            assert forall|other: VirtualSensorOutput|
                self@.contains(other) == old(self)@.remove(sensor).contains(other) by {
                VirtualSensorOutput::lemma_position_bijective(sensor, other.position());
                VirtualSensorOutput::lemma_position_bijective(other, sensor.position());
                lemma_bit_cleared(before, sensor.position() as u32, other.position() as u32);
            }
            assert(self@ =~= old(self)@.remove(sensor));
        }
    }

    /// The sensors that are members of either set.
    pub fn union(self, other: SensorSet) -> (both: SensorSet)
        ensures
            both@ == self@.union(other@),
    {
        let both = SensorSet { bits: self.bits | other.bits };
        proof {
            assert forall|sensor: VirtualSensorOutput|
                both@.contains(sensor) == self@.union(other@).contains(sensor) by {
                VirtualSensorOutput::lemma_position_bijective(sensor, 0);
                lemma_bit_joined(self.bits, other.bits, sensor.position() as u32);
            }
            assert(both@ =~= self@.union(other@));
        }
        both
    }

    /// The number of members.
    pub fn len(&self) -> (count: u8)
        ensures
            self@.finite(),
            count == self@.len(),
            count <= VIRTUAL_SENSOR_COUNT,
    {
        let mut count: u8 = 0;
        let mut position: u8 = 0;
        proof {
            assert(self.below(0) =~= Set::<VirtualSensorOutput>::empty());
        }
        while position < VIRTUAL_SENSOR_COUNT
            invariant
                position <= VIRTUAL_SENSOR_COUNT,
                count <= position,
                self.below(position as nat).finite(),
                count == self.below(position as nat).len(),
            decreases VIRTUAL_SENSOR_COUNT - position,
        {
            let sensor = VirtualSensorOutput::nth(position);
            proof {
                self.lemma_below_step(position as nat);
            }
            if self.contains(sensor) {
                count = count + 1;
            }
            position = position + 1;
        }
        proof {
            assert forall|sensor: VirtualSensorOutput|
                self@.contains(sensor) == self.below(VIRTUAL_SENSOR_COUNT as nat).contains(
                    sensor,
                ) by {
                VirtualSensorOutput::lemma_position_bijective(sensor, 0);
            }
            assert(self@ =~= self.below(VIRTUAL_SENSOR_COUNT as nat));
        }
        count
    }
}

} // verus!
